use vstd::prelude::*;

verus! {

/// The outcome of polling an asynchronous operation once: either it has
/// finished with a value, or it has not finished yet and the task will be
/// woken when it can make progress.
pub enum Polled<T> {
    Ready(T),
    Pending,
}

/// Why a message could not be queued.
#[derive(Debug, Clone, Copy, PartialEq, Eq, Structural)]
pub enum SendFailure {
    /// The queue had no room.
    Full,
    /// The receiving end is gone.
    Disconnected,
}

} // verus!
