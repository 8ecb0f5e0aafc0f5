//! A worker thread that runs the jobs it is handed, one at a time, and the
//! handles that hand it work: a one-off `spawn`, a reusable call
//! (`CallFuture`) and a stream transformer (`TransformFuture`).
//!
//! The jobs travel over a `futures` queue with one shared slot. What a job is
//! (in practice a boxed closure) and how the thread is started are chosen by
//! the caller: `J` is the job type and `H` the handle of the started thread.
pub mod call_future;
pub mod transform_future;

pub use call_future::{CallFuture, CallTask};
pub use transform_future::{close_step, CloseState, TransformFuture, TransformTask, Transformer};

use crate::channel::{
    arc_clone, arc_try_unwrap, queue_channel, queue_clone, queue_close_channel, reply_channel,
    reply_send, send_error_is_full, QueueReceiver, QueueSender,
};
use crate::polled::{Polled, SendFailure};
use futures::channel::mpsc;
use futures::channel::oneshot;
use std::sync::Arc;
use vstd::prelude::*;

verus! {

/// Why a call on the worker thread did not produce a result.
#[derive(Debug, Clone, PartialEq, Eq, Structural)]
pub enum FutureThreadError {
    /// The job queue had no room.
    Full,
    /// The worker's end of the job queue is gone.
    Disconnected,
    /// The job was taken but its result never came back.
    InternallyCancelled,
}

/// The result of a call on the worker thread.
pub type FutureThreadResult<T> = Result<T, FutureThreadError>;

/// The errors that a failed send on the job queue turns into.
pub open spec fn is_send_failure(e: FutureThreadError) -> bool {
    e is Full || e is Disconnected
}

/// The error that a failed send on the job queue turns into.
pub open spec fn failure_error(f: SendFailure) -> FutureThreadError {
    match f {
        SendFailure::Full => FutureThreadError::Full,
        SendFailure::Disconnected => FutureThreadError::Disconnected,
    }
}

/// A send on the job queue with its failure turned into the library's error.
pub open spec fn send_outcome(queued: Result<(), SendFailure>) -> Result<(), FutureThreadError> {
    match queued {
        Ok(()) => Ok(()),
        Err(f) => Err(failure_error(f)),
    }
}

/// A poll of the job queue with a failed send turned into the library's
/// error.
pub open spec fn send_poll_outcome(queued: Polled<Result<(), SendFailure>>) -> Polled<
    Result<(), FutureThreadError>,
> {
    match queued {
        Polled::Ready(q) => Polled::Ready(send_outcome(q)),
        Polled::Pending => Polled::Pending,
    }
}

impl FutureThreadError {
    /// The error for a failed send: `Full` when the queue had no room,
    /// `Disconnected` when the receiving end is gone.
    pub fn from_full(full: bool) -> (e: Self)
        ensures
            e == (if full {
                FutureThreadError::Full
            } else {
                FutureThreadError::Disconnected
            }),
    {
        if full {
            FutureThreadError::Full
        } else {
            FutureThreadError::Disconnected
        }
    }
}

impl From<mpsc::SendError> for FutureThreadError {
    /// A failed send on the job queue: `Full` when the queue had no room,
    /// `Disconnected` otherwise. The error's kind is private to `futures`, so
    /// which of the two comes is not stated.
    fn from(e: mpsc::SendError) -> (r: Self)
        ensures
            is_send_failure(r),
    {
        FutureThreadError::from_full(send_error_is_full(&e))
    }
}

impl vstd::std_specs::convert::FromSpecImpl<mpsc::SendError> for FutureThreadError {
    open spec fn obeys_from_spec() -> bool {
        false
    }

    open spec fn from_spec(v: mpsc::SendError) -> Self {
        arbitrary()
    }
}

/// Turning a send's answer into the library's error keeps what it said:
/// the send succeeded exactly when the queue took the message, and the error
/// names the queue's failure.
pub proof fn lemma_send_outcome_faithful(queued: Result<(), SendFailure>)
    ensures
        send_outcome(queued) is Ok <==> queued is Ok,
        send_outcome(queued) == Err::<(), FutureThreadError>(FutureThreadError::Disconnected)
            <==> queued == Err::<(), SendFailure>(SendFailure::Disconnected),
        send_outcome(queued) == Err::<(), FutureThreadError>(FutureThreadError::Full) <==> queued
            == Err::<(), SendFailure>(SendFailure::Full),
{
}

/// Turning a poll of the job queue into the library's error keeps what it
/// said: pending exactly when the queue was pending, ready and fine exactly
/// when the queue was, and failing exactly as the queue failed.
pub proof fn lemma_send_poll_outcome_faithful(queued: Polled<Result<(), SendFailure>>)
    ensures
        send_poll_outcome(queued) is Pending <==> queued is Pending,
        send_poll_outcome(queued) == Polled::<Result<(), FutureThreadError>>::Ready(Ok(())) <==> queued
            == Polled::<Result<(), SendFailure>>::Ready(Ok(())),
        send_poll_outcome(queued) == Polled::<Result<(), FutureThreadError>>::Ready(
            Err(FutureThreadError::Disconnected),
        ) <==> queued == Polled::<Result<(), SendFailure>>::Ready(Err(SendFailure::Disconnected)),
        send_poll_outcome(queued) == Polled::<Result<(), FutureThreadError>>::Ready(
            Err(FutureThreadError::Full),
        ) <==> queued == Polled::<Result<(), SendFailure>>::Ready(Err(SendFailure::Full)),
{
    match queued {
        Polled::Ready(Ok(u)) => {
            assert(u == ());
        },
        Polled::Ready(Err(f)) => lemma_send_outcome_faithful(Err(f)),
        Polled::Pending => {},
    }
}

/// A failed send on the job queue turned into the library's error.
pub fn map_send_result(queued: Result<(), SendFailure>) -> (outcome: Result<(), FutureThreadError>)
    ensures
        outcome == send_outcome(queued),
{
    match queued {
        Ok(()) => Ok(()),
        Err(SendFailure::Full) => Err(FutureThreadError::Full),
        Err(SendFailure::Disconnected) => Err(FutureThreadError::Disconnected),
    }
}

/// A poll of the job queue with a failed send turned into the library's
/// error.
pub fn map_send_poll(queued: Polled<Result<(), SendFailure>>) -> (outcome: Polled<
    Result<(), FutureThreadError>,
>)
    ensures
        outcome == send_poll_outcome(queued),
{
    match queued {
        Polled::Ready(q) => Polled::Ready(map_send_result(q)),
        Polled::Pending => Polled::Pending,
    }
}

/// The result of a job once its reply channel has resolved: the value when
/// one came back, `InternallyCancelled` when the job dropped its reply end
/// without answering.
pub fn reply_result<R>(received: Option<R>) -> (r: FutureThreadResult<R>)
    ensures
        match received {
            Some(v) => r == Ok::<R, FutureThreadError>(v),
            None => r == Err::<R, FutureThreadError>(FutureThreadError::InternallyCancelled),
        },
{
    match received {
        Some(v) => Ok(v),
        None => Err(FutureThreadError::InternallyCancelled),
    }
}

/// A one-off job: a closure and the channel that carries its result back.
#[verifier::reject_recursive_types(R)]
pub struct SpawnTask<A, R> {
    closure: A,
    reply: oneshot::Sender<R>,
}

impl<A: FnOnce() -> R, R> SpawnTask<A, R> {
    /// The closure that the job runs.
    pub closed spec fn closure(&self) -> A {
        self.closure
    }

    /// A job for `closure`, and the receiving end of its reply.
    pub fn new(closure: A) -> (made: (Self, oneshot::Receiver<R>))
        ensures
            made.0.closure() == closure,
    {
        let (reply, receiver) = reply_channel();
        (SpawnTask { closure, reply }, receiver)
    }

    /// Runs the closure and sends its result back. When the receiving end is
    /// already gone, the result comes back here instead.
    pub fn run(self) -> (undelivered: Option<R>)
        requires
            self.closure().requires(()),
        ensures
            exists|v: R| #[trigger] self.closure().ensures((), v) && (undelivered matches Some(u)
                ==> u == v),
    {
        let closure = self.closure;
        let value = closure();
        match reply_send(self.reply, value) {
            Ok(()) => None,
            Err(back) => Some(back),
        }
    }
}

/// The handle on a worker thread that runs jobs of type `J`; `H` is the
/// handle of the started thread. Clones share the thread, and the last one to
/// be released closes the queue and hands the thread back to be joined.
#[verifier::reject_recursive_types(J)]
pub struct FutureThread<J, H> {
    thread: Option<Arc<H>>,
    sender: QueueSender<J>,
}

impl<J, H> FutureThread<J, H> {
    /// The started thread, until the handle is released.
    pub closed spec fn handle(&self) -> Option<H> {
        match self.thread {
            Some(a) => Some(*a),
            None => None,
        }
    }

    /// The sending end of the job queue.
    pub closed spec fn queue(&self) -> QueueSender<J> {
        self.sender
    }

    /// Creates the job queue, with one shared slot, and starts the worker on
    /// its receiving end with `spawn`.
    pub fn new<SP: FnOnce(QueueReceiver<J>) -> H>(spawn: SP) -> (t: Self)
        requires
            forall|r: QueueReceiver<J>| #[trigger] spawn.requires((r,)),
        ensures
            exists|r: QueueReceiver<J>, h: H| #[trigger] spawn.ensures((r,), h) && t.handle() == Some(h)
                && t.queue().fresh_end_of(r.id()),
    {
        let (sender, receiver) = queue_channel(1);
        let ghost worker_end = receiver;
        let thread = spawn(receiver);
        assert(spawn.ensures((worker_end,), thread));
        FutureThread { thread: Some(Arc::new(thread)), sender }
    }

    /// Another sending end of the job queue.
    pub fn job_sender(&self) -> (s: QueueSender<J>)
        ensures
            s.fresh_clone_of(&self.queue()),
    {
        queue_clone(&self.sender)
    }

    /// Gives up this handle on the thread. When it was the last one, the job
    /// queue is closed, so that the worker stops after the jobs already
    /// queued, and the thread comes back to be joined.
    pub fn release(&mut self) -> (joinable: Option<H>)
        requires
            old(self).handle() is Some,
        ensures
            final(self).handle() is None,
            joinable matches Some(h) ==> old(self).handle() == Some(h) && final(self).queue().shut()
                == (old(self).queue().shut() || old(self).queue().linked()),
            joinable is None ==> final(self).queue() == old(self).queue(),
    {
        let thread = self.thread.take();
        match thread {
            Some(shared) => self.release_with(arc_try_unwrap(shared)),
            None => None,
        }
    }

    /// The rest of `release`, once `Arc::try_unwrap` has answered whether
    /// this handle held the last share: with the thread (`Ok`), the job queue
    /// is closed and the thread is handed back; with another share still
    /// alive (`Err`), this share is dropped and nothing is handed back.
    pub fn release_with(&mut self, unwrapped: Result<H, Arc<H>>) -> (joinable: Option<H>)
        ensures
            unwrapped matches Ok(h) ==> joinable == Some(h) && final(self).queue().shut() == (old(
                self,
            ).queue().shut() || old(self).queue().linked()),
            unwrapped is Err ==> joinable is None && final(self).queue() == old(self).queue(),
            final(self).handle() == old(self).handle(),
            final(self).queue().id() == old(self).queue().id(),
            final(self).queue().queued() == old(self).queue().queued(),
            final(self).queue().linked() == old(self).queue().linked(),
    {
        match unwrapped {
            Ok(h) => {
                queue_close_channel(&mut self.sender);
                Some(h)
            },
            Err(_) => None,
        }
    }

    /// Whether this handle still holds its share of the thread.
    pub fn holds_thread(&self) -> (b: bool)
        ensures
            b == self.handle() is Some,
    {
        self.thread.is_some()
    }
}

impl<J, H> Clone for FutureThread<J, H> {
    /// Another handle on the same thread and job queue.
    fn clone(&self) -> (c: Self)
        ensures
            c.handle() == self.handle(),
            c.queue().fresh_clone_of(&self.queue()),
    {
        let thread = match &self.thread {
            Some(shared) => Some(arc_clone(shared)),
            None => None,
        };
        FutureThread { thread, sender: queue_clone(&self.sender) }
    }
}

} // verus!
