//! A sink served by a worker thread: every item sent in is handed, in order,
//! to a closure on the thread together with the thread's own state.
use crate::channel::{
    arc_clone, arc_try_unwrap, queue_channel, queue_clone, queue_disconnect, queue_poll_close,
    queue_poll_flush, queue_poll_ready, queue_start_send, send_error_is_full, QueueReceiver,
    QueueSender,
};
use crate::polled::{Polled, SendFailure};
use futures::channel::mpsc;
use std::sync::Arc;
use vstd::prelude::*;

verus! {

/// Why an item could not be sent to the worker thread.
#[derive(Debug, Clone)]
pub enum SinkThreadError {
    /// The queue had no room.
    Full,
    /// The worker's end of the queue is gone.
    Disconnected,
}

impl SinkThreadError {
    /// The error for a failed send: `Full` when the queue had no room,
    /// `Disconnected` when the receiving end is gone.
    pub fn from_full(full: bool) -> (e: Self)
        ensures
            e == (if full {
                SinkThreadError::Full
            } else {
                SinkThreadError::Disconnected
            }),
    {
        if full {
            SinkThreadError::Full
        } else {
            SinkThreadError::Disconnected
        }
    }
}

impl From<mpsc::SendError> for SinkThreadError {
    /// A failed send on the queue: `Full` when the queue had no room,
    /// `Disconnected` otherwise. The error's kind is private to `futures`, so
    /// which of the two comes is not stated.
    fn from(e: mpsc::SendError) -> (r: Self) {
        SinkThreadError::from_full(send_error_is_full(&e))
    }
}

impl vstd::std_specs::convert::FromSpecImpl<mpsc::SendError> for SinkThreadError {
    open spec fn obeys_from_spec() -> bool {
        false
    }

    open spec fn from_spec(v: mpsc::SendError) -> Self {
        arbitrary()
    }
}

/// The error that a failed send on the queue turns into.
pub open spec fn failure_error(f: SendFailure) -> SinkThreadError {
    match f {
        SendFailure::Full => SinkThreadError::Full,
        SendFailure::Disconnected => SinkThreadError::Disconnected,
    }
}

/// A send on the queue with its failure turned into the sink's error.
pub open spec fn sink_outcome(queued: Result<(), SendFailure>) -> Result<(), SinkThreadError> {
    match queued {
        Ok(()) => Ok(()),
        Err(f) => Err(failure_error(f)),
    }
}

/// A poll of the queue with a failed send turned into the sink's error.
pub open spec fn sink_poll_outcome(queued: Polled<Result<(), SendFailure>>) -> Polled<
    Result<(), SinkThreadError>,
> {
    match queued {
        Polled::Ready(q) => Polled::Ready(sink_outcome(q)),
        Polled::Pending => Polled::Pending,
    }
}

/// Turning a send's answer into the sink's error keeps what it said: the
/// send succeeded exactly when the queue took the item, and the error names
/// the queue's failure.
pub proof fn lemma_sink_outcome_faithful(queued: Result<(), SendFailure>)
    ensures
        sink_outcome(queued) is Ok <==> queued is Ok,
        sink_outcome(queued) matches Err(SinkThreadError::Disconnected) <==> queued == Err::<
            (),
            SendFailure,
        >(SendFailure::Disconnected),
        sink_outcome(queued) matches Err(SinkThreadError::Full) <==> queued == Err::<(), SendFailure>(
            SendFailure::Full,
        ),
{
}

/// Turning a poll of the queue into the sink's error keeps what it said:
/// pending exactly when the queue was pending, ready and fine exactly when the
/// queue was, and failing exactly as the queue failed.
pub proof fn lemma_sink_poll_outcome_faithful(queued: Polled<Result<(), SendFailure>>)
    ensures
        sink_poll_outcome(queued) is Pending <==> queued is Pending,
        sink_poll_outcome(queued) matches Polled::Ready(Ok(_)) <==> queued matches Polled::Ready(Ok(_)),
        sink_poll_outcome(queued) matches Polled::Ready(Err(_)) <==> queued matches Polled::Ready(
            Err(_),
        ),
        sink_poll_outcome(queued) matches Polled::Ready(Err(SinkThreadError::Disconnected))
            <==> queued == Polled::<Result<(), SendFailure>>::Ready(Err(SendFailure::Disconnected)),
        sink_poll_outcome(queued) matches Polled::Ready(Err(SinkThreadError::Full)) <==> queued
            == Polled::<Result<(), SendFailure>>::Ready(Err(SendFailure::Full)),
{
}

/// A send on the queue with a failure turned into the sink's error.
pub fn map_sink_result(queued: Result<(), SendFailure>) -> (outcome: Result<(), SinkThreadError>)
    ensures
        outcome == sink_outcome(queued),
{
    match queued {
        Ok(()) => Ok(()),
        Err(SendFailure::Full) => Err(SinkThreadError::Full),
        Err(SendFailure::Disconnected) => Err(SinkThreadError::Disconnected),
    }
}

/// A poll of the queue with a failed send turned into the sink's error.
pub fn map_sink_poll(queued: Polled<Result<(), SendFailure>>) -> (outcome: Polled<
    Result<(), SinkThreadError>,
>)
    ensures
        outcome == sink_poll_outcome(queued),
{
    match queued {
        Polled::Ready(q) => Polled::Ready(map_sink_result(q)),
        Polled::Pending => Polled::Pending,
    }
}

/// The sending side of a worker thread that takes items of type `S`; `H` is
/// the handle of the started thread. Clones share the thread, and the last one
/// to be released disconnects from the queue and hands the thread back to be
/// joined.
#[verifier::reject_recursive_types(S)]
pub struct SinkThread<S, H> {
    thread: Option<Arc<H>>,
    sender: QueueSender<S>,
}

impl<S, H> SinkThread<S, H> {
    /// The started thread, while this handle holds it.
    pub closed spec fn handle(&self) -> Option<H> {
        match self.thread {
            Some(a) => Some(*a),
            None => None,
        }
    }

    /// This handle's sending end of the queue.
    pub closed spec fn queue(&self) -> QueueSender<S> {
        self.sender
    }

    /// `self` is `other` with at most its sending end changed, and that end
    /// still on the same queue, with the same record of items, linked and
    /// closed alike.
    pub open spec fn unchanged_from(self, other: Self) -> bool {
        &&& self.handle() == other.handle()
        &&& self.queue().same_state(&other.queue())
    }

    /// Creates the queue, with one shared slot, and starts the worker with
    /// `spawn` on its receiving end, `init` (which makes the worker's state)
    /// and `closure` (which takes each item). The handle's end and the
    /// worker's end belong to the one queue.
    pub fn new<I, F, SP: FnOnce(QueueReceiver<S>, I, F) -> H>(init: I, closure: F, spawn: SP) -> (t: Self)
        requires
            forall|r: QueueReceiver<S>| #[trigger] spawn.requires((r, init, closure)),
        ensures
            exists|r: QueueReceiver<S>, h: H| #[trigger] spawn.ensures((r, init, closure), h)
                && t.handle() == Some(h) && t.queue().fresh_end_of(r.id()),
    {
        let (sender, receiver) = queue_channel(1);
        let ghost worker_end = receiver;
        let thread = spawn(receiver, init, closure);
        assert(spawn.ensures((worker_end, init, closure), thread));
        SinkThread { thread: Some(Arc::new(thread)), sender }
    }

    /// Whether the queue has room for an item; it fails only when the
    /// worker's end of the queue is gone, and always so once this handle is
    /// disconnected or the queue closed.
    pub fn poll_ready(&mut self, cx: &mut core::task::Context) -> (r: Polled<Result<(), SinkThreadError>>)
        ensures
            r matches Polled::Ready(Err(e)) ==> e == SinkThreadError::Disconnected,
            !old(self).queue().linked() || old(self).queue().shut() ==> r matches Polled::Ready(
                Err(SinkThreadError::Disconnected),
            ),
            r == sink_poll_outcome(final(self).queue().ready_answer()),
            r is Pending <==> final(self).queue().ready_answer() is Pending,
            r matches Polled::Ready(Err(_)) <==> final(self).queue().ready_answer() matches Polled::Ready(
                Err(_),
            ),
            final(self).unchanged_from(*old(self)),
    {
        let r = map_sink_poll(self.sender.poll_ready(cx));
        proof {
            lemma_sink_poll_outcome_faithful(self.sender.ready_answer());
        }
        r
    }

    /// Queues `item` for the worker: an accepted item is appended to the
    /// record of the items queued through this handle, a refused one is not.
    /// A disconnected handle is refused as `Disconnected`, and a closed queue
    /// refuses every item.
    pub fn start_send(&mut self, item: S) -> (r: Result<(), SinkThreadError>)
        ensures
            r is Ok ==> final(self).queue().queued() == old(self).queue().queued().push(item),
            r is Err ==> final(self).queue().queued() == old(self).queue().queued(),
            !old(self).queue().linked() ==> r matches Err(SinkThreadError::Disconnected),
            old(self).queue().shut() ==> r is Err,
            r == sink_outcome(final(self).queue().send_answer()),
            r is Ok <==> final(self).queue().send_answer() is Ok,
            final(self).handle() == old(self).handle(),
            final(self).queue().id() == old(self).queue().id(),
            final(self).queue().linked() == old(self).queue().linked(),
            final(self).queue().shut() == old(self).queue().shut(),
    {
        map_sink_result(self.sender.start_send(item))
    }

    /// Whether the items queued so far have been taken by the worker; a gone
    /// worker counts as flushed, so it never fails.
    pub fn poll_flush(&mut self, cx: &mut core::task::Context) -> (r: Polled<Result<(), SinkThreadError>>)
        ensures
            r is Pending || r matches Polled::Ready(Ok(())),
            r == sink_poll_outcome(final(self).queue().flush_answer()),
            r is Pending <==> final(self).queue().flush_answer() is Pending,
            final(self).unchanged_from(*old(self)),
    {
        map_sink_poll(self.sender.poll_flush(cx))
    }

    /// Disconnects this handle from the queue, so that its later sends are
    /// refused as `Disconnected`; the queue itself and the other handles are
    /// left as they are. Always ready at once.
    pub fn poll_close(&mut self, cx: &mut core::task::Context) -> (r: Polled<Result<(), SinkThreadError>>)
        ensures
            r matches Polled::Ready(Ok(())),
            !final(self).queue().linked(),
            final(self).handle() == old(self).handle(),
            final(self).queue().id() == old(self).queue().id(),
            final(self).queue().queued() == old(self).queue().queued(),
            final(self).queue().shut() == old(self).queue().shut(),
    {
        map_sink_poll(self.sender.poll_close(cx))
    }

    /// Gives up this handle on the thread. When it was the last one, this
    /// handle disconnects from the queue, so that the worker stops after the
    /// items already queued, and the thread comes back to be joined; otherwise
    /// the handle keeps its share of the thread.
    pub fn release(&mut self) -> (joinable: Option<H>)
        ensures
            joinable matches Some(h) ==> old(self).handle() == Some(h) && final(self).handle() is None
                && !final(self).queue().linked(),
            joinable is None ==> final(self).handle() == old(self).handle() && final(self).queue()
                == old(self).queue(),
            old(self).handle() is None ==> joinable is None,
            final(self).queue().id() == old(self).queue().id(),
            final(self).queue().queued() == old(self).queue().queued(),
            final(self).queue().shut() == old(self).queue().shut(),
    {
        let thread = self.thread.take();
        match thread {
            Some(shared) => self.release_with(arc_try_unwrap(shared)),
            None => None,
        }
    }

    /// The rest of `release`, once `Arc::try_unwrap` has answered whether
    /// this handle held the last share: with the thread (`Ok`), this handle
    /// disconnects from the queue and the thread is handed back; with another
    /// share still alive (`Err`), the handle holds that share again.
    pub fn release_with(&mut self, unwrapped: Result<H, Arc<H>>) -> (joinable: Option<H>)
        ensures
            unwrapped matches Ok(h) ==> joinable == Some(h) && final(self).handle() == old(self).handle()
                && !final(self).queue().linked(),
            unwrapped matches Err(a) ==> joinable is None && final(self).handle() == Some(*a)
                && final(self).queue() == old(self).queue(),
            final(self).queue().id() == old(self).queue().id(),
            final(self).queue().queued() == old(self).queue().queued(),
            final(self).queue().shut() == old(self).queue().shut(),
    {
        match unwrapped {
            Ok(h) => {
                queue_disconnect(&mut self.sender);
                Some(h)
            },
            Err(shared) => {
                self.thread = Some(shared);
                None
            },
        }
    }

    /// Whether this handle holds its share of the thread.
    pub fn holds_thread(&self) -> (b: bool)
        ensures
            b == self.handle() is Some,
    {
        self.thread.is_some()
    }
}

impl<S, H> Clone for SinkThread<S, H> {
    /// Another handle on the same thread and queue.
    fn clone(&self) -> (c: Self)
        ensures
            c.handle() == self.handle(),
            c.queue().fresh_clone_of(&self.queue()),
    {
        let thread = match &self.thread {
            Some(shared) => Some(arc_clone(shared)),
            None => None,
        };
        SinkThread { thread, sender: queue_clone(&self.sender) }
    }
}

/// One step of the worker: hands the received item, if any, to the closure
/// with the worker's state. Returns whether the worker goes on, which it does
/// exactly while items arrive.
pub fn deliver<P, S, F: FnMut(&mut P, S)>(state: &mut P, closure: &mut F, received: Option<S>) -> (go_on: bool)
    requires
        forall|p: &mut P, s: S| #[trigger] call_requires(*old(closure), (p, s)),
    ensures
        go_on == received is Some,
        received is None ==> *final(state) == *old(state),
        received matches Some(item) ==> exists|p: &mut P| #[trigger] call_ensures(
            *old(closure),
            (p, item),
            (),
        ) && *p == *old(state) && *final(p) == *final(state),
{
    match received {
        Some(item) => {
            closure(state, item);
            true
        },
        None => false,
    }
}

} // verus!
