//! A stream produced by a worker thread: whenever the queue has room the
//! thread runs a busy task that makes the next item, and otherwise an idle
//! task, both on the thread's own state, until either task gives up or the
//! stream is dropped.
use crate::channel::{queue_channel, queue_poll_next, QueueReceiver, QueueSender};
use crate::polled::Polled;
use futures::channel::mpsc;
use vstd::prelude::*;

verus! {

#[verifier::reject_recursive_types(T)]
struct Inner<T, H> {
    thread: H,
    receiver: QueueReceiver<T>,
}

/// The receiving side of a worker thread that produces items of type `T`;
/// `H` is the handle of the started thread.
#[verifier::reject_recursive_types(T)]
pub struct StreamThread<T, H>(Option<Inner<T, H>>);

impl<T, H> StreamThread<T, H> {
    /// The started thread, until the stream is stopped.
    pub closed spec fn handle(&self) -> Option<H> {
        match self.0 {
            Some(inner) => Some(inner.thread),
            None => None,
        }
    }

    /// Which queue the stream reads from, until it is stopped.
    pub closed spec fn queue_id(&self) -> Option<int> {
        match self.0 {
            Some(inner) => Some(inner.receiver.id()),
            None => None,
        }
    }

    /// What the queue answered the stream's last poll, while the stream holds
    /// its thread.
    pub closed spec fn queue_answer(&self) -> Polled<Option<T>> {
        match self.0 {
            Some(inner) => inner.receiver.next_answer(),
            None => Polled::Ready(None),
        }
    }

    /// Creates the queue, with one shared slot, and starts the worker with
    /// `spawn` on its sending end, the `initial` state and the two tasks. The
    /// worker's end and the stream's end belong to the one queue.
    pub fn new<F1, F2, S, SP: FnOnce(QueueSender<T>, S, F1, F2) -> H>(
        initial: S,
        busy_task: F1,
        idle_task: F2,
        spawn: SP,
    ) -> (t: Self)
        requires
            forall|s: QueueSender<T>| #[trigger] spawn.requires((s, initial, busy_task, idle_task)),
        ensures
            exists|s: QueueSender<T>, h: H| #[trigger] spawn.ensures(
                (s, initial, busy_task, idle_task),
                h,
            ) && t.handle() == Some(h) && t.queue_id() == Some(s.id()) && s.fresh_end_of(s.id()),
    {
        let (sender, receiver) = queue_channel(1);
        let ghost worker_end = sender;
        let thread = spawn(sender, initial, busy_task, idle_task);
        assert(spawn.ensures((worker_end, initial, busy_task, idle_task), thread));
        StreamThread(Some(Inner { thread, receiver }))
    }

    /// The next item, `None` once the worker has stopped and the queue is
    /// empty; a stopped stream ends at once.
    pub fn poll_next(&mut self, cx: &mut core::task::Context) -> (r: Polled<Option<T>>)
        ensures
            old(self).handle() is None ==> r == Polled::<Option<T>>::Ready(None),
            old(self).handle() is Some ==> r == final(self).queue_answer(),
            final(self).handle() == old(self).handle(),
            final(self).queue_id() == old(self).queue_id(),
    {
        match &mut self.0 {
            Some(inner) => inner.receiver.poll_next(cx),
            None => Polled::Ready(None),
        }
    }

    /// Whether the stream still holds the started thread.
    pub fn holds_thread(&self) -> (b: bool)
        ensures
            b == self.handle() is Some,
    {
        self.0.is_some()
    }

    /// Stops the stream: the receiving end is dropped, so that the worker
    /// stops the next time it finds the queue ready, and the thread comes back
    /// to be joined.
    pub fn release(&mut self) -> (joinable: H)
        requires
            old(self).handle() is Some,
        ensures
            old(self).handle() == Some(joinable),
            final(self).handle() is None,
            final(self).queue_id() is None,
    {
        let inner = self.0.take().unwrap();
        let Inner { thread, receiver: _ } = inner;
        thread
    }
}

/// What the worker does after one step.
pub enum StreamStep<R> {
    /// Waits until this item is queued, then goes on; stops if it cannot be.
    Send(R),
    /// Goes on.
    Continue,
    /// Stops.
    Stop,
}

/// What the worker does after the busy task's result `out`: queue the item
/// it made, or stop when it gave up.
pub open spec fn after_busy<R>(out: Option<R>) -> StreamStep<R> {
    match out {
        Some(v) => StreamStep::Send(v),
        None => StreamStep::Stop,
    }
}

/// What the worker does after the idle task's result `out`: go on, or stop
/// when it gave up.
pub open spec fn after_idle<R>(out: Option<()>) -> StreamStep<R> {
    match out {
        Some(()) => StreamStep::Continue,
        None => StreamStep::Stop,
    }
}

/// One step of the worker, given whether the queue was ready: when ready,
/// the busy task makes an item to queue; when not, the idle task runs; when
/// the receiving end is gone, nothing runs and the worker stops. A task that
/// gives up (returns `None`) stops the worker.
pub fn work_step<F1, F2, S, R>(
    state: &mut S,
    busy_task: &mut F1,
    idle_task: &mut F2,
    readiness: Polled<Result<(), mpsc::SendError>>,
) -> (step: StreamStep<R>) where
    F1: FnMut(&mut S) -> Option<R>,
    F2: FnMut(&mut S) -> Option<()>,
    requires
        forall|s: &mut S| #[trigger] call_requires(*old(busy_task), (s,)),
        forall|s: &mut S| #[trigger] call_requires(*old(idle_task), (s,)),
    ensures
        readiness matches Polled::Ready(Err(_)) ==> step is Stop && *final(state) == *old(state),
        readiness is Pending ==> exists|s: &mut S, out: Option<()>|
            #[trigger] call_ensures(*old(idle_task), (s,), out) && *s == *old(state) && *final(s)
                == *final(state) && step == after_idle::<R>(out),
        readiness matches Polled::Ready(Ok(())) ==> exists|s: &mut S, out: Option<R>|
            #[trigger] call_ensures(*old(busy_task), (s,), out) && *s == *old(state) && *final(s)
                == *final(state) && step == after_busy(out),
{
    match readiness {
        Polled::Ready(Ok(())) => match busy_task(state) {
            Some(item) => StreamStep::Send(item),
            None => StreamStep::Stop,
        },
        Polled::Ready(Err(_)) => StreamStep::Stop,
        Polled::Pending => match idle_task(state) {
            Some(()) => StreamStep::Continue,
            None => StreamStep::Stop,
        },
    }
}

} // verus!
