//! A reusable call on the worker thread: every call runs a clone of the same
//! closure on the thread and carries its result back.
use super::FutureThread;
use crate::channel::{reply_channel, reply_send, QueueSender};
use futures::channel::oneshot;
use std::marker::PhantomData;
use vstd::prelude::*;

verus! {

/// One call: a clone of the call's closure, the parameter it is run on, and
/// the channel that carries the result back.
#[verifier::reject_recursive_types(R)]
pub struct CallTask<A, P, R> {
    closure: A,
    parameter: P,
    reply: oneshot::Sender<R>,
}

impl<A: FnOnce(P) -> R, P, R> CallTask<A, P, R> {
    /// The closure that the call runs.
    pub closed spec fn closure(&self) -> A {
        self.closure
    }

    /// The parameter that the call runs the closure on.
    pub closed spec fn parameter(&self) -> P {
        self.parameter
    }

    /// Runs the closure on the parameter and sends the result back. When the
    /// receiving end is already gone, the result comes back here instead.
    pub fn run(self) -> (undelivered: Option<R>)
        requires
            self.closure().requires((self.parameter(),)),
        ensures
            exists|v: R| #[trigger] self.closure().ensures((self.parameter(),), v) && (
            undelivered matches Some(u) ==> u == v),
    {
        let closure = self.closure;
        let value = closure(self.parameter);
        match reply_send(self.reply, value) {
            Ok(()) => None,
            Err(back) => Some(back),
        }
    }
}

/// A closure bound to a worker thread: each call runs a clone of it there.
#[verifier::reject_recursive_types(J)]
#[verifier::reject_recursive_types(P)]
#[verifier::reject_recursive_types(R)]
pub struct CallFuture<A, P, R, J, H> {
    thread: FutureThread<J, H>,
    closure: A,
    _phantom: PhantomData<(P, R)>,
}

impl<A: FnMut(P) -> R + Clone, P, R, J, H> CallFuture<A, P, R, J, H> {
    /// The closure that each call runs a clone of.
    pub closed spec fn closure(&self) -> A {
        self.closure
    }

    /// The worker thread that runs the calls.
    pub closed spec fn thread(&self) -> FutureThread<J, H> {
        self.thread
    }

    /// Binds `closure` to `thread`.
    pub fn new(thread: FutureThread<J, H>, closure: A) -> (c: Self)
        ensures
            c.thread() == thread,
            c.closure() == closure,
    {
        CallFuture { thread, closure, _phantom: PhantomData }
    }

    /// The job for a call on `parameter`, and the receiving end of its
    /// result.
    pub fn call_task(&self, parameter: P) -> (made: (CallTask<A, P, R>, oneshot::Receiver<R>))
        ensures
            made.0.parameter() == parameter,
            cloned::<A>(self.closure(), made.0.closure()),
    {
        let (reply, receiver) = reply_channel();
        let closure = self.closure.clone();
        (CallTask { closure, parameter, reply }, receiver)
    }

    /// A sending end of the worker's job queue, to send a call's job on.
    pub fn job_sender(&self) -> (s: QueueSender<J>)
        ensures
            s.fresh_clone_of(&self.thread().queue()),
    {
        self.thread.job_sender()
    }

    /// Whether this call's handle on the worker thread still holds
    /// its share of the thread.
    pub fn holds_thread(&self) -> (b: bool)
        ensures
            b == self.thread().handle() is Some,
    {
        self.thread.holds_thread()
    }

    /// Gives up this call's handle on the worker thread, as
    /// `FutureThread::release` does.
    pub fn release(&mut self) -> (joinable: Option<H>)
        requires
            old(self).thread().handle() is Some,
        ensures
            final(self).thread().handle() is None,
            joinable matches Some(h) ==> old(self).thread().handle() == Some(h)
                && final(self).thread().queue().shut() == (old(self).thread().queue().shut() || old(
                self,
            ).thread().queue().linked()),
            joinable is None ==> final(self).thread().queue() == old(self).thread().queue(),
            final(self).closure() == old(self).closure(),
    {
        self.thread.release()
    }
}

impl<J, H> FutureThread<J, H> {
    /// Binds `closure` to this thread: each call on the result runs a clone
    /// of it on the thread.
    pub fn into_call_future<A: FnMut(P) -> R + Clone, P, R>(self, closure: A) -> (c: CallFuture<
        A,
        P,
        R,
        J,
        H,
    >)
        ensures
            c.thread() == self,
            c.closure() == closure,
    {
        CallFuture::new(self, closure)
    }
}

} // verus!
