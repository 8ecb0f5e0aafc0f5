//! A worker thread bound to one closure: every call sends the parameter to
//! the thread, which runs the closure on it and sends the result back.
use crate::channel::{
    blocking_channel, blocking_recv, blocking_send, reply_channel, ReplyReceiver, RequestReceiver,
    RequestSender,
};
use crate::polled::Polled;
use futures::channel::oneshot;
use vstd::prelude::*;

verus! {

/// What travels to the worker: the parameter and the channel for the
/// result.
pub type Request<S, R> = (S, oneshot::Sender<R>);

#[verifier::reject_recursive_types(S)]
#[verifier::reject_recursive_types(R)]
struct Inner<S, R, H> {
    thread: H,
    sender: RequestSender<Request<S, R>>,
}

/// The calling side of a worker thread that runs a closure from `S` to `R`;
/// `H` is the handle of the started thread.
#[verifier::reject_recursive_types(S)]
#[verifier::reject_recursive_types(R)]
pub struct FutureThread<S, R, H>(Option<Inner<S, R, H>>);

impl<S, R, H> FutureThread<S, R, H> {
    /// The started thread, until the handle is stopped.
    pub closed spec fn handle(&self) -> Option<H> {
        match self.0 {
            Some(inner) => Some(inner.thread),
            None => None,
        }
    }

    /// Which request channel the handle sends on, while it holds one.
    pub closed spec fn channel_id(&self) -> int {
        match self.0 {
            Some(inner) => inner.sender.id(),
            None => 0,
        }
    }

    /// Creates the request channel, which holds one request at a time, and
    /// starts the worker with `spawn` on its receiving end and `closure`.
    pub fn new<F, SP: FnOnce(RequestReceiver<Request<S, R>>, F) -> H>(closure: F, spawn: SP) -> (t: Self)
        requires
            forall|r: RequestReceiver<Request<S, R>>| #[trigger] spawn.requires((r, closure)),
        ensures
            exists|r: RequestReceiver<Request<S, R>>, h: H| #[trigger] spawn.ensures((r, closure), h)
                && t.handle() == Some(h) && r.id() == t.channel_id(),
    {
        let (sender, receiver) = blocking_channel(1);
        let ghost worker_end = receiver;
        let thread = spawn(receiver, closure);
        assert(spawn.ensures((worker_end, closure), thread));
        FutureThread(Some(Inner { thread, sender }))
    }

    /// Sends `parameter` to the worker, waiting while a request is still
    /// queued, and returns the future of the result; when the worker is gone,
    /// the future is the send error.
    pub fn call(&self, parameter: S) -> (f: FutureThreadFuture<R>)
        requires
            self.handle() is Some,
    {
        let (remote_sender, receiver) = reply_channel();
        match &self.0 {
            Some(inner) => FutureThreadFuture::new(&inner.sender, (parameter, remote_sender), receiver),
            None => FutureThreadFuture::SendError,
        }
    }

    /// Whether the handle still holds the started thread.
    pub fn holds_thread(&self) -> (b: bool)
        ensures
            b == self.handle() is Some,
    {
        self.0.is_some()
    }

    /// Stops the worker: the request channel is dropped, so that the worker
    /// stops after the requests already queued, and the thread comes back to
    /// be joined.
    pub fn release(&mut self) -> (joinable: H)
        requires
            old(self).handle() is Some,
        ensures
            old(self).handle() == Some(joinable),
            final(self).handle() is None,
    {
        let inner = self.0.take().unwrap();
        let Inner { thread, sender: _ } = inner;
        thread
    }
}

/// The future of one call's result.
#[verifier::reject_recursive_types(T)]
pub enum FutureThreadFuture<T> {
    /// The request could not be sent: the worker is gone.
    SendError,
    /// The request was sent; the result comes on this channel.
    Receiving(ReplyReceiver<T>),
}

impl<T> FutureThreadFuture<T> {
    /// The future for a request whose send had the outcome `sent`: it waits
    /// on `receiver` when the request was queued, and is the send error when
    /// it came back because the worker is gone.
    pub fn after_send<S>(sent: Result<(), (S, oneshot::Sender<T>)>, receiver: oneshot::Receiver<T>) -> (f: Self)
        ensures
            sent is Ok ==> (f matches FutureThreadFuture::Receiving(w) && w.inner() == receiver
                && w.answer() is Pending),
            sent is Err ==> f is SendError,
    {
        match sent {
            Ok(()) => FutureThreadFuture::Receiving(ReplyReceiver::new(receiver)),
            Err(_) => FutureThreadFuture::SendError,
        }
    }

    /// Sends `value` on `sender`, waiting while the channel is full; the
    /// future waits on `receiver` when the send succeeded and is the send
    /// error once the worker is gone.
    pub fn new<S>(
        sender: &RequestSender<(S, oneshot::Sender<T>)>,
        value: (S, oneshot::Sender<T>),
        receiver: oneshot::Receiver<T>,
    ) -> (f: Self)
        ensures
            f matches FutureThreadFuture::Receiving(r) ==> r.inner() == receiver && r.answer() is Pending,
    {
        FutureThreadFuture::after_send(blocking_send(sender, value), receiver)
    }

    /// Polls for the result: `None` when the request could not be sent or the
    /// worker dropped it without answering. A future whose request could not
    /// be sent is ready with `None` on every poll and stays as it is; a
    /// waiting future keeps its receiver and answers exactly what its reply
    /// channel answered this poll, which its record then holds.
    pub fn poll(&mut self, cx: &mut core::task::Context) -> (r: Polled<Option<T>>)
        ensures
            *old(self) is SendError ==> r == Polled::<Option<T>>::Ready(None),
            *old(self) is SendError ==> *final(self) == *old(self),
            *old(self) matches FutureThreadFuture::Receiving(w) ==> (*final(self) matches FutureThreadFuture::Receiving(
                w2,
            ) && w2.inner() == w.inner() && r == w2.answer()),
    {
        match self {
            FutureThreadFuture::SendError => Polled::Ready(None),
            FutureThreadFuture::Receiving(r) => r.poll(cx),
        }
    }
}

/// One step of the worker, given what the request channel gave: runs the
/// closure on the parameter, and returns the result with the channel to send
/// it back on; `None`, to stop, once the channel is closed and empty.
pub fn serve<S, R, F: FnMut(S) -> R>(closure: &mut F, received: Option<Request<S, R>>) -> (reply: Option<
    (R, oneshot::Sender<R>),
>)
    requires
        forall|s: S| #[trigger] call_requires(*old(closure), (s,)),
    ensures
        received is None ==> reply is None,
        received matches Some((parameter, to)) ==> reply matches Some((v, back)) && back == to
            && call_ensures(*old(closure), (parameter,), v),
{
    match received {
        Some((parameter, reply)) => {
            let value = closure(parameter);
            Some((value, reply))
        },
        None => None,
    }
}

/// One step of the worker: waits for the next request and runs the closure
/// on it; returns the result with the channel to send it back on, or `None`
/// once the request channel is closed and empty.
pub fn work_step<S, R, F: FnMut(S) -> R>(
    receiver: &RequestReceiver<Request<S, R>>,
    closure: &mut F,
) -> (reply: Option<(R, oneshot::Sender<R>)>)
    requires
        forall|s: S| #[trigger] call_requires(*old(closure), (s,)),
    ensures
        reply matches Some((v, _)) ==> exists|parameter: S| #[trigger] call_ensures(*old(closure), (parameter,), v),
{
    let received = blocking_recv(receiver);
    serve(closure, received)
}

} // verus!
