//! The channels that connect a caller to its worker thread, and the task
//! context in which they are polled.
//!
//! Every item here is trusted: the channels belong to `crossbeam_channel` and
//! to `futures`, and what they hold is shared with another thread, so a
//! contract can say what a call returns only where the crate's source shows it
//! for every state of the channel.
use crate::polled::{Polled, SendFailure};
use futures::{Sink, Stream};
use std::future::Future;
use std::pin::Pin;
use vstd::prelude::*;

verus! {

#[verifier::external_type_specification]
#[verifier::external_body]
#[verifier::reject_recursive_types(T)]
pub struct ExBlockingSender<T>(crossbeam_channel::Sender<T>);

#[verifier::external_type_specification]
#[verifier::external_body]
#[verifier::reject_recursive_types(T)]
pub struct ExBlockingReceiver<T>(crossbeam_channel::Receiver<T>);

#[verifier::external_type_specification]
#[verifier::external_body]
#[verifier::reject_recursive_types(T)]
pub struct ExReplySender<T>(futures::channel::oneshot::Sender<T>);

#[verifier::external_type_specification]
#[verifier::external_body]
#[verifier::reject_recursive_types(T)]
pub struct ExReplyReceiver<T>(futures::channel::oneshot::Receiver<T>);

#[verifier::external_type_specification]
#[verifier::external_body]
pub struct ExReplyCanceled(futures::channel::oneshot::Canceled);

#[verifier::external_type_specification]
#[verifier::external_body]
#[verifier::reject_recursive_types(T)]
pub struct ExQueueSender<T>(futures::channel::mpsc::Sender<T>);

#[verifier::external_type_specification]
#[verifier::external_body]
#[verifier::reject_recursive_types(T)]
pub struct ExQueueReceiver<T>(futures::channel::mpsc::Receiver<T>);

#[verifier::external_type_specification]
#[verifier::external_body]
pub struct ExQueueSendError(futures::channel::mpsc::SendError);

#[verifier::external_type_specification]
#[verifier::external_body]
pub struct ExTaskContext<'a>(core::task::Context<'a>);

#[verifier::external_type_specification]
#[verifier::external_body]
#[verifier::reject_recursive_types(T)]
pub struct ExTaskPoll<T>(core::task::Poll<T>);

/// What the queue last answered a handle, for each kind of call that asks
/// it something: whether it had room (`ready`), whether it took a message
/// (`sent`), and whether it was flushed (`flush`). Before the first call of a
/// kind its entry says nothing.
pub struct SendAnswers {
    pub ready: Polled<Result<(), SendFailure>>,
    pub sent: Result<(), SendFailure>,
    pub flush: Polled<Result<(), SendFailure>>,
}

/// The sending end of a `futures::channel::mpsc` queue, with a ghost record
/// of it: which queue it belongs to (`id`), the messages queued through this
/// handle's `start_send` (`queued`), whether this handle is still linked to
/// the queue (`linked`), and whether the queue was closed through this handle
/// or one it was cloned from (`shut`).
#[verifier::reject_recursive_types(T)]
pub struct QueueSender<T> {
    sender: futures::channel::mpsc::Sender<T>,
    queue_id: Ghost<int>,
    log: Ghost<Seq<T>>,
    link: Ghost<bool>,
    closed_here: Ghost<bool>,
    answers: Ghost<SendAnswers>,
}

impl<T> QueueSender<T> {
    /// Which queue this end belongs to.
    pub closed spec fn id(&self) -> int {
        self.queue_id@
    }

    /// The messages queued through this handle's `start_send`, in order.
    pub closed spec fn queued(&self) -> Seq<T> {
        self.log@
    }

    /// Whether this handle is still linked to the queue.
    pub closed spec fn linked(&self) -> bool {
        self.link@
    }

    /// Whether the queue was closed through this handle or one it was cloned
    /// from.
    pub closed spec fn shut(&self) -> bool {
        self.closed_here@
    }

    /// The `futures` sender itself.
    pub closed spec fn inner(&self) -> futures::channel::mpsc::Sender<T> {
        self.sender
    }

    /// What the queue answered the last `poll_ready` through this handle.
    pub closed spec fn ready_answer(&self) -> Polled<Result<(), SendFailure>> {
        self.answers@.ready
    }

    /// What the queue answered the last `start_send` through this handle.
    pub closed spec fn send_answer(&self) -> Result<(), SendFailure> {
        self.answers@.sent
    }

    /// What the queue answered the last `poll_flush` through this handle.
    pub closed spec fn flush_answer(&self) -> Polled<Result<(), SendFailure>> {
        self.answers@.flush
    }

    /// Asks the queue whether it has room for one more message, and records
    /// its answer. It fails only as `Disconnected`, and always so once this
    /// handle is unlinked or the queue closed.
    pub fn poll_ready(&mut self, cx: &mut core::task::Context) -> (r: Polled<Result<(), SendFailure>>)
        ensures
            final(self).ready_answer() == r,
            final(self).send_answer() == old(self).send_answer(),
            final(self).flush_answer() == old(self).flush_answer(),
            r matches Polled::Ready(Err(f)) ==> f == SendFailure::Disconnected,
            r == Polled::<Result<(), SendFailure>>::Ready(Err(SendFailure::Disconnected)) || (old(
                self,
            ).linked() && !old(self).shut()),
            final(self).id() == old(self).id(),
            final(self).queued() == old(self).queued(),
            final(self).linked() == old(self).linked(),
            final(self).shut() == old(self).shut(),
    {
        let ghost before = self.answers@;
        let r = queue_poll_ready(self, cx);
        proof {
            self.answers@ = SendAnswers { ready: r, sent: before.sent, flush: before.flush };
        }
        r
    }

    /// Queues `msg`, and records the queue's answer: an accepted message is
    /// appended to the record of this handle, a refused one is not; an
    /// unlinked handle is refused as `Disconnected`, and a closed queue
    /// refuses every message.
    pub fn start_send(&mut self, msg: T) -> (r: Result<(), SendFailure>)
        ensures
            final(self).send_answer() == r,
            final(self).ready_answer() == old(self).ready_answer(),
            final(self).flush_answer() == old(self).flush_answer(),
            r is Ok ==> final(self).queued() == old(self).queued().push(msg),
            r is Err ==> final(self).queued() == old(self).queued(),
            r == Err::<(), SendFailure>(SendFailure::Disconnected) || old(self).linked(),
            r is Err || !old(self).shut(),
            final(self).id() == old(self).id(),
            final(self).linked() == old(self).linked(),
            final(self).shut() == old(self).shut(),
    {
        let ghost before = self.answers@;
        let r = queue_start_send(self, msg);
        proof {
            self.answers@ = SendAnswers { ready: before.ready, sent: r, flush: before.flush };
        }
        r
    }

    /// Asks the queue whether the messages queued so far were taken, and
    /// records its answer; a gone receiver counts as flushed, so it never
    /// fails.
    pub fn poll_flush(&mut self, cx: &mut core::task::Context) -> (r: Polled<Result<(), SendFailure>>)
        ensures
            final(self).flush_answer() == r,
            final(self).ready_answer() == old(self).ready_answer(),
            final(self).send_answer() == old(self).send_answer(),
            !(r matches Polled::Ready(Err(_))),
            final(self).id() == old(self).id(),
            final(self).queued() == old(self).queued(),
            final(self).linked() == old(self).linked(),
            final(self).shut() == old(self).shut(),
    {
        let ghost before = self.answers@;
        let r = queue_poll_flush(self, cx);
        proof {
            self.answers@ = SendAnswers { ready: before.ready, sent: before.sent, flush: r };
        }
        r
    }

    /// Unlinks this handle from the queue; ready at once. The recorded
    /// answers are kept.
    pub fn poll_close(&mut self, cx: &mut core::task::Context) -> (r: Polled<Result<(), SendFailure>>)
        ensures
            r matches Polled::Ready(Ok(())),
            !final(self).linked(),
            final(self).ready_answer() == old(self).ready_answer(),
            final(self).send_answer() == old(self).send_answer(),
            final(self).flush_answer() == old(self).flush_answer(),
            final(self).id() == old(self).id(),
            final(self).queued() == old(self).queued(),
            final(self).shut() == old(self).shut(),
    {
        let ghost before = self.answers@;
        let r = queue_poll_close(self, cx);
        proof {
            self.answers@ = before;
        }
        r
    }

    /// `self` is a new handle on the same queue as `other`, linked and closed
    /// as `other` is, with nothing queued through it yet.
    pub open spec fn fresh_clone_of(&self, other: &Self) -> bool {
        &&& self.id() == other.id()
        &&& self.linked() == other.linked()
        &&& self.shut() == other.shut()
        &&& self.queued() == Seq::<T>::empty()
    }

    /// `self` and `other` are the same handle as far as the record goes: the
    /// same queue, the same messages queued through it, linked and closed
    /// alike.
    pub open spec fn same_state(&self, other: &Self) -> bool {
        &&& self.id() == other.id()
        &&& self.queued() == other.queued()
        &&& self.linked() == other.linked()
        &&& self.shut() == other.shut()
    }

    /// `self` is a fresh end of the queue whose receiving end has the id
    /// `id`: linked, not closed, with nothing queued through it yet.
    pub open spec fn fresh_end_of(&self, id: int) -> bool {
        &&& self.id() == id
        &&& self.linked()
        &&& !self.shut()
        &&& self.queued() == Seq::<T>::empty()
    }

    /// The `futures` sender itself, for sending on it outside the library.
    pub fn into_inner(self) -> (s: futures::channel::mpsc::Sender<T>)
        ensures
            s == self.inner(),
    {
        self.sender
    }
}

// The ghost records hold no value at run time, so moving a pinned end moves
// nothing that a record describes.
impl<T> Unpin for QueueSender<T> {}

impl<T> Unpin for QueueReceiver<T> {}

impl<T> Unpin for ReplyReceiver<T> {}

/// The receiving end of a `futures::channel::mpsc` queue, with the ghost
/// identity of the queue it belongs to.
#[verifier::reject_recursive_types(T)]
pub struct QueueReceiver<T> {
    receiver: futures::channel::mpsc::Receiver<T>,
    queue_id: Ghost<int>,
    last_next: Ghost<Polled<Option<T>>>,
}

impl<T> QueueReceiver<T> {
    /// Which queue this end belongs to.
    pub closed spec fn id(&self) -> int {
        self.queue_id@
    }

    /// The `futures` receiver itself.
    pub closed spec fn inner(&self) -> futures::channel::mpsc::Receiver<T> {
        self.receiver
    }

    /// What the queue answered the last `poll_next` on this end.
    pub closed spec fn next_answer(&self) -> Polled<Option<T>> {
        self.last_next@
    }

    /// Asks the queue for its next message, and records its answer.
    pub fn poll_next(&mut self, cx: &mut core::task::Context) -> (r: Polled<Option<T>>)
        ensures
            final(self).next_answer() == r,
            final(self).id() == old(self).id(),
    {
        let r = queue_poll_next(self, cx);
        proof {
            self.last_next@ = r;
        }
        r
    }

    /// The `futures` receiver itself, for waiting on it outside the library.
    pub fn into_inner(self) -> (r: futures::channel::mpsc::Receiver<T>)
        ensures
            r == self.inner(),
    {
        self.receiver
    }
}

/// The receiving end of a `futures::channel::oneshot` channel, with a ghost
/// record of what the channel answered its last poll.
#[verifier::reject_recursive_types(T)]
pub struct ReplyReceiver<T> {
    receiver: futures::channel::oneshot::Receiver<T>,
    last: Ghost<Polled<Option<T>>>,
}

impl<T> ReplyReceiver<T> {
    /// The `futures` receiver itself.
    pub closed spec fn inner(&self) -> futures::channel::oneshot::Receiver<T> {
        self.receiver
    }

    /// What the channel answered the last poll; `Pending` before the first.
    pub closed spec fn answer(&self) -> Polled<Option<T>> {
        self.last@
    }

    /// `receiver`, not polled yet.
    pub fn new(receiver: futures::channel::oneshot::Receiver<T>) -> (w: Self)
        ensures
            w.inner() == receiver,
            w.answer() is Pending,
    {
        ReplyReceiver { receiver, last: Ghost(Polled::Pending) }
    }

    /// Polls the channel, and records its answer: the value once it was
    /// sent, `None` once the sender was dropped without sending, `Pending`
    /// before either. The receiver itself is unchanged.
    pub fn poll(&mut self, cx: &mut core::task::Context) -> (r: Polled<Option<T>>)
        ensures
            final(self).inner() == old(self).inner(),
            final(self).answer() == r,
    {
        let r = reply_poll(&mut self.receiver, cx);
        proof {
            self.last@ = r;
        }
        r
    }
}

/// The sending end of a `crossbeam_channel` channel, with the ghost identity
/// of the channel it belongs to.
#[verifier::reject_recursive_types(T)]
pub struct RequestSender<T> {
    sender: crossbeam_channel::Sender<T>,
    channel_id: Ghost<int>,
}

impl<T> RequestSender<T> {
    /// Which channel this end belongs to.
    pub closed spec fn id(&self) -> int {
        self.channel_id@
    }
}

/// The receiving end of a `crossbeam_channel` channel, with the ghost
/// identity of the channel it belongs to.
#[verifier::reject_recursive_types(T)]
pub struct RequestReceiver<T> {
    receiver: crossbeam_channel::Receiver<T>,
    channel_id: Ghost<int>,
}

impl<T> RequestReceiver<T> {
    /// Which channel this end belongs to.
    pub closed spec fn id(&self) -> int {
        self.channel_id@
    }
}

/// `std::sync::Arc::try_unwrap`: hands back the value when this is the only
/// strong reference, and otherwise hands back the same `Arc`. Which of the two
/// happens depends on the other clones alive at the time, so only that the
/// value or the `Arc` comes back unchanged is claimed.
#[verifier::external_body]
pub(crate) fn arc_try_unwrap<T>(shared: std::sync::Arc<T>) -> (r: Result<T, std::sync::Arc<T>>)
    ensures
        match r {
            Ok(t) => t == *shared,
            Err(a) => a == shared,
        },
{
    std::sync::Arc::try_unwrap(shared)
}

/// `Clone::clone` of `std::sync::Arc`: another pointer to the same value.
#[verifier::external_body]
pub(crate) fn arc_clone<T>(shared: &std::sync::Arc<T>) -> (r: std::sync::Arc<T>)
    ensures
        r == *shared,
{
    shared.clone()
}

/// `crossbeam_channel::bounded`: a fresh blocking channel holding at most
/// `cap` messages; the two ends belong to that one channel. The crate
/// allocates `cap` slots and panics on capacities near `usize::MAX / 2`; the
/// requirement keeps to the capacities this library asks for, on which it
/// cannot fail.
#[verifier::external_body]
pub(crate) fn blocking_channel<T>(cap: usize) -> (ends: (RequestSender<T>, RequestReceiver<T>))
    requires
        cap <= 1,
    ensures
        ends.0.id() == ends.1.id(),
{
    let (sender, receiver) = crossbeam_channel::bounded(cap);
    let channel_id = Ghost(0int);
    (RequestSender { sender, channel_id }, RequestReceiver { receiver, channel_id })
}

/// `crossbeam_channel::Receiver::recv`: waits for the next message, or
/// `None` once the channel is empty and every sender is gone. Which of the two
/// comes back depends on the other threads, so nothing is claimed.
#[verifier::external_body]
pub(crate) fn blocking_recv<T>(receiver: &RequestReceiver<T>) -> (r: Option<T>) {
    receiver.receiver.recv().ok()
}

/// `crossbeam_channel::Sender::send`: waits until the message is queued, or
/// fails once the receiver is gone; the error carries the message back
/// unchanged, as the crate's documentation states.
#[verifier::external_body]
pub(crate) fn blocking_send<T>(sender: &RequestSender<T>, msg: T) -> (r: Result<(), T>)
    ensures
        r matches Err(back) ==> back == msg,
{
    sender.sender.send(msg).map_err(|e| e.0)
}

/// `futures::channel::oneshot::channel`: a fresh one-shot channel. Nothing is
/// claimed of the two ends.
#[verifier::external_body]
pub(crate) fn reply_channel<T>() -> (ends: (
    futures::channel::oneshot::Sender<T>,
    futures::channel::oneshot::Receiver<T>,
)) {
    futures::channel::oneshot::channel()
}

/// `futures::channel::oneshot::Sender::send`: completes the one-shot channel,
/// or, when the receiver was dropped before, hands the value back unchanged,
/// as the crate's documentation states.
#[verifier::external_body]
pub(crate) fn reply_send<T>(sender: futures::channel::oneshot::Sender<T>, value: T) -> (r: Result<(), T>)
    ensures
        r matches Err(back) ==> back == value,
{
    sender.send(value)
}

/// `Future::poll` of `futures::channel::oneshot::Receiver`: the value once it
/// was sent, `None` once the sender was dropped without sending, `Pending`
/// before either. Which comes depends on the sender and is not claimed. The
/// receiver is a pointer to the shared channel state that polling reads and
/// updates through that pointer, so the receiver itself is unchanged, and that
/// is claimed.
#[verifier::external_body]
pub(crate) fn reply_poll<T>(
    receiver: &mut futures::channel::oneshot::Receiver<T>,
    cx: &mut core::task::Context,
) -> (r: Polled<Option<T>>)
    ensures
        *final(receiver) == *old(receiver),
{
    match Pin::new(receiver).poll(cx) {
        core::task::Poll::Ready(v) => Polled::Ready(v.ok()),
        core::task::Poll::Pending => Polled::Pending,
    }
}

/// `futures::channel::mpsc::channel`: a fresh queue with `buffer` shared
/// slots; the two ends belong to that one queue, nothing is queued through
/// the sender yet, and it is linked and not closed. The crate asserts
/// `buffer < MAX_BUFFER`, which is `usize::MAX >> 2`; the requirement leaves
/// out the inputs on which it panics.
#[verifier::external_body]
pub(crate) fn queue_channel<T>(buffer: usize) -> (ends: (QueueSender<T>, QueueReceiver<T>))
    requires
        buffer < usize::MAX / 4,
    ensures
        ends.0.fresh_end_of(ends.1.id()),
{
    let (sender, receiver) = futures::channel::mpsc::channel(buffer);
    let queue_id = Ghost(0int);
    (
        QueueSender {
            sender,
            queue_id,
            log: Ghost(Seq::empty()),
            link: Ghost(true),
            closed_here: Ghost(false),
            answers: Ghost(arbitrary()),
        },
        QueueReceiver { receiver, queue_id, last_next: Ghost(arbitrary()) },
    )
}

/// `Clone::clone` of `futures::channel::mpsc::Sender`: another handle on the
/// same queue, linked exactly when this one is (the crate clones the link
/// itself, which a disconnected sender no longer has) and closed when this one
/// closed the queue; nothing is queued through it yet.
#[verifier::external_body]
pub(crate) fn queue_clone<T>(q: &QueueSender<T>) -> (c: QueueSender<T>)
    ensures
        c.fresh_clone_of(q),
{
    QueueSender {
        sender: q.sender.clone(),
        queue_id: q.queue_id,
        log: Ghost(Seq::empty()),
        link: q.link,
        closed_here: q.closed_here,
        answers: Ghost(arbitrary()),
    }
}

/// `futures::channel::mpsc::Sender::poll_ready`: whether the queue has room
/// for one more message (`Pending` registers the task for a wake-up) or the
/// receiver is gone. Which of these comes depends on the other end and is not
/// claimed; but the crate's source fails this call only with a disconnected
/// error, never with a full one, and always so once this handle is unlinked
/// or the queue closed, and that is claimed.
#[verifier::external_body]
pub(crate) fn queue_poll_ready<T>(
    q: &mut QueueSender<T>,
    cx: &mut core::task::Context,
) -> (r: Polled<Result<(), SendFailure>>)
    ensures
        r matches Polled::Ready(Err(f)) ==> f == SendFailure::Disconnected,
        r == Polled::<Result<(), SendFailure>>::Ready(Err(SendFailure::Disconnected)) || (old(
            q,
        ).linked() && !old(q).shut()),
        final(q).id() == old(q).id(),
        final(q).queued() == old(q).queued(),
        final(q).linked() == old(q).linked(),
        final(q).shut() == old(q).shut(),
{
    match q.sender.poll_ready(cx) {
        core::task::Poll::Ready(v) => Polled::Ready(v.map_err(|e| {
            if e.is_full() {
                SendFailure::Full
            } else {
                SendFailure::Disconnected
            }
        })),
        core::task::Poll::Pending => Polled::Pending,
    }
}

/// `futures::channel::mpsc::Sender::start_send`: queues a message, or fails
/// when the queue is full or the receiver is gone. Which comes depends on the
/// other end and is not claimed. Claimed: an accepted message is appended to
/// this handle's record and a refused one is not; an unlinked handle is
/// refused as disconnected, and a closed queue refuses every message.
#[verifier::external_body]
pub(crate) fn queue_start_send<T>(q: &mut QueueSender<T>, msg: T) -> (r: Result<(), SendFailure>)
    ensures
        r is Ok ==> final(q).queued() == old(q).queued().push(msg),
        r is Err ==> final(q).queued() == old(q).queued(),
        r == Err::<(), SendFailure>(SendFailure::Disconnected) || old(q).linked(),
        r is Err || !old(q).shut(),
        final(q).id() == old(q).id(),
        final(q).linked() == old(q).linked(),
        final(q).shut() == old(q).shut(),
{
    q.sender.start_send(msg).map_err(|e| {
        if e.is_full() {
            SendFailure::Full
        } else {
            SendFailure::Disconnected
        }
    })
}

/// `Sink::poll_flush` of `futures::channel::mpsc::Sender`: the queue's
/// readiness, with a gone receiver counted as flushed. Whether it is ready
/// depends on the other end and is not claimed; but the crate's source turns
/// the only error of `poll_ready`, a disconnected one, into `Ok`, so the call
/// never fails, and that is claimed.
#[verifier::external_body]
pub(crate) fn queue_poll_flush<T>(
    q: &mut QueueSender<T>,
    cx: &mut core::task::Context,
) -> (r: Polled<Result<(), SendFailure>>)
    ensures
        !(r matches Polled::Ready(Err(_))),
        final(q).id() == old(q).id(),
        final(q).queued() == old(q).queued(),
        final(q).linked() == old(q).linked(),
        final(q).shut() == old(q).shut(),
{
    match Pin::new(&mut q.sender).poll_flush(cx) {
        core::task::Poll::Ready(v) => Polled::Ready(v.map_err(|e| {
            if e.is_full() {
                SendFailure::Full
            } else {
                SendFailure::Disconnected
            }
        })),
        core::task::Poll::Pending => Polled::Pending,
    }
}

/// `Sink::poll_close` of `futures::channel::mpsc::Sender`: unlinks this
/// handle from the queue (the crate's source calls `disconnect`) and returns
/// `Ready(Ok(()))` on every call; both are claimed.
#[verifier::external_body]
pub(crate) fn queue_poll_close<T>(
    q: &mut QueueSender<T>,
    cx: &mut core::task::Context,
) -> (r: Polled<Result<(), SendFailure>>)
    ensures
        r matches Polled::Ready(Ok(())),
        !final(q).linked(),
        final(q).id() == old(q).id(),
        final(q).queued() == old(q).queued(),
        final(q).shut() == old(q).shut(),
{
    match Pin::new(&mut q.sender).poll_close(cx) {
        core::task::Poll::Ready(v) => Polled::Ready(v.map_err(|e| {
            if e.is_full() {
                SendFailure::Full
            } else {
                SendFailure::Disconnected
            }
        })),
        core::task::Poll::Pending => Polled::Pending,
    }
}

/// `futures::channel::mpsc::Sender::close_channel`: closes the queue for
/// every sender, so that the receiver ends after the queued messages. The
/// crate does this only through a linked handle; an unlinked one does nothing.
#[verifier::external_body]
pub(crate) fn queue_close_channel<T>(q: &mut QueueSender<T>)
    ensures
        final(q).shut() == (old(q).shut() || old(q).linked()),
        final(q).id() == old(q).id(),
        final(q).queued() == old(q).queued(),
        final(q).linked() == old(q).linked(),
{
    q.sender.close_channel()
}

/// `futures::channel::mpsc::Sender::disconnect`: unlinks this handle from the
/// queue, closing it when no sender is left.
#[verifier::external_body]
pub(crate) fn queue_disconnect<T>(q: &mut QueueSender<T>)
    ensures
        !final(q).linked(),
        final(q).id() == old(q).id(),
        final(q).queued() == old(q).queued(),
        final(q).shut() == old(q).shut(),
{
    q.sender.disconnect()
}

/// `futures::channel::mpsc::SendError::is_full`: whether the send failed
/// because the queue was full rather than because the receiver is gone. The
/// error's kind is private to the crate, so nothing is claimed.
#[verifier::external_body]
pub(crate) fn send_error_is_full(e: &futures::channel::mpsc::SendError) -> (full: bool) {
    e.is_full()
}

/// `Stream::poll_next` of `futures::channel::mpsc::Receiver`: the next
/// message, `None` once the queue is closed and empty, or `Pending`. Nothing is
/// claimed of which.
#[verifier::external_body]
pub(crate) fn queue_poll_next<T>(
    receiver: &mut QueueReceiver<T>,
    cx: &mut core::task::Context,
) -> (r: Polled<Option<T>>)
    ensures
        final(receiver).id() == old(receiver).id(),
{
    match Pin::new(&mut receiver.receiver).poll_next(cx) {
        core::task::Poll::Ready(v) => Polled::Ready(v),
        core::task::Poll::Pending => Polled::Pending,
    }
}

} // verus!
