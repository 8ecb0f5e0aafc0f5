//! A stream transformer on the worker thread: items sent in are each handed
//! to the thread as a job that applies the closure and queues the result on a
//! return queue, from which the results are read back in order. Closing the
//! sink sends one last job that closes the return queue.
use super::{
    is_send_failure, lemma_send_outcome_faithful, lemma_send_poll_outcome_faithful, map_send_poll,
    map_send_result, send_outcome, send_poll_outcome, FutureThread, FutureThreadError,
};
use crate::channel::{
    queue_channel, queue_clone, queue_close_channel, queue_poll_close, queue_poll_flush,
    queue_poll_next, queue_poll_ready, queue_start_send, QueueReceiver, QueueSender,
};
use crate::polled::{Polled, SendFailure};
use std::marker::PhantomData;
use vstd::prelude::*;

verus! {

/// How far the closing of a `TransformFuture` has come.
#[derive(Debug, Clone, Copy, PartialEq, Eq, Structural)]
pub enum CloseState {
    /// Items may still be sent.
    Running,
    /// Closing has begun; the closing job is not queued yet.
    CloseSending,
    /// The closing job is queued; the job queue is not closed yet.
    Closing,
    /// Closed.
    Closed,
}

impl CloseState {
    /// The states in the order in which closing goes through them.
    pub open spec fn rank(self) -> nat {
        match self {
            CloseState::Running => 0,
            CloseState::CloseSending => 1,
            CloseState::Closing => 2,
            CloseState::Closed => 3,
        }
    }
}

/// The work of the transformer on the thread: the closure, and the return
/// queue that its results go to.
#[verifier::reject_recursive_types(R)]
pub struct Transformer<A, R> {
    closure: A,
    return_sender: QueueSender<R>,
}

impl<A, R> Transformer<A, R> {
    /// The closure applied to each item.
    pub closed spec fn closure(&self) -> A {
        self.closure
    }

    /// The sending end of the return queue.
    pub closed spec fn return_queue(&self) -> QueueSender<R> {
        self.return_sender
    }
}

impl<A: Clone, R> Clone for Transformer<A, R> {
    /// A clone of the closure, with another sending end of the same return
    /// queue.
    fn clone(&self) -> (c: Self)
        ensures
            cloned::<A>(self.closure(), c.closure()),
            c.return_queue().fresh_clone_of(&self.return_queue()),
    {
        Transformer { closure: self.closure.clone(), return_sender: queue_clone(&self.return_sender) }
    }
}

/// One job of the transformer: an item to transform, or `None` to close the
/// return queue.
#[verifier::reject_recursive_types(R)]
pub struct TransformTask<A, P, R> {
    transformer: Transformer<A, R>,
    parameter: Option<P>,
}

impl<A: FnOnce(P) -> R, P, R> TransformTask<A, P, R> {
    /// The closure that the job applies.
    pub closed spec fn closure(&self) -> A {
        self.transformer.closure
    }

    /// The item to transform, or `None` for the closing job.
    pub closed spec fn parameter(&self) -> Option<P> {
        self.parameter
    }

    /// The sending end of the return queue that the job's result goes to.
    pub closed spec fn return_queue(&self) -> QueueSender<R> {
        self.transformer.return_sender
    }

    /// Applies the closure to the item and returns the result with the
    /// sending end of the return queue to queue it on; for the closing job,
    /// closes the return queue and returns `None`.
    pub fn run(self) -> (out: Option<(R, QueueSender<R>)>)
        requires
            self.parameter() matches Some(p) ==> self.closure().requires((p,)),
        ensures
            self.parameter() is None ==> out is None,
            self.parameter() matches Some(p) ==> out matches Some((v, back)) && back
                == self.return_queue() && self.closure().ensures((p,), v),
    {
        let mut transformer = self.transformer;
        match self.parameter {
            Some(p) => {
                let closure = transformer.closure;
                let value = closure(p);
                Some((value, transformer.return_sender))
            },
            None => {
                queue_close_channel(&mut transformer.return_sender);
                None
            },
        }
    }
}

/// What closing this handle's end of the job queue leads to: closed when it
/// answered ready, and otherwise still closing, with its failure or its
/// wait passed on.
pub open spec fn after_queue_close(closed: Polled<Result<(), FutureThreadError>>) -> (
    CloseState,
    Polled<Result<(), FutureThreadError>>,
) {
    match closed {
        Polled::Ready(Ok(())) => (CloseState::Closed, Polled::Ready(Ok(()))),
        Polled::Ready(Err(e)) => (CloseState::Closing, Polled::Ready(Err(e))),
        Polled::Pending => (CloseState::Closing, Polled::Pending),
    }
}

/// What one poll of `TransformFuture::poll_close` leads to from the state
/// `before`, given what the job queue answered: `ready`, its readiness for
/// the closing job (asked only while the closing job is not queued yet),
/// `sent`, whether it took the closing job, and `closed`, what closing this
/// handle's end of the queue answered. The result is the state after the
/// poll and the poll's outcome.
pub open spec fn close_outcome(
    before: CloseState,
    ready: Polled<Result<(), FutureThreadError>>,
    sent: Result<(), FutureThreadError>,
    closed: Polled<Result<(), FutureThreadError>>,
) -> (CloseState, Polled<Result<(), FutureThreadError>>) {
    match before {
        CloseState::Running | CloseState::CloseSending => match ready {
            Polled::Pending => (CloseState::CloseSending, Polled::Pending),
            Polled::Ready(Err(e)) => (CloseState::CloseSending, Polled::Ready(Err(e))),
            Polled::Ready(Ok(())) => match sent {
                Err(e) => (CloseState::Closing, Polled::Ready(Err(e))),
                Ok(()) => after_queue_close(closed),
            },
        },
        CloseState::Closing => after_queue_close(closed),
        CloseState::Closed => (CloseState::Closed, Polled::Ready(Ok(()))),
    }
}

/// The state and outcome that closing this handle's end of the job queue
/// leads to.
fn queue_close_step(closed: Polled<Result<(), FutureThreadError>>) -> (next: (
    CloseState,
    Polled<Result<(), FutureThreadError>>,
))
    ensures
        next == after_queue_close(closed),
{
    match closed {
        Polled::Ready(Ok(())) => (CloseState::Closed, Polled::Ready(Ok(()))),
        Polled::Ready(Err(e)) => (CloseState::Closing, Polled::Ready(Err(e))),
        Polled::Pending => (CloseState::Closing, Polled::Pending),
    }
}

/// One step of closing a `TransformFuture`: from the state `before` and the
/// job queue's answers, the state that follows and the outcome of the poll.
pub fn close_step(
    before: CloseState,
    ready: Polled<Result<(), FutureThreadError>>,
    sent: Result<(), FutureThreadError>,
    closed: Polled<Result<(), FutureThreadError>>,
) -> (next: (CloseState, Polled<Result<(), FutureThreadError>>))
    ensures
        next == close_outcome(before, ready, sent, closed),
{
    match before {
        CloseState::Running | CloseState::CloseSending => match ready {
            Polled::Pending => (CloseState::CloseSending, Polled::Pending),
            Polled::Ready(Err(e)) => (CloseState::CloseSending, Polled::Ready(Err(e))),
            Polled::Ready(Ok(())) => match sent {
                Err(e) => (CloseState::Closing, Polled::Ready(Err(e))),
                Ok(()) => queue_close_step(closed),
            },
        },
        CloseState::Closing => queue_close_step(closed),
        CloseState::Closed => (CloseState::Closed, Polled::Ready(Ok(()))),
    }
}

/// Closing waits for room: while the closing job is not queued yet, a job
/// queue that has no room makes the poll pending and leaves the transformer
/// waiting to send the closing job, whatever else the queue would answer.
pub proof fn lemma_close_waits_for_room(
    before: CloseState,
    sent: Result<(), FutureThreadError>,
    closed: Polled<Result<(), FutureThreadError>>,
)
    requires
        before.rank() <= 1,
    ensures
        close_outcome(before, Polled::Pending, sent, closed) == (
            CloseState::CloseSending,
            Polled::<Result<(), FutureThreadError>>::Pending,
        ),
{
}

/// A poll of the job queue that found the worker gone.
pub open spec fn gone_poll() -> Polled<Result<(), FutureThreadError>> {
    Polled::Ready(Err(FutureThreadError::Disconnected))
}

/// Closing reports the worker gone only when the job queue said so: a
/// `Disconnected` outcome comes from the queue's readiness, from its refusal
/// of the closing job, or from closing this handle's end, and never from an
/// already closed transformer.
pub proof fn lemma_close_disconnected_comes_from_queue(
    before: CloseState,
    ready: Polled<Result<(), FutureThreadError>>,
    sent: Result<(), FutureThreadError>,
    closed: Polled<Result<(), FutureThreadError>>,
)
    ensures
        close_outcome(before, ready, sent, closed).1 == gone_poll() ==> before != CloseState::Closed
            && (ready == gone_poll() || sent == Err::<(), FutureThreadError>(
            FutureThreadError::Disconnected,
        ) || closed == gone_poll()),
        close_outcome(before, ready, sent, closed).1 == gone_poll() && before.rank() <= 1 ==> ready
            == gone_poll() || (ready is Ready && ready->Ready_0 is Ok && (sent == Err::<
            (),
            FutureThreadError,
        >(FutureThreadError::Disconnected) || closed == gone_poll())),
{
}

/// What one poll of `poll_close` may do, from the state `before` to the
/// state `after` with the outcome `r`, given that closing this handle's end
/// of the job queue always answers ready: the state never moves back; a
/// ready outcome means closed; a failure leaves the closing job unsent (and
/// then the worker is gone) or unfinished; a pending poll is still waiting
/// for room to queue the closing job; and once the closing job is queued, the
/// poll finishes closing.
pub open spec fn close_step_allowed(
    before: CloseState,
    after: CloseState,
    r: Polled<Result<(), FutureThreadError>>,
) -> bool {
    &&& after.rank() >= before.rank()
    &&& match r {
        Polled::Ready(Ok(())) => after == CloseState::Closed,
        Polled::Ready(Err(e)) => (after == CloseState::CloseSending && e
            == FutureThreadError::Disconnected) || (after == CloseState::Closing && is_send_failure(e)),
        Polled::Pending => after == CloseState::CloseSending,
    }
    &&& before.rank() >= 2 ==> r == Polled::<Result<(), FutureThreadError>>::Ready(Ok(())) && after
        == CloseState::Closed
}

/// How one poll of `poll_close` changes the record of jobs queued through
/// the transformer's handle: exactly one job, the closing one, is appended
/// when the poll moves from before the closing job to closed; otherwise
/// nothing is.
pub open spec fn close_queue_effect<J>(
    before: CloseState,
    after: CloseState,
    old_jobs: Seq<J>,
    new_jobs: Seq<J>,
) -> bool {
    if before.rank() <= 1 && after == CloseState::Closed {
        &&& new_jobs.len() == old_jobs.len() + 1
        &&& new_jobs.take(old_jobs.len() as int) == old_jobs
    } else {
        new_jobs == old_jobs
    }
}

/// The closing job is queued at most once, and after every job queued
/// before it: over two polls of `poll_close`, at most one job is added to the
/// record, the jobs already there stay in front, and once a poll has
/// reported the transformer closed the next one adds nothing.
pub proof fn lemma_closing_job_queued_once<J>(
    s0: CloseState,
    s1: CloseState,
    r1: Polled<Result<(), FutureThreadError>>,
    s2: CloseState,
    r2: Polled<Result<(), FutureThreadError>>,
    q0: Seq<J>,
    q1: Seq<J>,
    q2: Seq<J>,
)
    requires
        close_step_allowed(s0, s1, r1),
        close_queue_effect(s0, s1, q0, q1),
        close_step_allowed(s1, s2, r2),
        close_queue_effect(s1, s2, q1, q2),
    ensures
        q2.len() <= q0.len() + 1,
        q2.take(q0.len() as int) == q0,
        r1 == Polled::<Result<(), FutureThreadError>>::Ready(Ok(())) ==> q2 == q1,
{
    if s0.rank() <= 1 && s1 == CloseState::Closed {
        assert(q2 == q1);
    } else {
        assert(q1 == q0);
        if s1.rank() <= 1 && s2 == CloseState::Closed {
            assert(q2.take(q0.len() as int) == q0);
        } else {
            assert(q0.take(q0.len() as int) =~= q0);
        }
    }
}

/// Each outcome of `close_step` is one that `close_step_allowed` admits,
/// whenever the queue's answers are of the kinds it gives: a readiness that
/// fails only with `Disconnected`, a send that fails only with a send
/// failure, and a close that is always ready.
pub proof fn lemma_close_outcome_allowed(
    before: CloseState,
    ready: Polled<Result<(), FutureThreadError>>,
    sent: Result<(), FutureThreadError>,
)
    requires
        ready matches Polled::Ready(Err(e)) ==> e == FutureThreadError::Disconnected,
        sent matches Err(e) ==> is_send_failure(e),
    ensures
        ({
            let (after, r) = close_outcome(before, ready, sent, Polled::Ready(Ok(())));
            close_step_allowed(before, after, r)
        }),
{
}

/// Once a poll of `poll_close` has reported the transformer closed, every
/// later poll reports it closed again and leaves it closed.
pub proof fn lemma_closed_stays_closed(
    s0: CloseState,
    s1: CloseState,
    r1: Polled<Result<(), FutureThreadError>>,
    s2: CloseState,
    r2: Polled<Result<(), FutureThreadError>>,
)
    requires
        close_step_allowed(s0, s1, r1),
        r1 == Polled::<Result<(), FutureThreadError>>::Ready(Ok(())),
        close_step_allowed(s1, s2, r2),
    ensures
        r2 == Polled::<Result<(), FutureThreadError>>::Ready(Ok(())),
        s2 == CloseState::Closed,
{
}

/// Closing never goes back over two polls: once a poll has moved past
/// `CloseSending` (the only state from which the closing job is queued), no
/// later poll is back in it.
pub proof fn lemma_close_never_reopens(
    s0: CloseState,
    s1: CloseState,
    r1: Polled<Result<(), FutureThreadError>>,
    s2: CloseState,
    r2: Polled<Result<(), FutureThreadError>>,
)
    requires
        close_step_allowed(s0, s1, r1),
        close_step_allowed(s1, s2, r2),
    ensures
        s2.rank() >= s1.rank() >= s0.rank(),
        s1.rank() >= 2 ==> !(s2 == CloseState::CloseSending),
{
}

/// A poll that finds the closing job already queued, or the transformer
/// closed, is ready at once: closing can wait only for room to queue the
/// closing job.
pub proof fn lemma_queued_close_finishes(
    s0: CloseState,
    s1: CloseState,
    r1: Polled<Result<(), FutureThreadError>>,
)
    requires
        close_step_allowed(s0, s1, r1),
        s0 == CloseState::Closing || s0 == CloseState::Closed,
    ensures
        r1 == Polled::<Result<(), FutureThreadError>>::Ready(Ok(())),
        s1 == CloseState::Closed,
{
}

/// A sink of items and a stream of their transforms, both served by a
/// worker thread.
#[verifier::reject_recursive_types(J)]
#[verifier::reject_recursive_types(R)]
#[verifier::reject_recursive_types(P)]
pub struct TransformFuture<A, P, R, J, H> {
    transformer: Transformer<A, R>,
    thread: FutureThread<J, H>,
    return_receiver: QueueReceiver<R>,
    state: CloseState,
    _phantom: PhantomData<P>,
}

impl<A: FnOnce(P) -> R + Clone, P, R, J, H> TransformFuture<A, P, R, J, H> {
    /// How far closing has come.
    pub closed spec fn close_state(&self) -> CloseState {
        self.state
    }

    /// The closure applied to each item.
    pub closed spec fn closure(&self) -> A {
        self.transformer.closure
    }

    /// The worker thread that runs the jobs.
    pub closed spec fn thread(&self) -> FutureThread<J, H> {
        self.thread
    }

    /// The closure and the sending end of the return queue that each job
    /// gets a clone of.
    pub closed spec fn transformer(&self) -> Transformer<A, R> {
        self.transformer
    }

    /// What the return queue answered the last `poll_next`.
    pub closed spec fn results_answer(&self) -> Polled<Option<R>> {
        self.return_receiver.next_answer()
    }

    /// Which queue the transformed items are read back from.
    pub closed spec fn results_id(&self) -> int {
        self.return_receiver.id()
    }

    /// The sending end of the job queue.
    pub open spec fn jobs(&self) -> QueueSender<J> {
        self.thread().queue()
    }

    /// `self` differs from `other` at most in its handle on the job queue.
    pub open spec fn same_but_jobs(self, other: Self) -> bool {
        &&& self.close_state() == other.close_state()
        &&& self.transformer() == other.transformer()
        &&& self.results_id() == other.results_id()
        &&& self.thread().handle() == other.thread().handle()
    }

    /// How far closing has come.
    pub fn close_progress(&self) -> (s: CloseState)
        ensures
            s == self.close_state(),
    {
        self.state
    }

    /// A transformer that is not closing.
    pub fn new(
        thread: FutureThread<J, H>,
        return_receiver: QueueReceiver<R>,
        transformer: Transformer<A, R>,
    ) -> (t: Self)
        ensures
            t.close_state() == CloseState::Running,
            t.closure() == transformer.closure(),
            t.transformer() == transformer,
            t.thread() == thread,
            t.results_id() == return_receiver.id(),
    {
        TransformFuture { transformer, thread, return_receiver, state: CloseState::Running, _phantom: PhantomData }
    }

    /// Whether the job queue has room for an item; it fails only when the
    /// worker's end of the queue is gone, and always so once this handle is
    /// unlinked from the queue or the queue is closed.
    pub fn poll_ready(&mut self, cx: &mut core::task::Context) -> (r: Polled<Result<(), FutureThreadError>>)
        ensures
            r matches Polled::Ready(Err(e)) ==> e == FutureThreadError::Disconnected,
            !old(self).jobs().linked() || old(self).jobs().shut() ==> r
                == Polled::<Result<(), FutureThreadError>>::Ready(Err(FutureThreadError::Disconnected)),
            r == send_poll_outcome(final(self).jobs().ready_answer()),
            final(self).same_but_jobs(*old(self)),
            final(self).jobs().same_state(&old(self).jobs()),
    {
        map_send_poll(self.thread.sender.poll_ready(cx))
    }

    /// Queues the job that transforms `item`, made with `make_job` from a
    /// clone of the transformer: an accepted job is appended to the record of
    /// the jobs queued through this handle, a refused one is not.
    pub fn start_send<MK: FnOnce(TransformTask<A, P, R>) -> J>(
        &mut self,
        item: P,
        make_job: MK,
    ) -> (r: Result<(), FutureThreadError>)
        requires
            forall|task: TransformTask<A, P, R>| #[trigger] make_job.requires((task,)),
        ensures
            exists|task: TransformTask<A, P, R>, job: J| #[trigger] make_job.ensures((task,), job)
                && task.parameter() == Some(item) && cloned::<A>(old(self).closure(), task.closure())
                && task.return_queue().fresh_clone_of(&old(self).transformer().return_queue()) && (
            r is Ok ==> final(self).jobs().queued() == old(self).jobs().queued().push(job)),
            r is Err ==> final(self).jobs().queued() == old(self).jobs().queued(),
            r matches Err(e) ==> is_send_failure(e),
            !old(self).jobs().linked() ==> r == Err::<(), FutureThreadError>(
                FutureThreadError::Disconnected,
            ),
            old(self).jobs().shut() ==> r is Err,
            r == send_outcome(final(self).jobs().send_answer()),
            final(self).same_but_jobs(*old(self)),
            final(self).jobs().id() == old(self).jobs().id(),
            final(self).jobs().linked() == old(self).jobs().linked(),
            final(self).jobs().shut() == old(self).jobs().shut(),
    {
        let task = TransformTask { transformer: self.transformer.clone(), parameter: Some(item) };
        let ghost made = task;
        let job = make_job(task);
        let ghost made_job = job;
        assert(make_job.ensures((made,), made_job));
        map_send_result(self.thread.sender.start_send(job))
    }

    /// Whether the jobs queued so far have been taken by the worker; a gone
    /// worker counts as flushed, so it never fails.
    pub fn poll_flush(&mut self, cx: &mut core::task::Context) -> (r: Polled<Result<(), FutureThreadError>>)
        ensures
            r is Pending || r == Polled::<Result<(), FutureThreadError>>::Ready(Ok(())),
            r == send_poll_outcome(final(self).jobs().flush_answer()),
            final(self).same_but_jobs(*old(self)),
            final(self).jobs().same_state(&old(self).jobs()),
    {
        map_send_poll(self.thread.sender.poll_flush(cx))
    }

    /// Closes the sink: queues, once, the job that closes the return queue
    /// (made with `make_job`), then closes this handle's end of the job
    /// queue. Each call is one step of `close_step`, taken on what the job
    /// queue answers: its readiness while the closing job is not queued yet,
    /// whether it took the closing job, and the close of this handle's end,
    /// which is always ready. The closing job is appended to the record of
    /// the jobs queued through this handle exactly when the call goes from
    /// before it to closed, and nothing is appended otherwise.
    pub fn poll_close<MK: FnOnce(TransformTask<A, P, R>) -> J>(
        &mut self,
        cx: &mut core::task::Context,
        make_job: MK,
    ) -> (r: Polled<Result<(), FutureThreadError>>)
        requires
            forall|task: TransformTask<A, P, R>| #[trigger] make_job.requires((task,)),
        ensures
            exists|
                ready: Polled<Result<(), FutureThreadError>>,
                sent: Result<(), FutureThreadError>,
            |
                #![trigger close_outcome(old(self).close_state(), ready, sent, Polled::Ready(Ok(())))]
                (final(self).close_state(), r) == close_outcome(
                    old(self).close_state(),
                    ready,
                    sent,
                    Polled::Ready(Ok(())),
                ) && (ready matches Polled::Ready(Err(e)) ==> e == FutureThreadError::Disconnected)
                    && (old(self).close_state().rank() <= 1 && (!old(self).jobs().linked() || old(
                    self,
                ).jobs().shut()) ==> ready == Polled::<Result<(), FutureThreadError>>::Ready(
                    Err(FutureThreadError::Disconnected),
                )) && (sent matches Err(e) ==> is_send_failure(e)),
            (final(self).close_state(), r) == close_outcome(
                old(self).close_state(),
                send_poll_outcome(final(self).jobs().ready_answer()),
                send_outcome(final(self).jobs().send_answer()),
                Polled::Ready(Ok(())),
            ),
            old(self).close_state().rank() <= 1 && final(self).jobs().ready_answer() is Pending ==> r
                is Pending && final(self).close_state() == CloseState::CloseSending,
            r == gone_poll() ==> old(self).close_state().rank() <= 1 && (final(self).jobs().ready_answer()
                == Polled::<Result<(), SendFailure>>::Ready(Err(SendFailure::Disconnected))
                || final(self).jobs().send_answer() == Err::<(), SendFailure>(SendFailure::Disconnected)),
            close_step_allowed(old(self).close_state(), final(self).close_state(), r),
            close_queue_effect(
                old(self).close_state(),
                final(self).close_state(),
                old(self).jobs().queued(),
                final(self).jobs().queued(),
            ),
            old(self).close_state().rank() <= 1 && final(self).close_state() == CloseState::Closed
                ==> exists|task: TransformTask<A, P, R>, job: J| #[trigger] make_job.ensures((task,), job)
                && task.parameter() is None && cloned::<A>(old(self).closure(), task.closure())
                && task.return_queue().fresh_clone_of(&old(self).transformer().return_queue())
                && final(self).jobs().queued() == old(self).jobs().queued().push(job),
            old(self).close_state() != CloseState::Closed && final(self).close_state()
                == CloseState::Closed ==> !final(self).jobs().linked(),
            !(old(self).close_state() != CloseState::Closed && final(self).close_state()
                == CloseState::Closed) ==> final(self).jobs().linked() == old(self).jobs().linked(),
            final(self).jobs().id() == old(self).jobs().id(),
            final(self).jobs().shut() == old(self).jobs().shut(),
            final(self).transformer() == old(self).transformer(),
            final(self).results_id() == old(self).results_id(),
            final(self).thread().handle() == old(self).thread().handle(),
    {
        let before = self.state;
        let outcome = match before {
            CloseState::Running | CloseState::CloseSending => {
                let ready = map_send_poll(self.thread.sender.poll_ready(cx));
                match ready {
                    Polled::Ready(Ok(())) => {
                        let task = TransformTask { transformer: self.transformer.clone(), parameter: None };
                        let ghost made = task;
                        let job = make_job(task);
                        let ghost made_job = job;
                        assert(make_job.ensures((made,), made_job));
                        let sent = map_send_result(self.thread.sender.start_send(job));
                        match sent {
                            Ok(()) => {
                                let closed = map_send_poll(self.thread.sender.poll_close(cx));
                                assert(self.thread.sender.queued().take(
                                    old(self).thread.sender.queued().len() as int,
                                ) =~= old(self).thread.sender.queued());
                                close_step(before, Polled::Ready(Ok(())), Ok(()), closed)
                            },
                            Err(e) => close_step(
                                before,
                                Polled::Ready(Ok(())),
                                Err(e),
                                Polled::Ready(Ok(())),
                            ),
                        }
                    },
                    _ => close_step(before, ready, Ok(()), Polled::Ready(Ok(()))),
                }
            },
            CloseState::Closing => {
                let closed = map_send_poll(self.thread.sender.poll_close(cx));
                close_step(before, Polled::Pending, Ok(()), closed)
            },
            CloseState::Closed => close_step(before, Polled::Pending, Ok(()), Polled::Ready(Ok(()))),
        };
        proof {
            lemma_send_poll_outcome_faithful(self.thread.sender.ready_answer());
            lemma_send_outcome_faithful(self.thread.sender.send_answer());
            if before.rank() <= 1 {
                lemma_close_waits_for_room(
                    before,
                    send_outcome(self.thread.sender.send_answer()),
                    Polled::Ready(Ok(())),
                );
            }
            lemma_close_disconnected_comes_from_queue(
                before,
                send_poll_outcome(self.thread.sender.ready_answer()),
                send_outcome(self.thread.sender.send_answer()),
                Polled::Ready(Ok(())),
            );
        }
        self.state = outcome.0;
        outcome.1
    }

    /// Whether this transformer's handle on the worker thread still holds
    /// its share of the thread.
    pub fn holds_thread(&self) -> (b: bool)
        ensures
            b == self.thread().handle() is Some,
    {
        self.thread.holds_thread()
    }

    /// Gives up this transformer's handle on the worker thread, as
    /// `FutureThread::release` does.
    pub fn release(&mut self) -> (joinable: Option<H>)
        requires
            old(self).thread().handle() is Some,
        ensures
            final(self).thread().handle() is None,
            joinable matches Some(h) ==> old(self).thread().handle() == Some(h)
                && final(self).jobs().shut() == (old(self).jobs().shut() || old(self).jobs().linked()),
            joinable is None ==> final(self).jobs() == old(self).jobs(),
            final(self).close_state() == old(self).close_state(),
            final(self).transformer() == old(self).transformer(),
            final(self).results_id() == old(self).results_id(),
    {
        self.thread.release()
    }

    /// The next transformed item, `None` once the return queue is closed and
    /// empty.
    pub fn poll_next(&mut self, cx: &mut core::task::Context) -> (r: Polled<Option<R>>)
        ensures
            r == final(self).results_answer(),
            final(self).same_but_jobs(*old(self)),
            final(self).jobs() == old(self).jobs(),
    {
        self.return_receiver.poll_next(cx)
    }
}

impl<J, H> FutureThread<J, H> {
    /// A transformer on this thread: a return queue with one shared slot is
    /// created, and each item sent in is transformed by `closure` on the
    /// thread, its result queued on the return queue.
    pub fn into_transform<A: FnOnce(P) -> R + Clone, P, R>(self, closure: A) -> (t: TransformFuture<
        A,
        P,
        R,
        J,
        H,
    >)
        ensures
            t.close_state() == CloseState::Running,
            t.closure() == closure,
            t.thread() == self,
            t.transformer().return_queue().fresh_end_of(t.results_id()),
    {
        let (return_sender, return_receiver) = queue_channel(1);
        TransformFuture::new(self, return_receiver, Transformer { closure, return_sender })
    }
}

} // verus!
