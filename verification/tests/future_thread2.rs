use chan_thread::future_thread2::{
    close_step, map_send_poll, map_send_result, reply_result, CloseState, SpawnTask, TransformTask,
};
use chan_thread::polled::SendFailure;
use chan_thread::{CallFuture, FutureThread2, FutureThreadError, Polled, QueueReceiver};
use futures::channel::{mpsc, oneshot};
use futures::executor::block_on;
use futures::SinkExt;
use std::task::Context;

type Job = Box<dyn FnOnce() + Send>;

/// A worker thread whose job queue the test serves by hand.
fn start() -> (FutureThread2<Job, ()>, mpsc::Receiver<Job>) {
    let mut worker_end = None;
    let t = FutureThread2::new(|receiver: QueueReceiver<Job>| {
        worker_end = Some(receiver.into_inner());
    });
    (t, worker_end.unwrap())
}

/// Runs every job that is queued.
fn run_jobs(jobs: &mut mpsc::Receiver<Job>) {
    while let Ok(Some(job)) = jobs.try_next() {
        job();
    }
}

fn spawn<A, R>(t: &mut FutureThread2<Job, ()>, jobs: &mut mpsc::Receiver<Job>, closure: A) -> Result<R, FutureThreadError>
where
    A: FnOnce() -> R + Send + 'static,
    R: Send + 'static,
{
    let (task, receiver) = SpawnTask::new(closure);
    let job: Job = Box::new(move || {
        task.run();
    });
    let mut sender = t.job_sender().into_inner();
    match block_on(sender.send(job)) {
        Ok(()) => {
            run_jobs(jobs);
            reply_result(block_on(receiver).ok())
        }
        Err(e) => Err(e.into()),
    }
}

fn call<A, P, R>(c: &CallFuture<A, P, R, Job, ()>, jobs: &mut mpsc::Receiver<Job>, parameter: P) -> Result<R, FutureThreadError>
where
    A: FnMut(P) -> R + Clone + Send + 'static,
    P: Send + 'static,
    R: Send + 'static,
{
    let (task, receiver) = c.call_task(parameter);
    let job: Job = Box::new(move || {
        task.run();
    });
    let mut sender = c.job_sender().into_inner();
    match block_on(sender.send(job)) {
        Ok(()) => {
            run_jobs(jobs);
            reply_result(block_on(receiver).ok())
        }
        Err(e) => Err(e.into()),
    }
}

fn transform_job<A, P, R>(task: TransformTask<A, P, R>) -> Job
where
    A: FnOnce(P) -> R + Send + 'static,
    P: Send + 'static,
    R: Send + 'static,
{
    Box::new(move || {
        if let Some((value, back)) = task.run() {
            let _ = block_on(back.into_inner().send(value));
        }
    })
}

fn noop_cx() -> Context<'static> {
    Context::from_waker(futures::task::noop_waker_ref())
}

#[test]
fn mod_smoke() {
    let (mut fut_thread, mut jobs) = start();
    let increase = |param| 1 + param;
    let increase = fut_thread.clone().into_call_future(increase);
    let val = call(&increase, &mut jobs, 4u32);
    assert_eq!(val, Ok(5u32));
    let val = call(&increase, &mut jobs, 8u32);
    assert_eq!(val, Ok(9u32));
    let val = spawn(&mut fut_thread, &mut jobs, || 4 + 5);
    assert_eq!(val, Ok(9u32));
}

#[test]
fn transform() {
    let input = [3u32, 5, 6, 7, 9];
    let (fut_thread, mut jobs) = start();
    let mut t = fut_thread.into_transform(|param: u32| param * param);
    let mut cx = noop_cx();
    let mut res2 = Vec::new();
    for x in input {
        assert!(matches!(t.poll_ready(&mut cx), Polled::Ready(Ok(()))));
        assert_eq!(t.start_send(x, transform_job), Ok(()));
        run_jobs(&mut jobs);
        match t.poll_next(&mut cx) {
            Polled::Ready(Some(v)) => res2.push(v),
            _ => panic!("the transformed item is missing"),
        }
    }
    let res1 = match t.poll_close(&mut cx, transform_job) {
        Polled::Ready(r) => r,
        Polled::Pending => panic!("closing is pending"),
    };
    run_jobs(&mut jobs);
    assert!(matches!(t.poll_next(&mut cx), Polled::Ready(None)));
    assert_eq!(res1, Ok(()));
    assert_eq!(res2, vec![9, 25, 36, 49, 81]);
}

#[test]
fn closed_transformer_stays_closed() {
    let (fut_thread, mut jobs) = start();
    let mut t = fut_thread.into_transform(|param: u32| param + 1);
    let mut cx = noop_cx();
    assert!(t.close_progress() == CloseState::Running);
    assert!(matches!(t.poll_close(&mut cx, transform_job), Polled::Ready(Ok(()))));
    assert!(t.close_progress() == CloseState::Closed);
    run_jobs(&mut jobs);
    assert!(matches!(t.poll_close(&mut cx, transform_job), Polled::Ready(Ok(()))));
    assert!(t.close_progress() == CloseState::Closed);
    run_jobs(&mut jobs);
    assert!(matches!(t.poll_next(&mut cx), Polled::Ready(None)));
}

#[test]
fn closing_a_transformer_with_no_worker_fails_as_disconnected() {
    let (fut_thread, jobs) = start();
    drop(jobs);
    let mut t = fut_thread.into_transform(|param: u32| param + 1);
    let mut cx = noop_cx();
    assert!(matches!(
        t.poll_close(&mut cx, transform_job),
        Polled::Ready(Err(FutureThreadError::Disconnected))
    ));
    assert!(t.close_progress() == CloseState::CloseSending);
}

#[test]
fn sending_to_a_gone_worker_fails_as_disconnected() {
    let (fut_thread, jobs) = start();
    drop(jobs);
    let mut t = fut_thread.into_transform(|param: u32| param + 1);
    let mut cx = noop_cx();
    assert!(matches!(t.poll_ready(&mut cx), Polled::Ready(Err(FutureThreadError::Disconnected))));
    assert_eq!(t.start_send(1, transform_job), Err(FutureThreadError::Disconnected));
    assert!(matches!(t.poll_flush(&mut cx), Polled::Ready(Ok(()))));
}

#[test]
fn spawn_on_a_gone_worker_fails_as_disconnected() {
    let (mut fut_thread, mut jobs) = start();
    jobs.close();
    let val = spawn(&mut fut_thread, &mut jobs, || 1u8);
    assert_eq!(val, Err(FutureThreadError::Disconnected));
}

#[test]
fn dropped_job_is_internally_cancelled() {
    let (mut fut_thread, mut jobs) = start();
    let (task, receiver) = SpawnTask::new(|| 1u8);
    let job: Job = Box::new(move || drop(task));
    assert!(block_on(fut_thread.job_sender().into_inner().send(job)).is_ok());
    run_jobs(&mut jobs);
    assert_eq!(reply_result(block_on(receiver).ok()), Err(FutureThreadError::InternallyCancelled));
}

#[test]
fn spawn_task_hands_back_an_undelivered_result() {
    let (task, receiver) = SpawnTask::new(|| 41u8 + 1);
    drop(receiver);
    assert_eq!(task.run(), Some(42));
}

#[test]
fn spawn_task_delivers_its_result() {
    let (task, receiver) = SpawnTask::new(|| 7u8);
    assert_eq!(task.run(), None);
    assert_eq!(block_on(receiver), Ok(7));
}

#[test]
fn only_the_last_handle_gets_the_thread_back() {
    let (fut_thread, _jobs) = start();
    let mut first = fut_thread.clone();
    let mut second = fut_thread;
    assert!(first.holds_thread());
    assert_eq!(first.release(), None);
    assert!(!first.holds_thread());
    assert_eq!(second.release(), Some(()));
}

#[test]
fn release_with_hands_back_the_thread_only_from_the_last_share() {
    let (mut fut_thread, _jobs) = start();
    let shared = std::sync::Arc::new(());
    let kept = shared.clone();
    assert_eq!(fut_thread.release_with(Err(shared)), None);
    drop(kept);
    assert_eq!(fut_thread.release_with(Ok(())), Some(()));
}

#[test]
fn a_transform_task_returns_the_transformed_item() {
    let (fut_thread, _jobs) = start();
    let mut t = fut_thread.into_transform(|param: u32| param * 3);
    let mut slot = None;
    assert_eq!(t.start_send(4, |task: TransformTask<_, u32, u32>| -> Job {
        slot = Some(task);
        Box::new(|| {})
    }), Ok(()));
    let (value, _back) = slot.unwrap().run().unwrap();
    assert_eq!(value, 12);
}

#[test]
fn reply_result_maps_a_missing_reply_to_cancelled() {
    assert_eq!(reply_result(Some(3u8)), Ok(3));
    assert_eq!(reply_result::<u8>(None), Err(FutureThreadError::InternallyCancelled));
}

#[test]
fn send_errors_map_by_fullness() {
    assert_eq!(FutureThreadError::from_full(true), FutureThreadError::Full);
    assert_eq!(FutureThreadError::from_full(false), FutureThreadError::Disconnected);
    assert_eq!(map_send_result(Ok(())), Ok(()));
    assert_eq!(map_send_result(Err(SendFailure::Full)), Err(FutureThreadError::Full));
    assert_eq!(
        map_send_result(Err(SendFailure::Disconnected)),
        Err(FutureThreadError::Disconnected)
    );
    assert!(matches!(map_send_poll(Polled::Pending), Polled::Pending));
    assert!(matches!(map_send_poll(Polled::Ready(Ok(()))), Polled::Ready(Ok(()))));
}

#[test]
fn a_full_queue_is_reported_as_full() {
    let (mut sender, _receiver) = mpsc::channel::<u8>(0);
    assert!(sender.start_send(1).is_ok());
    let e = sender.start_send(2).unwrap_err();
    assert_eq!(FutureThreadError::from(e), FutureThreadError::Full);
}

#[test]
fn a_gone_receiver_is_reported_as_disconnected() {
    let (mut sender, receiver) = mpsc::channel::<u8>(0);
    drop(receiver);
    let e = sender.start_send(1).unwrap_err();
    assert_eq!(FutureThreadError::from(e), FutureThreadError::Disconnected);
    let (reply, _) = oneshot::channel::<u8>();
    drop(reply);
}

#[test]
fn close_step_follows_the_queue_answers() {
    let ok = || Polled::Ready(Ok(()));
    let gone = || Polled::Ready(Err(FutureThreadError::Disconnected));
    let (s, r) = close_step(CloseState::Running, Polled::Pending, Ok(()), ok());
    assert!(s == CloseState::CloseSending && matches!(r, Polled::Pending));
    let (s, r) = close_step(CloseState::CloseSending, gone(), Ok(()), ok());
    assert!(s == CloseState::CloseSending);
    assert!(matches!(r, Polled::Ready(Err(FutureThreadError::Disconnected))));
    let (s, r) = close_step(CloseState::Running, ok(), Err(FutureThreadError::Full), ok());
    assert!(s == CloseState::Closing && matches!(r, Polled::Ready(Err(FutureThreadError::Full))));
    let (s, r) = close_step(CloseState::CloseSending, ok(), Ok(()), ok());
    assert!(s == CloseState::Closed && matches!(r, Polled::Ready(Ok(()))));
    let (s, r) = close_step(CloseState::Closing, Polled::Pending, Ok(()), Polled::Pending);
    assert!(s == CloseState::Closing && matches!(r, Polled::Pending));
    let (s, r) = close_step(CloseState::Closing, Polled::Pending, Ok(()), ok());
    assert!(s == CloseState::Closed && matches!(r, Polled::Ready(Ok(()))));
    let (s, r) = close_step(CloseState::Closed, gone(), Err(FutureThreadError::Full), gone());
    assert!(s == CloseState::Closed && matches!(r, Polled::Ready(Ok(()))));
}

#[test]
fn releasing_the_last_handle_closes_the_job_queue() {
    let (fut_thread, mut jobs) = start();
    let mut first = fut_thread.clone();
    let mut second = fut_thread;
    assert_eq!(first.release(), None);
    assert!(matches!(jobs.try_next(), Err(_)));
    assert_eq!(second.release(), Some(()));
    assert!(matches!(jobs.try_next(), Ok(None)));
}

#[test]
fn closing_a_transformer_queues_the_closing_job_once() {
    let (fut_thread, mut jobs) = start();
    let mut t = fut_thread.into_transform(|param: u32| param + 1);
    let mut cx = noop_cx();
    let mut made = 0u32;
    assert!(matches!(
        t.poll_close(&mut cx, |task: TransformTask<_, u32, u32>| -> Job {
            made += 1;
            transform_job(task)
        }),
        Polled::Ready(Ok(()))
    ));
    assert!(matches!(
        t.poll_close(&mut cx, |task: TransformTask<_, u32, u32>| -> Job {
            made += 1;
            transform_job(task)
        }),
        Polled::Ready(Ok(()))
    ));
    assert_eq!(made, 1);
    let mut queued = 0u32;
    while let Ok(Some(job)) = jobs.try_next() {
        queued += 1;
        job();
    }
    assert_eq!(queued, 1);
    assert!(matches!(t.poll_next(&mut cx), Polled::Ready(None)));
}
