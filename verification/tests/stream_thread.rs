use chan_thread::stream_thread::{work_step, StreamStep};
use chan_thread::{unblock_poll_fn, Polled, QueueSender, StreamThread};
use futures::channel::mpsc;
use futures::executor::block_on;
use std::task::{Context, Poll};

/// The worker's side of a `StreamThread`, stepped by hand by the test.
struct Worker<R, S, F1, F2> {
    sender: mpsc::Sender<R>,
    state: S,
    busy_task: F1,
    idle_task: F2,
}

impl<R, S, F1, F2> Worker<R, S, F1, F2>
where
    F1: FnMut(&mut S) -> Option<R>,
    F2: FnMut(&mut S) -> Option<()>,
{
    fn step(&mut self) -> bool {
        let sender = &mut self.sender;
        let mut check = unblock_poll_fn(|w| sender.poll_ready(w));
        let ready = block_on(futures::future::poll_fn(|cx| match check.poll(cx) {
            Polled::Ready(v) => Poll::Ready(v),
            Polled::Pending => Poll::Pending,
        }));
        let readiness = match ready {
            Poll::Ready(v) => Polled::Ready(v),
            Poll::Pending => Polled::Pending,
        };
        match work_step(&mut self.state, &mut self.busy_task, &mut self.idle_task, readiness) {
            StreamStep::Send(value) => block_on(futures::SinkExt::send(&mut self.sender, value)).is_ok(),
            StreamStep::Continue => true,
            StreamStep::Stop => false,
        }
    }
}

fn start<R, S, F1, F2>(initial: S, busy_task: F1, idle_task: F2) -> (StreamThread<R, ()>, Worker<R, S, F1, F2>)
where
    F1: FnMut(&mut S) -> Option<R>,
    F2: FnMut(&mut S) -> Option<()>,
{
    let mut parts = None;
    let t = StreamThread::new(initial, busy_task, idle_task, |sender: QueueSender<R>, state, busy_task, idle_task| {
        parts = Some(Worker { sender: sender.into_inner(), state, busy_task, idle_task });
    });
    (t, parts.unwrap())
}

fn noop_cx() -> Context<'static> {
    Context::from_waker(futures::task::noop_waker_ref())
}

fn next<T>(t: &mut StreamThread<T, ()>) -> Option<T> {
    let mut cx = noop_cx();
    match t.poll_next(&mut cx) {
        Polled::Ready(v) => v,
        Polled::Pending => panic!("no item is queued"),
    }
}

#[test]
fn stream_thread_smoke() {
    let (mut stream_thread, mut worker) = start(
        0,
        |x: &mut i32| {
            *x += 1;
            Some(*x)
        },
        |_: &mut i32| Some(()),
    );
    assert!(worker.step());
    assert_eq!(next(&mut stream_thread), Some(1));
    assert!(worker.step());
    assert_eq!(next(&mut stream_thread), Some(2));
}

#[test]
fn the_worker_stops_when_the_busy_task_gives_up() {
    let (mut stream_thread, mut worker) = start(
        0u8,
        |x: &mut u8| {
            *x += 1;
            if *x <= 2 { Some(*x) } else { None }
        },
        |_: &mut u8| Some(()),
    );
    assert!(worker.step());
    assert_eq!(next(&mut stream_thread), Some(1));
    assert!(worker.step());
    assert_eq!(next(&mut stream_thread), Some(2));
    assert!(!worker.step());
    drop(worker);
    assert_eq!(next(&mut stream_thread), None);
}

#[test]
fn the_idle_task_runs_while_the_queue_has_no_room() {
    let mut state = (0u8, 0u8);
    let mut busy = |s: &mut (u8, u8)| {
        s.0 += 1;
        Some(s.0)
    };
    let mut idle = |s: &mut (u8, u8)| {
        s.1 += 1;
        Some(())
    };
    assert!(matches!(work_step(&mut state, &mut busy, &mut idle, Polled::Pending), StreamStep::Continue));
    assert_eq!(state, (0, 1));
    assert!(matches!(
        work_step(&mut state, &mut busy, &mut idle, Polled::Ready(Ok(()))),
        StreamStep::Send(1)
    ));
    assert_eq!(state, (1, 1));
}

#[test]
fn the_worker_stops_when_the_idle_task_gives_up() {
    let mut state = 0u8;
    let mut busy = |_: &mut u8| Some(1u8);
    let mut idle = |_: &mut u8| None;
    assert!(matches!(work_step(&mut state, &mut busy, &mut idle, Polled::Pending), StreamStep::Stop));
}

#[test]
fn the_worker_stops_once_the_stream_is_released() {
    let (mut stream_thread, mut worker) = start(0u8, |x: &mut u8| Some(*x), |_: &mut u8| Some(()));
    assert!(stream_thread.holds_thread());
    stream_thread.release();
    assert!(!stream_thread.holds_thread());
    assert!(!worker.step());
    assert_eq!(worker.state, 0);
}

#[test]
fn a_released_stream_ends_at_once() {
    let (mut stream_thread, mut worker) = start(0u8, |x: &mut u8| Some(*x), |_: &mut u8| Some(()));
    assert!(worker.step());
    stream_thread.release();
    assert_eq!(next(&mut stream_thread), None);
    assert_eq!(next(&mut stream_thread), None);
}

#[test]
fn a_gone_reader_stops_the_step_without_running_a_task() {
    let (mut sender, receiver) = mpsc::channel::<u8>(1);
    drop(receiver);
    let mut state = 5u8;
    let mut busy = |s: &mut u8| {
        *s += 1;
        Some(*s)
    };
    let mut idle = |s: &mut u8| {
        *s += 1;
        Some(())
    };
    let mut cx = noop_cx();
    let readiness = match sender.poll_ready(&mut cx) {
        Poll::Ready(v) => Polled::Ready(v),
        Poll::Pending => Polled::Pending,
    };
    assert!(matches!(work_step(&mut state, &mut busy, &mut idle, readiness), StreamStep::Stop));
    assert_eq!(state, 5);
}
