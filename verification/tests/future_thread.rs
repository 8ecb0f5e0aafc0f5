use chan_thread::future_thread::{serve, work_step, Request};
use chan_thread::{FutureThread, FutureThreadFuture, Polled, RequestReceiver};
use futures::channel::oneshot;
use futures::executor::block_on;
use std::task::{Context, Poll};

/// The worker's side of a `FutureThread`, stepped by hand by the test.
struct Worker<S, R, F> {
    receiver: RequestReceiver<Request<S, R>>,
    closure: F,
}

impl<S, R, F: FnMut(S) -> R> Worker<S, R, F> {
    fn step(&mut self) -> bool {
        match work_step(&self.receiver, &mut self.closure) {
            Some((value, reply)) => reply.send(value).is_ok(),
            None => false,
        }
    }
}

fn start<S, R, F: FnMut(S) -> R>(closure: F) -> (FutureThread<S, R, ()>, Worker<S, R, F>) {
    let mut parts = None;
    let t = FutureThread::new(closure, |receiver, closure| {
        parts = Some(Worker { receiver, closure });
    });
    (t, parts.unwrap())
}

fn resolve<T>(mut f: FutureThreadFuture<T>) -> Option<T> {
    block_on(futures::future::poll_fn(|cx| match f.poll(cx) {
        Polled::Ready(v) => Poll::Ready(v),
        Polled::Pending => Poll::Pending,
    }))
}

#[test]
fn future_thread_smoke() {
    let (fut_thread, mut worker) = start(|(a, b): (i32, i32)| a + b);
    let call = fut_thread.call((1, 2));
    assert!(worker.step());
    let out = resolve(call);
    assert_eq!(out, Some(3));
}

#[test]
fn calls_are_answered_in_turn() {
    let (fut_thread, mut worker) = start(|x: u64| x * x);
    for i in 0..20u64 {
        let call = fut_thread.call(i);
        assert!(worker.step());
        assert_eq!(resolve(call), Some(i * i));
    }
}

#[test]
fn worker_keeps_its_closure_state_across_calls() {
    let mut total = 0u32;
    let (fut_thread, mut worker) = start(move |x: u32| {
        total += x;
        total
    });
    let first = fut_thread.call(5);
    assert!(worker.step());
    assert_eq!(resolve(first), Some(5));
    let second = fut_thread.call(7);
    assert!(worker.step());
    assert_eq!(resolve(second), Some(12));
}

#[test]
fn releasing_stops_the_worker_after_the_queued_request() {
    let (mut fut_thread, mut worker) = start(|x: u8| x + 1);
    let call = fut_thread.call(1);
    fut_thread.release();
    assert!(worker.step());
    assert_eq!(resolve(call), Some(2));
    assert!(!worker.step());
}

#[test]
fn worker_stops_when_the_caller_dropped_the_answer() {
    let (fut_thread, mut worker) = start(|x: u8| x + 1);
    let call = fut_thread.call(1);
    drop(call);
    assert!(!worker.step());
}

#[test]
fn send_error_future_is_ready_with_none_on_every_poll() {
    let mut f: FutureThreadFuture<u8> = FutureThreadFuture::SendError;
    let waker = futures::task::noop_waker_ref();
    let mut cx = Context::from_waker(waker);
    assert!(matches!(f.poll(&mut cx), Polled::Ready(None)));
    assert!(matches!(f.poll(&mut cx), Polled::Ready(None)));
}

#[test]
fn future_is_send_error_when_the_worker_is_gone() {
    let (fut_thread, worker) = start(|x: u8| x);
    drop(worker);
    let f = fut_thread.call(1u8);
    assert!(matches!(f, FutureThreadFuture::SendError));
}

#[test]
fn future_is_none_when_the_request_is_dropped_unanswered() {
    let (mut fut_thread, worker) = start(|x: u8| x);
    let f = fut_thread.call(1u8);
    assert!(matches!(f, FutureThreadFuture::Receiving(_)));
    drop(worker);
    fut_thread.release();
    assert_eq!(resolve(f), None);
}

#[test]
fn serve_stops_when_nothing_arrives() {
    let mut closure = |x: u8| x;
    assert!(serve::<u8, u8, _>(&mut closure, None).is_none());
}

#[test]
fn serve_hands_back_the_result_with_its_reply_channel() {
    let mut closure = |x: u8| x + 1;
    let (reply, receiver) = oneshot::channel::<u8>();
    let (value, back) = serve(&mut closure, Some((4u8, reply))).unwrap();
    assert_eq!(value, 5);
    back.send(value).unwrap();
    assert_eq!(block_on(receiver), Ok(5));
}

#[test]
fn a_future_waits_exactly_when_its_request_was_sent() {
    let (_reply, receiver) = oneshot::channel::<u8>();
    let f = FutureThreadFuture::after_send::<u8>(Ok(()), receiver);
    assert!(matches!(f, FutureThreadFuture::Receiving(_)));
    let (reply, receiver) = oneshot::channel::<u8>();
    let f = FutureThreadFuture::after_send(Err((1u8, reply)), receiver);
    assert!(matches!(f, FutureThreadFuture::SendError));
}

#[test]
fn a_handle_holds_its_thread_until_released() {
    let (mut fut_thread, _worker) = start(|x: u8| x);
    assert!(fut_thread.holds_thread());
    fut_thread.release();
    assert!(!fut_thread.holds_thread());
}
