use chan_thread::{unblock_poll_fn, Polled};
use std::task::{Context, Poll};

fn noop_cx() -> Context<'static> {
    Context::from_waker(futures::task::noop_waker_ref())
}

#[test]
fn a_pending_closure_makes_a_ready_future() {
    let mut calls = 0;
    let mut f = unblock_poll_fn(|_: &mut Context| {
        calls += 1;
        Poll::<u8>::Pending
    });
    let mut cx = noop_cx();
    assert!(matches!(f.poll(&mut cx), Polled::Ready(Poll::Pending)));
    drop(f);
    assert_eq!(calls, 1);
}

#[test]
fn a_ready_closure_passes_its_value_through() {
    let mut f = unblock_poll_fn(|_: &mut Context| Poll::Ready(7u8));
    let mut cx = noop_cx();
    assert!(matches!(f.poll(&mut cx), Polled::Ready(Poll::Ready(7))));
    assert!(matches!(f.poll(&mut cx), Polled::Ready(Poll::Ready(7))));
}
