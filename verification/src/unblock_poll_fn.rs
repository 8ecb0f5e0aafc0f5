//! A future that polls a closure exactly once and is ready with whatever the
//! closure returned, pending or not: it lets a blocking executor ask a
//! non-blocking question ("is the channel ready?") without waiting for the
//! answer to become yes.
use crate::polled::Polled;
use vstd::prelude::*;

verus! {

/// The future made by `unblock_poll_fn`.
pub struct UnblockPollFn<F> {
    f: F,
}

/// A future that polls `f` once and is ready with its result.
pub fn unblock_poll_fn<T, F: FnMut(&mut core::task::Context) -> core::task::Poll<T>>(f: F) -> (u: UnblockPollFn<F>)
    ensures
        u.poll_fn() == f,
{
    UnblockPollFn { f }
}

impl<F> UnblockPollFn<F> {
    /// The closure that the future polls.
    pub closed spec fn poll_fn(&self) -> F {
        self.f
    }

    /// Polls the closure with `cx`; the future is ready at once with the
    /// closure's result, whether that result is ready or pending.
    pub fn poll<T>(&mut self, cx: &mut core::task::Context) -> (r: Polled<core::task::Poll<T>>) where
        F: FnMut(&mut core::task::Context) -> core::task::Poll<T>,
        requires
            forall|c: &mut core::task::Context| #[trigger] old(self).poll_fn().requires((c,)),
        ensures
            r is Ready,
            exists|c: &mut core::task::Context| #[trigger] call_ensures(
                old(self).poll_fn(),
                (c,),
                r->Ready_0,
            ) && *c == *old(cx) && *final(c) == *final(cx),
    {
        assert(old(self).poll_fn() == old(self).f);
        let out = (self.f)(cx);
        let r = Polled::Ready(out);
        assert(r->Ready_0 == out);
        r
    }
}

} // verus!
