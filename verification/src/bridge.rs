//! The invocation bridge's waiting policy. A handler may finish on another
//! execution context, so the dispatcher polls the shared response with an
//! exponential backoff and gives up after a fixed bound; it never blocks
//! without bound. The actual sleeping and the readiness probe belong to the
//! caller; this module decides, from the elapsed time, whether to stop,
//! give up, or sleep again and for how long — and proves that the decisions
//! always terminate within the bound plus one maximal backoff.

use vstd::prelude::*;

verus! {

/// The bound on waiting for a handler, in microseconds. A tuning knob, not
/// a correctness one: the dispatcher renders whatever state exists when it
/// expires.
pub const TIMEOUT_MICROS: u64 = 100_000;

/// The first backoff sleep, in microseconds.
pub const INITIAL_DELAY_MICROS: u64 = 10;

/// The backoff cap, in microseconds: sleeps double up to here.
pub const MAX_DELAY_MICROS: u64 = 2_000;

/// What the dispatcher should do next while waiting on a handler.
#[derive(Clone, Copy, PartialEq, Eq, Structural, Debug)]
pub enum WaitStep {
    /// The response is ready: stop waiting and render it.
    Ready,
    /// The bound is spent: abandon the wait (not the handler) and render
    /// whatever state exists.
    TimedOut,
    /// Sleep this many microseconds, then ask again.
    Sleep(u64),
}

/// The wait's bookkeeping: how long the dispatcher has waited so far and
/// how long the next sleep would be.
pub struct WaitPlan {
    pub elapsed_micros: u64,
    pub delay_micros: u64,
}

impl WaitPlan {
    /// The plan's invariant: the next sleep lies between the initial and
    /// maximal backoff, and the waited time never exceeds the bound by more
    /// than one maximal backoff.
    pub open spec fn wf(self) -> bool {
        &&& INITIAL_DELAY_MICROS <= self.delay_micros <= MAX_DELAY_MICROS
        &&& self.elapsed_micros <= TIMEOUT_MICROS + MAX_DELAY_MICROS
    }

    /// A fresh wait: nothing elapsed, the first backoff pending.
    pub fn new() -> (r: WaitPlan)
        ensures
            r.wf(),
            r.elapsed_micros == 0,
            r.delay_micros == INITIAL_DELAY_MICROS,
    {
        WaitPlan { elapsed_micros: 0, delay_micros: INITIAL_DELAY_MICROS }
    }

    /// One waiting decision, given whether the response is ready: ready
    /// stops at once; an exhausted bound gives up; otherwise the caller is
    /// told to sleep the current backoff, which is accounted for and then
    /// doubled up to the cap.
    pub fn step(&mut self, ready: bool) -> (r: WaitStep)
        requires
            old(self).wf(),
        ensures
            final(self).wf(),
            ready ==> r == WaitStep::Ready && *final(self) == *old(self),
            !ready && old(self).elapsed_micros >= TIMEOUT_MICROS ==> r == WaitStep::TimedOut
                && *final(self) == *old(self),
            !ready && old(self).elapsed_micros < TIMEOUT_MICROS ==> ({
                &&& r == WaitStep::Sleep(old(self).delay_micros)
                &&& final(self).elapsed_micros == old(self).elapsed_micros + old(
                    self,
                ).delay_micros
                &&& final(self).delay_micros == (if 2 * old(self).delay_micros
                    > MAX_DELAY_MICROS {
                    MAX_DELAY_MICROS as int
                } else {
                    2 * old(self).delay_micros
                })
            }),
    {
        if ready {
            return WaitStep::Ready;
        }
        if self.elapsed_micros >= TIMEOUT_MICROS {
            return WaitStep::TimedOut;
        }
        let delay = self.delay_micros;
        self.elapsed_micros = self.elapsed_micros + delay;
        let doubled = 2 * delay;
        self.delay_micros = if doubled > MAX_DELAY_MICROS {
            MAX_DELAY_MICROS
        } else {
            doubled
        };
        WaitStep::Sleep(delay)
    }
}

/// A handler that never reports ready cannot stall the dispatcher: stepping
/// the plan without readiness reaches `TimedOut` after finitely many sleeps
/// — the loop below terminates — and the accounted wait stays within the
/// bound plus one maximal backoff.
pub fn wait_out(plan: &mut WaitPlan)
    requires
        old(plan).wf(),
    ensures
        final(plan).wf(),
        TIMEOUT_MICROS <= final(plan).elapsed_micros <= TIMEOUT_MICROS + MAX_DELAY_MICROS,
{
    loop
        invariant
            plan.wf(),
        ensures
            plan.wf(),
            plan.elapsed_micros >= TIMEOUT_MICROS,
        decreases TIMEOUT_MICROS + MAX_DELAY_MICROS - plan.elapsed_micros,
    {
        let step = plan.step(false);
        if step == WaitStep::TimedOut {
            break;
        }
    }
}

} // verus!
