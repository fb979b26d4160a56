//! A repeating interval timer driven by accumulated frame time.
use vstd::prelude::*;

verus! {

/// Nanoseconds in one second.
pub const NANOS_PER_SEC: u64 = 1_000_000_000;

/// A repeating timer: frame deltas accumulate into `elapsed_ns`, and each
/// time the total reaches `period_ns` the timer fires and keeps the rest.
#[derive(Clone, Copy, Debug, PartialEq, Eq, Structural)]
pub struct PatternAnimationTimer {
    pub elapsed_ns: u64,
    pub period_ns: u64,
}

/// The timer `t` after a frame of `delta` nanoseconds, and whether it fired.
pub open spec fn tick_step(t: PatternAnimationTimer, delta: u64) -> (PatternAnimationTimer, bool) {
    let total = t.elapsed_ns + delta;
    if total >= t.period_ns {
        (PatternAnimationTimer { elapsed_ns: (total % (t.period_ns as int)) as u64, ..t }, true)
    } else {
        (PatternAnimationTimer { elapsed_ns: total as u64, ..t }, false)
    }
}

impl PatternAnimationTimer {
    /// Well formed: a positive period, and less than one period accumulated.
    pub open spec fn wf(&self) -> bool {
        0 < self.period_ns && self.elapsed_ns < self.period_ns
    }

    /// A timer with the given period and nothing accumulated.
    pub fn new(period_ns: u64) -> (r: PatternAnimationTimer)
        requires
            period_ns > 0,
        ensures
            r.wf(),
            r.elapsed_ns == 0,
            r.period_ns == period_ns,
    {
        PatternAnimationTimer { elapsed_ns: 0, period_ns }
    }

    /// Adds a frame of `delta_ns` nanoseconds; returns whether the timer
    /// fired in this frame.
    pub fn tick(&mut self, delta_ns: u64) -> (fired: bool)
        requires
            old(self).wf(),
        ensures
            final(self).wf(),
            (*final(self), fired) == tick_step(*old(self), delta_ns),
    {
        let total: u128 = self.elapsed_ns as u128 + delta_ns as u128;
        let period: u128 = self.period_ns as u128;
        if total >= period {
            let rest: u128 = total % period;
            self.elapsed_ns = rest as u64;
            true
        } else {
            self.elapsed_ns = total as u64;
            false
        }
    }

    /// Restarts the current period from zero.
    pub fn reset(&mut self)
        ensures
            *final(self) == (PatternAnimationTimer { elapsed_ns: 0, ..*old(self) }),
    {
        self.elapsed_ns = 0;
    }
}

} // verus!
