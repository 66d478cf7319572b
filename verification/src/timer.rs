use vstd::prelude::*;

verus! {

/// A repeating countdown over integer time units. Each `tick` adds the
/// elapsed delta; when the accumulated time reaches the interval, the timer
/// reports a completion for that tick and keeps the overshoot, so a delta
/// larger than the interval does not lose time.
#[derive(Clone, Copy, PartialEq, Eq, Structural, Debug)]
pub struct RepeatTimer {
    /// Length of the repeating interval; always positive.
    pub duration: u64,
    /// Time accumulated since the last completion; always below `duration`.
    pub elapsed: u64,
    /// Whether the interval completed during the most recent `tick`.
    pub finished_this_tick: bool,
}

impl RepeatTimer {
    /// Well-formedness: the interval is positive and the accumulated time has
    /// not yet reached it.
    pub open spec fn wf(self) -> bool {
        self.duration > 0 && self.elapsed < self.duration
    }

    /// A fresh timer with the given interval, no accumulated time, and no
    /// completion reported.
    pub fn new(duration: u64) -> (t: RepeatTimer)
        requires
            duration > 0,
        ensures
            t == (RepeatTimer { duration, elapsed: 0, finished_this_tick: false }),
    {
        RepeatTimer { duration, elapsed: 0, finished_this_tick: false }
    }

    /// The timer after adding `delta` time units: the interval completes
    /// exactly when the accumulated time reaches `duration`, and the
    /// accumulated time wraps to the remainder.
    pub open spec fn spec_tick(self, delta: u64) -> RepeatTimer {
        RepeatTimer {
            duration: self.duration,
            elapsed: ((self.elapsed + delta) % (self.duration as int)) as u64,
            finished_this_tick: self.elapsed + delta >= self.duration,
        }
    }

    /// Advance the countdown by `delta` time units.
    pub fn tick(&mut self, delta: u64)
        requires
            old(self).wf(),
            old(self).elapsed + delta <= u64::MAX,
        ensures
            *final(self) == old(self).spec_tick(delta),
            final(self).wf(),
    {
        let total: u64 = self.elapsed + delta;
        self.finished_this_tick = total >= self.duration;
        self.elapsed = total % self.duration;
    }

    /// Whether the interval completed during the most recent `tick`.
    pub fn just_finished(&self) -> (r: bool)
        ensures
            r == self.finished_this_tick,
    {
        self.finished_this_tick
    }
}

/// Ticking a well-formed timer keeps it well formed, for any delta.
pub proof fn lemma_tick_preserves_wf(t: RepeatTimer, delta: u64)
    requires
        t.wf(),
    ensures
        t.spec_tick(delta).wf(),
{
    assert((t.elapsed + delta) % (t.duration as int) < t.duration as int) by (nonlinear_arith)
        requires t.duration > 0;
    assert((t.elapsed + delta) % (t.duration as int) >= 0) by (nonlinear_arith)
        requires t.duration > 0;
}

} // verus!
