//! The cycle clock: the system's only notion of time.  Wall-clock
//! durations become exact whole tick counts at the fixed clock rate, and a
//! timed wait accumulates the core's own step reports until its target is
//! reached — deterministic emulated time in place of sleeping.

use vstd::prelude::*;

verus! {

/// Ticks of the emulated clock per second of emulated time.
pub const CYCLES_PER_SECOND: u64 = 4194304;

/// Greatest tick target the accumulator accepts: one more step of at most
/// `u32::MAX` ticks must still fit in a `u64` total.
pub const MAX_TICK_TARGET: u64 = 0xFFFF_FFFE_FFFF_FFFF;

/// Number of clock ticks in a duration of `ds` tenths of a second, rounded
/// to the nearest whole tick.  Every duration entering the system goes
/// through this conversion; no fractional tick exists anywhere.
pub open spec fn ticks_of_deciseconds(ds: nat) -> nat {
    (ds * (CYCLES_PER_SECOND as nat) + 5) / 10
}

/// Convert a duration in tenths of a second to whole clock ticks.
pub fn ticks_for_deciseconds(ds: u32) -> (t: u64)
    ensures
        t == ticks_of_deciseconds(ds as nat),
        t <= MAX_TICK_TARGET,
{
    ((ds as u64) * CYCLES_PER_SECOND + 5) / 10
}

/// A whole number of seconds needs no rounding: it is exactly that many
/// multiples of the clock rate.
pub proof fn lemma_whole_seconds_exact(s: nat)
    ensures
        ticks_of_deciseconds(10 * s) == s * (CYCLES_PER_SECOND as nat),
{
    assert(CYCLES_PER_SECOND == 4194304);
    assert((10 * s * 4194304 + 5) / 10 == s * 4194304) by (nonlinear_arith);
}

/// Progress of one timed wait: the emulation core is stepped repeatedly,
/// each step reporting how many ticks it executed, until the accumulated
/// total reaches the target.  The core decides each step's tick count; this
/// accumulator decides when the wait is over.
pub struct Advance {
    target: u64,
    total: u64,
    last: u32,
}

impl Advance {
    /// The tick count this wait must reach.
    pub closed spec fn target(&self) -> u64 {
        self.target
    }

    /// Ticks accumulated so far.
    pub closed spec fn total(&self) -> u64 {
        self.total
    }

    /// Tick count of the most recently recorded step.
    pub closed spec fn last(&self) -> u64 {
        self.last as u64
    }

    /// Every reachable state: before its final recorded step the total was
    /// still short of the target, so the total can overshoot the target by
    /// less than one step.
    pub closed spec fn wf(&self) -> bool {
        &&& self.target <= MAX_TICK_TARGET
        &&& (self.total == 0 || self.total - self.last < self.target)
    }

    /// Begin a wait for `target` ticks.
    pub fn new(target: u64) -> (w: Advance)
        requires
            target <= MAX_TICK_TARGET,
        ensures
            w.wf(),
            w.target() == target,
            w.total() == 0,
    {
        Advance { target, total: 0, last: 0 }
    }

    /// Ticks accumulated so far: the wait's observable result.
    pub fn elapsed(&self) -> (t: u64)
        ensures
            t == self.total(),
    {
        self.total
    }

    /// Tick count of the most recently recorded step, the bound on how far
    /// a finished wait can overshoot its target.
    pub fn last_step(&self) -> (t: u32)
        ensures
            t == self.last(),
    {
        self.last
    }

    /// Has the accumulated total reached the target?
    pub fn done(&self) -> (b: bool)
        ensures
            b == (self.total() >= self.target()),
    {
        self.total >= self.target
    }

    /// Record that one emulation step executed `ticks` ticks.
    pub fn record(&mut self, ticks: u32)
        requires
            old(self).wf(),
            old(self).total() < old(self).target(),
        ensures
            final(self).wf(),
            final(self).target() == old(self).target(),
            final(self).total() == old(self).total() + ticks,
            final(self).last() == ticks,
    {
        self.total = self.total + ticks as u64;
        self.last = ticks;
    }
}

/// A finished wait never undershoots its target and overshoots it by no
/// more than the final step's own tick count: the emulated clock advances
/// by at least the target and by less than one full step beyond it.
pub proof fn lemma_bounded_overshoot(w: Advance)
    requires
        w.wf(),
        w.total() >= w.target(),
    ensures
        w.target() <= w.total(),
        w.total() <= w.target() + w.last(),
{
}

} // verus!
