//! Fixed-timestep scheduling: wall-clock time in, whole logic ticks out.

use vstd::prelude::*;

verus! {

/// Longest stretch of wall-clock time, in nanoseconds, that a single frame may
/// feed into the accumulator (250 ms).
pub const MAX_FRAME_NANOS: u64 = 250_000_000;

/// The elapsed time that is actually credited for a frame.
pub open spec fn clamped_elapsed(elapsed: u64) -> int {
    if elapsed <= MAX_FRAME_NANOS {
        elapsed as int
    } else {
        MAX_FRAME_NANOS as int
    }
}

/// Accumulator that turns frame durations into a number of fixed-size ticks.
#[derive(Clone, Copy, PartialEq, Eq, Debug, Structural)]
pub struct FrameScheduler {
    timestep: u64,
    accumulator: u64,
}

impl FrameScheduler {
    /// The timestep is positive and the remainder is shorter than one step.
    #[verifier::type_invariant]
    spec fn wf(&self) -> bool {
        0 < self.timestep && self.accumulator < self.timestep
    }

    /// Length of one logic tick in nanoseconds.
    pub closed spec fn spec_timestep(&self) -> u64 {
        self.timestep
    }

    /// Time carried over, in nanoseconds, that has not yet made up a tick.
    pub closed spec fn spec_accumulator(&self) -> u64 {
        self.accumulator
    }

    /// A scheduler with an empty accumulator, or `None` for a zero timestep.
    pub fn new(timestep: u64) -> (r: Option<FrameScheduler>)
        ensures
            timestep == 0 <==> r is None,
            r matches Some(s) ==> s.timestep() == timestep && s.accumulator() == 0,
    {
        if timestep == 0 {
            None
        } else {
            Some(FrameScheduler { timestep, accumulator: 0 })
        }
    }

    /// Length of one logic tick in nanoseconds; it is never zero.
    #[verifier::when_used_as_spec(spec_timestep)]
    pub fn timestep(&self) -> (r: u64)
        ensures
            r == self.spec_timestep(),
            r > 0,
    {
        proof {
            use_type_invariant(self);
        }
        self.timestep
    }

    /// Time carried over, in nanoseconds; it is always less than a tick.
    #[verifier::when_used_as_spec(spec_accumulator)]
    pub fn accumulator(&self) -> (r: u64)
        ensures
            r == self.spec_accumulator(),
            r < self.timestep(),
    {
        proof {
            use_type_invariant(self);
        }
        self.accumulator
    }

    /// Credits `elapsed` nanoseconds, capped at [`MAX_FRAME_NANOS`], and
    /// returns how many whole ticks are now due; the rest stays accumulated.
    pub fn advance(&mut self, elapsed: u64) -> (ticks: u32)
        ensures
            final(self).timestep() == old(self).timestep(),
            old(self).timestep() > 0,
            final(self).accumulator() < final(self).timestep(),
            ticks as int == (old(self).accumulator() + clamped_elapsed(elapsed))
                / (old(self).timestep() as int),
            final(self).accumulator() as int == (old(self).accumulator()
                + clamped_elapsed(elapsed)) % (old(self).timestep() as int),
    {
        proof {
            use_type_invariant(&*self);
        }
        let credited: u64 = if elapsed <= MAX_FRAME_NANOS {
            elapsed
        } else {
            MAX_FRAME_NANOS
        };
        let total: u128 = self.accumulator as u128 + credited as u128;
        let step: u128 = self.timestep as u128;
        let ticks: u128 = total / step;
        let rest: u128 = total % step;
        proof {
            assert(ticks <= total) by (nonlinear_arith)
                requires
                    ticks == total / step,
                    step >= 1,
            ;
            assert(ticks <= MAX_FRAME_NANOS) by (nonlinear_arith)
                requires
                    ticks == total / step,
                    step >= 1,
                    total <= step - 1 + MAX_FRAME_NANOS,
            ;
        }
        self.accumulator = rest as u64;
        ticks as u32
    }
}

} // verus!
