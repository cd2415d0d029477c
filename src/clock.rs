use vstd::prelude::*;
use crate::rules::{interval_spec, Rules, MIN_INTERVAL_US};

verus! {

/// `a + b`, or `u64::MAX` where the sum does not fit.
pub open spec fn sat_add_u64(a: u64, b: int) -> u64 {
    if a + b > u64::MAX {
        u64::MAX
    } else {
        (a + b) as u64
    }
}

/// Accumulates elapsed time against the level's gravity interval.
pub struct Clock {
    accumulator: u64,
    interval: u64,
}

impl Clock {
    /// Time accumulated towards the next tick, in microseconds.
    pub closed spec fn accumulated(&self) -> u64 {
        self.accumulator
    }

    /// Current gravity interval, in microseconds.
    pub closed spec fn interval(&self) -> u64 {
        self.interval
    }

    pub open spec fn wf(&self) -> bool {
        self.interval() >= MIN_INTERVAL_US
    }

    pub fn new(level: u32) -> (c: Self)
        ensures
            c.accumulated() == 0,
            c.interval() == interval_spec(level as nat),
            c.wf(),
    {
        proof {
            crate::rules::lemma_interval_curve(level as nat);
        }
        Clock { accumulator: 0, interval: Rules::gravity_interval(level) }
    }

    /// Re-derives the interval for `level`; the accumulated time is kept.
    pub fn set_level(&mut self, level: u32)
        ensures
            final(self).accumulated() == old(self).accumulated(),
            final(self).interval() == interval_spec(level as nat),
            final(self).wf(),
    {
        proof {
            crate::rules::lemma_interval_curve(level as nat);
        }
        self.interval = Rules::gravity_interval(level);
    }

    /// Adds `dt` microseconds (saturating); when a whole interval has
    /// accumulated, takes one interval off and reports a tick. At most one
    /// tick per call: any further backlog stays for the next call.
    pub fn tick(&mut self, dt: u64) -> (ticked: bool)
        ensures
            final(self).interval() == old(self).interval(),
            ticked == (sat_add_u64(old(self).accumulated(), dt as int) >= old(self).interval()),
            final(self).accumulated() == if ticked {
                sat_add_u64(old(self).accumulated(), dt as int) - old(self).interval()
            } else {
                sat_add_u64(old(self).accumulated(), dt as int) as int
            },
    {
        self.accumulator = self.accumulator.saturating_add(dt);
        if self.accumulator >= self.interval {
            self.accumulator = self.accumulator - self.interval;
            true
        } else {
            false
        }
    }
}

} // verus!
