use vstd::prelude::*;

verus! {

/// Length of the pulse that follows a lock, in microseconds.
pub const LOCK_POP_US: u64 = 120_000;

/// Length of the pulse that follows a line clear, in microseconds.
pub const LINE_CLEAR_US: u64 = 200_000;

/// `a - b`, or 0 where `b` exceeds `a`.
pub open spec fn sat_sub_u64(a: u64, b: u64) -> u64 {
    if a >= b {
        (a - b) as u64
    } else {
        0
    }
}

/// Two cosmetic pulses, each with its own decaying timer. They never
/// affect the game.
pub struct Animator {
    lock_pop_timer: u64,
    line_clear_timer: u64,
}

impl Animator {
    /// Time left of the lock pulse, in microseconds.
    pub closed spec fn lock_pop_left(&self) -> u64 {
        self.lock_pop_timer
    }

    /// Time left of the line-clear pulse, in microseconds.
    pub closed spec fn line_clear_left(&self) -> u64 {
        self.line_clear_timer
    }

    pub fn new() -> (a: Self)
        ensures
            a.lock_pop_left() == 0,
            a.line_clear_left() == 0,
    {
        Animator { lock_pop_timer: 0, line_clear_timer: 0 }
    }

    /// Lets `dt` microseconds pass on both pulses.
    pub fn update(&mut self, dt: u64)
        ensures
            final(self).lock_pop_left() == sat_sub_u64(old(self).lock_pop_left(), dt),
            final(self).line_clear_left() == sat_sub_u64(old(self).line_clear_left(), dt),
    {
        self.lock_pop_timer = self.lock_pop_timer.saturating_sub(dt);
        self.line_clear_timer = self.line_clear_timer.saturating_sub(dt);
    }

    pub fn trigger_lock_pop(&mut self)
        ensures
            final(self).lock_pop_left() == LOCK_POP_US,
            final(self).line_clear_left() == old(self).line_clear_left(),
    {
        self.lock_pop_timer = LOCK_POP_US;
    }

    pub fn trigger_line_clear(&mut self)
        ensures
            final(self).line_clear_left() == LINE_CLEAR_US,
            final(self).lock_pop_left() == old(self).lock_pop_left(),
    {
        self.line_clear_timer = LINE_CLEAR_US;
    }

    pub fn lock_pop_remaining(&self) -> (r: u64)
        ensures
            r == self.lock_pop_left(),
    {
        self.lock_pop_timer
    }

    pub fn line_clear_remaining(&self) -> (r: u64)
        ensures
            r == self.line_clear_left(),
    {
        self.line_clear_timer
    }
}

} // verus!
