use vstd::prelude::*;
use crate::anim::{sat_sub_u64, Animator, LINE_CLEAR_US, LOCK_POP_US};
use crate::board::{clears_into, lemma_fit_bounds, lemma_lift_needs_grid, locks_into, Board};
use crate::clock::{sat_add_u64, Clock};
use crate::piece::Piece;
use crate::rng::{all_kinds, draw_step, BagRandomizer};
use crate::rules::{first_kick_from, interval_spec, kick, kick_result, score_spec, Rules};
use crate::settings::{GameState, Settings, ThemeType};

verus! {

/// Grace period between a piece touching down and its lock, in microseconds.
pub const LOCK_DELAY_US: u64 = 500_000;

/// `a + b`, or `u32::MAX` where the sum does not fit.
pub open spec fn sat_add_u32(a: u32, b: int) -> u32 {
    if a + b > u32::MAX {
        u32::MAX
    } else {
        (a + b) as u32
    }
}

/// The anchor stays near the board, so that no coordinate can overflow.
pub open spec fn in_area(p: Piece) -> bool {
    -4 <= p.x <= 10 && -4 <= p.y <= 21
}

/// One game: the board, the active, next and held pieces, the randomizer,
/// the gravity clock, the counters and the lock-delay timer.
pub struct TetrisApp {
    pub board: Board,
    pub current_piece: Piece,
    pub next_piece: Piece,
    pub hold_piece: Option<Piece>,
    pub can_hold: bool,
    pub state: GameState,
    pub settings: Settings,
    pub clock: Clock,
    pub rng: BagRandomizer,
    pub animator: Animator,
    pub score: u64,
    pub level: u32,
    pub lines: u32,
    /// Lock delay left, in microseconds; present only while the active
    /// piece rests on something.
    pub lock_timer: Option<u64>,
}

/// `post` is `pre` after a spawn: the next piece becomes the active one at
/// the spawn anchor, a new next piece is drawn, hold is enabled again, and
/// the game is over when the new active piece does not fit.
pub open spec fn spawn_step(pre: TetrisApp, post: TetrisApp) -> bool {
    let cur = Piece::spawned(pre.next_piece.shape);
    &&& post.next_piece == Piece::spawned(post.next_piece.shape)
    &&& draw_step(pre.rng@, post.next_piece.shape, post.rng@)
    &&& post == TetrisApp {
        current_piece: cur,
        next_piece: post.next_piece,
        rng: post.rng,
        can_hold: true,
        state: if pre.board.fits(cur, 0, 0) {
            pre.state
        } else {
            GameState::GameOver
        },
        ..pre
    }
}

/// `mid` is `pre` after `n` rows were cleared on its (already updated)
/// board: counters, level, clock and pulses updated, lock timer cleared.
pub open spec fn cleared_state(pre: TetrisApp, mid: TetrisApp, n: u32) -> bool {
    let lines = sat_add_u32(pre.lines, n as int);
    let level = if n > 0 {
        (lines / 10) as u32
    } else {
        pre.level
    };
    &&& mid.clock.accumulated() == pre.clock.accumulated()
    &&& mid.clock.interval() == if n > 0 {
        interval_spec(level as nat) as u64
    } else {
        pre.clock.interval()
    }
    &&& mid.animator.lock_pop_left() == LOCK_POP_US
    &&& mid.animator.line_clear_left() == if n > 0 {
        LINE_CLEAR_US
    } else {
        pre.animator.line_clear_left()
    }
    &&& mid == TetrisApp {
        board: mid.board,
        lines,
        score: sat_add_u64(pre.score, score_spec(n, pre.level) as int),
        level,
        clock: mid.clock,
        animator: mid.animator,
        lock_timer: None,
        ..pre
    }
}

/// `post` is `pre` after its active piece was locked: the piece written into
/// the board, full rows cleared and scored, then a spawn.
pub open spec fn lock_step(pre: TetrisApp, post: TetrisApp) -> bool {
    exists|b1: Board, mid: TetrisApp, n: u32|
        {
            &&& locks_into(pre.board, pre.current_piece, b1)
            &&& clears_into(b1, mid.board, n)
            &&& cleared_state(pre, mid, n)
            &&& spawn_step(mid, post)
        }
}

/// The fall of a hard drop: every move down by 1..=d fits, d + 1 does not.
pub open spec fn landed(b: Board, p: Piece, d: int) -> bool {
    &&& 0 <= d
    &&& forall|j: int| 1 <= j <= d ==> #[trigger] b.fits(p, 0, j)
    &&& !b.fits(p, 0, d + 1)
}

/// `post` is `pre` with the active piece moved by (dx, dy) when that move
/// fits, and `pre` unchanged otherwise.
pub open spec fn shift_step(pre: TetrisApp, post: TetrisApp, dx: int, dy: int) -> bool {
    post == if pre.board.fits(pre.current_piece, dx, dy) {
        TetrisApp { current_piece: pre.current_piece.moved(dx, dy), ..pre }
    } else {
        pre
    }
}

/// `post` is `pre` with the active piece replaced by the wall-kicked
/// `rotated` one, or `pre` unchanged when no kick fits.
pub open spec fn rotate_step(pre: TetrisApp, rotated: Piece, post: TetrisApp) -> bool {
    post == match kick_result(pre.board, rotated) {
        Some(q) => TetrisApp { current_piece: q, ..pre },
        None => pre,
    }
}

/// Gravity part of a time advance: the clock takes `dt`; on a tick the
/// active piece moves down one row when that fits, which clears the lock
/// timer.
pub open spec fn gravity_stage(pre: TetrisApp, post: TetrisApp, dt: u64) -> bool {
    let total = sat_add_u64(pre.clock.accumulated(), dt as int);
    let ticked = total >= pre.clock.interval();
    &&& post.clock.interval() == pre.clock.interval()
    &&& post.clock.accumulated() == if ticked {
        total - pre.clock.interval()
    } else {
        total as int
    }
    &&& post == if ticked && pre.board.fits(pre.current_piece, 0, 1) {
        TetrisApp {
            current_piece: pre.current_piece.moved(0, 1),
            lock_timer: None,
            clock: post.clock,
            ..pre
        }
    } else {
        TetrisApp { clock: post.clock, ..pre }
    }
}

/// Lock-delay part of a time advance, from the position after gravity. A
/// piece that can fall has no timer. A grounded one starts the timer, or
/// spends `dt` of it, and is locked once it runs out.
pub open spec fn delay_stage(pre: TetrisApp, post: TetrisApp, dt: u64) -> bool {
    if pre.board.fits(pre.current_piece, 0, 1) {
        post == TetrisApp { lock_timer: None, ..pre }
    } else {
        match pre.lock_timer {
            None => post == TetrisApp { lock_timer: Some(LOCK_DELAY_US), ..pre },
            Some(t) => if t <= dt {
                lock_step(pre, post)
            } else {
                post == TetrisApp { lock_timer: Some((t - dt) as u64), ..pre }
            },
        }
    }
}

/// Pulse part of a time advance: both cosmetic timers spend `dt`.
pub open spec fn pulse_stage(pre: TetrisApp, post: TetrisApp, dt: u64) -> bool {
    &&& post.animator.lock_pop_left() == sat_sub_u64(pre.animator.lock_pop_left(), dt)
    &&& post.animator.line_clear_left() == sat_sub_u64(pre.animator.line_clear_left(), dt)
    &&& post == TetrisApp { animator: post.animator, ..pre }
}

impl TetrisApp {
    pub open spec fn wf(&self) -> bool {
        &&& self.current_piece.wf()
        &&& in_area(self.current_piece)
        &&& self.next_piece == Piece::spawned(self.next_piece.shape)
        &&& (self.hold_piece matches Some(h) ==> h == Piece::spawned(h.shape))
        &&& self.rng.wf()
        &&& self.clock.wf()
    }

    pub open spec fn playing(&self) -> bool {
        self.state == GameState::Playing
    }

    /// A session showing the menu, with a fresh game prepared.
    pub fn new() -> (g: Self)
        ensures
            g.wf(),
            g.state == GameState::Menu,
            g.board.is_empty(),
            g.current_piece == Piece::spawned(g.current_piece.shape),
            g.rng@.len() == 5,
            g.rng@.push(g.next_piece.shape).push(g.current_piece.shape).to_multiset()
                == all_kinds().to_multiset(),
            g.hold_piece.is_none(),
            g.can_hold,
            g.score == 0 && g.level == 0 && g.lines == 0,
            g.lock_timer.is_none(),
            g.clock.accumulated() == 0,
            g.clock.interval() == interval_spec(0),
            g.animator.lock_pop_left() == 0 && g.animator.line_clear_left() == 0,
            g.settings.show_ghost && g.settings.show_grid && !g.settings.colorblind_mode,
            g.settings.theme == ThemeType::Neon,
    {
        let mut rng = BagRandomizer::new();
        let ghost full = rng@;
        let first = rng.next();
        let ghost after_first = rng@;
        let second = rng.next();
        proof {
            assert(full =~= after_first.push(first));
            assert(after_first =~= rng@.push(second));
        }
        let settings = Settings::default();
        TetrisApp {
            board: Board::new(),
            current_piece: Piece::new(first),
            next_piece: Piece::new(second),
            hold_piece: None,
            can_hold: true,
            state: GameState::Menu,
            settings,
            clock: Clock::new(0),
            rng,
            animator: Animator::new(),
            score: 0,
            level: 0,
            lines: 0,
            lock_timer: None,
        }
    }

    /// Starts a new game: empty board, fresh randomizer and clock, counters
    /// at zero, nothing held. Settings and pulses are kept.
    pub fn reset(&mut self)
        ensures
            final(self).wf(),
            final(self).state == GameState::Playing,
            final(self).board.is_empty(),
            final(self).current_piece == Piece::spawned(final(self).current_piece.shape),
            final(self).rng@.len() == 5,
            final(self).rng@.push(final(self).next_piece.shape).push(
                final(self).current_piece.shape,
            ).to_multiset() == all_kinds().to_multiset(),
            final(self).hold_piece.is_none(),
            final(self).can_hold,
            final(self).score == 0 && final(self).level == 0 && final(self).lines == 0,
            final(self).lock_timer.is_none(),
            final(self).clock.accumulated() == 0,
            final(self).clock.interval() == interval_spec(0),
            final(self).settings == old(self).settings,
            final(self).animator == old(self).animator,
    {
        self.board = Board::new();
        self.rng = BagRandomizer::new();
        let ghost full = self.rng@;
        let first = self.rng.next();
        let ghost after_first = self.rng@;
        let second = self.rng.next();
        proof {
            assert(full =~= after_first.push(first));
            assert(after_first =~= self.rng@.push(second));
        }
        self.current_piece = Piece::new(first);
        self.next_piece = Piece::new(second);
        self.hold_piece = None;
        self.can_hold = true;
        self.score = 0;
        self.level = 0;
        self.lines = 0;
        self.lock_timer = None;
        self.clock = Clock::new(0);
        self.state = GameState::Playing;
    }

    /// Lets `dt` microseconds of play pass: gravity first, then the lock
    /// delay from the position gravity left, then the cosmetic pulses.
    pub fn advance(&mut self, dt: u64)
        requires
            old(self).wf(),
        ensures
            final(self).wf(),
            old(self).playing() ==> exists|s1: TetrisApp, s2: TetrisApp|
                gravity_stage(*old(self), s1, dt) && delay_stage(s1, s2, dt) && pulse_stage(
                    s2,
                    *final(self),
                    dt,
                ),
            !old(self).playing() ==> *final(self) == *old(self),
    {
        if self.state != GameState::Playing {
            return;
        }
        if self.clock.tick(dt) {
            if self.board.can_move(&self.current_piece, 0, 1) {
                proof {
                    lemma_fit_bounds(self.board, self.current_piece, 0, 1);
                }
                self.current_piece.y += 1;
                self.lock_timer = None;
            }
        }
        let ghost s1 = *self;
        if !self.board.can_move(&self.current_piece, 0, 1) {
            match self.lock_timer {
                Some(t) => {
                    if t <= dt {
                        self.lock_piece();
                    } else {
                        self.lock_timer = Some(t - dt);
                    }
                },
                None => {
                    self.lock_timer = Some(LOCK_DELAY_US);
                },
            }
        } else {
            self.lock_timer = None;
        }
        let ghost s2 = *self;
        self.animator.update(dt);
        assert(gravity_stage(*old(self), s1, dt) && delay_stage(s1, s2, dt) && pulse_stage(
            s2,
            *self,
            dt,
        ));
    }

    /// Moves the active piece one column to the left when that fits.
    pub fn move_left(&mut self)
        requires
            old(self).wf(),
        ensures
            final(self).wf(),
            old(self).playing() ==> shift_step(*old(self), *final(self), -1, 0),
            !old(self).playing() ==> *final(self) == *old(self),
    {
        self.shift(-1);
    }

    /// Moves the active piece one column to the right when that fits.
    pub fn move_right(&mut self)
        requires
            old(self).wf(),
        ensures
            final(self).wf(),
            old(self).playing() ==> shift_step(*old(self), *final(self), 1, 0),
            !old(self).playing() ==> *final(self) == *old(self),
    {
        self.shift(1);
    }

    fn shift(&mut self, dx: i32)
        requires
            old(self).wf(),
            dx == -1 || dx == 1,
        ensures
            final(self).wf(),
            old(self).playing() ==> shift_step(*old(self), *final(self), dx as int, 0),
            !old(self).playing() ==> *final(self) == *old(self),
    {
        if self.state != GameState::Playing {
            return;
        }
        if self.board.can_move(&self.current_piece, dx, 0) {
            proof {
                lemma_fit_bounds(self.board, self.current_piece, dx as int, 0);
            }
            self.current_piece.x += dx;
        }
    }

    /// Moves the active piece one row down when that fits, for one point.
    pub fn soft_drop(&mut self)
        requires
            old(self).wf(),
        ensures
            final(self).wf(),
            *final(self) == if old(self).playing() && old(self).board.fits(
                old(self).current_piece,
                0,
                1,
            ) {
                TetrisApp {
                    current_piece: old(self).current_piece.moved(0, 1),
                    score: sat_add_u64(old(self).score, 1),
                    ..*old(self)
                }
            } else {
                *old(self)
            },
    {
        if self.state != GameState::Playing {
            return;
        }
        if self.board.can_move(&self.current_piece, 0, 1) {
            proof {
                lemma_fit_bounds(self.board, self.current_piece, 0, 1);
            }
            self.current_piece.y += 1;
            self.score = self.score.saturating_add(1);
        }
    }

    /// Drops the active piece as far as it falls, two points per row, and
    /// locks it at once.
    pub fn hard_drop(&mut self)
        requires
            old(self).wf(),
        ensures
            final(self).wf(),
            old(self).playing() ==> exists|d: int|
                landed(old(self).board, old(self).current_piece, d) && lock_step(
                    TetrisApp {
                        current_piece: old(self).current_piece.moved(0, d),
                        score: sat_add_u64(old(self).score, 2 * d),
                        ..*old(self)
                    },
                    *final(self),
                ),
            !old(self).playing() ==> *final(self) == *old(self),
    {
        if self.state != GameState::Playing {
            return;
        }
        let d = self.board.drop_distance(&self.current_piece);
        self.current_piece.y += d as i32;
        self.score = self.score.saturating_add(2 * d as u64);
        let ghost dropped = *self;
        self.lock_piece();
        assert(landed(old(self).board, old(self).current_piece, d as int));
        assert(dropped == TetrisApp {
            current_piece: old(self).current_piece.moved(0, d as int),
            score: sat_add_u64(old(self).score, 2 * d),
            ..*old(self)
        });
    }

    /// Turns the active piece a quarter clockwise, with wall kicks; nothing
    /// changes when no kick fits.
    pub fn rotate_cw(&mut self)
        requires
            old(self).wf(),
        ensures
            final(self).wf(),
            old(self).playing() ==> rotate_step(
                *old(self),
                old(self).current_piece.turned(((old(self).current_piece.rotation + 1) % 4) as usize),
                *final(self),
            ),
            !old(self).playing() ==> *final(self) == *old(self),
    {
        if self.state != GameState::Playing {
            return;
        }
        let rotated = self.current_piece.rotated_cw();
        self.apply_kick(rotated);
    }

    /// Turns the active piece a quarter counter-clockwise, with wall kicks;
    /// nothing changes when no kick fits.
    pub fn rotate_ccw(&mut self)
        requires
            old(self).wf(),
        ensures
            final(self).wf(),
            old(self).playing() ==> rotate_step(
                *old(self),
                old(self).current_piece.turned(((old(self).current_piece.rotation + 3) % 4) as usize),
                *final(self),
            ),
            !old(self).playing() ==> *final(self) == *old(self),
    {
        if self.state != GameState::Playing {
            return;
        }
        let rotated = self.current_piece.rotated_ccw();
        self.apply_kick(rotated);
    }

    fn apply_kick(&mut self, rotated: Piece)
        requires
            old(self).wf(),
            rotated.wf(),
            in_area(rotated),
        ensures
            final(self).wf(),
            rotate_step(*old(self), rotated, *final(self)),
    {
        let kicked = Rules::try_wall_kick(&self.board, &rotated);
        if let Some(q) = kicked {
            proof {
                reveal_with_fuel(first_kick_from, 7);
                let i = first_kick_from(self.board, rotated, 0)->Some_0;
                lemma_fit_bounds(self.board, rotated, kick(i).0, kick(i).1);
                if i == 5 {
                    lemma_lift_needs_grid(self.board, rotated);
                }
            }
            self.current_piece = q;
        }
    }

    /// Puts the active piece's kind on hold, once per spawned piece. A held
    /// kind comes back at the spawn anchor in exchange; with nothing held
    /// yet, the next piece is spawned instead.
    pub fn hold(&mut self)
        requires
            old(self).wf(),
        ensures
            final(self).wf(),
            old(self).playing() && old(self).can_hold ==> match old(self).hold_piece {
                Some(h) => *final(self) == TetrisApp {
                    current_piece: Piece::spawned(h.shape),
                    hold_piece: Some(Piece::spawned(old(self).current_piece.shape)),
                    can_hold: false,
                    ..*old(self)
                },
                None => spawn_step(
                    TetrisApp {
                        hold_piece: Some(Piece::spawned(old(self).current_piece.shape)),
                        can_hold: false,
                        ..*old(self)
                    },
                    *final(self),
                ),
            },
            !(old(self).playing() && old(self).can_hold) ==> *final(self) == *old(self),
    {
        if self.state != GameState::Playing || !self.can_hold {
            return;
        }
        self.can_hold = false;
        let current_shape = self.current_piece.shape;
        match self.hold_piece {
            Some(held) => {
                self.current_piece = Piece::new(held.shape);
                self.hold_piece = Some(Piece::new(current_shape));
            },
            None => {
                self.hold_piece = Some(Piece::new(current_shape));
                self.spawn_next_piece();
            },
        }
    }

    fn spawn_next_piece(&mut self)
        requires
            old(self).wf(),
        ensures
            spawn_step(*old(self), *final(self)),
            final(self).wf(),
    {
        self.current_piece = Piece::new(self.next_piece.shape);
        let shape = self.rng.next();
        self.next_piece = Piece::new(shape);
        self.can_hold = true;
        if !self.board.can_place(&self.current_piece) {
            self.state = GameState::GameOver;
        }
    }

    fn lock_piece(&mut self)
        requires
            old(self).wf(),
        ensures
            lock_step(*old(self), *final(self)),
            final(self).wf(),
    {
        let ghost pre = *self;
        let piece = self.current_piece;
        self.board.lock_piece(&piece);
        let ghost b1 = self.board;
        let cleared = self.board.clear_lines();
        if cleared > 0 {
            self.lines = self.lines.saturating_add(cleared);
            self.score = self.score.saturating_add(Rules::score_for_lines(cleared, self.level));
            self.level = self.lines / 10;
            self.clock.set_level(self.level);
            self.animator.trigger_line_clear();
        }
        self.animator.trigger_lock_pop();
        self.lock_timer = None;
        let ghost mid = *self;
        assert(mid.lines == sat_add_u32(pre.lines, cleared as int));
        assert(mid.score == sat_add_u64(pre.score, score_spec(cleared, pre.level) as int));
        assert(mid.clock.accumulated() == pre.clock.accumulated());
        assert(mid.animator.lock_pop_left() == LOCK_POP_US);
        assert(cleared_state(pre, mid, cleared));
        self.spawn_next_piece();
        assert(locks_into(pre.board, pre.current_piece, b1) && clears_into(b1, mid.board, cleared)
            && spawn_step(mid, *self));
    }
}

} // verus!
