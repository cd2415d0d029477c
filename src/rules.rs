use vstd::prelude::*;
use crate::board::Board;
use crate::piece::Piece;

verus! {

/// Gravity interval at level 0, in microseconds.
pub const BASE_INTERVAL_US: u64 = 800_000;

/// Shortest gravity interval, in microseconds.
pub const MIN_INTERVAL_US: u64 = 80_000;

/// Points for clearing `lines` rows at once, before the level multiplier.
pub open spec fn base_score(lines: u32) -> nat {
    if lines == 1 {
        100
    } else if lines == 2 {
        300
    } else if lines == 3 {
        500
    } else if lines == 4 {
        800
    } else {
        0
    }
}

/// Points for clearing `lines` rows at once at `level`.
pub open spec fn score_spec(lines: u32, level: u32) -> nat {
    base_score(lines) * (level + 1) as nat
}

/// Number of wall-kick offsets tried.
pub const KICK_COUNT: usize = 6;

/// The wall-kick offsets, in the order they are tried.
pub open spec fn kick(i: int) -> (int, int) {
    if i == 0 {
        (0, 0)
    } else if i == 1 {
        (-1, 0)
    } else if i == 2 {
        (1, 0)
    } else if i == 3 {
        (-2, 0)
    } else if i == 4 {
        (2, 0)
    } else {
        (0, -1)
    }
}

/// Index of the first kick, from `i` on, whose offset makes `p` fit.
pub open spec fn first_kick_from(b: Board, p: Piece, i: int) -> Option<int>
    decreases KICK_COUNT - i,
{
    if i < 0 || i >= KICK_COUNT {
        None
    } else if b.fits(p, kick(i).0, kick(i).1) {
        Some(i)
    } else {
        first_kick_from(b, p, i + 1)
    }
}

/// Outcome of the wall-kick search: the piece moved by the first offset of
/// the list that fits, or none.
pub open spec fn kick_result(b: Board, p: Piece) -> Option<Piece> {
    match first_kick_from(b, p, 0) {
        Some(i) => Some(p.moved(kick(i).0, kick(i).1)),
        None => None,
    }
}

/// `base` raised to `exp`.
pub open spec fn power(base: nat, exp: nat) -> nat
    decreases exp,
{
    if exp == 0 {
        1
    } else {
        base * power(base, (exp - 1) as nat)
    }
}

/// 800 ms times 0.9 to the `level`, in whole microseconds (rounded down),
/// before the floor is applied.
pub open spec fn decayed_interval(level: nat) -> nat {
    ((BASE_INTERVAL_US as int * power(9, level)) / (power(10, level) as int)) as nat
}

/// Gravity interval at `level` in microseconds: `max(800 ms * 0.9^level, 80 ms)`.
pub open spec fn interval_spec(level: nat) -> nat {
    let d = decayed_interval(level);
    if d > MIN_INTERVAL_US {
        d
    } else {
        MIN_INTERVAL_US as nat
    }
}

/// Past level 21 the decayed interval is under the floor.
proof fn lemma_decayed_below_floor(level: nat)
    requires
        level >= 22,
    ensures
        BASE_INTERVAL_US * power(9, level) < MIN_INTERVAL_US * power(10, level),
    decreases level,
{
    if level == 22 {
        reveal_with_fuel(power, 23);
        assert(power(9, 22) == 984770902183611232881nat);
        assert(power(10, 22) == 10000000000000000000000nat);
    } else {
        lemma_decayed_below_floor((level - 1) as nat);
        let a: int = power(9, (level - 1) as nat) as int;
        let b: int = power(10, (level - 1) as nat) as int;
        assert(800_000 * (9 * a) < 80_000 * (10 * b)) by (nonlinear_arith)
            requires
                800_000 * a < 80_000 * b,
                b >= 0,
        ;
    }
}

/// Up to level 21 the decayed interval stays above 87.5 ms.
proof fn lemma_decayed_above_floor(level: nat)
    requires
        level <= 21,
    ensures
        BASE_INTERVAL_US * power(9, level) >= 87_500 * power(10, level),
    decreases 21 - level,
{
    if level == 21 {
        reveal_with_fuel(power, 22);
        assert(power(9, 21) == 109418989131512359209nat);
        assert(power(10, 21) == 1000000000000000000000nat);
    } else {
        lemma_decayed_above_floor(level + 1);
        let a: int = power(9, level) as int;
        let b: int = power(10, level) as int;
        assert(power(9, level + 1) == 9 * a);
        assert(power(10, level + 1) == 10 * b);
        assert(800_000 * a >= 87_500 * b) by (nonlinear_arith)
            requires
                800_000 * (9 * a) >= 87_500 * (10 * b),
                b >= 0,
        ;
    }
}

/// `power(b, e)` grows with `e` for a base of at least 1.
proof fn lemma_power_grows(base: nat, e1: nat, e2: nat)
    requires
        base >= 1,
        e1 <= e2,
    ensures
        power(base, e1) <= power(base, e2),
    decreases e2,
{
    if e1 < e2 {
        lemma_power_grows(base, e1, (e2 - 1) as nat);
        let p: int = power(base, (e2 - 1) as nat) as int;
        assert(p <= base * p) by (nonlinear_arith)
            requires
                base >= 1,
                p >= 0,
        ;
    }
}

/// `power(9, e)` never exceeds `power(10, e)`.
proof fn lemma_nine_below_ten(e: nat)
    ensures
        power(9, e) <= power(10, e),
    decreases e,
{
    if e > 0 {
        lemma_nine_below_ten((e - 1) as nat);
        let a: int = power(9, (e - 1) as nat) as int;
        let b: int = power(10, (e - 1) as nat) as int;
        assert(9 * a <= 10 * b) by (nonlinear_arith)
            requires
                a <= b,
                b >= 0,
        ;
    }
}

/// The gravity interval is 800 ms at level 0, never shorter than 80 ms,
/// strictly shorter at each next level up to level 22, and 80 ms from
/// level 22 on.
pub proof fn lemma_interval_curve(level: nat)
    ensures
        interval_spec(0) == BASE_INTERVAL_US,
        interval_spec(level) >= MIN_INTERVAL_US,
        level < 22 ==> interval_spec(level + 1) < interval_spec(level),
        level >= 22 ==> interval_spec(level) == MIN_INTERVAL_US,
{
    reveal_with_fuel(power, 1);
    if level >= 22 {
        lemma_decayed_below_floor(level);
        let n: int = BASE_INTERVAL_US as int * power(9, level);
        let d: int = power(10, level) as int;
        lemma_power_grows(10, 0, level);
        assert(n / d < MIN_INTERVAL_US) by (nonlinear_arith)
            requires
                n < MIN_INTERVAL_US * d,
                d >= 1,
        ;
    } else {
        lemma_decayed_above_floor(level);
        lemma_power_grows(10, 0, level);
        let a: int = power(9, level) as int;
        let b: int = power(10, level) as int;
        let q: int = (BASE_INTERVAL_US as int * a) / b;
        assert(q >= 87_500) by (nonlinear_arith)
            requires
                BASE_INTERVAL_US * a >= 87_500 * b,
                b >= 1,
                q == (BASE_INTERVAL_US as int * a) / b,
        ;
        assert(power(9, level + 1) == 9 * a);
        assert(power(10, level + 1) == 10 * b);
        let q2: int = (BASE_INTERVAL_US as int * (9 * a)) / (10 * b);
        assert(q2 < q) by (nonlinear_arith)
            requires
                b >= 1,
                q >= 9,
                q == (BASE_INTERVAL_US as int * a) / b,
                q2 == (BASE_INTERVAL_US as int * (9 * a)) / (10 * b),
        ;
        assert(BASE_INTERVAL_US * power(9, level + 1) == BASE_INTERVAL_US * (9 * a));
        if level == 21 {
            lemma_decayed_below_floor(22);
        }
    }
}

/// When the rotated piece does not fit where it stands but fits one column
/// to the left, the wall-kick search settles on that position.
pub proof fn lemma_kick_prefers_left(b: Board, p: Piece)
    requires
        !b.fits(p, 0, 0),
        b.fits(p, -1, 0),
    ensures
        kick_result(b, p) == Some(p.moved(-1, 0)),
{
    assert(first_kick_from(b, p, 1) == Some(1int));
    assert(first_kick_from(b, p, 0) == Some(1int));
}

/// Pure game rules.
pub struct Rules;

impl Rules {
    /// 100/300/500/800 points for 1/2/3/4 rows, times (level + 1); 0 for
    /// any other count.
    pub fn score_for_lines(lines: u32, level: u32) -> (r: u64)
        ensures
            r == score_spec(lines, level),
    {
        let base: u64 = match lines {
            1 => 100,
            2 => 300,
            3 => 500,
            4 => 800,
            _ => 0,
        };
        base * (level as u64 + 1)
    }

    /// Tries the offsets (0,0), (-1,0), (1,0), (-2,0), (2,0), (0,-1) in turn on
    /// the already rotated piece and returns it moved by the first that fits.
    pub fn try_wall_kick(board: &Board, piece: &Piece) -> (r: Option<Piece>)
        requires
            piece.wf(),
            i32::MIN + 2 <= piece.x <= i32::MAX - 2,
            i32::MIN + 1 <= piece.y,
        ensures
            r == kick_result(*board, *piece),
    {
        let offsets: [(i32, i32); KICK_COUNT] = [(0, 0), (-1, 0), (1, 0), (-2, 0), (2, 0), (0, -1)];
        let mut i: usize = 0;
        while i < KICK_COUNT
            invariant
                i <= KICK_COUNT,
                piece.wf(),
                i32::MIN + 2 <= piece.x <= i32::MAX - 2,
                i32::MIN + 1 <= piece.y,
                forall|j: int|
                    0 <= j < KICK_COUNT ==> {
                        let (dx, dy) = #[trigger] offsets[j];
                        (dx as int, dy as int) == kick(j)
                    },
                first_kick_from(*board, *piece, 0) == first_kick_from(*board, *piece, i as int),
            decreases KICK_COUNT - i,
        {
            let (dx, dy) = offsets[i];
            assert((dx as int, dy as int) == kick(i as int));
            let kicked = piece.with_offset(dx, dy);
            if board.can_place(&kicked) {
                assert forall|k: int| 0 <= k < 4 implies #[trigger] kicked.cell(k) == (
                piece.cell(k).0 + dx, piece.cell(k).1 + dy) by {}
                assert forall|k: int| 0 <= k < 4 implies {
                    let (c, r) = #[trigger] piece.cell(k);
                    board.cell_free(c + dx, r + dy)
                } by {
                    assert(kicked.cell(k) == (piece.cell(k).0 + dx, piece.cell(k).1 + dy));
                }
                assert(first_kick_from(*board, *piece, i as int) == Some(i as int));
                assert(kicked == piece.moved(dx as int, dy as int));
                return Some(kicked);
            }
            assert forall|k: int| 0 <= k < 4 implies #[trigger] kicked.cell(k) == (
            piece.cell(k).0 + dx, piece.cell(k).1 + dy) by {}
            i += 1;
        }
        None
    }

    /// Gravity interval at `level`, in microseconds:
    /// `max(800 ms * 0.9^level, 80 ms)`, the product rounded down.
    pub fn gravity_interval(level: u32) -> (r: u64)
        ensures
            r == interval_spec(level as nat),
    {
        proof {
            lemma_interval_curve(level as nat);
        }
        if level >= 22 {
            return MIN_INTERVAL_US;
        }
        let mut nines: u128 = 1;
        let mut tens: u128 = 1;
        let mut i: u32 = 0;
        proof {
            reveal_with_fuel(power, 22);
            assert(power(10, 21) == 1000000000000000000000nat);
        }
        while i < level
            invariant
                i <= level < 22,
                nines == power(9, i as nat),
                tens == power(10, i as nat),
                power(10, 21) == 1000000000000000000000nat,
            decreases level - i,
        {
            proof {
                lemma_power_grows(10, i as nat + 1, 21);
                lemma_nine_below_ten(i as nat + 1);
            }
            nines = nines * 9;
            tens = tens * 10;
            i += 1;
        }
        proof {
            lemma_nine_below_ten(level as nat);
            lemma_power_grows(10, 0, level as nat);
            assert((BASE_INTERVAL_US as int * nines) / (tens as int) <= BASE_INTERVAL_US) by (nonlinear_arith)
                requires
                    nines <= tens,
                    tens >= 1,
            ;
        }
        let d = ((BASE_INTERVAL_US as u128 * nines) / tens) as u64;
        if d > MIN_INTERVAL_US {
            d
        } else {
            MIN_INTERVAL_US
        }
    }
}

} // verus!
