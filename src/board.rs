use vstd::prelude::*;
use crate::piece::Piece;
use crate::tetromino::{lemma_offset_bounds, Tetromino};

verus! {

broadcast use vstd::seq_lib::group_seq_properties;

pub const BOARD_WIDTH: usize = 10;

pub const BOARD_HEIGHT: usize = 20;

/// Every cell of the row is filled.
pub open spec fn row_full(row: [u8; BOARD_WIDTH]) -> bool {
    forall|c: int| 0 <= c < BOARD_WIDTH ==> #[trigger] row[c] != 0
}

/// Every cell of the row is empty.
pub open spec fn row_empty(row: [u8; BOARD_WIDTH]) -> bool {
    forall|c: int| 0 <= c < BOARD_WIDTH ==> #[trigger] row[c] == 0
}

/// The rows that survive a line clear, top to bottom.
pub open spec fn kept_rows(rows: Seq<[u8; BOARD_WIDTH]>) -> Seq<[u8; BOARD_WIDTH]> {
    rows.filter(|row: [u8; BOARD_WIDTH]| !row_full(row))
}

/// The piece's cell `k` (0..4) lies on column `c`, row `r`.
pub open spec fn covers(p: Piece, c: int, r: int) -> bool {
    exists|k: int| 0 <= k < 4 && #[trigger] p.cell(k) == (c, r)
}

/// `after` is `before` with the piece's color written into every cell of
/// the piece that lies on the grid.
pub open spec fn locks_into(before: Board, p: Piece, after: Board) -> bool {
    forall|r: int, c: int|
        0 <= r < BOARD_HEIGHT && 0 <= c < BOARD_WIDTH ==> #[trigger] after.grid[r][c] == if covers(
            p,
            c,
            r,
        ) {
            p.color_id
        } else {
            before.grid[r][c]
        }
}

/// `after` is `before` with its `n` full rows removed at once: the kept rows
/// in their order at the bottom, `n` empty rows above them.
pub open spec fn clears_into(before: Board, after: Board, n: u32) -> bool {
    &&& n == BOARD_HEIGHT - kept_rows(before.grid@).len()
    &&& forall|r: int| 0 <= r < n ==> row_empty(#[trigger] after.grid[r])
    &&& after.grid@.subrange(n as int, BOARD_HEIGHT as int) == kept_rows(before.grid@)
}

/// Fixed-size grid of cells: 0 is empty, 1..=7 a locked color.
/// Rows are numbered from the top; gravity increases the row index.
pub struct Board {
    pub grid: [[u8; BOARD_WIDTH]; BOARD_HEIGHT],
}

impl Board {
    /// Column `c`, row `r` may hold a piece cell: inside the side walls and
    /// above the floor, and either above the top edge or empty.
    pub open spec fn cell_free(&self, c: int, r: int) -> bool {
        0 <= c < BOARD_WIDTH && r < BOARD_HEIGHT && (r < 0 || self.grid[r][c] == 0)
    }

    /// Every cell of `p` moved by (dx, dy) may be occupied.
    pub open spec fn fits(&self, p: Piece, dx: int, dy: int) -> bool {
        forall|k: int|
            0 <= k < 4 ==> {
                let (c, r) = #[trigger] p.cell(k);
                self.cell_free(c + dx, r + dy)
            }
    }

    pub open spec fn is_empty(&self) -> bool {
        forall|r: int| 0 <= r < BOARD_HEIGHT ==> row_empty(#[trigger] self.grid[r])
    }

    pub fn new() -> (b: Self)
        ensures
            b.is_empty(),
    {
        Board { grid: [[0u8; BOARD_WIDTH]; BOARD_HEIGHT] }
    }

    /// Test of the piece moved by (dx, dy), in 64-bit arithmetic.
    fn fits_at(&self, piece: &Piece, dx: i64, dy: i64) -> (r: bool)
        requires
            piece.wf(),
            -0x1_0000_0000 <= dx <= 0x1_0000_0000,
            -0x1_0000_0000 <= dy <= 0x1_0000_0000,
        ensures
            r == self.fits(*piece, dx as int, dy as int),
    {
        let t = Tetromino::get(piece.shape);
        let offsets = t.rotations[piece.rotation];
        let mut k: usize = 0;
        while k < 4
            invariant
                k <= 4,
                piece.wf(),
                t.matches(piece.shape),
                offsets == t.rotations[piece.rotation as int],
                -0x1_0000_0000 <= dx <= 0x1_0000_0000,
                -0x1_0000_0000 <= dy <= 0x1_0000_0000,
                forall|j: int|
                    0 <= j < k ==> {
                        let (c, r) = #[trigger] piece.cell(j);
                        self.cell_free(c + dx, r + dy)
                    },
            decreases 4 - k,
        {
            let (ox, oy) = offsets[k];
            proof {
                lemma_offset_bounds(piece.shape, piece.rotation as int, k as int);
            }
            let nx: i64 = piece.x as i64 + ox as i64 + dx;
            let ny: i64 = piece.y as i64 + oy as i64 + dy;
            assert(piece.cell(k as int) == (nx - dx, ny - dy));
            if nx < 0 || nx >= BOARD_WIDTH as i64 || ny >= BOARD_HEIGHT as i64 {
                return false;
            }
            if ny >= 0 && self.grid[ny as usize][nx as usize] != 0 {
                return false;
            }
            k += 1;
        }
        true
    }

    /// Writes the piece's color into every cell of it that lies on the board;
    /// cells outside the grid are ignored and nothing is validated.
    pub fn lock_piece(&mut self, piece: &Piece)
        requires
            piece.wf(),
        ensures
            locks_into(*old(self), *piece, *final(self)),
    {
        let t = Tetromino::get(piece.shape);
        let offsets = t.rotations[piece.rotation];
        let mut k: usize = 0;
        while k < 4
            invariant
                k <= 4,
                piece.wf(),
                t.matches(piece.shape),
                offsets == t.rotations[piece.rotation as int],
                forall|r: int, c: int|
                    0 <= r < BOARD_HEIGHT && 0 <= c < BOARD_WIDTH ==> #[trigger] self.grid[r][c]
                        == if exists|j: int| 0 <= j < k && #[trigger] piece.cell(j) == (c, r) {
                        piece.color_id
                    } else {
                        old(self).grid[r][c]
                    },
            decreases 4 - k,
        {
            let (ox, oy) = offsets[k];
            proof {
                lemma_offset_bounds(piece.shape, piece.rotation as int, k as int);
            }
            let nx: i64 = piece.x as i64 + ox as i64;
            let ny: i64 = piece.y as i64 + oy as i64;
            assert(piece.cell(k as int) == (nx as int, ny as int));
            if ny >= 0 && ny < BOARD_HEIGHT as i64 && nx >= 0 && nx < BOARD_WIDTH as i64 {
                let mut row = self.grid[ny as usize];
                row[nx as usize] = piece.color_id;
                self.grid[ny as usize] = row;
            }
            k += 1;
        }
    }

    /// Removes every full row at once, moves the remaining rows down in
    /// their order and fills the vacated top rows with empty cells. Returns
    /// the number of rows removed.
    pub fn clear_lines(&mut self) -> (n: u32)
        ensures
            clears_into(*old(self), *final(self), n),
    {
        let ghost rows = self.grid@;
        let mut new_grid = [[0u8; BOARD_WIDTH]; BOARD_HEIGHT];
        let mut cleared: u32 = 0;
        let mut write: usize = BOARD_HEIGHT;
        let mut read: usize = BOARD_HEIGHT;
        while read > 0
            invariant
                read <= write <= BOARD_HEIGHT,
                self.grid@ == rows,
                rows.len() == BOARD_HEIGHT,
                cleared == write - read,
                new_grid@.subrange(write as int, BOARD_HEIGHT as int) == kept_rows(
                    rows.subrange(read as int, BOARD_HEIGHT as int),
                ),
                forall|r: int| 0 <= r < write ==> row_empty(#[trigger] new_grid[r]),
            decreases read,
        {
            read -= 1;
            let row = self.grid[read];
            let mut full = true;
            let mut c: usize = 0;
            while c < BOARD_WIDTH
                invariant
                    c <= BOARD_WIDTH,
                    full == forall|j: int| 0 <= j < c ==> #[trigger] row[j] != 0,
                decreases BOARD_WIDTH - c,
            {
                if row[c] == 0 {
                    full = false;
                }
                c += 1;
            }
            let ghost tail = rows.subrange(read as int + 1, BOARD_HEIGHT as int);
            assert(rows.subrange(read as int, BOARD_HEIGHT as int) =~= seq![row] + tail);
            proof {
                tail.lemma_filter_prepend(row, |row: [u8; BOARD_WIDTH]| !row_full(row));
            }
            if full {
                cleared += 1;
            } else {
                let ghost before = new_grid@;
                write -= 1;
                new_grid[write] = row;
                assert(new_grid@.subrange(write as int, BOARD_HEIGHT as int) =~= seq![row]
                    + before.subrange(write as int + 1, BOARD_HEIGHT as int));
            }
        }
        assert(rows.subrange(0, BOARD_HEIGHT as int) =~= rows);
        self.grid = new_grid;
        cleared
    }

    /// How far the piece can fall: the largest `d` such that every move
    /// straight down by 1..=d fits.
    pub fn drop_distance(&self, piece: &Piece) -> (d: usize)
        requires
            piece.wf(),
        ensures
            forall|j: int| 1 <= j <= d ==> #[trigger] self.fits(*piece, 0, j),
            !self.fits(*piece, 0, d + 1),
            d + piece.y <= BOARD_HEIGHT || d == 0,
    {
        let mut d: i64 = 0;
        while self.fits_at(piece, 0, d + 1)
            invariant
                piece.wf(),
                0 <= d,
                d == 0 || piece.y + d <= BOARD_HEIGHT,
                forall|j: int| 1 <= j <= d ==> #[trigger] self.fits(*piece, 0, j),
            decreases 22 - piece.y - d,
        {
            proof {
                lemma_offset_bounds(piece.shape, piece.rotation as int, 0);
                assert(piece.cell(0).1 + d + 1 < BOARD_HEIGHT);
            }
            d += 1;
        }
        d as usize
    }

    pub fn can_place(&self, piece: &Piece) -> (r: bool)
        requires
            piece.wf(),
        ensures
            r == self.fits(*piece, 0, 0),
    {
        self.fits_at(piece, 0, 0)
    }

    pub fn can_move(&self, piece: &Piece, dx: i32, dy: i32) -> (r: bool)
        requires
            piece.wf(),
        ensures
            r == self.fits(*piece, dx as int, dy as int),
    {
        self.fits_at(piece, dx as i64, dy as i64)
    }
}

/// A move that puts any cell of the piece left of column 0, right of the
/// last column or below the last row never fits, whatever the board holds.
pub proof fn lemma_out_of_bounds_rejected(b: Board, p: Piece, dx: int, dy: int, k: int)
    requires
        0 <= k < 4,
        p.cell(k).0 + dx < 0 || p.cell(k).0 + dx >= BOARD_WIDTH || p.cell(k).1 + dy
            >= BOARD_HEIGHT,
    ensures
        !b.fits(p, dx, dy),
{
}

/// A piece that fits after a move by (dx, dy) has its anchor within three
/// columns of the side walls and at most on the last row.
pub proof fn lemma_fit_bounds(b: Board, p: Piece, dx: int, dy: int)
    requires
        p.wf(),
        b.fits(p, dx, dy),
    ensures
        -3 <= p.x + dx <= BOARD_WIDTH - 1,
        p.y + dy <= BOARD_HEIGHT,
{
    lemma_offset_bounds(p.shape, p.rotation as int, 0);
    assert(b.cell_free(p.cell(0).0 + dx, p.cell(0).1 + dy));
}

/// A piece that does not fit where it stands but fits one row higher has a
/// cell on the grid, so its anchor is at row -2 or below it.
pub proof fn lemma_lift_needs_grid(b: Board, p: Piece)
    requires
        p.wf(),
        !b.fits(p, 0, 0),
        b.fits(p, 0, -1),
    ensures
        p.y >= -2,
{
    let k = choose|k: int| 0 <= k < 4 && !b.cell_free(#[trigger] p.cell(k).0, p.cell(k).1);
    lemma_offset_bounds(p.shape, p.rotation as int, k);
    assert(b.cell_free(p.cell(k).0, p.cell(k).1 - 1));
}

/// Rows that are all kept survive a clear unchanged.
pub proof fn lemma_kept_rows_all(rows: Seq<[u8; BOARD_WIDTH]>)
    requires
        forall|i: int| 0 <= i < rows.len() ==> !row_full(#[trigger] rows[i]),
    ensures
        kept_rows(rows) == rows,
    decreases rows.len(),
{
    if rows.len() > 0 {
        reveal(Seq::filter);
        lemma_kept_rows_all(rows.drop_last());
        assert(!row_full(rows[rows.len() - 1]));
    }
}

/// Clearing a grid in which exactly the rows `r1 < r2` are full removes
/// those two rows and nothing else: the rows below `r2` stay where they are,
/// the rows between `r1` and `r2` move down by one, the rows above `r1` move
/// down by two, the top two rows are empty afterwards, and 2 is returned.
pub proof fn lemma_clear_two_rows(before: Board, after: Board, n: u32, r1: int, r2: int)
    requires
        0 <= r1 < r2 < BOARD_HEIGHT,
        forall|r: int|
            0 <= r < BOARD_HEIGHT ==> (row_full(#[trigger] before.grid[r]) <==> (r == r1 || r
                == r2)),
        clears_into(before, after, n),
    ensures
        n == 2,
        row_empty(after.grid[0]),
        row_empty(after.grid[1]),
        forall|r: int| r2 < r < BOARD_HEIGHT ==> after.grid[r] == #[trigger] before.grid[r],
        forall|r: int| r1 < r < r2 ==> after.grid[r + 1] == #[trigger] before.grid[r],
        forall|r: int| 0 <= r < r1 ==> after.grid[r + 2] == #[trigger] before.grid[r],
{
    let rows = before.grid@;
    assert(forall|r: int| 0 <= r < n ==> row_empty(#[trigger] after.grid[r]));
    let a = rows.subrange(0, r1);
    let b = rows.subrange(r1 + 1, r2);
    let c = rows.subrange(r2 + 1, BOARD_HEIGHT as int);
    let pred = |row: [u8; BOARD_WIDTH]| !row_full(row);
    assert(rows =~= a + seq![rows[r1]] + b + seq![rows[r2]] + c);
    lemma_kept_rows_all(a);
    lemma_kept_rows_all(b);
    lemma_kept_rows_all(c);
    vstd::seq::Seq::filter_distributes_over_add(a + seq![rows[r1]] + b + seq![rows[r2]], c, pred);
    vstd::seq::Seq::filter_distributes_over_add(a + seq![rows[r1]] + b, seq![rows[r2]], pred);
    vstd::seq::Seq::filter_distributes_over_add(a + seq![rows[r1]], b, pred);
    vstd::seq::Seq::filter_distributes_over_add(a, seq![rows[r1]], pred);
    assert(seq![rows[r1]].filter(pred) =~= Seq::<[u8; BOARD_WIDTH]>::empty()) by {
        reveal_with_fuel(Seq::filter, 2);
        assert(seq![rows[r1]].drop_last() =~= Seq::<[u8; BOARD_WIDTH]>::empty());
    }
    assert(seq![rows[r2]].filter(pred) =~= Seq::<[u8; BOARD_WIDTH]>::empty()) by {
        reveal_with_fuel(Seq::filter, 2);
        assert(seq![rows[r2]].drop_last() =~= Seq::<[u8; BOARD_WIDTH]>::empty());
    }
    assert(kept_rows(rows) =~= a + b + c);
    assert forall|r: int| r2 < r < BOARD_HEIGHT implies after.grid[r] == #[trigger] before.grid[r] by {
        assert(after.grid@.subrange(2, BOARD_HEIGHT as int)[r - 2] == after.grid@[r]);
    }
    assert forall|r: int| r1 < r < r2 implies after.grid[r + 1] == #[trigger] before.grid[r] by {
        assert(after.grid@.subrange(2, BOARD_HEIGHT as int)[r - 1] == after.grid@[r + 1]);
    }
    assert forall|r: int| 0 <= r < r1 implies after.grid[r + 2] == #[trigger] before.grid[r] by {
        assert(after.grid@.subrange(2, BOARD_HEIGHT as int)[r] == after.grid@[r + 2]);
    }
}

} // verus!
