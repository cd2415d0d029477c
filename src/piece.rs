use vstd::prelude::*;
use crate::tetromino::{color_of, offset, Tetromino, TetrominoShape};

verus! {

/// Column at which new pieces are anchored.
pub const SPAWN_X: i32 = 3;

/// Row at which new pieces are anchored.
pub const SPAWN_Y: i32 = 0;

/// A shape instance placed at an anchor with a rotation state.
#[derive(Clone, Copy, PartialEq, Eq, Debug, Structural)]
pub struct Piece {
    pub x: i32,
    pub y: i32,
    pub shape: TetrominoShape,
    pub rotation: usize,
    pub color_id: u8,
}

impl Piece {
    /// A valid rotation index and the color of its kind.
    pub open spec fn wf(&self) -> bool {
        self.rotation < 4 && self.color_id == color_of(self.shape)
    }

    /// Absolute (column, row) of the piece's cell `k` (0..4).
    pub open spec fn cell(&self, k: int) -> (int, int) {
        let (ox, oy) = offset(self.shape, self.rotation as int, k);
        (self.x + ox, self.y + oy)
    }

    /// The piece's absolute cells fit in `i32`.
    pub open spec fn cells_fit(&self) -> bool {
        self.x + 3 <= i32::MAX && self.y - 1 >= i32::MIN && self.y + 2 <= i32::MAX
    }

    /// The piece moved by (dx, dy), everything else kept.
    pub open spec fn moved(&self, dx: int, dy: int) -> Piece {
        Piece { x: (self.x + dx) as i32, y: (self.y + dy) as i32, ..*self }
    }

    /// The piece with its rotation index set to `rot`.
    pub open spec fn turned(&self, rot: usize) -> Piece {
        Piece { rotation: rot, ..*self }
    }

    /// A fresh piece of `shape` at the spawn anchor in rotation 0.
    pub open spec fn spawned(shape: TetrominoShape) -> Piece {
        Piece { x: SPAWN_X, y: SPAWN_Y, shape, rotation: 0, color_id: color_of(shape) }
    }

    pub fn new(shape: TetrominoShape) -> (r: Self)
        ensures
            r == Piece::spawned(shape),
            r.wf(),
    {
        Piece { x: SPAWN_X, y: SPAWN_Y, shape, rotation: 0, color_id: shape.color_id() }
    }

    /// The four absolute cells, in table order.
    pub fn blocks(&self) -> (r: Vec<(i32, i32)>)
        requires
            self.wf(),
            self.cells_fit(),
        ensures
            r@.len() == 4,
            forall|k: int|
                0 <= k < 4 ==> {
                    let (cx, cy) = #[trigger] r@[k];
                    (cx as int, cy as int) == self.cell(k)
                },
    {
        let t = Tetromino::get(self.shape);
        let offsets = t.rotations[self.rotation];
        let mut r: Vec<(i32, i32)> = Vec::new();
        let mut k: usize = 0;
        while k < 4
            invariant
                k <= 4,
                self.wf(),
                self.cells_fit(),
                t.matches(self.shape),
                offsets == t.rotations[self.rotation as int],
                r@.len() == k,
                forall|j: int|
                    0 <= j < k ==> {
                        let (cx, cy) = #[trigger] r@[j];
                        (cx as int, cy as int) == self.cell(j)
                    },
            decreases 4 - k,
        {
            let (dx, dy) = offsets[k];
            proof {
                crate::tetromino::lemma_offset_bounds(self.shape, self.rotation as int, k as int);
            }
            r.push((self.x + dx, self.y + dy));
            k += 1;
        }
        r
    }

    pub fn rotated_cw(&self) -> (r: Self)
        requires
            self.wf(),
        ensures
            r == self.turned(((self.rotation + 1) % 4) as usize),
            r.wf(),
    {
        let mut clone = *self;
        clone.rotation = (clone.rotation + 1) % 4;
        clone
    }

    pub fn rotated_ccw(&self) -> (r: Self)
        requires
            self.wf(),
        ensures
            r == self.turned(((self.rotation + 3) % 4) as usize),
            r.wf(),
    {
        let mut clone = *self;
        clone.rotation = (clone.rotation + 3) % 4;
        clone
    }

    pub fn with_offset(&self, dx: i32, dy: i32) -> (r: Self)
        requires
            i32::MIN <= self.x + dx <= i32::MAX,
            i32::MIN <= self.y + dy <= i32::MAX,
        ensures
            r == self.moved(dx as int, dy as int),
            r.x == self.x + dx,
            r.y == self.y + dy,
    {
        let mut clone = *self;
        clone.x += dx;
        clone.y += dy;
        clone
    }
}

/// Four clockwise quarter turns give back the same piece: same rotation
/// index, same anchor, same kind and color.
pub proof fn lemma_four_turns_identity(p: Piece)
    requires
        p.wf(),
    ensures
        ({
            let one = p.turned(((p.rotation + 1) % 4) as usize);
            let two = one.turned(((one.rotation + 1) % 4) as usize);
            let three = two.turned(((two.rotation + 1) % 4) as usize);
            let four = three.turned(((three.rotation + 1) % 4) as usize);
            four == p
        }),
{
}

} // verus!
