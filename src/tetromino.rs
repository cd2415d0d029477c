use vstd::prelude::*;

verus! {

/// The seven piece kinds.
#[derive(Clone, Copy, PartialEq, Eq, Debug, Structural)]
pub enum TetrominoShape {
    I,
    O,
    T,
    L,
    J,
    S,
    Z,
}

/// Color identifier of each kind; 0 is kept for an empty cell.
pub open spec fn color_of(shape: TetrominoShape) -> u8 {
    match shape {
        TetrominoShape::I => 1,
        TetrominoShape::O => 2,
        TetrominoShape::T => 3,
        TetrominoShape::L => 4,
        TetrominoShape::J => 5,
        TetrominoShape::S => 6,
        TetrominoShape::Z => 7,
    }
}

impl TetrominoShape {
    pub fn color_id(&self) -> (r: u8)
        ensures
            r == color_of(*self),
            1 <= r <= 7,
    {
        match self {
            TetrominoShape::I => 1,
            TetrominoShape::O => 2,
            TetrominoShape::T => 3,
            TetrominoShape::L => 4,
            TetrominoShape::J => 5,
            TetrominoShape::S => 6,
            TetrominoShape::Z => 7,
        }
    }
}

/// The rotation table: for each kind, four rotation states of four
/// (column, row) offsets relative to the piece's anchor.
pub open spec fn rotation_table(shape: TetrominoShape) -> Seq<Seq<(int, int)>> {
    match shape {
        TetrominoShape::I => seq![
            seq![(0, 0), (1, 0), (2, 0), (3, 0)],
            seq![(2, -1), (2, 0), (2, 1), (2, 2)],
            seq![(0, 1), (1, 1), (2, 1), (3, 1)],
            seq![(1, -1), (1, 0), (1, 1), (1, 2)],
        ],
        TetrominoShape::O => seq![
            seq![(0, 0), (1, 0), (0, 1), (1, 1)],
            seq![(0, 0), (1, 0), (0, 1), (1, 1)],
            seq![(0, 0), (1, 0), (0, 1), (1, 1)],
            seq![(0, 0), (1, 0), (0, 1), (1, 1)],
        ],
        TetrominoShape::T => seq![
            seq![(1, 0), (0, 1), (1, 1), (2, 1)],
            seq![(1, 0), (1, 1), (2, 1), (1, 2)],
            seq![(0, 1), (1, 1), (2, 1), (1, 2)],
            seq![(1, 0), (0, 1), (1, 1), (1, 2)],
        ],
        TetrominoShape::L => seq![
            seq![(0, 0), (0, 1), (1, 1), (2, 1)],
            seq![(1, 0), (1, 1), (1, 2), (2, 0)],
            seq![(0, 1), (1, 1), (2, 1), (2, 2)],
            seq![(1, 0), (0, 2), (1, 1), (1, 2)],
        ],
        TetrominoShape::J => seq![
            seq![(2, 0), (0, 1), (1, 1), (2, 1)],
            seq![(1, 0), (1, 1), (1, 2), (2, 2)],
            seq![(0, 1), (1, 1), (2, 1), (0, 2)],
            seq![(0, 0), (1, 0), (1, 1), (1, 2)],
        ],
        TetrominoShape::S => seq![
            seq![(1, 0), (2, 0), (0, 1), (1, 1)],
            seq![(1, 0), (1, 1), (2, 1), (2, 2)],
            seq![(1, 1), (2, 1), (0, 2), (1, 2)],
            seq![(0, 0), (0, 1), (1, 1), (1, 2)],
        ],
        TetrominoShape::Z => seq![
            seq![(0, 0), (1, 0), (1, 1), (2, 1)],
            seq![(2, 0), (1, 1), (2, 1), (1, 2)],
            seq![(0, 1), (1, 1), (1, 2), (2, 2)],
            seq![(1, 0), (0, 1), (1, 1), (0, 2)],
        ],
    }
}

/// Offset `k` of rotation state `rot` of a kind.
pub open spec fn offset(shape: TetrominoShape, rot: int, k: int) -> (int, int) {
    rotation_table(shape)[rot][k]
}

/// Every offset of the table lies in columns 0..=3 and rows -1..=2.
pub proof fn lemma_offset_bounds(shape: TetrominoShape, rot: int, k: int)
    requires
        0 <= rot < 4,
        0 <= k < 4,
    ensures
        0 <= offset(shape, rot, k).0 <= 3,
        -1 <= offset(shape, rot, k).1 <= 2,
{
}

/// The geometry of one kind.
pub struct Tetromino {
    pub rotations: [[(i32, i32); 4]; 4],
}

impl Tetromino {
    pub open spec fn matches(&self, shape: TetrominoShape) -> bool {
        forall|r: int, k: int|
            0 <= r < 4 && 0 <= k < 4 ==> {
                let (ox, oy) = #[trigger] self.rotations[r][k];
                (ox as int, oy as int) == offset(shape, r, k)
            }
    }

    pub fn get(shape: TetrominoShape) -> (t: Tetromino)
        ensures
            t.matches(shape),
    {
        let t = match shape {
            TetrominoShape::I => Tetromino {
                rotations: [
                    [(0, 0), (1, 0), (2, 0), (3, 0)],
                    [(2, -1), (2, 0), (2, 1), (2, 2)],
                    [(0, 1), (1, 1), (2, 1), (3, 1)],
                    [(1, -1), (1, 0), (1, 1), (1, 2)],
                ],
            },
            TetrominoShape::O => Tetromino {
                rotations: [
                    [(0, 0), (1, 0), (0, 1), (1, 1)],
                    [(0, 0), (1, 0), (0, 1), (1, 1)],
                    [(0, 0), (1, 0), (0, 1), (1, 1)],
                    [(0, 0), (1, 0), (0, 1), (1, 1)],
                ],
            },
            TetrominoShape::T => Tetromino {
                rotations: [
                    [(1, 0), (0, 1), (1, 1), (2, 1)],
                    [(1, 0), (1, 1), (2, 1), (1, 2)],
                    [(0, 1), (1, 1), (2, 1), (1, 2)],
                    [(1, 0), (0, 1), (1, 1), (1, 2)],
                ],
            },
            TetrominoShape::L => Tetromino {
                rotations: [
                    [(0, 0), (0, 1), (1, 1), (2, 1)],
                    [(1, 0), (1, 1), (1, 2), (2, 0)],
                    [(0, 1), (1, 1), (2, 1), (2, 2)],
                    [(1, 0), (0, 2), (1, 1), (1, 2)],
                ],
            },
            TetrominoShape::J => Tetromino {
                rotations: [
                    [(2, 0), (0, 1), (1, 1), (2, 1)],
                    [(1, 0), (1, 1), (1, 2), (2, 2)],
                    [(0, 1), (1, 1), (2, 1), (0, 2)],
                    [(0, 0), (1, 0), (1, 1), (1, 2)],
                ],
            },
            TetrominoShape::S => Tetromino {
                rotations: [
                    [(1, 0), (2, 0), (0, 1), (1, 1)],
                    [(1, 0), (1, 1), (2, 1), (2, 2)],
                    [(1, 1), (2, 1), (0, 2), (1, 2)],
                    [(0, 0), (0, 1), (1, 1), (1, 2)],
                ],
            },
            TetrominoShape::Z => Tetromino {
                rotations: [
                    [(0, 0), (1, 0), (1, 1), (2, 1)],
                    [(2, 0), (1, 1), (2, 1), (1, 2)],
                    [(0, 1), (1, 1), (1, 2), (2, 2)],
                    [(1, 0), (0, 1), (1, 1), (0, 2)],
                ],
            },
        };
        t
    }
}

} // verus!
