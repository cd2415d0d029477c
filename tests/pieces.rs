use tetris_core::piece::Piece;
use tetris_core::tetromino::{Tetromino, TetrominoShape};

const ALL: [TetrominoShape; 7] = [
    TetrominoShape::I,
    TetrominoShape::O,
    TetrominoShape::T,
    TetrominoShape::L,
    TetrominoShape::J,
    TetrominoShape::S,
    TetrominoShape::Z,
];

#[test]
fn color_ids_are_one_to_seven() {
    let ids: Vec<u8> = ALL.iter().map(|s| s.color_id()).collect();
    assert_eq!(ids, vec![1, 2, 3, 4, 5, 6, 7]);
}

#[test]
fn table_entries_match_catalog() {
    assert_eq!(Tetromino::get(TetrominoShape::I).rotations[1], [(2, -1), (2, 0), (2, 1), (2, 2)]);
    assert_eq!(Tetromino::get(TetrominoShape::T).rotations[0], [(1, 0), (0, 1), (1, 1), (2, 1)]);
    assert_eq!(Tetromino::get(TetrominoShape::Z).rotations[3], [(1, 0), (0, 1), (1, 1), (0, 2)]);
    for r in 0..4 {
        assert_eq!(Tetromino::get(TetrominoShape::O).rotations[r], [(0, 0), (1, 0), (0, 1), (1, 1)]);
    }
}

#[test]
fn new_piece_sits_at_spawn() {
    let p = Piece::new(TetrominoShape::L);
    assert_eq!((p.x, p.y, p.rotation, p.color_id), (3, 0, 0, 4));
    assert_eq!(p.shape, TetrominoShape::L);
}

#[test]
fn blocks_are_anchor_plus_offsets() {
    let p = Piece::new(TetrominoShape::I);
    assert_eq!(p.blocks(), vec![(3, 0), (4, 0), (5, 0), (6, 0)]);
    let q = p.rotated_cw().with_offset(1, 5);
    assert_eq!(q.blocks(), vec![(6, 4), (6, 5), (6, 6), (6, 7)]);
}

#[test]
fn four_clockwise_turns_give_back_the_piece() {
    for shape in ALL {
        for start in 0..4 {
            let mut p = Piece::new(shape).with_offset(2, 7);
            p.rotation = start;
            let back = p.rotated_cw().rotated_cw().rotated_cw().rotated_cw();
            assert_eq!(back, p);
        }
    }
}

#[test]
fn rotations_step_the_index() {
    let p = Piece::new(TetrominoShape::T);
    assert_eq!(p.rotated_cw().rotation, 1);
    assert_eq!(p.rotated_ccw().rotation, 3);
    assert_eq!(p.rotated_cw().rotated_ccw(), p);
    assert_eq!((p.rotated_cw().x, p.rotated_cw().y), (3, 0));
}

#[test]
fn with_offset_translates_only() {
    let p = Piece::new(TetrominoShape::S).with_offset(-2, 9);
    assert_eq!((p.x, p.y, p.rotation), (1, 9, 0));
    assert_eq!(p.shape, TetrominoShape::S);
}
