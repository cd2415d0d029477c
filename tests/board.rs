use tetris_core::board::{Board, BOARD_HEIGHT, BOARD_WIDTH};
use tetris_core::piece::Piece;
use tetris_core::tetromino::TetrominoShape;

fn fill_row(b: &mut Board, r: usize, v: u8) {
    for c in 0..BOARD_WIDTH {
        b.grid[r][c] = v;
    }
}

#[test]
fn new_board_is_empty() {
    let b = Board::new();
    assert!(b.grid.iter().all(|row| row.iter().all(|&c| c == 0)));
}

#[test]
fn can_move_rejects_walls_and_floor() {
    let mut b = Board::new();
    b.grid[19][0] = 3;
    let p = Piece::new(TetrominoShape::O);
    assert!(b.can_place(&p));
    assert!(!b.can_move(&p, -4, 0));
    assert!(b.can_move(&p, -3, 0));
    assert!(!b.can_move(&p, 6, 0));
    assert!(b.can_move(&p, 5, 0));
    assert!(!b.can_move(&p, 0, 19));
    assert!(b.can_move(&p, 0, 18));
    assert!(!b.can_move(&p, i32::MIN, 0));
    assert!(!b.can_move(&p, 0, i32::MAX));
}

#[test]
fn rows_above_the_board_are_vacant() {
    let b = Board::new();
    let p = Piece::new(TetrominoShape::I).with_offset(0, -10);
    assert!(b.can_place(&p));
}

#[test]
fn can_place_rejects_occupied_cells() {
    let mut b = Board::new();
    b.grid[0][4] = 1;
    assert!(!b.can_place(&Piece::new(TetrominoShape::O)));
    assert!(b.can_place(&Piece::new(TetrominoShape::O).with_offset(2, 0)));
}

#[test]
fn lock_writes_color_and_skips_outside_cells() {
    let mut b = Board::new();
    let p = Piece::new(TetrominoShape::I).rotated_cw();
    b.lock_piece(&p);
    assert_eq!(b.grid[0][5], 1);
    assert_eq!(b.grid[1][5], 1);
    assert_eq!(b.grid[2][5], 1);
    let filled: usize = b.grid.iter().map(|row| row.iter().filter(|&&c| c != 0).count()).sum();
    assert_eq!(filled, 3);
}

#[test]
fn clear_two_full_rows_shifts_the_rest() {
    let mut b = Board::new();
    for r in 0..BOARD_HEIGHT {
        b.grid[r][0] = (r % 7 + 1) as u8;
    }
    fill_row(&mut b, 12, 2);
    fill_row(&mut b, 17, 5);
    let before = b.grid;
    assert_eq!(b.clear_lines(), 2);
    assert!(b.grid[0].iter().all(|&c| c == 0));
    assert!(b.grid[1].iter().all(|&c| c == 0));
    for r in 0..12 {
        assert_eq!(b.grid[r + 2], before[r]);
    }
    for r in 13..17 {
        assert_eq!(b.grid[r + 1], before[r]);
    }
    for r in 18..BOARD_HEIGHT {
        assert_eq!(b.grid[r], before[r]);
    }
}

#[test]
fn clear_on_empty_board_is_zero() {
    let mut b = Board::new();
    assert_eq!(b.clear_lines(), 0);
    assert!(b.grid.iter().all(|row| row.iter().all(|&c| c == 0)));
}

#[test]
fn clear_whole_board() {
    let mut b = Board::new();
    for r in 0..BOARD_HEIGHT {
        fill_row(&mut b, r, 7);
    }
    assert_eq!(b.clear_lines(), 20);
    assert!(b.grid.iter().all(|row| row.iter().all(|&c| c == 0)));
}

#[test]
fn two_rows_completed_by_one_lock_clear_together() {
    let mut b = Board::new();
    // Two rows filled by locked pieces, except columns 8 and 9.
    for x in [0, 2, 4, 6] {
        b.lock_piece(&Piece::new(TetrominoShape::O).with_offset(x - 3, 18));
    }
    assert_eq!(b.clear_lines(), 0);
    // A vertical O in columns 8..9 completes both rows at once.
    b.lock_piece(&Piece::new(TetrominoShape::O).with_offset(5, 18));
    assert_eq!(b.clear_lines(), 2);
    assert!(b.grid.iter().all(|row| row.iter().all(|&c| c == 0)));
}

#[test]
fn drop_distance_on_empty_and_stacked() {
    let mut b = Board::new();
    let p = Piece::new(TetrominoShape::O);
    assert_eq!(b.drop_distance(&p), 18);
    fill_row(&mut b, 10, 1);
    assert_eq!(b.drop_distance(&p), 8);
    let grounded = p.with_offset(0, 8);
    assert_eq!(b.drop_distance(&grounded), 0);
}
