use tetris_core::board::Board;
use tetris_core::piece::Piece;
use tetris_core::rules::Rules;
use tetris_core::tetromino::TetrominoShape;

#[test]
fn score_table_level_zero_and_two() {
    let l0: Vec<u64> = (1..=4).map(|n| Rules::score_for_lines(n, 0)).collect();
    assert_eq!(l0, vec![100, 300, 500, 800]);
    let l2: Vec<u64> = (1..=4).map(|n| Rules::score_for_lines(n, 2)).collect();
    assert_eq!(l2, vec![300, 900, 1500, 2400]);
}

#[test]
fn score_outside_table_is_zero() {
    assert_eq!(Rules::score_for_lines(0, 5), 0);
    assert_eq!(Rules::score_for_lines(5, 5), 0);
    assert_eq!(Rules::score_for_lines(4, u32::MAX), 800 * (u32::MAX as u64 + 1));
}

#[test]
fn gravity_interval_curve() {
    assert_eq!(Rules::gravity_interval(0), 800_000);
    assert_eq!(Rules::gravity_interval(1), 720_000);
    assert_eq!(Rules::gravity_interval(2), 648_000);
    assert_eq!(Rules::gravity_interval(5), 472_392);
    assert_eq!(Rules::gravity_interval(21), 87_535);
    assert_eq!(Rules::gravity_interval(22), 80_000);
    assert_eq!(Rules::gravity_interval(u32::MAX), 80_000);
    for l in 0..22 {
        assert!(Rules::gravity_interval(l + 1) < Rules::gravity_interval(l));
    }
    for l in 0..200 {
        assert!(Rules::gravity_interval(l) >= 80_000);
    }
}

#[test]
fn kick_prefers_one_left_at_right_wall() {
    let b = Board::new();
    // A vertical I against the right wall, turned flat, pokes out by one.
    let upright = Piece::new(TetrominoShape::I).rotated_cw().with_offset(4, 5);
    assert!(b.can_place(&upright));
    let flat = upright.rotated_cw();
    assert!(!b.can_place(&flat));
    let kicked = Rules::try_wall_kick(&b, &flat).unwrap();
    assert_eq!((kicked.x, kicked.y, kicked.rotation), (flat.x - 1, flat.y, 2));
}

#[test]
fn kick_keeps_position_when_it_fits() {
    let b = Board::new();
    let p = Piece::new(TetrominoShape::T).rotated_cw();
    assert_eq!(Rules::try_wall_kick(&b, &p), Some(p));
}

#[test]
fn kick_fails_when_nothing_fits() {
    let mut b = Board::new();
    for r in 0..20 {
        for c in 0..10 {
            b.grid[r][c] = 1;
        }
    }
    let p = Piece::new(TetrominoShape::T).with_offset(0, 5);
    assert_eq!(Rules::try_wall_kick(&b, &p), None);
}

#[test]
fn kick_lifts_one_row_last() {
    let mut b = Board::new();
    // Block the rotated piece's row and the columns it could slide to.
    for c in 0..10 {
        b.grid[19][c] = 1;
    }
    let p = Piece::new(TetrominoShape::I).with_offset(0, 19);
    let kicked = Rules::try_wall_kick(&b, &p).unwrap();
    assert_eq!((kicked.x, kicked.y), (p.x, p.y - 1));
}
