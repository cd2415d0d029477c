use tetris_core::board::BOARD_WIDTH;
use tetris_core::piece::Piece;
use tetris_core::session::{TetrisApp, LOCK_DELAY_US};
use tetris_core::settings::GameState;
use tetris_core::tetromino::TetrominoShape;

fn playing_with(shape: TetrominoShape) -> TetrisApp {
    let mut g = TetrisApp::new();
    g.reset();
    g.current_piece = Piece::new(shape);
    g
}

#[test]
fn new_session_waits_in_menu() {
    let mut g = TetrisApp::new();
    assert_eq!(g.state, GameState::Menu);
    let before = g.current_piece;
    g.move_left();
    g.hard_drop();
    g.advance(10_000_000);
    assert_eq!(g.current_piece, before);
    assert_eq!(g.score, 0);
}

#[test]
fn reset_starts_playing() {
    let mut g = TetrisApp::new();
    g.score = 77;
    g.reset();
    assert_eq!(g.state, GameState::Playing);
    assert_eq!((g.score, g.level, g.lines), (0, 0, 0));
    assert!(g.can_hold && g.hold_piece.is_none() && g.lock_timer.is_none());
    assert_ne!(g.current_piece.shape, g.next_piece.shape);
    assert_eq!((g.current_piece.x, g.current_piece.y), (3, 0));
}

#[test]
fn moves_stop_at_walls() {
    let mut g = playing_with(TetrominoShape::O);
    for _ in 0..10 {
        g.move_left();
    }
    assert_eq!(g.current_piece.x, 0);
    for _ in 0..10 {
        g.move_right();
    }
    assert_eq!(g.current_piece.x, 8);
}

#[test]
fn soft_drop_scores_one_per_row() {
    let mut g = playing_with(TetrominoShape::O);
    for _ in 0..30 {
        g.soft_drop();
    }
    assert_eq!(g.current_piece.y, 18);
    assert_eq!(g.score, 18);
}

#[test]
fn hard_drop_scores_two_per_row_and_locks() {
    let mut g = playing_with(TetrominoShape::O);
    let next_shape = g.next_piece.shape;
    g.hard_drop();
    assert_eq!(g.score, 36);
    assert_eq!(g.board.grid[19][3], 2);
    assert_eq!(g.board.grid[18][4], 2);
    assert_eq!(g.current_piece, Piece::new(next_shape));
}

#[test]
fn hold_accepted_once_per_piece() {
    // Nothing held yet: the piece goes on hold and the next one spawns.
    let mut g = playing_with(TetrominoShape::O);
    let next_shape = g.next_piece.shape;
    g.hold();
    assert_eq!(g.hold_piece, Some(Piece::new(TetrominoShape::O)));
    assert_eq!(g.current_piece, Piece::new(next_shape));

    // Hold already used for this piece: grounded O, hold is a no-op.
    let mut g = playing_with(TetrominoShape::T);
    g.hold_piece = Some(Piece::new(TetrominoShape::O));
    g.hold();
    assert_eq!(g.current_piece, Piece::new(TetrominoShape::O));
    assert!(!g.can_hold);
    for _ in 0..30 {
        g.soft_drop();
    }
    assert_eq!(g.current_piece.y, 18);
    g.hold();
    assert_eq!(g.current_piece.shape, TetrominoShape::O);
    assert_eq!(g.current_piece.y, 18);
    assert_eq!(g.hold_piece, Some(Piece::new(TetrominoShape::T)));

    // Not used yet for a grounded O: the swap is accepted.
    let mut g = playing_with(TetrominoShape::O);
    g.hold_piece = Some(Piece::new(TetrominoShape::T));
    for _ in 0..30 {
        g.soft_drop();
    }
    g.hold();
    assert_eq!(g.current_piece, Piece::new(TetrominoShape::T));
    assert_eq!(g.hold_piece, Some(Piece::new(TetrominoShape::O)));
}

#[test]
fn rotation_at_wall_kicks() {
    let mut g = playing_with(TetrominoShape::I);
    g.rotate_cw();
    for _ in 0..10 {
        g.move_right();
    }
    assert_eq!(g.current_piece.x, 7);
    g.rotate_cw();
    assert_eq!(g.current_piece.rotation, 2);
    assert_eq!(g.current_piece.x, 6);
    g.rotate_ccw();
    assert_eq!(g.current_piece.rotation, 1);
}

#[test]
fn gravity_then_lock_delay() {
    let mut g = playing_with(TetrominoShape::O);
    g.advance(800_000);
    assert_eq!(g.current_piece.y, 1);
    assert!(g.lock_timer.is_none());
    for _ in 0..17 {
        g.soft_drop();
    }
    assert_eq!(g.current_piece.y, 18);
    g.advance(1);
    assert_eq!(g.lock_timer, Some(LOCK_DELAY_US));
    g.advance(100_000);
    assert_eq!(g.lock_timer, Some(LOCK_DELAY_US - 100_000));
    let next_shape = g.next_piece.shape;
    g.advance(400_000);
    assert!(g.lock_timer.is_none());
    assert_eq!(g.board.grid[19][3], 2);
    assert_eq!(g.current_piece, Piece::new(next_shape));
}

#[test]
fn lifting_off_resets_lock_delay() {
    let mut g = playing_with(TetrominoShape::O);
    for _ in 0..30 {
        g.soft_drop();
    }
    for c in 0..BOARD_WIDTH {
        if c != 3 && c != 4 {
            g.board.grid[19][c] = 1;
        }
    }
    g.board.grid[19][3] = 0;
    g.move_left();
    g.advance(1);
    assert!(g.lock_timer.is_some());
    g.move_right();
    g.advance(1);
    assert!(g.lock_timer.is_some());
}

#[test]
fn line_clear_updates_counters() {
    let mut g = playing_with(TetrominoShape::O);
    g.level = 2;
    for c in 0..BOARD_WIDTH {
        if c != 3 && c != 4 {
            g.board.grid[18][c] = 1;
            g.board.grid[19][c] = 1;
        }
    }
    g.hard_drop();
    assert_eq!(g.lines, 2);
    assert_eq!(g.score, 36 + 900);
    assert_eq!(g.level, 0);
    assert_eq!(g.animator.line_clear_remaining(), 200_000);
    assert_eq!(g.animator.lock_pop_remaining(), 120_000);
}

#[test]
fn blocked_spawn_ends_the_game() {
    let mut g = playing_with(TetrominoShape::O);
    for c in 0..BOARD_WIDTH {
        g.board.grid[1][c] = 1;
    }
    g.board.grid[1][0] = 0;
    g.hard_drop();
    assert_eq!(g.state, GameState::GameOver);
    let before = g.current_piece;
    g.move_left();
    g.rotate_cw();
    assert_eq!(g.current_piece, before);
    g.reset();
    assert_eq!(g.state, GameState::Playing);
}
