use tetris_core::anim::Animator;
use tetris_core::clock::Clock;
use tetris_core::settings::{Settings, ThemeType};

#[test]
fn clock_ticks_once_per_call_and_keeps_backlog() {
    let mut c = Clock::new(0);
    assert!(!c.tick(500_000));
    assert!(c.tick(300_000));
    assert!(!c.tick(0));
    assert!(c.tick(2_000_000));
    assert!(c.tick(0));
    assert!(!c.tick(0));
    assert!(c.tick(400_000));
}

#[test]
fn clock_level_shortens_interval() {
    let mut c = Clock::new(0);
    c.set_level(1);
    assert!(!c.tick(719_999));
    assert!(c.tick(1));
}

#[test]
fn clock_saturates_on_huge_time() {
    let mut c = Clock::new(0);
    assert!(c.tick(u64::MAX));
    assert!(c.tick(u64::MAX));
}

#[test]
fn pulses_decay_independently() {
    let mut a = Animator::new();
    assert_eq!((a.lock_pop_remaining(), a.line_clear_remaining()), (0, 0));
    a.trigger_lock_pop();
    a.trigger_line_clear();
    assert_eq!((a.lock_pop_remaining(), a.line_clear_remaining()), (120_000, 200_000));
    a.update(100_000);
    assert_eq!((a.lock_pop_remaining(), a.line_clear_remaining()), (20_000, 100_000));
    a.update(50_000);
    assert_eq!((a.lock_pop_remaining(), a.line_clear_remaining()), (0, 50_000));
}

#[test]
fn default_settings() {
    let s = Settings::default();
    assert!(s.show_ghost && s.show_grid && !s.colorblind_mode);
    assert_eq!(s.theme, ThemeType::Neon);
}
