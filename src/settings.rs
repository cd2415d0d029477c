use vstd::prelude::*;

verus! {

/// Color theme picked by the player; only the presentation reads it.
#[derive(Clone, Copy, PartialEq, Eq, Debug, Structural)]
pub enum ThemeType {
    Neon,
    Classic,
    Minimal,
}

/// Screen the front end shows, and whether the game is running.
#[derive(Clone, Copy, PartialEq, Eq, Debug, Structural)]
pub enum GameState {
    Menu,
    Settings,
    Playing,
    Paused,
    GameOver,
}

/// Display preferences; they never influence the game itself.
#[derive(Clone, Copy, PartialEq, Eq, Debug, Structural)]
pub struct Settings {
    pub show_ghost: bool,
    pub show_grid: bool,
    pub colorblind_mode: bool,
    pub theme: ThemeType,
}

impl Default for Settings {
    fn default() -> (s: Self)
        ensures
            s.show_ghost,
            s.show_grid,
            !s.colorblind_mode,
            s.theme == ThemeType::Neon,
    {
        Settings { show_ghost: true, show_grid: true, colorblind_mode: false, theme: ThemeType::Neon }
    }
}

} // verus!
