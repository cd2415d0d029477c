//! Rules-and-state engine of a falling-block puzzle game: the shape catalog,
//! pieces, the playfield, scoring, wall kicks, gravity timing, the bag
//! randomizer and the game session that ties them together.
//!
//! Time is measured in whole microseconds throughout the library.

pub mod tetromino;
pub mod piece;
pub mod board;
pub mod rules;
pub mod rng;
pub mod clock;
pub mod anim;
pub mod settings;
pub mod session;
