//! The pebbles game: a player and a program take turns removing pebbles
//! from one pile, at most a fixed number per turn; whoever takes the last
//! pebble wins.

pub mod types;
pub mod state;
pub mod game;
pub mod laws;

pub use game::PebblesGame;
pub use types::{
    DifficultyLevel, GameState, PebblesAction, PebblesError, PebblesEvent, PebblesInit, Player,
};
