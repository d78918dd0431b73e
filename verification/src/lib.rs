//! A two-player pebble-subtraction game between a user and the program.
//!
//! The user and the program alternately take pebbles from a shared pile,
//! at most `max_pebbles_per_turn` at a time; whoever takes the last pebble
//! wins. The crate holds the game's state machine: validated start, the
//! two-ply resolution of a user's turn, the program's strategy at two
//! difficulty levels, forfeit and restart. Randomness is an input: every
//! operation that needs a random number takes it as a `u32` argument.

pub mod engine;
pub mod error;
pub mod laws;
pub mod random;
pub mod rules;
pub mod strategy;
pub mod theory;
pub mod types;

pub use engine::PebblesGame;
pub use error::GameError;
pub use random::random_u32_from_hash;
pub use rules::{handle_restart, handle_turn, pick_first_player};
pub use strategy::program_turn;
pub use types::{DifficultyLevel, GameState, PebblesAction, PebblesEvent, PebblesInit, Player};
