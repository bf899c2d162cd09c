//! A pebble-subtraction game between a human and a computer opponent.
//!
//! Two players alternately remove between one and a fixed number of pebbles
//! from a shared pile; whoever removes the last pebble wins. This crate holds
//! the rules of that game: the validation of a turn, the detection of a win,
//! the computer's choice of move for two difficulty levels, the choice of the
//! starting player and the restart of a session.
//!
//! The crate draws no random numbers itself. Its caller hands them in as plain
//! integers, so every operation is a function of its arguments and its result
//! is stated exactly.

pub mod engine;
pub mod lifecycle;
pub mod random;
pub mod strategy;
pub mod turn;
pub mod types;

pub use engine::{handle, init, state, GameEngine};
pub use lifecycle::{get_first_player, get_init_pebbles_remain, restart_game};
pub use random::get_random_u32;
pub use strategy::get_contract_pebbles_taken;
pub use turn::{apply_give_up, apply_user_turn, update_game_state};
pub use types::{
    DifficultyLevel, GameError, GameState, PebblesAction, PebblesEvent, PebblesInit, Player,
};
