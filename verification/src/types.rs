//! The data of a session and the messages exchanged with its caller.

use vstd::prelude::*;

verus! {

/// The computer's way of choosing a move.
#[derive(Clone, Copy, Debug, PartialEq, Eq, Structural)]
pub enum DifficultyLevel {
    /// A move drawn at random from the legal range.
    Easy,
    /// The move of perfect play.
    Hard,
}

/// One of the two sides of the game.
#[derive(Clone, Copy, Debug, PartialEq, Eq, Structural)]
pub enum Player {
    /// The human.
    User,
    /// The computer.
    Program,
}

/// The parameters of a new session.
#[derive(Clone, Copy, Debug, PartialEq, Eq, Structural)]
pub struct PebblesInit {
    pub difficulty: DifficultyLevel,
    pub pebbles_count: u32,
    pub max_pebbles_per_turn: u32,
}

/// What the human asks of a running session.
#[derive(Clone, Copy, Debug, PartialEq, Eq, Structural)]
pub enum PebblesAction {
    /// Remove this many pebbles from the pile.
    Turn(u32),
    /// Concede the game to the computer.
    GiveUp,
    /// Throw the session away and start another.
    Restart { difficulty: DifficultyLevel, pebbles_count: u32, max_pebbles_per_turn: u32 },
}

/// What a session reports back after an operation.
#[derive(Clone, Copy, Debug, PartialEq, Eq, Structural)]
pub enum PebblesEvent {
    /// The computer removed this many pebbles and the game goes on.
    CounterTurn(u32),
    /// The game is over and this side has won.
    Won(Player),
}

/// Why an operation was refused. A refused operation changes nothing.
#[derive(Clone, Copy, Debug, PartialEq, Eq, Structural)]
pub enum GameError {
    /// An operation other than the creation of a session came before any session existed.
    NotInitialized,
    /// A turn of zero pebbles, or of more than a turn may take, or a turn in
    /// a game that already has a winner.
    InvalidMove,
    /// A turn of more pebbles than the pile holds.
    InsufficientPebbles,
    /// A session in which no turn could take a pebble.
    DegenerateConfiguration,
}

/// The single live session.
#[derive(Clone, Copy, Debug, PartialEq, Eq, Structural)]
pub struct GameState {
    /// The size of the pile when the game began.
    pub pebbles_count: u32,
    /// The most that one turn may remove.
    pub max_pebbles_per_turn: u32,
    /// The size of the pile now.
    pub pebbles_remaining: u32,
    pub difficulty: DifficultyLevel,
    /// The side that was drawn to move first.
    pub first_player: Player,
    /// `None` while the game is active.
    pub winner: Option<Player>,
}

impl GameState {
    /// What holds of every session that the operations of this crate produce:
    /// a turn can take at least one pebble, the pile never exceeds its initial
    /// size, and the human is recorded as the winner only over an empty pile.
    pub open spec fn wf(&self) -> bool {
        &&& self.max_pebbles_per_turn >= 1
        &&& self.pebbles_remaining <= self.pebbles_count
        &&& (self.winner == Some(Player::User) ==> self.pebbles_remaining == 0)
    }

    /// A winner has been recorded: the session is over until it is restarted.
    pub open spec fn is_terminal(&self) -> bool {
        self.winner is Some
    }
}

} // verus!
