//! Why the game refuses a request.

use vstd::prelude::*;

verus! {

/// A refused request. The game's state is untouched whenever one is returned.
#[derive(Debug, Clone, Copy, PartialEq, Eq, Structural)]
pub enum GameError {
    /// A game cannot start with an empty pile.
    EmptyPile,
    /// A game cannot start with a turn limit of zero.
    ZeroTurnLimit,
    /// A game cannot start with a turn limit above the size of the pile.
    TurnLimitAbovePile,
    /// The user asked for no pebbles, or for more than the turn limit.
    InvalidTurn,
    /// The user asked for pebbles after the game was decided.
    GameOver,
    /// The user asked for more pebbles than the pile holds.
    NotEnoughPebbles,
    /// No game has been started yet.
    NotInitialized,
}

impl GameError {
    /// The text of `message`.
    pub open spec fn message_text(self) -> Seq<char> {
        match self {
            GameError::EmptyPile => "Initial pebbles count must be greater than 0"@,
            GameError::ZeroTurnLimit => "Max pebbles per turn must be greater than 0"@,
            GameError::TurnLimitAbovePile =>
                "Max pebbles per turn must be less than or equal to initial pebbles count"@,
            GameError::InvalidTurn => "Invalid number of pebbles"@,
            GameError::GameOver => "Game is already over"@,
            GameError::NotEnoughPebbles => "Not enough pebbles remaining"@,
            GameError::NotInitialized => "Game state not initialized"@,
        }
    }

    /// A sentence for the user.
    pub fn message(&self) -> (text: &'static str)
        ensures
            text@ == self.message_text(),
    {
        match self {
            GameError::EmptyPile => "Initial pebbles count must be greater than 0",
            GameError::ZeroTurnLimit => "Max pebbles per turn must be greater than 0",
            GameError::TurnLimitAbovePile =>
                "Max pebbles per turn must be less than or equal to initial pebbles count",
            GameError::InvalidTurn => "Invalid number of pebbles",
            GameError::GameOver => "Game is already over",
            GameError::NotEnoughPebbles => "Not enough pebbles remaining",
            GameError::NotInitialized => "Game state not initialized",
        }
    }
}

} // verus!
