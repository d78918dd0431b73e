//! Messages exchanged with the game and the record of its state.

use vstd::prelude::*;

verus! {

/// How strong the program plays.
#[derive(Debug, Clone, Copy, PartialEq, Eq, Structural)]
pub enum DifficultyLevel {
    /// A random legal move.
    Easy,
    /// The optimal move of the subtraction game.
    Hard,
}

impl Default for DifficultyLevel {
    fn default() -> (level: Self)
        ensures
            level == DifficultyLevel::Easy,
    {
        DifficultyLevel::Easy
    }
}

/// One of the two sides.
#[derive(Debug, Clone, Copy, PartialEq, Eq, Structural)]
pub enum Player {
    User,
    Program,
}

impl Default for Player {
    fn default() -> (player: Self)
        ensures
            player == Player::User,
    {
        Player::User
    }
}

/// Parameters of a new game.
#[derive(Debug, Clone, Copy, PartialEq, Eq, Structural)]
pub struct PebblesInit {
    pub difficulty: DifficultyLevel,
    pub pebbles_count: u32,
    pub max_pebbles_per_turn: u32,
}

impl PebblesInit {
    /// The parameters describe a playable game: a non-empty pile and a turn
    /// limit between one and the size of the pile.
    pub open spec fn valid(self) -> bool {
        &&& self.pebbles_count > 0
        &&& 0 < self.max_pebbles_per_turn <= self.pebbles_count
    }
}

impl Default for PebblesInit {
    fn default() -> (init: Self)
        ensures
            init == (PebblesInit {
                difficulty: DifficultyLevel::Easy,
                pebbles_count: 0,
                max_pebbles_per_turn: 0,
            }),
    {
        PebblesInit { difficulty: DifficultyLevel::Easy, pebbles_count: 0, max_pebbles_per_turn: 0 }
    }
}

/// What the user asks of a running game.
#[derive(Debug, Clone, Copy, PartialEq, Eq, Structural)]
pub enum PebblesAction {
    /// Take this many pebbles.
    Turn(u32),
    /// Concede the game to the program.
    GiveUp,
    /// Replace the game by a new one.
    Restart { difficulty: DifficultyLevel, pebbles_count: u32, max_pebbles_per_turn: u32 },
}

/// What the game answers.
#[derive(Debug, PartialEq)]
pub enum PebblesEvent {
    /// The program has moved; this many pebbles remain.
    CounterTurn(u32),
    /// The game is over.
    Won(Player),
    /// Reserved; no operation of the game produces it.
    Error(String),
}

impl Clone for PebblesEvent {
    fn clone(&self) -> (copy: Self)
        ensures
            copy == *self,
    {
        match self {
            PebblesEvent::CounterTurn(pebbles) => PebblesEvent::CounterTurn(*pebbles),
            PebblesEvent::Won(player) => PebblesEvent::Won(*player),
            PebblesEvent::Error(text) => PebblesEvent::Error(text.clone()),
        }
    }
}

/// The full record of one game.
#[derive(Debug, Clone, Copy, PartialEq, Eq, Structural)]
pub struct GameState {
    /// Size of the pile at the start of the current game.
    pub pebbles_count: u32,
    /// Most pebbles that the user may take in one turn.
    pub max_pebbles_per_turn: u32,
    /// Pebbles still in the pile.
    pub pebbles_remaining: u32,
    pub difficulty: DifficultyLevel,
    /// Who moved first in the current game.
    pub first_player: Player,
    /// `None` while the game is in progress.
    pub winner: Option<Player>,
}

impl GameState {
    /// The invariant of a game that was started with valid parameters:
    /// the turn limit lies between one and the size of the starting pile, the
    /// pile never grows, and the user has won only if the pile is empty. (The
    /// program may have won by the user's forfeit, with pebbles left.)
    pub open spec fn wf(self) -> bool {
        &&& 1 <= self.max_pebbles_per_turn <= self.pebbles_count
        &&& self.pebbles_remaining <= self.pebbles_count
        &&& self.winner == Some(Player::User) ==> self.pebbles_remaining == 0
    }

    /// The game is over.
    pub open spec fn finished(self) -> bool {
        self.winner is Some
    }

    /// The event that reports this state: the winner, if there is one, else
    /// the size of the pile.
    pub open spec fn report(self) -> PebblesEvent {
        match self.winner {
            Some(player) => PebblesEvent::Won(player),
            None => PebblesEvent::CounterTurn(self.pebbles_remaining),
        }
    }
}

impl Default for GameState {
    fn default() -> (state: Self)
        ensures
            state == (GameState {
                pebbles_count: 0,
                max_pebbles_per_turn: 0,
                pebbles_remaining: 0,
                difficulty: DifficultyLevel::Easy,
                first_player: Player::User,
                winner: None,
            }),
    {
        GameState {
            pebbles_count: 0,
            max_pebbles_per_turn: 0,
            pebbles_remaining: 0,
            difficulty: DifficultyLevel::Easy,
            first_player: Player::User,
            winner: None,
        }
    }
}

} // verus!
