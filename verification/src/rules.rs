//! The transitions of a game: dealing, the user's turn, forfeit, restart.
//!
//! Each transition is a spec function from the state before and the random
//! numbers consumed to the state after; the executable operations are proved
//! against them.

use vstd::prelude::*;
use crate::error::GameError;
use crate::strategy::{program_move, program_turn};
use crate::types::{DifficultyLevel, GameState, PebblesEvent, PebblesInit, Player};

verus! {

/// The side that a coin gives the first move: the user on an even number,
/// the program on an odd one.
pub open spec fn first_player(coin: u32) -> Player {
    if coin % 2 == 0 {
        Player::User
    } else {
        Player::Program
    }
}

/// Tosses `coin` for the first move.
pub fn pick_first_player(coin: u32) -> (player: Player)
    ensures
        player == first_player(coin),
{
    if coin % 2 == 0 {
        Player::User
    } else {
        Player::Program
    }
}

/// A game before its first move: a full pile, `coin` tossed, nobody has won.
pub open spec fn dealt(
    difficulty: DifficultyLevel,
    pebbles_count: u32,
    max_pebbles_per_turn: u32,
    coin: u32,
) -> GameState {
    GameState {
        pebbles_count,
        max_pebbles_per_turn,
        pebbles_remaining: pebbles_count,
        difficulty,
        first_player: first_player(coin),
        winner: None,
    }
}

impl GameState {
    /// The state once `pebbles` have left the pile.
    pub open spec fn take(self, pebbles: int) -> GameState
        recommends
            0 <= pebbles <= self.pebbles_remaining,
    {
        GameState { pebbles_remaining: (self.pebbles_remaining - pebbles) as u32, ..self }
    }

    /// The state once the program has made its move, drawn with `random`.
    pub open spec fn program_moved(self, random: u32) -> GameState {
        self.take(
            program_move(
                self.difficulty,
                self.pebbles_remaining as int,
                self.max_pebbles_per_turn as int,
                random as int,
            ),
        )
    }

    /// The state once `mover` has moved: they have won if the pile is empty.
    pub open spec fn settled(self, mover: Player) -> GameState {
        if self.pebbles_remaining == 0 {
            GameState { winner: Some(mover), ..self }
        } else {
            self
        }
    }
}

/// Why a game with these parameters cannot start, if it cannot. An empty pile
/// is reported before a turn limit of zero, and that before a turn limit
/// above the pile.
pub open spec fn init_error(init: PebblesInit) -> Option<GameError> {
    if init.pebbles_count == 0 {
        Some(GameError::EmptyPile)
    } else if init.max_pebbles_per_turn == 0 {
        Some(GameError::ZeroTurnLimit)
    } else if init.max_pebbles_per_turn > init.pebbles_count {
        Some(GameError::TurnLimitAbovePile)
    } else {
        None
    }
}

/// The state of a game started with valid parameters: dealt, and where the
/// coin lets the program begin, after its opening move, which wins if it
/// empties the pile.
pub open spec fn init_state(init: PebblesInit, coin: u32, random: u32) -> GameState {
    let opening = dealt(init.difficulty, init.pebbles_count, init.max_pebbles_per_turn, coin);
    if opening.first_player == Player::Program {
        opening.program_moved(random).settled(Player::Program)
    } else {
        opening
    }
}

/// What a start answers: the refusal of invalid parameters; else the outcome
/// of the program's opening move, or nothing where the user begins.
pub open spec fn init_reply(init: PebblesInit, coin: u32, random: u32) -> Result<
    Option<PebblesEvent>,
    GameError,
> {
    match init_error(init) {
        Some(error) => Err(error),
        None => if first_player(coin) == Player::Program {
            Ok(Some(init_state(init, coin, random).report()))
        } else {
            Ok(None)
        },
    }
}

/// Why the user cannot take `pebbles` in `state`, if they cannot. A number
/// outside `1..=max_pebbles_per_turn` is reported first, then a game that is
/// over, then a pile that is too small.
pub open spec fn turn_error(state: GameState, pebbles: u32) -> Option<GameError> {
    if pebbles == 0 || pebbles > state.max_pebbles_per_turn {
        Some(GameError::InvalidTurn)
    } else if state.finished() {
        Some(GameError::GameOver)
    } else if pebbles > state.pebbles_remaining {
        Some(GameError::NotEnoughPebbles)
    } else {
        None
    }
}

/// The state after an accepted turn: the user takes `pebbles` and wins on an
/// empty pile; else the program answers at once, and wins on an empty pile.
pub open spec fn turn_state(state: GameState, pebbles: u32, random: u32) -> GameState {
    let after_user = state.take(pebbles as int).settled(Player::User);
    if after_user.finished() {
        after_user
    } else {
        after_user.program_moved(random).settled(Player::Program)
    }
}

/// The state after the user asked for `pebbles`: that of the turn where it is
/// accepted, the same state where it is refused.
pub open spec fn play_turn(state: GameState, pebbles: u32, random: u32) -> GameState {
    if turn_error(state, pebbles) is None {
        turn_state(state, pebbles, random)
    } else {
        state
    }
}

/// What a requested turn answers: its refusal, or the report of the state
/// that it led to.
pub open spec fn turn_reply(state: GameState, pebbles: u32, random: u32) -> Result<
    PebblesEvent,
    GameError,
> {
    match turn_error(state, pebbles) {
        Some(error) => Err(error),
        None => Ok(turn_state(state, pebbles, random).report()),
    }
}

/// The state after a forfeit: the program has won, the pile is untouched.
pub open spec fn forfeit_state(state: GameState) -> GameState {
    GameState { winner: Some(Player::Program), ..state }
}

/// The state after a restart: dealt from the new parameters as they are, and
/// where the coin lets the program begin, after its opening move. Nobody has
/// won, even if that move emptied the pile.
pub open spec fn restart_state(
    difficulty: DifficultyLevel,
    pebbles_count: u32,
    max_pebbles_per_turn: u32,
    coin: u32,
    random: u32,
) -> GameState {
    let opening = dealt(difficulty, pebbles_count, max_pebbles_per_turn, coin);
    if opening.first_player == Player::Program {
        opening.program_moved(random)
    } else {
        opening
    }
}

/// Lets the program move in `game_state`, drawn with `random`, and declares
/// it the winner if it empties the pile.
fn program_reply(game_state: &mut GameState, random: u32)
    ensures
        *final(game_state) == old(game_state).program_moved(random).settled(Player::Program),
        final(game_state).pebbles_remaining <= old(game_state).pebbles_remaining,
{
    let pebbles: u32 = program_turn(game_state, random);
    game_state.pebbles_remaining = game_state.pebbles_remaining - pebbles;
    if game_state.pebbles_remaining == 0 {
        game_state.winner = Some(Player::Program);
    }
}

/// Resolves the user's turn: the user takes `pebbles`, and unless that wins
/// the game, the program answers at once with a move drawn with `random`.
///
/// The turn is refused, and the game left as it was, exactly when
/// `turn_error` names a reason. An accepted turn shrinks the pile, and ends
/// the game exactly if it empties it.
pub fn handle_turn(game_state: &mut GameState, pebbles: u32, random: u32) -> (reply: Result<
    PebblesEvent,
    GameError,
>)
    ensures
        reply == turn_reply(*old(game_state), pebbles, random),
        *final(game_state) == play_turn(*old(game_state), pebbles, random),
        reply is Err ==> *final(game_state) == *old(game_state),
        final(game_state).pebbles_remaining <= old(game_state).pebbles_remaining,
        reply is Ok ==> final(game_state).pebbles_remaining < old(game_state).pebbles_remaining,
        reply is Ok ==> (final(game_state).finished() <==> final(game_state).pebbles_remaining
            == 0),
        old(game_state).wf() ==> final(game_state).wf(),
{
    if pebbles == 0 || pebbles > game_state.max_pebbles_per_turn {
        return Err(GameError::InvalidTurn);
    }
    if game_state.winner.is_some() {
        return Err(GameError::GameOver);
    }
    if pebbles > game_state.pebbles_remaining {
        return Err(GameError::NotEnoughPebbles);
    }
    game_state.pebbles_remaining = game_state.pebbles_remaining - pebbles;
    if game_state.pebbles_remaining == 0 {
        game_state.winner = Some(Player::User);
        Ok(PebblesEvent::Won(Player::User))
    } else {
        program_reply(game_state, random);
        if game_state.pebbles_remaining == 0 {
            Ok(PebblesEvent::Won(Player::Program))
        } else {
            Ok(PebblesEvent::CounterTurn(game_state.pebbles_remaining))
        }
    }
}

/// Replaces the game by a new one, dealt from the given parameters without
/// validating them. `coin` decides who begins; where it is the program, it
/// makes its opening move, drawn with `random`. The reply is the size of the
/// pile after that, and no winner is declared even if the pile is empty.
pub fn handle_restart(
    game_state: &mut GameState,
    difficulty: DifficultyLevel,
    pebbles_count: u32,
    max_pebbles_per_turn: u32,
    coin: u32,
    random: u32,
) -> (reply: PebblesEvent)
    ensures
        *final(game_state) == restart_state(
            difficulty,
            pebbles_count,
            max_pebbles_per_turn,
            coin,
            random,
        ),
        reply == PebblesEvent::CounterTurn(final(game_state).pebbles_remaining),
        0 < max_pebbles_per_turn <= pebbles_count ==> final(game_state).wf(),
{
    *game_state = GameState {
        pebbles_count,
        max_pebbles_per_turn,
        pebbles_remaining: pebbles_count,
        difficulty,
        first_player: pick_first_player(coin),
        winner: None,
    };
    if game_state.first_player == Player::Program {
        let pebbles: u32 = program_turn(game_state, random);
        game_state.pebbles_remaining = game_state.pebbles_remaining - pebbles;
    }
    PebblesEvent::CounterTurn(game_state.pebbles_remaining)
}

} // verus!
