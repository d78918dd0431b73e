//! The engine: the owner of the one game, and its three operations.

use vstd::prelude::*;
use crate::error::GameError;
use crate::rules::{
    forfeit_state,
    handle_restart,
    handle_turn,
    init_error,
    init_reply,
    init_state,
    pick_first_player,
    play_turn,
    restart_state,
    turn_reply,
};
use crate::strategy::program_turn;
use crate::types::{GameState, PebblesAction, PebblesEvent, PebblesInit, Player};

verus! {

/// The state after `action` was requested in `state`. A turn draws the
/// program's answer with `random`, and changes nothing where it is refused;
/// a restart tosses `coin` and draws the program's opening move with
/// `random`; a forfeit uses neither.
pub open spec fn play_action(state: GameState, action: PebblesAction, coin: u32, random: u32)
    -> GameState {
    match action {
        PebblesAction::Turn(pebbles) => play_turn(state, pebbles, random),
        PebblesAction::GiveUp => forfeit_state(state),
        PebblesAction::Restart { difficulty, pebbles_count, max_pebbles_per_turn } => restart_state(
            difficulty,
            pebbles_count,
            max_pebbles_per_turn,
            coin,
            random,
        ),
    }
}

/// What `action` answers in `state`: a turn as `turn_reply` says, a forfeit
/// the program's win, a restart the size of the pile that it leaves.
pub open spec fn action_reply(state: GameState, action: PebblesAction, coin: u32, random: u32)
    -> Result<PebblesEvent, GameError> {
    match action {
        PebblesAction::Turn(pebbles) => turn_reply(state, pebbles, random),
        PebblesAction::GiveUp => Ok(PebblesEvent::Won(Player::Program)),
        PebblesAction::Restart { .. } => Ok(
            PebblesEvent::CounterTurn(play_action(state, action, coin, random).pebbles_remaining),
        ),
    }
}

/// The action starts no game with invalid parameters: it is no restart, or
/// one with a turn limit between one and the size of the pile.
pub open spec fn keeps_valid(action: PebblesAction) -> bool {
    match action {
        PebblesAction::Restart { pebbles_count, max_pebbles_per_turn, .. } => 0
            < max_pebbles_per_turn <= pebbles_count,
        _ => true,
    }
}

/// What the engine holds after `init`: the new game, or what it held before
/// where the parameters are refused.
pub open spec fn after_init(
    held: Option<GameState>,
    init: PebblesInit,
    coin: u32,
    random: u32,
) -> Option<GameState> {
    if init_error(init) is None {
        Some(init_state(init, coin, random))
    } else {
        held
    }
}

/// What the engine holds after `handle`.
pub open spec fn after_handle(
    held: Option<GameState>,
    action: PebblesAction,
    coin: u32,
    random: u32,
) -> Option<GameState> {
    match held {
        Some(state) => Some(play_action(state, action, coin, random)),
        None => None,
    }
}

/// What `handle` answers: without a game a refusal, else what the action
/// answers in the game held.
pub open spec fn handle_reply(
    held: Option<GameState>,
    action: PebblesAction,
    coin: u32,
    random: u32,
) -> Result<PebblesEvent, GameError> {
    match held {
        Some(state) => action_reply(state, action, coin, random),
        None => Err(GameError::NotInitialized),
    }
}

/// What `state` answers: the game held, or a refusal without one.
pub open spec fn state_reply(held: Option<GameState>) -> Result<GameState, GameError> {
    match held {
        Some(state) => Ok(state),
        None => Err(GameError::NotInitialized),
    }
}

/// The game held, if any, is well formed.
pub open spec fn holds_wf(held: Option<GameState>) -> bool {
    held matches Some(state) ==> state.wf()
}

/// The game engine. It owns at most one game: none until `init` succeeds,
/// and from then on always one.
#[derive(Debug, Clone, Copy)]
pub struct PebblesGame {
    game: Option<GameState>,
}

impl View for PebblesGame {
    type V = Option<GameState>;

    /// The game held.
    closed spec fn view(&self) -> Option<GameState> {
        self.game
    }
}

impl Default for PebblesGame {
    fn default() -> (engine: Self)
        ensures
            engine@ is None,
    {
        PebblesGame::new()
    }
}

impl PebblesGame {
    /// An engine without a game.
    pub fn new() -> (engine: Self)
        ensures
            engine@ is None,
    {
        PebblesGame { game: None }
    }

    /// Starts a game, replacing the current one if there is one.
    ///
    /// Invalid parameters are refused, exactly as `init_error` says, and leave
    /// the engine as it was. Otherwise `coin` decides who begins. Where it is
    /// the program, it moves at once, drawn with `random`, and the reply
    /// reports that move, or the program's win if it emptied the pile. Where
    /// it is the user, there is no reply. The game started is well formed:
    /// its pile and its turn limit are no larger than the starting pile.
    pub fn init(&mut self, init: PebblesInit, coin: u32, random: u32) -> (reply: Result<
        Option<PebblesEvent>,
        GameError,
    >)
        ensures
            reply == init_reply(init, coin, random),
            final(self)@ == after_init(old(self)@, init, coin, random),
            reply is Ok <==> init.valid(),
            reply is Err ==> final(self)@ == old(self)@,
            reply is Ok ==> final(self)@ is Some && holds_wf(final(self)@),
            reply is Ok ==> final(self)@->0.pebbles_remaining <= init.pebbles_count,
            reply is Ok ==> final(self)@->0.max_pebbles_per_turn <= init.pebbles_count,
    {
        if init.pebbles_count == 0 {
            return Err(GameError::EmptyPile);
        }
        if init.max_pebbles_per_turn == 0 {
            return Err(GameError::ZeroTurnLimit);
        }
        if init.max_pebbles_per_turn > init.pebbles_count {
            return Err(GameError::TurnLimitAbovePile);
        }
        let first_player = pick_first_player(coin);
        let mut game_state = GameState {
            pebbles_count: init.pebbles_count,
            max_pebbles_per_turn: init.max_pebbles_per_turn,
            pebbles_remaining: init.pebbles_count,
            difficulty: init.difficulty,
            first_player,
            winner: None,
        };
        let reply = if first_player == Player::Program {
            let pebbles: u32 = program_turn(&game_state, random);
            game_state.pebbles_remaining = game_state.pebbles_remaining - pebbles;
            if game_state.pebbles_remaining == 0 {
                game_state.winner = Some(Player::Program);
                Some(PebblesEvent::Won(Player::Program))
            } else {
                Some(PebblesEvent::CounterTurn(game_state.pebbles_remaining))
            }
        } else {
            None
        };
        self.game = Some(game_state);
        Ok(reply)
    }

    /// Performs one action on the current game and answers with one event.
    ///
    /// Without a game the action is refused as `NotInitialized`; a turn is
    /// refused as `handle_turn` says. A refused action leaves the engine as
    /// it was. A forfeit makes the program the winner, whatever the state.
    /// A well-formed game stays well formed, but under a restart with invalid
    /// parameters.
    pub fn handle(&mut self, action: PebblesAction, coin: u32, random: u32) -> (reply: Result<
        PebblesEvent,
        GameError,
    >)
        ensures
            reply == handle_reply(old(self)@, action, coin, random),
            final(self)@ == after_handle(old(self)@, action, coin, random),
            reply is Err ==> final(self)@ == old(self)@,
            holds_wf(old(self)@) && keeps_valid(action) ==> holds_wf(final(self)@),
    {
        match self.game {
            None => Err(GameError::NotInitialized),
            Some(mut game_state) => {
                let reply = match action {
                    PebblesAction::Turn(pebbles) => handle_turn(&mut game_state, pebbles, random),
                    PebblesAction::GiveUp => {
                        game_state.winner = Some(Player::Program);
                        Ok(PebblesEvent::Won(Player::Program))
                    },
                    PebblesAction::Restart { difficulty, pebbles_count, max_pebbles_per_turn } => {
                        Ok(
                            handle_restart(
                                &mut game_state,
                                difficulty,
                                pebbles_count,
                                max_pebbles_per_turn,
                                coin,
                                random,
                            ),
                        )
                    },
                };
                self.game = Some(game_state);
                reply
            },
        }
    }

    /// A copy of the current game's record, or `NotInitialized` without a
    /// game. The record read is the record held, and reading changes
    /// nothing: two reads with nothing in between give the same record.
    pub fn state(&self) -> (snapshot: Result<GameState, GameError>)
        ensures
            snapshot == state_reply(self@),
    {
        match self.game {
            Some(state) => Ok(state),
            None => Err(GameError::NotInitialized),
        }
    }
}

} // verus!
