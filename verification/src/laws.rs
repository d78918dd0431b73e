//! What holds of every game, proved over the transitions of `rules`.

use vstd::prelude::*;
use crate::engine::{keeps_valid, play_action};
use crate::rules::{
    dealt,
    forfeit_state,
    init_state,
    play_turn,
    restart_state,
    turn_error,
    turn_state,
};
use crate::strategy::{
    lemma_hard_move_leaves_multiple,
    lemma_program_move_is_legal,
    losing_position,
    program_move,
};
use crate::theory::{lemma_hard_move_is_optimal, mover_wins};
use crate::types::{DifficultyLevel, GameState, PebblesAction, PebblesInit, Player};

verus! {

/// The state after a sequence of requested turns, each given as the number of
/// pebbles asked for and the random number drawn for the program's answer.
pub open spec fn play_turns(state: GameState, turns: Seq<(u32, u32)>) -> GameState
    decreases turns.len(),
{
    if turns.len() == 0 {
        state
    } else {
        play_turn(play_turns(state, turns.drop_last()), turns.last().0, turns.last().1)
    }
}

/// The program's opening or answering move changes nothing but the pile,
/// and never enlarges it.
pub proof fn lemma_program_moved(state: GameState, random: u32)
    ensures
        state.program_moved(random) == (GameState {
            pebbles_remaining: state.program_moved(random).pebbles_remaining,
            ..state
        }),
        state.program_moved(random).pebbles_remaining == state.pebbles_remaining - program_move(
            state.difficulty,
            state.pebbles_remaining as int,
            state.max_pebbles_per_turn as int,
            random as int,
        ),
        state.program_moved(random).pebbles_remaining <= state.pebbles_remaining,
        state.pebbles_remaining >= 1 && state.max_pebbles_per_turn >= 1 ==> state.program_moved(
            random,
        ).pebbles_remaining < state.pebbles_remaining,
{
    lemma_program_move_is_legal(
        state.difficulty,
        state.pebbles_remaining as int,
        state.max_pebbles_per_turn as int,
        random as int,
    );
}

/// A game started with valid parameters is well formed: in particular its
/// pile is no larger than the starting pile, and its turn limit no larger
/// than that. It has a winner exactly if the program began and emptied the
/// pile with its opening move.
pub proof fn lemma_init_state_wf(init: PebblesInit, coin: u32, random: u32)
    requires
        init.valid(),
    ensures
        init_state(init, coin, random).wf(),
        init_state(init, coin, random).pebbles_remaining <= init.pebbles_count,
        init_state(init, coin, random).max_pebbles_per_turn <= init.pebbles_count,
        init_state(init, coin, random).finished() <==> init_state(
            init,
            coin,
            random,
        ).pebbles_remaining == 0,
        init_state(init, coin, random).winner != Some(Player::User),
{
    lemma_program_moved(
        dealt(init.difficulty, init.pebbles_count, init.max_pebbles_per_turn, coin),
        random,
    );
}

/// An accepted turn shrinks the pile, keeps a well-formed game well formed,
/// and ends the game exactly if it empties the pile.
pub proof fn lemma_turn_state(state: GameState, pebbles: u32, random: u32)
    requires
        turn_error(state, pebbles) is None,
    ensures
        turn_state(state, pebbles, random).pebbles_remaining < state.pebbles_remaining,
        turn_state(state, pebbles, random).finished() <==> turn_state(
            state,
            pebbles,
            random,
        ).pebbles_remaining == 0,
        state.wf() ==> turn_state(state, pebbles, random).wf(),
        turn_state(state, pebbles, random) == (GameState {
            pebbles_remaining: turn_state(state, pebbles, random).pebbles_remaining,
            winner: turn_state(state, pebbles, random).winner,
            ..state
        }),
{
    let after_user = state.take(pebbles as int).settled(Player::User);
    lemma_program_moved(after_user, random);
}

/// Over any sequence of requested turns the pile never grows: after the
/// whole sequence it is no larger than after any part of it.
pub proof fn lemma_turns_never_refill(state: GameState, turns: Seq<(u32, u32)>, played: int)
    requires
        0 <= played <= turns.len(),
    ensures
        play_turns(state, turns).pebbles_remaining <= play_turns(
            state,
            turns.take(played),
        ).pebbles_remaining,
    decreases turns.len(),
{
    if played == turns.len() {
        assert(turns.take(played) == turns);
    } else {
        let before = turns.drop_last();
        assert(before.take(played) == turns.take(played));
        lemma_turns_never_refill(state, before, played);
        let reached = play_turns(state, before);
        if turn_error(reached, turns.last().0) is None {
            lemma_turn_state(reached, turns.last().0, turns.last().1);
        }
    }
}

/// Over any sequence of requested turns in a game that had no winner, there
/// is a winner only once the pile is empty, and if the pile was not empty at
/// the start, there is one as soon as it is; and a game that was well formed
/// stays so.
pub proof fn lemma_turns_win_on_empty_pile(state: GameState, turns: Seq<(u32, u32)>)
    requires
        !state.finished(),
    ensures
        play_turns(state, turns).finished() ==> play_turns(state, turns).pebbles_remaining == 0,
        state.pebbles_remaining > 0 && play_turns(state, turns).pebbles_remaining == 0
            ==> play_turns(state, turns).finished(),
        state.wf() ==> play_turns(state, turns).wf(),
    decreases turns.len(),
{
    if turns.len() > 0 {
        let before = turns.drop_last();
        lemma_turns_win_on_empty_pile(state, before);
        let reached = play_turns(state, before);
        if turn_error(reached, turns.last().0) is None {
            lemma_turn_state(reached, turns.last().0, turns.last().1);
        }
    }
}

/// Once a game has a winner, no sequence of requested turns changes it.
pub proof fn lemma_turns_after_the_end(state: GameState, turns: Seq<(u32, u32)>)
    requires
        state.finished(),
    ensures
        play_turns(state, turns) == state,
    decreases turns.len(),
{
    if turns.len() > 0 {
        lemma_turns_after_the_end(state, turns.drop_last());
    }
}

/// At the hard level every move of the program, be it an opening move or
/// the answer to a turn, that meets a pile which is no multiple of
/// `max_pebbles_per_turn + 1` leaves one that is.
pub proof fn lemma_hard_program_leaves_multiple(state: GameState, random: u32)
    requires
        state.difficulty == DifficultyLevel::Hard,
        !losing_position(state.pebbles_remaining as int, state.max_pebbles_per_turn as int),
    ensures
        losing_position(
            state.program_moved(random).pebbles_remaining as int,
            state.max_pebbles_per_turn as int,
        ),
{
    lemma_hard_move_leaves_multiple(
        state.pebbles_remaining as int,
        state.max_pebbles_per_turn as int,
    );
    lemma_program_moved(state, random);
}

/// At the hard level the program never lets a won game slip: where it meets
/// a pile on which the player to move can force a win, its move leaves the
/// user a pile on which they cannot.
pub proof fn lemma_hard_program_is_optimal(state: GameState, random: u32)
    requires
        state.difficulty == DifficultyLevel::Hard,
        mover_wins(state.pebbles_remaining as nat, state.max_pebbles_per_turn as nat),
    ensures
        !mover_wins(
            state.program_moved(random).pebbles_remaining as nat,
            state.max_pebbles_per_turn as nat,
        ),
{
    lemma_hard_move_is_optimal(state.pebbles_remaining as nat, state.max_pebbles_per_turn as nat);
    lemma_program_moved(state, random);
}

/// At the hard level, where the user's accepted turn leaves the program a
/// pile that is no multiple of `max_pebbles_per_turn + 1`, the turn ends on
/// one that is.
pub proof fn lemma_hard_answer_leaves_multiple(state: GameState, pebbles: u32, random: u32)
    requires
        turn_error(state, pebbles) is None,
        state.difficulty == DifficultyLevel::Hard,
        !losing_position(state.pebbles_remaining - pebbles, state.max_pebbles_per_turn as int),
    ensures
        losing_position(
            turn_state(state, pebbles, random).pebbles_remaining as int,
            state.max_pebbles_per_turn as int,
        ),
{
    let left = state.pebbles_remaining - pebbles;
    assert(left != 0) by (nonlinear_arith)
        requires
            left % (state.max_pebbles_per_turn + 1) != 0,
    ;
    lemma_hard_program_leaves_multiple(state.take(pebbles as int).settled(Player::User), random);
}

/// A forfeit keeps a well-formed game well formed and leaves the pile alone.
pub proof fn lemma_forfeit_state(state: GameState)
    ensures
        forfeit_state(state).winner == Some(Player::Program),
        forfeit_state(state).pebbles_remaining == state.pebbles_remaining,
        state.wf() ==> forfeit_state(state).wf(),
{
}

/// A restart with valid parameters gives the state that a fresh start with
/// the same parameters, coin and random number gives, but that it never
/// declares a winner: the two differ only where the program's opening move
/// empties the pile.
pub proof fn lemma_restart_matches_init(init: PebblesInit, coin: u32, random: u32)
    requires
        init.valid(),
    ensures
        restart_state(
            init.difficulty,
            init.pebbles_count,
            init.max_pebbles_per_turn,
            coin,
            random,
        ) == (GameState { winner: None, ..init_state(init, coin, random) }),
        restart_state(
            init.difficulty,
            init.pebbles_count,
            init.max_pebbles_per_turn,
            coin,
            random,
        ).wf(),
        init_state(init, coin, random).pebbles_remaining > 0 ==> restart_state(
            init.difficulty,
            init.pebbles_count,
            init.max_pebbles_per_turn,
            coin,
            random,
        ) == init_state(init, coin, random),
{
    lemma_init_state_wf(init, coin, random);
    lemma_program_moved(
        dealt(init.difficulty, init.pebbles_count, init.max_pebbles_per_turn, coin),
        random,
    );
}

/// Every action keeps a well-formed game well formed, but for a restart
/// with invalid parameters; and only a restart can enlarge the pile or take
/// the winner away.
pub proof fn lemma_play_action(state: GameState, action: PebblesAction, coin: u32, random: u32)
    ensures
        state.wf() && keeps_valid(action) ==> play_action(state, action, coin, random).wf(),
        !(action is Restart) ==> play_action(state, action, coin, random).pebbles_remaining
            <= state.pebbles_remaining,
        !(action is Restart) && state.finished() ==> play_action(
            state,
            action,
            coin,
            random,
        ).finished(),
{
    match action {
        PebblesAction::Turn(pebbles) => {
            if turn_error(state, pebbles) is None {
                lemma_turn_state(state, pebbles, random);
            }
        },
        PebblesAction::GiveUp => {},
        PebblesAction::Restart { difficulty, pebbles_count, max_pebbles_per_turn } => {
            lemma_program_moved(dealt(difficulty, pebbles_count, max_pebbles_per_turn, coin), random);
        },
    }
}

} // verus!
