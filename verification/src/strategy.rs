//! The program's choice of a move.
//!
//! A move is legal when it takes at least one pebble and no more than
//! `move_limit`: the smaller of the turn limit and the pile. Both strategies
//! stay within that limit on every input; where the limit is zero there is no
//! legal move and the program takes nothing.

use vstd::prelude::*;
use vstd::arithmetic::div_mod::{lemma_fundamental_div_mod, lemma_mod_multiples_basic};
use crate::types::{DifficultyLevel, GameState};

verus! {

/// The most pebbles that one move can take: the turn limit, or the whole
/// pile where that is smaller.
pub open spec fn move_limit(remaining: int, max_per_turn: int) -> int {
    if remaining <= max_per_turn {
        remaining
    } else {
        max_per_turn
    }
}

/// The mover cannot win against best play: the pile is a multiple of
/// `max_per_turn + 1`.
pub open spec fn losing_position(remaining: int, max_per_turn: int) -> bool {
    remaining % (max_per_turn + 1) == 0
}

/// The easy move: `random % max_per_turn + 1`, cut down to the pile where the
/// pile is smaller.
pub open spec fn easy_move(remaining: int, max_per_turn: int, random: int) -> int {
    if max_per_turn <= 0 {
        0
    } else {
        let wish = random % max_per_turn + 1;
        if wish <= remaining {
            wish
        } else {
            remaining
        }
    }
}

/// The hard move: whatever the pile holds beyond a multiple of
/// `max_per_turn + 1`; on a multiple, where every move loses against best
/// play, as many pebbles as one move can take.
pub open spec fn hard_move(remaining: int, max_per_turn: int) -> int {
    let beyond = remaining % (max_per_turn + 1);
    if beyond != 0 {
        beyond
    } else {
        move_limit(remaining, max_per_turn)
    }
}

/// The number of pebbles that the program takes from a pile of `remaining`.
pub open spec fn program_move(
    difficulty: DifficultyLevel,
    remaining: int,
    max_per_turn: int,
    random: int,
) -> int {
    match difficulty {
        DifficultyLevel::Easy => easy_move(remaining, max_per_turn, random),
        DifficultyLevel::Hard => hard_move(remaining, max_per_turn),
    }
}

/// Every program move is legal: it stays within `move_limit`, and takes at
/// least one pebble wherever a legal move exists.
pub proof fn lemma_program_move_is_legal(
    difficulty: DifficultyLevel,
    remaining: int,
    max_per_turn: int,
    random: int,
)
    requires
        0 <= remaining,
        0 <= max_per_turn,
        0 <= random,
    ensures
        0 <= program_move(difficulty, remaining, max_per_turn, random) <= move_limit(
            remaining,
            max_per_turn,
        ),
        move_limit(remaining, max_per_turn) >= 1 ==> program_move(
            difficulty,
            remaining,
            max_per_turn,
            random,
        ) >= 1,
{
    match difficulty {
        DifficultyLevel::Easy => {
            if max_per_turn > 0 {
                assert(0 <= random % max_per_turn < max_per_turn) by (nonlinear_arith)
                    requires
                        0 <= random,
                        0 < max_per_turn,
                ;
            }
        },
        DifficultyLevel::Hard => {
            lemma_hard_move_bounds(remaining, max_per_turn);
        },
    }
}

/// The hard move never exceeds `move_limit`, and on a pile that is a positive
/// multiple of `max_per_turn + 1` it is the full turn limit.
pub proof fn lemma_hard_move_bounds(remaining: int, max_per_turn: int)
    requires
        0 <= remaining,
        0 <= max_per_turn,
    ensures
        0 <= hard_move(remaining, max_per_turn) <= move_limit(remaining, max_per_turn),
        move_limit(remaining, max_per_turn) >= 1 ==> hard_move(remaining, max_per_turn) >= 1,
        remaining > 0 && losing_position(remaining, max_per_turn) ==> hard_move(
            remaining,
            max_per_turn,
        ) == max_per_turn,
{
    let modulus = max_per_turn + 1;
    let beyond = remaining % modulus;
    lemma_fundamental_div_mod(remaining, modulus);
    assert(0 <= beyond < modulus && 0 <= remaining / modulus) by (nonlinear_arith)
        requires
            0 <= remaining,
            0 < modulus,
            beyond == remaining % modulus,
    ;
    if beyond == 0 && remaining > 0 {
        assert(remaining >= modulus) by (nonlinear_arith)
            requires
                remaining == modulus * (remaining / modulus),
                remaining > 0,
                0 <= remaining / modulus,
                0 < modulus,
        ;
    }
    if beyond != 0 {
        assert(beyond <= remaining) by (nonlinear_arith)
            requires
                remaining == modulus * (remaining / modulus) + beyond,
                0 <= remaining / modulus,
                0 < modulus,
        ;
    }
}

/// Against a pile that is no multiple of `max_per_turn + 1`, the hard move
/// leaves one that is.
pub proof fn lemma_hard_move_leaves_multiple(remaining: int, max_per_turn: int)
    requires
        0 <= remaining,
        0 <= max_per_turn,
        !losing_position(remaining, max_per_turn),
    ensures
        losing_position(remaining - hard_move(remaining, max_per_turn), max_per_turn),
{
    let modulus = max_per_turn + 1;
    lemma_fundamental_div_mod(remaining, modulus);
    lemma_mod_multiples_basic(remaining / modulus, modulus);
    assert(modulus * (remaining / modulus) == (remaining / modulus) * modulus)
        by (nonlinear_arith);
}

/// Chooses the program's move against `game_state.pebbles_remaining`.
///
/// `random` is consulted at the easy level only.
pub fn program_turn(game_state: &GameState, random: u32) -> (pebbles: u32)
    ensures
        pebbles == program_move(
            game_state.difficulty,
            game_state.pebbles_remaining as int,
            game_state.max_pebbles_per_turn as int,
            random as int,
        ),
        pebbles <= game_state.pebbles_remaining,
        pebbles <= game_state.max_pebbles_per_turn,
        game_state.pebbles_remaining >= 1 && game_state.max_pebbles_per_turn >= 1 ==> pebbles >= 1,
        game_state.difficulty == DifficultyLevel::Hard && !losing_position(
            game_state.pebbles_remaining as int,
            game_state.max_pebbles_per_turn as int,
        ) ==> losing_position(
            game_state.pebbles_remaining - pebbles,
            game_state.max_pebbles_per_turn as int,
        ),
{
    let remaining: u32 = game_state.pebbles_remaining;
    let max_per_turn: u32 = game_state.max_pebbles_per_turn;
    proof {
        lemma_program_move_is_legal(
            game_state.difficulty,
            remaining as int,
            max_per_turn as int,
            random as int,
        );
        if !losing_position(remaining as int, max_per_turn as int) {
            lemma_hard_move_leaves_multiple(remaining as int, max_per_turn as int);
        }
    }
    match game_state.difficulty {
        DifficultyLevel::Easy => {
            if max_per_turn == 0 {
                0
            } else {
                let wish: u32 = random % max_per_turn + 1;
                if wish <= remaining {
                    wish
                } else {
                    remaining
                }
            }
        },
        DifficultyLevel::Hard => {
            let modulus: u64 = max_per_turn as u64 + 1;
            let beyond: u64 = remaining as u64 % modulus;
            if beyond != 0 {
                beyond as u32
            } else if remaining <= max_per_turn {
                remaining
            } else {
                max_per_turn
            }
        },
    }
}

} // verus!
