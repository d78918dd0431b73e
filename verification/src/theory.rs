//! The subtraction game itself: which piles the player to move wins, and that
//! the hard strategy plays them perfectly.

use vstd::prelude::*;
use vstd::arithmetic::div_mod::{lemma_fundamental_div_mod, lemma_fundamental_div_mod_converse};
use crate::strategy::{
    hard_move,
    lemma_hard_move_bounds,
    lemma_hard_move_leaves_multiple,
    losing_position,
    move_limit,
};

verus! {

/// Taking `pebbles` is a legal move on a pile of `remaining`.
pub open spec fn legal_move(pebbles: int, remaining: int, max_per_turn: int) -> bool {
    1 <= pebbles <= move_limit(remaining, max_per_turn)
}

/// The player to move on a pile of `remaining` can force a win: some legal
/// move leaves a pile on which the opponent, then to move, cannot. On an
/// empty pile there is no move, and the player to move has lost.
pub open spec fn mover_wins(remaining: nat, max_per_turn: nat) -> bool
    decreases remaining,
{
    exists|pebbles: nat|
        #[trigger] legal_move(pebbles as int, remaining as int, max_per_turn as int) && !mover_wins(
            (remaining - pebbles) as nat,
            max_per_turn,
        )
}

/// A legal move from a multiple of `max_per_turn + 1` never leaves one.
proof fn lemma_no_move_between_multiples(remaining: int, max_per_turn: int, pebbles: int)
    requires
        0 <= remaining,
        losing_position(remaining, max_per_turn),
        legal_move(pebbles, remaining, max_per_turn),
    ensures
        !losing_position(remaining - pebbles, max_per_turn),
{
    let modulus = max_per_turn + 1;
    let rounds = remaining / modulus;
    lemma_fundamental_div_mod(remaining, modulus);
    assert(remaining - pebbles == modulus * (rounds - 1) + (modulus - pebbles))
        by (nonlinear_arith)
        requires
            remaining == modulus * rounds,
    ;
    lemma_fundamental_div_mod_converse(
        remaining - pebbles,
        modulus,
        rounds - 1,
        modulus - pebbles,
    );
}

/// The player to move wins exactly the piles that are no multiple of
/// `max_per_turn + 1`.
pub proof fn lemma_winning_positions(remaining: nat, max_per_turn: nat)
    ensures
        mover_wins(remaining, max_per_turn) <==> !losing_position(
            remaining as int,
            max_per_turn as int,
        ),
    decreases remaining,
{
    if losing_position(remaining as int, max_per_turn as int) {
        assert forall|pebbles: nat| #[trigger]
            legal_move(pebbles as int, remaining as int, max_per_turn as int) implies mover_wins(
            (remaining - pebbles) as nat,
            max_per_turn,
        ) by {
            lemma_no_move_between_multiples(remaining as int, max_per_turn as int, pebbles as int);
            lemma_winning_positions((remaining - pebbles) as nat, max_per_turn);
        }
    } else {
        let pebbles = hard_move(remaining as int, max_per_turn as int);
        lemma_hard_move_bounds(remaining as int, max_per_turn as int);
        lemma_hard_move_leaves_multiple(remaining as int, max_per_turn as int);
        lemma_winning_positions((remaining - pebbles) as nat, max_per_turn);
        assert(legal_move(pebbles, remaining as int, max_per_turn as int));
    }
}

/// The hard move is perfect play: wherever the player to move can force a
/// win, it is a legal move that leaves the opponent a pile on which they
/// cannot.
pub proof fn lemma_hard_move_is_optimal(remaining: nat, max_per_turn: nat)
    requires
        mover_wins(remaining, max_per_turn),
    ensures
        legal_move(
            hard_move(remaining as int, max_per_turn as int),
            remaining as int,
            max_per_turn as int,
        ),
        !mover_wins(
            (remaining - hard_move(remaining as int, max_per_turn as int)) as nat,
            max_per_turn,
        ),
{
    let pebbles = hard_move(remaining as int, max_per_turn as int);
    lemma_winning_positions(remaining, max_per_turn);
    lemma_hard_move_bounds(remaining as int, max_per_turn as int);
    lemma_hard_move_leaves_multiple(remaining as int, max_per_turn as int);
    lemma_winning_positions((remaining - pebbles) as nat, max_per_turn);
}

} // verus!
