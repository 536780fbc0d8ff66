//! The two ways in which the program chooses its move.

use vstd::prelude::*;
use crate::random::{get_random_num_1_to_k, one_to_k};
use crate::types::{GameState, PebblesError};

verus! {

/// The move of the easy level: a number drawn between one and the per-turn
/// maximum, cut down to what is left in the pile.
pub open spec fn easy_move(game_state: GameState, random_value: u32) -> int
    recommends
        game_state.max_pebbles_per_turn >= 1,
{
    let drawn = one_to_k(game_state.max_pebbles_per_turn, random_value);
    if drawn <= game_state.pebbles_remaining {
        drawn
    } else {
        game_state.pebbles_remaining as int
    }
}

/// The move of the hard level. A pile within the per-turn maximum is taken
/// whole. From a larger pile the program takes the remainder of one less
/// than the pile modulo one more than the maximum; where that remainder is
/// zero, no move improves its position, and it takes a single pebble.
pub open spec fn hard_move(game_state: GameState) -> int {
    if game_state.pebbles_remaining <= game_state.max_pebbles_per_turn {
        game_state.pebbles_remaining as int
    } else {
        let residue = (game_state.pebbles_remaining - 1) % (game_state.max_pebbles_per_turn + 1);
        if residue == 0 {
            1
        } else {
            residue
        }
    }
}

/// Chooses the program's move at the easy level from a random value. The
/// move is refused where the per-turn maximum is zero.
pub fn program_easy_turn(game_state: &GameState, random_value: u32) -> (result: Result<
    u32,
    PebblesError,
>)
    ensures
        match result {
            Ok(taken) => {
                &&& game_state.max_pebbles_per_turn >= 1
                &&& taken == easy_move(*game_state, random_value)
                &&& game_state.pebbles_remaining >= 1 ==> 1 <= taken <= game_state.legal_limit()
            },
            Err(e) => game_state.max_pebbles_per_turn == 0 && e == PebblesError::InvalidArgument,
        },
{
    match get_random_num_1_to_k(game_state.max_pebbles_per_turn, random_value) {
        Ok(drawn) => {
            if drawn <= game_state.pebbles_remaining {
                Ok(drawn)
            } else {
                Ok(game_state.pebbles_remaining)
            }
        },
        Err(e) => Err(e),
    }
}

/// Chooses the program's move at the hard level.
pub fn program_hard_turn(game_state: &GameState) -> (taken: u32)
    ensures
        taken == hard_move(*game_state),
        game_state.legal_limit() >= 1 ==> 1 <= taken <= game_state.legal_limit(),
{
    if game_state.pebbles_remaining <= game_state.max_pebbles_per_turn {
        game_state.pebbles_remaining
    } else {
        let residue: u32 = (game_state.pebbles_remaining - 1) % (game_state.max_pebbles_per_turn
            + 1);
        if residue == 0 {
            1
        } else {
            residue
        }
    }
}

/// At the hard level the program takes at least one pebble, no more than the
/// per-turn maximum and no more than the pile holds, whenever such a move
/// exists.
pub proof fn lemma_hard_move_is_legal(game_state: GameState)
    requires
        game_state.max_pebbles_per_turn >= 1,
        game_state.pebbles_remaining >= 1,
    ensures
        1 <= hard_move(game_state) <= game_state.max_pebbles_per_turn,
        hard_move(game_state) <= game_state.pebbles_remaining,
{
}

/// At the easy level the program takes at least one pebble, no more than the
/// per-turn maximum and no more than the pile holds, whenever such a move
/// exists and whatever the random value.
pub proof fn lemma_easy_move_is_legal(game_state: GameState, random_value: u32)
    requires
        game_state.max_pebbles_per_turn >= 1,
        game_state.pebbles_remaining >= 1,
    ensures
        1 <= easy_move(game_state, random_value) <= game_state.max_pebbles_per_turn,
        easy_move(game_state, random_value) <= game_state.pebbles_remaining,
{
}

/// From a pile larger than the per-turn maximum whose size is not one more
/// than a multiple of one more than the maximum, the hard level leaves a pile
/// that is.
pub proof fn lemma_hard_move_leaves_residue_one(game_state: GameState)
    requires
        game_state.max_pebbles_per_turn >= 1,
        game_state.pebbles_remaining > game_state.max_pebbles_per_turn,
        (game_state.pebbles_remaining - 1) % (game_state.max_pebbles_per_turn + 1) != 0,
    ensures
        (game_state.pebbles_remaining - hard_move(game_state) - 1) % (
        game_state.max_pebbles_per_turn + 1) == 0,
{
    let modulus = game_state.max_pebbles_per_turn + 1;
    let x = game_state.pebbles_remaining - 1;
    vstd::arithmetic::div_mod::lemma_fundamental_div_mod(x, modulus);
    vstd::arithmetic::div_mod::lemma_mod_multiples_basic(x / modulus, modulus);
    assert(x - x % modulus == modulus * (x / modulus));
    assert(modulus * (x / modulus) == (x / modulus) * modulus) by (nonlinear_arith);
}

} // verus!
