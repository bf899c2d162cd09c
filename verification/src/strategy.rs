//! The computer's choice of move, and why the hard choice is the best one.

use vstd::prelude::*;
use vstd::arithmetic::div_mod::{
    lemma_fundamental_div_mod, lemma_mod_multiples_basic, lemma_small_mod,
};
use crate::types::DifficultyLevel;

verus! {

/// The easy move: the draw folded into `1..=max`, clipped to the pile.
pub open spec fn easy_pebbles_taken(remaining: int, max: int, draw: int) -> int {
    if draw % max + 1 <= remaining {
        draw % max + 1
    } else {
        remaining
    }
}

/// The hard move: what the pile holds beyond a multiple of `max + 1`, or one
/// pebble where it holds nothing beyond.
pub open spec fn hard_pebbles_taken(remaining: int, max: int) -> int {
    if remaining % (max + 1) == 0 {
        1
    } else {
        remaining % (max + 1)
    }
}

/// The number of pebbles that the computer takes from a pile of `remaining`.
pub open spec fn contract_pebbles_taken(
    remaining: int,
    max: int,
    difficulty: DifficultyLevel,
    draw: int,
) -> int {
    match difficulty {
        DifficultyLevel::Easy => easy_pebbles_taken(remaining, max, draw),
        DifficultyLevel::Hard => hard_pebbles_taken(remaining, max),
    }
}

/// The pile is a multiple of `max + 1`. These are the piles on which the side
/// to move loses against perfect play: see
/// `lemma_mover_can_win_off_losing_piles`.
pub open spec fn is_losing_pile(remaining: int, max: int) -> bool {
    remaining % (max + 1) == 0
}

/// A legal move on `pile` leaves `next`: it takes at least one pebble and at
/// most `max`.
pub open spec fn is_move(pile: nat, next: nat, max: nat) -> bool {
    next < pile && pile - next <= max
}

/// The side to move on `pile` can force a win: some legal move leaves a pile
/// on which the other side cannot. On the empty pile there is no move, and
/// the side that emptied it has won.
pub open spec fn mover_can_win(pile: nat, max: nat) -> bool
    decreases pile,
{
    exists|next: nat| #[trigger] is_move(pile, next, max) && !mover_can_win(next, max)
}

/// The computer's move takes at least one pebble, never more than the pile
/// holds, and never more than a turn may take.
pub proof fn lemma_contract_move_is_legal(
    remaining: int,
    max: int,
    difficulty: DifficultyLevel,
    draw: int,
)
    requires
        remaining >= 1,
        max >= 0,
        draw >= 0,
        difficulty == DifficultyLevel::Easy ==> max >= 1,
    ensures
        1 <= contract_pebbles_taken(remaining, max, difficulty, draw) <= remaining,
        max >= 1 ==> contract_pebbles_taken(remaining, max, difficulty, draw) <= max,
{
    match difficulty {
        DifficultyLevel::Easy => {
            assert(0 <= draw % max < max);
        },
        DifficultyLevel::Hard => {
            lemma_fundamental_div_mod(remaining, max + 1);
            assert(0 <= remaining % (max + 1) < max + 1);
            assert(remaining % (max + 1) <= remaining) by (nonlinear_arith)
                requires
                    remaining >= 1,
                    max + 1 >= 1,
            ;
        },
    }
}

/// Under hard difficulty, a move from a pile that is not a multiple of
/// `max + 1` leaves a pile that is one.
pub proof fn lemma_hard_move_leaves_losing_pile(remaining: int, max: int)
    requires
        remaining >= 1,
        max >= 0,
        !is_losing_pile(remaining, max),
    ensures
        is_losing_pile(remaining - hard_pebbles_taken(remaining, max), max),
{
    let modulus = max + 1;
    lemma_fundamental_div_mod(remaining, modulus);
    lemma_mod_multiples_basic(remaining / modulus, modulus);
    assert((remaining / modulus) * modulus == modulus * (remaining / modulus))
        by (nonlinear_arith);
}

/// One legal move away from a multiple of `max + 1` there is no multiple.
proof fn lemma_move_from_losing_pile(pile: int, next: int, max: int)
    requires
        0 <= next < pile,
        pile - next <= max,
        is_losing_pile(pile, max),
    ensures
        !is_losing_pile(next, max),
{
    let modulus = max + 1;
    lemma_fundamental_div_mod(pile, modulus);
    lemma_fundamental_div_mod(next, modulus);
    if next % modulus == 0 {
        let a = pile / modulus;
        let b = next / modulus;
        assert(pile - next == modulus * (a - b)) by (nonlinear_arith)
            requires
                pile == modulus * a,
                next == modulus * b,
        ;
        assert(false) by (nonlinear_arith)
            requires
                0 < modulus * (a - b) < modulus,
        ;
    }
}

/// The side to move can force a win exactly on the piles that are not
/// multiples of `max + 1`.
pub proof fn lemma_mover_can_win_off_losing_piles(pile: nat, max: nat)
    requires
        max >= 1,
    ensures
        mover_can_win(pile, max) <==> !is_losing_pile(pile as int, max as int),
    decreases pile,
{
    if is_losing_pile(pile as int, max as int) {
        assert forall|next: nat| #[trigger] is_move(pile, next, max) implies mover_can_win(
            next,
            max,
        ) by {
            lemma_move_from_losing_pile(pile as int, next as int, max as int);
            lemma_mover_can_win_off_losing_piles(next, max);
        }
    } else {
        assert(pile >= 1) by {
            lemma_small_mod(0, max + 1);
        }
        lemma_contract_move_is_legal(pile as int, max as int, DifficultyLevel::Hard, 0);
        lemma_hard_move_leaves_losing_pile(pile as int, max as int);
        let next = (pile - hard_pebbles_taken(pile as int, max as int)) as nat;
        lemma_mover_can_win_off_losing_piles(next, max);
        assert(is_move(pile, next, max));
    }
}

/// Hard difficulty plays perfectly: wherever the side to move can force a
/// win, the hard move is legal and leaves a pile on which the other side
/// cannot.
pub proof fn lemma_hard_move_is_perfect(pile: nat, max: nat)
    requires
        max >= 1,
        mover_can_win(pile, max),
    ensures
        is_move(pile, (pile - hard_pebbles_taken(pile as int, max as int)) as nat, max),
        !mover_can_win((pile - hard_pebbles_taken(pile as int, max as int)) as nat, max),
{
    lemma_mover_can_win_off_losing_piles(pile, max);
    assert(pile >= 1) by {
        lemma_small_mod(0, max + 1);
    }
    lemma_contract_move_is_legal(pile as int, max as int, DifficultyLevel::Hard, 0);
    lemma_hard_move_leaves_losing_pile(pile as int, max as int);
    lemma_mover_can_win_off_losing_piles(
        (pile - hard_pebbles_taken(pile as int, max as int)) as nat,
        max,
    );
}

/// Chooses how many pebbles the computer takes from a pile of
/// `pebbles_remaining`. `random_number` is the draw that easy difficulty
/// folds into its move; hard difficulty ignores it.
///
/// The pile must hold a pebble to take. Easy difficulty divides by the limit,
/// which must then be positive; hard difficulty takes one pebble where the
/// limit is zero.
pub fn get_contract_pebbles_taken(
    pebbles_remaining: u32,
    max_pebbles_per_turn: u32,
    difficulty: DifficultyLevel,
    random_number: u32,
) -> (taken: u32)
    requires
        pebbles_remaining >= 1,
        difficulty == DifficultyLevel::Easy ==> max_pebbles_per_turn >= 1,
    ensures
        taken == contract_pebbles_taken(
            pebbles_remaining as int,
            max_pebbles_per_turn as int,
            difficulty,
            random_number as int,
        ),
        1 <= taken <= pebbles_remaining,
        max_pebbles_per_turn >= 1 ==> taken <= max_pebbles_per_turn,
        difficulty == DifficultyLevel::Hard
            && !is_losing_pile(pebbles_remaining as int, max_pebbles_per_turn as int)
            ==> is_losing_pile(pebbles_remaining - taken, max_pebbles_per_turn as int),
{
    proof {
        lemma_contract_move_is_legal(
            pebbles_remaining as int,
            max_pebbles_per_turn as int,
            difficulty,
            random_number as int,
        );
        if !is_losing_pile(pebbles_remaining as int, max_pebbles_per_turn as int) {
            lemma_hard_move_leaves_losing_pile(
                pebbles_remaining as int,
                max_pebbles_per_turn as int,
            );
        }
    }
    match difficulty {
        DifficultyLevel::Easy => {
            let folded: u32 = random_number % max_pebbles_per_turn + 1;
            if folded <= pebbles_remaining {
                folded
            } else {
                pebbles_remaining
            }
        },
        DifficultyLevel::Hard => {
            let modulus: u64 = max_pebbles_per_turn as u64 + 1;
            let optimal: u64 = pebbles_remaining as u64 % modulus;
            if optimal == 0 {
                1
            } else {
                optimal as u32
            }
        },
    }
}

} // verus!
