//! The creation of a session: who moves first, the computer's opening move,
//! and the fresh state.

use vstd::prelude::*;
use crate::strategy::{
    contract_pebbles_taken, get_contract_pebbles_taken, is_losing_pile,
    lemma_contract_move_is_legal, lemma_hard_move_leaves_losing_pile,
};
use crate::types::{DifficultyLevel, GameError, GameState, PebblesEvent, Player};

verus! {

/// The side that a draw sends to the first move: the human on an even draw,
/// the computer on an odd one.
pub open spec fn first_player_of(draw: u32) -> Player {
    if draw % 2 == 0 {
        Player::User
    } else {
        Player::Program
    }
}

/// The pile as the human first finds it, and the event that reports the
/// computer's opening move. The computer opens only where it was drawn to
/// move first and the pile holds a pebble to take. Its opening move is never
/// reported as a win, even where it empties the pile.
pub open spec fn opening(
    pebbles_count: u32,
    max_pebbles_per_turn: u32,
    first_player: Player,
    difficulty: DifficultyLevel,
    draw: u32,
) -> (u32, Option<PebblesEvent>) {
    if first_player == Player::Program && pebbles_count >= 1 {
        let taken = contract_pebbles_taken(
            pebbles_count as int,
            max_pebbles_per_turn as int,
            difficulty,
            draw as int,
        );
        ((pebbles_count - taken) as u32, Some(PebblesEvent::CounterTurn(taken as u32)))
    } else {
        (pebbles_count, None)
    }
}

/// The outcome of creating a session: the refusal of a session whose turns
/// could take nothing, or the fresh state with the event of the computer's
/// opening move, if it made one. `first_draw` decides who moves first and
/// `move_draw` serves the opening move.
pub open spec fn new_game(
    difficulty: DifficultyLevel,
    pebbles_count: u32,
    max_pebbles_per_turn: u32,
    first_draw: u32,
    move_draw: u32,
) -> Result<(GameState, Option<PebblesEvent>), GameError> {
    if max_pebbles_per_turn == 0 {
        Err(GameError::DegenerateConfiguration)
    } else {
        let first_player = first_player_of(first_draw);
        let (pebbles_remaining, event) = opening(
            pebbles_count,
            max_pebbles_per_turn,
            first_player,
            difficulty,
            move_draw,
        );
        Ok(
            (
                GameState {
                    pebbles_count,
                    max_pebbles_per_turn,
                    pebbles_remaining,
                    difficulty,
                    first_player,
                    winner: None,
                },
                event,
            ),
        )
    }
}

/// A session whose turns can take a pebble is always created. It has no
/// winner and is well formed, and its pile is the full count less at most
/// one move of the computer: none where the human moves first or there is
/// nothing to take, and otherwise one legal move, which the event reports.
pub proof fn lemma_new_game_starts_fresh(
    difficulty: DifficultyLevel,
    pebbles_count: u32,
    max_pebbles_per_turn: u32,
    first_draw: u32,
    move_draw: u32,
)
    requires
        max_pebbles_per_turn >= 1,
    ensures
        new_game(difficulty, pebbles_count, max_pebbles_per_turn, first_draw, move_draw) is Ok,
        ({
            let (state, event) = new_game(
                difficulty,
                pebbles_count,
                max_pebbles_per_turn,
                first_draw,
                move_draw,
            )->Ok_0;
            &&& state.wf()
            &&& state.winner is None
            &&& state.pebbles_count == pebbles_count
            &&& state.max_pebbles_per_turn == max_pebbles_per_turn
            &&& state.difficulty == difficulty
            &&& state.first_player == first_player_of(first_draw)
            &&& if state.first_player == Player::Program && pebbles_count >= 1 {
                &&& 1 <= pebbles_count - state.pebbles_remaining <= max_pebbles_per_turn
                &&& event == Some(
                    PebblesEvent::CounterTurn((pebbles_count - state.pebbles_remaining) as u32),
                )
            } else {
                &&& state.pebbles_remaining == pebbles_count
                &&& event is None
            }
        }),
{
    if first_player_of(first_draw) == Player::Program && pebbles_count >= 1 {
        lemma_contract_move_is_legal(
            pebbles_count as int,
            max_pebbles_per_turn as int,
            difficulty,
            move_draw as int,
        );
    }
}

/// Under hard difficulty, the computer's opening move on a pile that is not
/// a multiple of the limit plus one leaves a pile that is one.
pub proof fn lemma_hard_opening_leaves_losing_pile(
    pebbles_count: u32,
    max_pebbles_per_turn: u32,
    draw: u32,
)
    requires
        pebbles_count >= 1,
        !is_losing_pile(pebbles_count as int, max_pebbles_per_turn as int),
    ensures
        is_losing_pile(
            opening(
                pebbles_count,
                max_pebbles_per_turn,
                Player::Program,
                DifficultyLevel::Hard,
                draw,
            ).0 as int,
            max_pebbles_per_turn as int,
        ),
{
    lemma_contract_move_is_legal(
        pebbles_count as int,
        max_pebbles_per_turn as int,
        DifficultyLevel::Hard,
        draw as int,
    );
    lemma_hard_move_leaves_losing_pile(pebbles_count as int, max_pebbles_per_turn as int);
}

/// Maps a draw to the side that moves first.
pub fn get_first_player(random_number: u32) -> (player: Player)
    ensures
        player == first_player_of(random_number),
        player == Player::User <==> random_number % 2 == 0,
        player == Player::Program <==> random_number % 2 == 1,
{
    if random_number % 2 == 0 {
        Player::User
    } else {
        Player::Program
    }
}

/// Computes the pile that the human first finds, together with the event of
/// the computer's opening move where it makes one. `random_number` is the
/// draw for that move.
///
/// Easy difficulty divides by the limit, which must be positive where the
/// computer opens.
pub fn get_init_pebbles_remain(
    pebbles_count: u32,
    max_pebbles_per_turn: u32,
    first_player: Player,
    difficulty: DifficultyLevel,
    random_number: u32,
) -> (start: (u32, Option<PebblesEvent>))
    requires
        first_player == Player::Program && pebbles_count >= 1
            && difficulty == DifficultyLevel::Easy ==> max_pebbles_per_turn >= 1,
    ensures
        start == opening(
            pebbles_count,
            max_pebbles_per_turn,
            first_player,
            difficulty,
            random_number,
        ),
        start.0 <= pebbles_count,
        start.1 is Some <==> first_player == Player::Program && pebbles_count >= 1,
        match start.1 {
            Some(PebblesEvent::CounterTurn(taken)) => {
                &&& 1 <= taken <= pebbles_count
                &&& start.0 == pebbles_count - taken
                &&& max_pebbles_per_turn >= 1 ==> taken <= max_pebbles_per_turn
            },
            Some(PebblesEvent::Won(_)) => false,
            None => start.0 == pebbles_count,
        },
        start.1 is Some && difficulty == DifficultyLevel::Hard
            && !is_losing_pile(pebbles_count as int, max_pebbles_per_turn as int)
            ==> is_losing_pile(start.0 as int, max_pebbles_per_turn as int),
{
    if first_player == Player::Program && pebbles_count >= 1 {
        let counter_pebbles_taken: u32 = get_contract_pebbles_taken(
            pebbles_count,
            max_pebbles_per_turn,
            difficulty,
            random_number,
        );
        (
            pebbles_count - counter_pebbles_taken,
            Some(PebblesEvent::CounterTurn(counter_pebbles_taken)),
        )
    } else {
        (pebbles_count, None)
    }
}

/// Creates a fresh session, which keeps nothing of any session before it.
/// `first_draw` decides who moves first and `move_draw` serves the
/// computer's opening move. A session whose turns could take no pebble is
/// refused.
pub fn restart_game(
    difficulty: DifficultyLevel,
    pebbles_count: u32,
    max_pebbles_per_turn: u32,
    first_draw: u32,
    move_draw: u32,
) -> (outcome: Result<(GameState, Option<PebblesEvent>), GameError>)
    ensures
        outcome == new_game(difficulty, pebbles_count, max_pebbles_per_turn, first_draw, move_draw),
        max_pebbles_per_turn == 0 <==> outcome
            == Err::<(GameState, Option<PebblesEvent>), GameError>(
            GameError::DegenerateConfiguration,
        ),
        max_pebbles_per_turn >= 1 <==> outcome is Ok,
        outcome matches Ok((state, event)) ==> {
            &&& state.wf()
            &&& state.winner is None
            &&& state.pebbles_count == pebbles_count
            &&& state.max_pebbles_per_turn == max_pebbles_per_turn
            &&& state.difficulty == difficulty
            &&& state.first_player == first_player_of(first_draw)
            &&& match event {
                Some(PebblesEvent::CounterTurn(taken)) => {
                    &&& state.first_player == Player::Program
                    &&& 1 <= taken <= max_pebbles_per_turn
                    &&& state.pebbles_remaining == pebbles_count - taken
                },
                Some(PebblesEvent::Won(_)) => false,
                None => state.pebbles_remaining == pebbles_count,
            }
        },
{
    if max_pebbles_per_turn == 0 {
        return Err(GameError::DegenerateConfiguration);
    }
    let first_player = get_first_player(first_draw);
    let (pebbles_remaining, event) = get_init_pebbles_remain(
        pebbles_count,
        max_pebbles_per_turn,
        first_player,
        difficulty,
        move_draw,
    );
    Ok(
        (
            GameState {
                pebbles_count,
                max_pebbles_per_turn,
                pebbles_remaining,
                difficulty,
                first_player,
                winner: None,
            },
            event,
        ),
    )
}

} // verus!
