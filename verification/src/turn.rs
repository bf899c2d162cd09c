//! The human's turn, the computer's reply to it, and giving up.

use vstd::prelude::*;
use crate::strategy::{
    contract_pebbles_taken, get_contract_pebbles_taken, is_losing_pile,
    lemma_contract_move_is_legal, lemma_hard_move_leaves_losing_pile,
};
use crate::types::{DifficultyLevel, GameError, GameState, PebblesEvent, Player};

verus! {

/// The session after the computer has moved on a pile of at least one
/// pebble, with the event that reports the move: the computer wins where it
/// empties the pile, and otherwise the game goes on.
pub open spec fn counter_move(state: GameState, draw: u32) -> (GameState, PebblesEvent) {
    let taken = contract_pebbles_taken(
        state.pebbles_remaining as int,
        state.max_pebbles_per_turn as int,
        state.difficulty,
        draw as int,
    );
    if taken == state.pebbles_remaining {
        (
            GameState { pebbles_remaining: 0, winner: Some(Player::Program), ..state },
            PebblesEvent::Won(Player::Program),
        )
    } else {
        (
            GameState { pebbles_remaining: (state.pebbles_remaining - taken) as u32, ..state },
            PebblesEvent::CounterTurn(taken as u32),
        )
    }
}

/// Why a turn of `pebbles_taken` is refused in `state`, if it is. The size of
/// the turn is judged before the size of the pile, and both before the state
/// of the game: a turn that the pile could serve is still no valid move once
/// a winner is recorded.
pub open spec fn turn_error(state: GameState, pebbles_taken: u32) -> Option<GameError> {
    if pebbles_taken == 0 || pebbles_taken > state.max_pebbles_per_turn {
        Some(GameError::InvalidMove)
    } else if pebbles_taken > state.pebbles_remaining {
        Some(GameError::InsufficientPebbles)
    } else if state.winner is Some {
        Some(GameError::InvalidMove)
    } else {
        None
    }
}

/// The outcome of the human's turn: the refusal, or the next session with its
/// event. Only a session without a winner takes a turn. The human wins by
/// emptying the pile; otherwise the computer replies at once, using `draw`
/// where its difficulty asks for one.
pub open spec fn user_turn(state: GameState, pebbles_taken: u32, draw: u32) -> Result<
    (GameState, PebblesEvent),
    GameError,
> {
    match turn_error(state, pebbles_taken) {
        Some(error) => Err(error),
        None => if pebbles_taken == state.pebbles_remaining {
            Ok(
                (
                    GameState { pebbles_remaining: 0, winner: Some(Player::User), ..state },
                    PebblesEvent::Won(Player::User),
                ),
            )
        } else {
            Ok(
                counter_move(
                    GameState {
                        pebbles_remaining: (state.pebbles_remaining - pebbles_taken) as u32,
                        ..state
                    },
                    draw,
                ),
            )
        },
    }
}

/// The session after the human has conceded.
pub open spec fn give_up(state: GameState) -> GameState {
    GameState { winner: Some(Player::Program), ..state }
}

/// Two sessions agree in what is fixed when a session is created.
pub open spec fn same_configuration(a: GameState, b: GameState) -> bool {
    &&& a.pebbles_count == b.pebbles_count
    &&& a.max_pebbles_per_turn == b.max_pebbles_per_turn
    &&& a.difficulty == b.difficulty
    &&& a.first_player == b.first_player
}

/// A turn of no pebbles, or of more than one turn may take, is an invalid
/// move, whatever the pile holds and whether or not the game is over.
pub proof fn lemma_turn_outside_limits_is_invalid(state: GameState, pebbles_taken: u32, draw: u32)
    requires
        pebbles_taken == 0 || pebbles_taken > state.max_pebbles_per_turn,
    ensures
        user_turn(state, pebbles_taken, draw)
            == Err::<(GameState, PebblesEvent), GameError>(GameError::InvalidMove),
{
}

/// A turn within the limits that asks for more than the pile holds fails for
/// want of pebbles, whether or not the game is over.
pub proof fn lemma_turn_beyond_pile_is_insufficient(
    state: GameState,
    pebbles_taken: u32,
    draw: u32,
)
    requires
        1 <= pebbles_taken <= state.max_pebbles_per_turn,
        pebbles_taken > state.pebbles_remaining,
    ensures
        user_turn(state, pebbles_taken, draw)
            == Err::<(GameState, PebblesEvent), GameError>(GameError::InsufficientPebbles),
{
}

/// Taking the whole pile in one turn, where the limit allows it and the game
/// is not over, wins the game for the human, and the computer does not move
/// again.
pub proof fn lemma_taking_the_pile_wins(state: GameState, draw: u32)
    requires
        state.winner is None,
        1 <= state.pebbles_remaining <= state.max_pebbles_per_turn,
    ensures
        user_turn(state, state.pebbles_remaining, draw)
            == Ok::<(GameState, PebblesEvent), GameError>(
            (
                GameState { pebbles_remaining: 0, winner: Some(Player::User), ..state },
                PebblesEvent::Won(Player::User),
            ),
        ),
{
}

/// A turn is accepted only while the game has no winner. It shrinks the pile
/// by what the human took and, where the computer replied, by one legal move
/// more. It keeps what was fixed at creation, and it keeps a well-formed
/// session well formed. The event tells how the turn ended.
pub proof fn lemma_turn_shrinks_pile(state: GameState, pebbles_taken: u32, draw: u32)
    requires
        user_turn(state, pebbles_taken, draw) is Ok,
    ensures
        ({
            let (next, event) = user_turn(state, pebbles_taken, draw)->Ok_0;
            &&& state.winner is None
            &&& same_configuration(next, state)
            &&& next.pebbles_remaining <= state.pebbles_remaining - pebbles_taken
            &&& state.wf() ==> next.wf()
            &&& match event {
                PebblesEvent::Won(Player::User) => {
                    &&& next.winner == Some(Player::User)
                    &&& next.pebbles_remaining == 0
                    &&& pebbles_taken == state.pebbles_remaining
                },
                PebblesEvent::Won(Player::Program) => {
                    &&& next.winner == Some(Player::Program)
                    &&& next.pebbles_remaining == 0
                    &&& 1 <= state.pebbles_remaining - pebbles_taken <= state.max_pebbles_per_turn
                },
                PebblesEvent::CounterTurn(taken) => {
                    &&& next.winner is None
                    &&& next.pebbles_remaining >= 1
                    &&& 1 <= taken <= state.max_pebbles_per_turn
                    &&& next.pebbles_remaining == state.pebbles_remaining - pebbles_taken - taken
                },
            }
        }),
{
    if pebbles_taken < state.pebbles_remaining {
        lemma_contract_move_is_legal(
            state.pebbles_remaining - pebbles_taken,
            state.max_pebbles_per_turn as int,
            state.difficulty,
            draw as int,
        );
    }
}

/// Under hard difficulty, the computer's move on a pile that is not a
/// multiple of the limit plus one leaves a pile that is one, the empty pile
/// included.
pub proof fn lemma_hard_counter_move_leaves_losing_pile(state: GameState, draw: u32)
    requires
        state.difficulty == DifficultyLevel::Hard,
        state.pebbles_remaining >= 1,
        !is_losing_pile(state.pebbles_remaining as int, state.max_pebbles_per_turn as int),
    ensures
        is_losing_pile(
            counter_move(state, draw).0.pebbles_remaining as int,
            state.max_pebbles_per_turn as int,
        ),
{
    lemma_contract_move_is_legal(
        state.pebbles_remaining as int,
        state.max_pebbles_per_turn as int,
        state.difficulty,
        draw as int,
    );
    lemma_hard_move_leaves_losing_pile(
        state.pebbles_remaining as int,
        state.max_pebbles_per_turn as int,
    );
}

/// Once a winner is recorded, no turn is accepted any more, whatever is left
/// on the pile: the pile and the winner stay as they are until the session
/// is restarted.
pub proof fn lemma_finished_game_refuses_turns(state: GameState, pebbles_taken: u32, draw: u32)
    requires
        state.is_terminal(),
    ensures
        user_turn(state, pebbles_taken, draw) is Err,
        turn_error(state, pebbles_taken) is Some,
{
}

/// Giving up makes the computer the winner and touches nothing else, in
/// whatever state the session is.
pub proof fn lemma_give_up_hands_win_to_program(state: GameState)
    ensures
        give_up(state).winner == Some(Player::Program),
        give_up(state).pebbles_remaining == state.pebbles_remaining,
        same_configuration(give_up(state), state),
        state.wf() ==> give_up(state).wf(),
{
}

/// Makes the computer's move in a game that is not over, on a pile of at
/// least one pebble, and returns the event that reports it: the computer's
/// win where the move empties the pile, and otherwise the number of pebbles
/// it took.
pub fn update_game_state(game_state: &mut GameState, random_number: u32) -> (event: PebblesEvent)
    requires
        old(game_state).winner is None,
        old(game_state).pebbles_remaining >= 1,
        old(game_state).difficulty == DifficultyLevel::Easy
            ==> old(game_state).max_pebbles_per_turn >= 1,
    ensures
        (*final(game_state), event) == counter_move(*old(game_state), random_number),
        same_configuration(*final(game_state), *old(game_state)),
        final(game_state).pebbles_remaining < old(game_state).pebbles_remaining,
        old(game_state).max_pebbles_per_turn >= 1
            ==> old(game_state).pebbles_remaining - final(game_state).pebbles_remaining
            <= old(game_state).max_pebbles_per_turn,
        old(game_state).difficulty == DifficultyLevel::Hard && !is_losing_pile(
            old(game_state).pebbles_remaining as int,
            old(game_state).max_pebbles_per_turn as int,
        ) ==> is_losing_pile(
            final(game_state).pebbles_remaining as int,
            old(game_state).max_pebbles_per_turn as int,
        ),
        old(game_state).wf() ==> final(game_state).wf(),
{
    let counter_pebbles_taken: u32 = get_contract_pebbles_taken(
        game_state.pebbles_remaining,
        game_state.max_pebbles_per_turn,
        game_state.difficulty,
        random_number,
    );
    game_state.pebbles_remaining = game_state.pebbles_remaining - counter_pebbles_taken;
    if game_state.pebbles_remaining == 0 {
        game_state.winner = Some(Player::Program);
        PebblesEvent::Won(Player::Program)
    } else {
        PebblesEvent::CounterTurn(counter_pebbles_taken)
    }
}

/// Applies the human's turn of `pebbles_taken` and, where the game goes on,
/// the computer's reply, for which `random_number` is the draw. A refused
/// turn leaves the session as it was, and every turn on a session that has a
/// winner is refused.
pub fn apply_user_turn(
    game_state: &mut GameState,
    pebbles_taken: u32,
    random_number: u32,
) -> (outcome: Result<PebblesEvent, GameError>)
    ensures
        match user_turn(*old(game_state), pebbles_taken, random_number) {
            Ok((next, event)) => {
                &&& outcome == Ok::<PebblesEvent, GameError>(event)
                &&& *final(game_state) == next
            },
            Err(error) => {
                &&& outcome == Err::<PebblesEvent, GameError>(error)
                &&& *final(game_state) == *old(game_state)
            },
        },
        outcome == Err::<PebblesEvent, GameError>(GameError::InvalidMove)
            <==> pebbles_taken == 0 || pebbles_taken > old(game_state).max_pebbles_per_turn
            || (pebbles_taken <= old(game_state).pebbles_remaining
            && old(game_state).winner is Some),
        outcome == Err::<PebblesEvent, GameError>(GameError::InsufficientPebbles)
            <==> 1 <= pebbles_taken <= old(game_state).max_pebbles_per_turn
            && pebbles_taken > old(game_state).pebbles_remaining,
        outcome is Ok <==> old(game_state).winner is None
            && 1 <= pebbles_taken <= old(game_state).max_pebbles_per_turn
            && pebbles_taken <= old(game_state).pebbles_remaining,
        outcome is Ok ==> final(game_state).pebbles_remaining
            <= old(game_state).pebbles_remaining - pebbles_taken,
        old(game_state).winner is Some
            ==> outcome is Err && *final(game_state) == *old(game_state),
        same_configuration(*final(game_state), *old(game_state)),
        old(game_state).wf() ==> final(game_state).wf(),
{
    if pebbles_taken > game_state.max_pebbles_per_turn || pebbles_taken == 0 {
        return Err(GameError::InvalidMove);
    }
    if pebbles_taken > game_state.pebbles_remaining {
        return Err(GameError::InsufficientPebbles);
    }
    if game_state.winner.is_some() {
        return Err(GameError::InvalidMove);
    }
    game_state.pebbles_remaining = game_state.pebbles_remaining - pebbles_taken;
    if game_state.pebbles_remaining == 0 {
        game_state.winner = Some(Player::User);
        Ok(PebblesEvent::Won(Player::User))
    } else {
        Ok(update_game_state(game_state, random_number))
    }
}

/// Concedes the game to the computer, whatever the session's state.
pub fn apply_give_up(game_state: &mut GameState) -> (event: PebblesEvent)
    ensures
        *final(game_state) == give_up(*old(game_state)),
        event == PebblesEvent::Won(Player::Program),
        final(game_state).winner == Some(Player::Program),
        final(game_state).pebbles_remaining == old(game_state).pebbles_remaining,
        old(game_state).wf() ==> final(game_state).wf(),
{
    game_state.winner = Some(Player::Program);
    PebblesEvent::Won(Player::Program)
}

} // verus!
