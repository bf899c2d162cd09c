use pebbles_game::{
    apply_give_up, apply_user_turn, update_game_state, DifficultyLevel, GameError, GameState,
    PebblesEvent, Player,
};

fn session(remaining: u32, max: u32, difficulty: DifficultyLevel) -> GameState {
    GameState {
        pebbles_count: 20,
        max_pebbles_per_turn: max,
        pebbles_remaining: remaining,
        difficulty,
        first_player: Player::User,
        winner: None,
    }
}

#[test]
fn turn_of_zero_is_invalid() {
    let mut state = session(10, 4, DifficultyLevel::Hard);
    let before = state;
    assert_eq!(apply_user_turn(&mut state, 0, 3), Err(GameError::InvalidMove));
    assert_eq!(state, before);
}

#[test]
fn turn_above_the_limit_is_invalid() {
    let mut state = session(10, 4, DifficultyLevel::Hard);
    let before = state;
    assert_eq!(apply_user_turn(&mut state, 5, 3), Err(GameError::InvalidMove));
    assert_eq!(state, before);
    assert_eq!(apply_user_turn(&mut state, u32::MAX, 3), Err(GameError::InvalidMove));
    assert_eq!(state, before);
}

#[test]
fn turn_above_the_pile_is_insufficient() {
    let mut state = session(2, 4, DifficultyLevel::Easy);
    let before = state;
    assert_eq!(apply_user_turn(&mut state, 3, 3), Err(GameError::InsufficientPebbles));
    assert_eq!(state, before);
    assert_eq!(apply_user_turn(&mut state, 4, 3), Err(GameError::InsufficientPebbles));
    assert_eq!(state, before);
}

#[test]
fn the_limit_is_judged_before_the_pile() {
    let mut state = session(10, 4, DifficultyLevel::Easy);
    assert_eq!(apply_user_turn(&mut state, 11, 3), Err(GameError::InvalidMove));
    let mut empty = session(0, 4, DifficultyLevel::Easy);
    assert_eq!(apply_user_turn(&mut empty, 0, 3), Err(GameError::InvalidMove));
    assert_eq!(apply_user_turn(&mut empty, 1, 3), Err(GameError::InsufficientPebbles));
}

#[test]
fn taking_the_pile_wins_for_the_user() {
    for remaining in 1u32..=4 {
        let mut state = session(remaining, 4, DifficultyLevel::Hard);
        assert_eq!(
            apply_user_turn(&mut state, remaining, 9),
            Ok(PebblesEvent::Won(Player::User))
        );
        assert_eq!(state.pebbles_remaining, 0);
        assert_eq!(state.winner, Some(Player::User));
        assert_eq!(state.pebbles_count, 20);
        assert_eq!(state.max_pebbles_per_turn, 4);
    }
}

#[test]
fn hard_reply_follows_the_turn() {
    let mut state = session(10, 4, DifficultyLevel::Hard);
    assert_eq!(apply_user_turn(&mut state, 2, 0), Ok(PebblesEvent::CounterTurn(3)));
    assert_eq!(state.pebbles_remaining, 5);
    assert_eq!(state.winner, None);
    assert_eq!(apply_user_turn(&mut state, 1, 0), Ok(PebblesEvent::Won(Player::Program)));
    assert_eq!(state.pebbles_remaining, 0);
    assert_eq!(state.winner, Some(Player::Program));
}

#[test]
fn easy_reply_uses_the_draw() {
    let mut state = session(10, 4, DifficultyLevel::Easy);
    assert_eq!(apply_user_turn(&mut state, 2, 6), Ok(PebblesEvent::CounterTurn(3)));
    assert_eq!(state.pebbles_remaining, 5);
    assert_eq!(apply_user_turn(&mut state, 3, 7), Ok(PebblesEvent::Won(Player::Program)));
    assert_eq!(state.pebbles_remaining, 0);
    assert_eq!(state.winner, Some(Player::Program));
}

#[test]
fn reply_leaves_the_rest_of_the_session() {
    let mut state = GameState {
        pebbles_count: 30,
        max_pebbles_per_turn: 3,
        pebbles_remaining: 17,
        difficulty: DifficultyLevel::Easy,
        first_player: Player::Program,
        winner: None,
    };
    assert_eq!(apply_user_turn(&mut state, 3, 4), Ok(PebblesEvent::CounterTurn(2)));
    assert_eq!(
        state,
        GameState {
            pebbles_count: 30,
            max_pebbles_per_turn: 3,
            pebbles_remaining: 12,
            difficulty: DifficultyLevel::Easy,
            first_player: Player::Program,
            winner: None,
        }
    );
}

#[test]
fn computer_move_reports_what_it_took() {
    let mut state = session(7, 4, DifficultyLevel::Hard);
    assert_eq!(update_game_state(&mut state, 0), PebblesEvent::CounterTurn(2));
    assert_eq!(state.pebbles_remaining, 5);
    assert_eq!(state.winner, None);
    assert_eq!(update_game_state(&mut state, 0), PebblesEvent::CounterTurn(1));
    assert_eq!(state.pebbles_remaining, 4);
    assert_eq!(update_game_state(&mut state, 0), PebblesEvent::Won(Player::Program));
    assert_eq!(state.pebbles_remaining, 0);
    assert_eq!(state.winner, Some(Player::Program));
}

#[test]
fn give_up_hands_the_win_to_the_program() {
    let mut state = session(10, 4, DifficultyLevel::Easy);
    assert_eq!(apply_give_up(&mut state), PebblesEvent::Won(Player::Program));
    assert_eq!(state.winner, Some(Player::Program));
    assert_eq!(state.pebbles_remaining, 10);
    assert_eq!(state.pebbles_count, 20);
}

#[test]
fn give_up_is_accepted_after_the_end() {
    let mut state = session(3, 4, DifficultyLevel::Easy);
    assert_eq!(apply_user_turn(&mut state, 3, 0), Ok(PebblesEvent::Won(Player::User)));
    assert_eq!(apply_give_up(&mut state), PebblesEvent::Won(Player::Program));
    assert_eq!(state.winner, Some(Player::Program));
    assert_eq!(state.pebbles_remaining, 0);
}

#[test]
fn no_turn_is_accepted_on_the_empty_pile() {
    let mut state = session(3, 4, DifficultyLevel::Easy);
    assert_eq!(apply_user_turn(&mut state, 3, 0), Ok(PebblesEvent::Won(Player::User)));
    let finished = state;
    for taken in 0u32..=6 {
        assert!(apply_user_turn(&mut state, taken, 5).is_err());
        assert_eq!(state, finished);
    }
}

#[test]
fn pile_never_grows_during_play() {
    for max in 1u32..=4 {
        for difficulty in [DifficultyLevel::Easy, DifficultyLevel::Hard] {
            for seed in 0u32..12 {
                let mut state = session(20, max, difficulty);
                let mut draw = seed;
                while state.winner.is_none() {
                    let before = state.pebbles_remaining;
                    let taken = 1 + draw % max.min(before);
                    let outcome = apply_user_turn(&mut state, taken, draw / 3);
                    assert!(outcome.is_ok());
                    assert!(state.pebbles_remaining <= before - taken);
                    assert!(state.pebbles_remaining <= state.pebbles_count);
                    if let Ok(PebblesEvent::CounterTurn(reply)) = outcome {
                        assert!(1 <= reply && reply <= max);
                        assert_eq!(state.pebbles_remaining, before - taken - reply);
                    } else {
                        assert_eq!(state.pebbles_remaining, 0);
                    }
                    draw = draw.wrapping_mul(7).wrapping_add(5);
                }
                assert_eq!(state.pebbles_remaining, 0);
            }
        }
    }
}

#[test]
fn finished_session_refuses_every_turn() {
    for winner in [Player::User, Player::Program] {
        for remaining in 0u32..=8 {
            let mut state = session(remaining, 4, DifficultyLevel::Easy);
            state.winner = Some(winner);
            let finished = state;
            for taken in 0u32..=10 {
                let outcome = apply_user_turn(&mut state, taken, 3);
                if taken == 0 || taken > 4 {
                    assert_eq!(outcome, Err(GameError::InvalidMove));
                } else if taken > remaining {
                    assert_eq!(outcome, Err(GameError::InsufficientPebbles));
                } else {
                    assert_eq!(outcome, Err(GameError::InvalidMove));
                }
                assert_eq!(state, finished);
            }
        }
    }
}

#[test]
fn taking_the_pile_after_conceding_wins_nothing() {
    let mut state = session(3, 4, DifficultyLevel::Hard);
    assert_eq!(apply_give_up(&mut state), PebblesEvent::Won(Player::Program));
    let conceded = state;
    assert_eq!(apply_user_turn(&mut state, 3, 0), Err(GameError::InvalidMove));
    assert_eq!(state, conceded);
    assert_eq!(state.winner, Some(Player::Program));
}
