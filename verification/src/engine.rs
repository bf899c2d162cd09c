//! The engine: one slot for the live session, and the three operations that
//! its caller needs.

use vstd::prelude::*;
use crate::lifecycle::{lemma_new_game_starts_fresh, new_game, restart_game};
use crate::turn::{
    apply_give_up, apply_user_turn, give_up, lemma_turn_shrinks_pile, same_configuration,
    user_turn,
};
use crate::types::{GameError, GameState, PebblesAction, PebblesEvent, PebblesInit, Player};

verus! {

/// The owner of the session. Its slot is empty until `init` has succeeded;
/// from then on it always holds exactly one session, and that session is
/// well formed.
pub struct GameEngine {
    session: Option<GameState>,
}

impl View for GameEngine {
    type V = Option<GameState>;

    /// The live session, if there is one.
    closed spec fn view(&self) -> Option<GameState> {
        self.session
    }
}

impl GameEngine {
    #[verifier::type_invariant]
    spec fn session_is_well_formed(self) -> bool {
        self.session matches Some(state) ==> state.wf()
    }

    /// An engine with an empty slot.
    pub fn new() -> (engine: GameEngine)
        ensures
            engine@ is None,
    {
        GameEngine { session: None }
    }
}

/// The outcome of an action on the slot `session`: the refusal, or the
/// session that the slot holds next with the event to report. On an empty
/// slot every action is refused.
pub open spec fn handle_outcome(
    session: Option<GameState>,
    action: PebblesAction,
    first_draw: u32,
    move_draw: u32,
) -> Result<(GameState, Option<PebblesEvent>), GameError> {
    match session {
        None => Err(GameError::NotInitialized),
        Some(state) => match action {
            PebblesAction::Turn(pebbles_taken) => match user_turn(state, pebbles_taken, move_draw) {
                Ok((next, event)) => Ok((next, Some(event))),
                Err(error) => Err(error),
            },
            PebblesAction::GiveUp => Ok(
                (give_up(state), Some(PebblesEvent::Won(Player::Program))),
            ),
            PebblesAction::Restart { difficulty, pebbles_count, max_pebbles_per_turn } => new_game(
                difficulty,
                pebbles_count,
                max_pebbles_per_turn,
                first_draw,
                move_draw,
            ),
        },
    }
}

/// Whatever is done to a well-formed session, the session that the slot holds
/// next is well formed, so its pile never exceeds the initial count. An
/// action is refused for want of a session exactly on the empty slot.
pub proof fn lemma_handle_keeps_well_formed(
    session: Option<GameState>,
    action: PebblesAction,
    first_draw: u32,
    move_draw: u32,
)
    requires
        session matches Some(state) ==> state.wf(),
    ensures
        handle_outcome(session, action, first_draw, move_draw) matches Ok((next, _))
            ==> next.wf() && next.pebbles_remaining <= next.pebbles_count,
        session is None <==> handle_outcome(session, action, first_draw, move_draw)
            == Err::<(GameState, Option<PebblesEvent>), GameError>(GameError::NotInitialized),
{
    if let Some(state) = session {
        match action {
            PebblesAction::Turn(pebbles_taken) => {
                if user_turn(state, pebbles_taken, move_draw) is Ok {
                    lemma_turn_shrinks_pile(state, pebbles_taken, move_draw);
                }
            },
            PebblesAction::GiveUp => {},
            PebblesAction::Restart { difficulty, pebbles_count, max_pebbles_per_turn } => {
                if max_pebbles_per_turn >= 1 {
                    lemma_new_game_starts_fresh(
                        difficulty,
                        pebbles_count,
                        max_pebbles_per_turn,
                        first_draw,
                        move_draw,
                    );
                }
            },
        }
    }
}

/// Once a winner is recorded, only a restart changes the pile: every turn is
/// refused, and giving up again leaves the pile and the session over.
pub proof fn lemma_terminal_session_keeps_pile(
    state: GameState,
    action: PebblesAction,
    first_draw: u32,
    move_draw: u32,
)
    requires
        state.is_terminal(),
        !(action is Restart),
    ensures
        action is Turn ==> handle_outcome(Some(state), action, first_draw, move_draw) is Err,
        handle_outcome(Some(state), action, first_draw, move_draw) matches Ok((next, _)) ==> {
            &&& next.is_terminal()
            &&& next.pebbles_remaining == state.pebbles_remaining
            &&& same_configuration(next, state)
        },
{
}

/// Creates the session that `init_message` describes and puts it into the
/// engine's slot, in place of whatever the slot held. `first_draw` decides
/// who moves first; `move_draw` serves the computer's opening move. Returns
/// the event of that move, if the computer made one. A refused creation
/// leaves the slot as it was.
pub fn init(
    engine: &mut GameEngine,
    init_message: PebblesInit,
    first_draw: u32,
    move_draw: u32,
) -> (outcome: Result<Option<PebblesEvent>, GameError>)
    ensures
        match new_game(
            init_message.difficulty,
            init_message.pebbles_count,
            init_message.max_pebbles_per_turn,
            first_draw,
            move_draw,
        ) {
            Ok((state, event)) => {
                &&& outcome == Ok::<Option<PebblesEvent>, GameError>(event)
                &&& final(engine)@ == Some(state)
            },
            Err(error) => {
                &&& outcome == Err::<Option<PebblesEvent>, GameError>(error)
                &&& final(engine)@ == old(engine)@
            },
        },
        init_message.max_pebbles_per_turn >= 1 <==> outcome is Ok,
        final(engine)@ matches Some(state) ==> state.wf(),
{
    proof {
        use_type_invariant(&*engine);
    }
    match restart_game(
        init_message.difficulty,
        init_message.pebbles_count,
        init_message.max_pebbles_per_turn,
        first_draw,
        move_draw,
    ) {
        Ok((state, event)) => {
            engine.session = Some(state);
            Ok(event)
        },
        Err(error) => Err(error),
    }
}

/// Applies `action` to the live session and returns the event to report:
/// after a turn, the computer's reply or the end of the game; after giving
/// up, the computer's win; after a restart, the computer's opening move, if
/// it made one. `move_draw` serves the computer's move, and `first_draw`
/// decides who moves first after a restart. A refused action leaves the slot
/// as it was.
pub fn handle(
    engine: &mut GameEngine,
    action: PebblesAction,
    first_draw: u32,
    move_draw: u32,
) -> (outcome: Result<Option<PebblesEvent>, GameError>)
    ensures
        match handle_outcome(old(engine)@, action, first_draw, move_draw) {
            Ok((state, event)) => {
                &&& outcome == Ok::<Option<PebblesEvent>, GameError>(event)
                &&& final(engine)@ == Some(state)
            },
            Err(error) => {
                &&& outcome == Err::<Option<PebblesEvent>, GameError>(error)
                &&& final(engine)@ == old(engine)@
            },
        },
        old(engine)@ is None
            <==> outcome == Err::<Option<PebblesEvent>, GameError>(GameError::NotInitialized),
        old(engine)@ is Some <==> final(engine)@ is Some,
        final(engine)@ matches Some(state) ==> state.wf(),
        old(engine)@ matches Some(session) ==> (session.winner is Some ==> match action {
            PebblesAction::Turn(_) => outcome is Err && final(engine)@ == old(engine)@,
            PebblesAction::GiveUp => final(engine)@ == Some(give_up(session))
                && give_up(session).pebbles_remaining == session.pebbles_remaining,
            PebblesAction::Restart { .. } => true,
        }),
{
    proof {
        use_type_invariant(&*engine);
    }
    let mut game_state = match engine.session {
        Some(state) => state,
        None => {
            return Err(GameError::NotInitialized);
        },
    };
    match action {
        PebblesAction::Turn(pebbles_taken) => {
            match apply_user_turn(&mut game_state, pebbles_taken, move_draw) {
                Ok(event) => {
                    engine.session = Some(game_state);
                    Ok(Some(event))
                },
                Err(error) => Err(error),
            }
        },
        PebblesAction::GiveUp => {
            let event = apply_give_up(&mut game_state);
            engine.session = Some(game_state);
            Ok(Some(event))
        },
        PebblesAction::Restart { difficulty, pebbles_count, max_pebbles_per_turn } => {
            match restart_game(
                difficulty,
                pebbles_count,
                max_pebbles_per_turn,
                first_draw,
                move_draw,
            ) {
                Ok((state, event)) => {
                    engine.session = Some(state);
                    Ok(event)
                },
                Err(error) => Err(error),
            }
        },
    }
}

/// Returns a snapshot of the live session.
pub fn state(engine: &GameEngine) -> (snapshot: Result<GameState, GameError>)
    ensures
        match engine@ {
            Some(state) => snapshot == Ok::<GameState, GameError>(state),
            None => snapshot == Err::<GameState, GameError>(GameError::NotInitialized),
        },
        snapshot matches Ok(state) ==> state.wf() && state.pebbles_remaining
            <= state.pebbles_count,
{
    proof {
        use_type_invariant(engine);
    }
    match engine.session {
        Some(state) => Ok(state),
        None => Err(GameError::NotInitialized),
    }
}

} // verus!
