use vstd::prelude::*;

use crate::state::first_player_of;
use crate::types::{
    valid_config, valid_turn_amount, GameState, PebblesAction, PebblesError, PebblesEvent,
    PebblesInit, Player,
};

verus! {

/// The state of a freshly created game: configured, first player drawn, and
/// the program's opening move played where it starts.
pub open spec fn new_game(init: PebblesInit, entropy: u32) -> GameState {
    let chosen = GameState { first_player: first_player_of(entropy), ..GameState::from_init(init) };
    if chosen.first_player == Player::Program {
        chosen.after_program_turn(entropy)
    } else {
        chosen
    }
}

/// The program's move on an unfinished game: the new state and the event
/// announcing it.
pub open spec fn program_reply(s: GameState, entropy: u32) -> (GameState, PebblesEvent) {
    let next = s.after_program_turn(entropy);
    if next.is_over_spec() {
        (next, PebblesEvent::Won(Player::Program))
    } else {
        (next, PebblesEvent::CounterTurn(s.program_amount(entropy) as u32))
    }
}

/// One transition of the game: the state after `action` and the answer to it.
/// A refused action leaves the state as it was.
pub open spec fn step(s: GameState, action: PebblesAction, entropy: u32) -> (
    GameState,
    Result<Option<PebblesEvent>, PebblesError>,
) {
    match action {
        PebblesAction::Restart { difficulty, pebbles_count, max_pebbles_per_turn } => {
            if valid_config(pebbles_count, max_pebbles_per_turn) {
                (
                    new_game(
                        PebblesInit { difficulty, pebbles_count, max_pebbles_per_turn },
                        entropy,
                    ),
                    Ok(None),
                )
            } else {
                (s, Err(PebblesError::InvalidConfig))
            }
        },
        PebblesAction::Turn(amount) => {
            if s.is_over_spec() {
                (s, Err(PebblesError::GameOver))
            } else if !valid_turn_amount(amount, s.max_pebbles_per_turn) || amount
                > s.pebbles_remaining {
                (s, Err(PebblesError::InvalidTurnAmount))
            } else {
                let after_user = s.removed(amount as int, Player::User);
                if after_user.is_over_spec() {
                    (after_user, Ok(Some(PebblesEvent::Won(Player::User))))
                } else {
                    let (next, event) = program_reply(after_user, entropy);
                    (next, Ok(Some(event)))
                }
            }
        },
        PebblesAction::GiveUp => {
            if s.is_over_spec() {
                (s, Err(PebblesError::GameOver))
            } else {
                let (next, event) = program_reply(s, entropy);
                (next, Ok(Some(event)))
            }
        },
    }
}

/// Creates the game described by a playable configuration.
fn init_game_state(init: PebblesInit, entropy: u32) -> (r: GameState)
    requires
        valid_config(init.pebbles_count, init.max_pebbles_per_turn),
    ensures
        r == new_game(init, entropy),
        r.wf(),
{
    let mut game_state = GameState::from(init);
    game_state.chooses_first_player(entropy);
    if game_state.first_player == Player::Program {
        game_state.processes_program_turn(entropy);
    }
    game_state
}

/// Plays the program's move and returns the event that announces it.
fn processes_program_turn(pebbles_game: &mut GameState, entropy: u32) -> (r: PebblesEvent)
    requires
        old(pebbles_game).wf(),
        !old(pebbles_game).is_over_spec(),
    ensures
        (*final(pebbles_game), r) == program_reply(*old(pebbles_game), entropy),
        final(pebbles_game).wf(),
{
    let program_remove_amount = pebbles_game.processes_program_turn(entropy);
    if pebbles_game.is_over() {
        PebblesEvent::Won(Player::Program)
    } else {
        PebblesEvent::CounterTurn(program_remove_amount)
    }
}

/// The one live game, which only its own actions change.
///
/// `entropy` is the random word drawn for the message being handled; every
/// draw within one message reads that same word.
pub struct PebblesGame {
    state: GameState,
}

impl View for PebblesGame {
    type V = GameState;

    closed spec fn view(&self) -> GameState {
        self.state
    }
}

impl PebblesGame {
    #[verifier::type_invariant]
    spec fn inv(&self) -> bool {
        self.state.wf()
    }

    /// Starts a game, or refuses an unplayable configuration.
    pub fn init(init: PebblesInit, entropy: u32) -> (r: Result<PebblesGame, PebblesError>)
        ensures
            valid_config(init.pebbles_count, init.max_pebbles_per_turn) ==> (r matches Ok(game)
                && game@ == new_game(init, entropy) && game@.wf()),
            !valid_config(init.pebbles_count, init.max_pebbles_per_turn) ==> r == Err::<
                PebblesGame,
                PebblesError,
            >(PebblesError::InvalidConfig),
    {
        match init.assert_valid() {
            Ok(()) => Ok(PebblesGame { state: init_game_state(init, entropy) }),
            Err(e) => Err(e),
        }
    }

    /// Applies one action: a turn or a give-up answers with the program's
    /// move or the winner, a restart replaces the game and answers nothing.
    pub fn handle(&mut self, action: PebblesAction, entropy: u32) -> (r: Result<
        Option<PebblesEvent>,
        PebblesError,
    >)
        ensures
            (final(self)@, r) == step(old(self)@, action, entropy),
            old(self)@.wf(),
            final(self)@.wf(),
    {
        proof {
            use_type_invariant(&*self);
        }
        let mut pebbles_game = self.state;
        if !matches!(action, PebblesAction::Restart { .. }) && pebbles_game.is_over() {
            return Err(PebblesError::GameOver);
        }
        action.assert_valid(pebbles_game.max_pebbles_per_turn)?;
        match action {
            PebblesAction::Turn(remove_amount) => {
                if remove_amount > pebbles_game.pebbles_remaining {
                    return Err(PebblesError::InvalidTurnAmount);
                }
                pebbles_game.processes_user_turn(remove_amount);
                let event = if pebbles_game.is_over() {
                    PebblesEvent::Won(Player::User)
                } else {
                    processes_program_turn(&mut pebbles_game, entropy)
                };
                self.state = pebbles_game;
                Ok(Some(event))
            },
            PebblesAction::GiveUp => {
                let event = processes_program_turn(&mut pebbles_game, entropy);
                self.state = pebbles_game;
                Ok(Some(event))
            },
            PebblesAction::Restart { difficulty, pebbles_count, max_pebbles_per_turn } => {
                let pebbles_init = PebblesInit { difficulty, pebbles_count, max_pebbles_per_turn };
                self.state = init_game_state(pebbles_init, entropy);
                Ok(None)
            },
        }
    }

    /// A snapshot of the current state.
    pub fn state(&self) -> (r: GameState)
        ensures
            r == self@,
            r.wf(),
    {
        proof {
            use_type_invariant(self);
        }
        self.state
    }
}

} // verus!
