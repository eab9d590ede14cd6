//! General properties of the game, stated over the models that the
//! operations' contracts use.
use vstd::arithmetic::div_mod::lemma_mod_pos_bound;
use vstd::prelude::*;

use crate::game::{new_game, step};
use crate::state::first_player_of;
use crate::types::{
    valid_config, DifficultyLevel, GameState, PebblesAction, PebblesError, PebblesEvent, PebblesInit,
    Player,
};

verus! {

/// With at least one pebble allowed per turn, the program's move on a fresh
/// pile never empties it.
proof fn lemma_opening_move_leaves_pebbles(s: GameState, entropy: u32)
    requires
        s.wf(),
        s.pebbles_remaining == s.pebbles_count,
        s.max_pebbles_per_turn >= 1,
    ensures
        s.program_amount(entropy) < s.pebbles_remaining,
{
    let m = s.max_pebbles_per_turn as int + 1;
    lemma_mod_pos_bound(entropy as int, m);
    lemma_mod_pos_bound(s.pebbles_remaining as int, m);
}

/// A newly created game has no winner, and when the user moves first its
/// pile is still whole.
pub proof fn lemma_init_fresh_game(init: PebblesInit, entropy: u32)
    requires
        valid_config(init.pebbles_count, init.max_pebbles_per_turn),
        init.max_pebbles_per_turn >= 1,
    ensures
        new_game(init, entropy).winner is None,
        new_game(init, entropy).wf(),
        first_player_of(entropy) == Player::User ==> new_game(
            init,
            entropy,
        ).pebbles_remaining == init.pebbles_count,
{
    let chosen = GameState { first_player: first_player_of(entropy), ..GameState::from_init(init) };
    lemma_opening_move_leaves_pebbles(chosen, entropy);
}

/// A turn that removes no pebble, or more than the per-turn bound, is refused
/// and changes nothing: as out of bounds, or as too late once the game is over.
pub proof fn lemma_out_of_bounds_turn_refused(s: GameState, amount: u32, entropy: u32)
    requires
        s.wf(),
        amount == 0 || amount > s.max_pebbles_per_turn,
    ensures
        step(s, PebblesAction::Turn(amount), entropy).0 == s,
        step(s, PebblesAction::Turn(amount), entropy).1 == Err::<Option<PebblesEvent>, PebblesError>(
            if s.is_over_spec() {
                PebblesError::GameOver
            } else {
                PebblesError::InvalidTurnAmount
            },
        ),
{
}

/// On a pile that is a multiple of `max + 1`, the hard program removes one pebble.
pub proof fn lemma_hard_on_multiple_removes_one(s: GameState, entropy: u32)
    requires
        s.wf(),
        s.difficulty == DifficultyLevel::Hard,
        s.pebbles_remaining as int % (s.max_pebbles_per_turn as int + 1) == 0,
    ensures
        s.program_amount(entropy) == 1,
{
}

/// A playable restart replaces any game, finished or not, with a fresh one:
/// when the user moves first, the whole new pile remains and nobody has won.
pub proof fn lemma_restart_resets(
    s: GameState,
    difficulty: DifficultyLevel,
    pebbles_count: u32,
    max_pebbles_per_turn: u32,
    entropy: u32,
)
    requires
        s.wf(),
        valid_config(pebbles_count, max_pebbles_per_turn),
        first_player_of(entropy) == Player::User,
    ensures
        ({
            let (next, answer) = step(
                s,
                PebblesAction::Restart { difficulty, pebbles_count, max_pebbles_per_turn },
                entropy,
            );
            &&& answer == Ok::<Option<PebblesEvent>, PebblesError>(None)
            &&& next.pebbles_count == pebbles_count
            &&& next.max_pebbles_per_turn == max_pebbles_per_turn
            &&& next.difficulty == difficulty
            &&& next.pebbles_remaining == pebbles_count
            &&& next.winner is None
        }),
{
}

/// Once a game has a winner, every action but a restart is refused with
/// `GameOver` and changes nothing.
pub proof fn lemma_finished_game_refuses(s: GameState, action: PebblesAction, entropy: u32)
    requires
        s.wf(),
        s.winner is Some,
        !(action is Restart),
    ensures
        step(s, action, entropy) == (s, Err::<Option<PebblesEvent>, PebblesError>(
            PebblesError::GameOver,
        )),
{
}

} // verus!
