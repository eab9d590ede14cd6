use vstd::arithmetic::div_mod::lemma_mod_decreases;
use vstd::prelude::*;

use crate::types::{DifficultyLevel, GameState, Player};

verus! {

/// The easy program's move: a draw of entropy modulo `max + 1` while more
/// than `max` pebbles remain (so it may remove nothing), else the whole pile.
pub open spec fn easy_amount(remaining: int, max: int, entropy: int) -> int {
    if max < remaining {
        entropy % (max + 1)
    } else {
        remaining
    }
}

/// The hard program's move: leave a multiple of `max + 1` where it can,
/// else remove a single pebble.
pub open spec fn hard_amount(remaining: int, max: int) -> int {
    if remaining % (max + 1) == 0 {
        1
    } else {
        remaining % (max + 1)
    }
}

/// An even draw lets the user start, an odd one the program.
pub open spec fn first_player_of(entropy: u32) -> Player {
    if entropy % 2 == 0 {
        Player::User
    } else {
        Player::Program
    }
}

impl GameState {
    pub open spec fn is_over_spec(&self) -> bool {
        self.winner is Some
    }

    /// How many pebbles the program removes from this state with this draw.
    pub open spec fn program_amount(&self, entropy: u32) -> int {
        match self.difficulty {
            DifficultyLevel::Easy => easy_amount(
                self.pebbles_remaining as int,
                self.max_pebbles_per_turn as int,
                entropy as int,
            ),
            DifficultyLevel::Hard => hard_amount(
                self.pebbles_remaining as int,
                self.max_pebbles_per_turn as int,
            ),
        }
    }

    /// The state after `by` removes `amount` pebbles: `by` wins on emptying the pile.
    pub open spec fn removed(&self, amount: int, by: Player) -> GameState {
        GameState {
            pebbles_remaining: (self.pebbles_remaining - amount) as u32,
            winner: if self.pebbles_remaining - amount == 0 {
                Some(by)
            } else {
                self.winner
            },
            ..*self
        }
    }

    /// The state after the program's move with this draw.
    pub open spec fn after_program_turn(&self, entropy: u32) -> GameState {
        self.removed(self.program_amount(entropy), Player::Program)
    }

    /// The easy strategy on this state.
    fn random_remove_amount(&self, entropy: u32) -> (r: u32)
        requires
            self.wf(),
        ensures
            r == easy_amount(
                self.pebbles_remaining as int,
                self.max_pebbles_per_turn as int,
                entropy as int,
            ),
            r <= self.pebbles_remaining,
    {
        if self.max_pebbles_per_turn < self.pebbles_remaining {
            entropy % (self.max_pebbles_per_turn + 1)
        } else {
            self.pebbles_remaining
        }
    }

    /// The hard strategy on this state.
    fn optimal_remove_amount(&self) -> (r: u32)
        requires
            self.wf(),
            !self.is_over_spec(),
        ensures
            r == hard_amount(self.pebbles_remaining as int, self.max_pebbles_per_turn as int),
            1 <= r <= self.pebbles_remaining,
    {
        let remainder = self.pebbles_remaining % (self.max_pebbles_per_turn + 1);
        proof {
            lemma_mod_decreases(
                self.pebbles_remaining as nat,
                (self.max_pebbles_per_turn + 1) as nat,
            );
        }
        if remainder == 0 {
            1
        } else {
            remainder
        }
    }

    /// Whether the game has a winner.
    pub fn is_over(&self) -> (r: bool)
        ensures
            r == self.is_over_spec(),
    {
        self.winner.is_some()
    }

    /// Picks who moves first from one draw of entropy.
    pub fn chooses_first_player(&mut self, entropy: u32)
        ensures
            *final(self) == (GameState { first_player: first_player_of(entropy), ..*old(self) }),
    {
        if entropy % 2 == 0 {
            self.first_player = Player::User;
        } else {
            self.first_player = Player::Program;
        }
    }

    /// Plays the program's move and returns how many pebbles it removed.
    pub fn processes_program_turn(&mut self, entropy: u32) -> (r: u32)
        requires
            old(self).wf(),
            !old(self).is_over_spec(),
        ensures
            r == old(self).program_amount(entropy),
            r <= old(self).pebbles_remaining,
            *final(self) == old(self).after_program_turn(entropy),
            final(self).wf(),
    {
        let remove_amount = match self.difficulty {
            DifficultyLevel::Easy => self.random_remove_amount(entropy),
            DifficultyLevel::Hard => self.optimal_remove_amount(),
        };
        self.pebbles_remaining = self.pebbles_remaining - remove_amount;
        if self.pebbles_remaining == 0 {
            self.winner = Some(Player::Program);
        }
        remove_amount
    }

    /// Plays the user's move of `remove_amount` pebbles.
    pub fn processes_user_turn(&mut self, remove_amount: u32)
        requires
            old(self).wf(),
            remove_amount <= old(self).pebbles_remaining,
        ensures
            *final(self) == old(self).removed(remove_amount as int, Player::User),
            final(self).wf(),
    {
        self.pebbles_remaining = self.pebbles_remaining - remove_amount;
        if self.pebbles_remaining == 0 {
            self.winner = Some(Player::User);
        }
    }
}

} // verus!
