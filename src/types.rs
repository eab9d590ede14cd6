use vstd::prelude::*;

verus! {

/// How the program picks the number of pebbles it removes.
#[derive(Debug, Clone, Copy, PartialEq, Eq, Structural)]
pub enum DifficultyLevel {
    /// A draw of entropy decides.
    Easy,
    /// The winning move of the subtraction game.
    Hard,
}

impl Default for DifficultyLevel {
    fn default() -> (r: Self)
        ensures
            r == DifficultyLevel::Easy,
    {
        DifficultyLevel::Easy
    }
}

/// One of the two sides of a game.
#[derive(Debug, Clone, Copy, PartialEq, Eq, Structural)]
pub enum Player {
    User,
    Program,
}

impl Default for Player {
    fn default() -> (r: Self)
        ensures
            r == Player::User,
    {
        Player::User
    }
}

/// The configuration a game is created from.
#[derive(Debug, Clone, Copy, PartialEq, Eq, Structural)]
pub struct PebblesInit {
    pub difficulty: DifficultyLevel,
    pub pebbles_count: u32,
    pub max_pebbles_per_turn: u32,
}

/// A playable configuration has more pebbles than may be taken in one turn.
pub open spec fn valid_config(pebbles_count: u32, max_pebbles_per_turn: u32) -> bool {
    pebbles_count > max_pebbles_per_turn
}

impl PebblesInit {
    /// Checks that the configuration can be played.
    pub fn assert_valid(&self) -> (r: Result<(), PebblesError>)
        ensures
            r == (if valid_config(self.pebbles_count, self.max_pebbles_per_turn) {
                Ok(())
            } else {
                Err(PebblesError::InvalidConfig)
            }),
    {
        if self.pebbles_count > self.max_pebbles_per_turn {
            Ok(())
        } else {
            Err(PebblesError::InvalidConfig)
        }
    }
}

impl Default for PebblesInit {
    fn default() -> (r: Self)
        ensures
            r == (PebblesInit {
                difficulty: DifficultyLevel::Easy,
                pebbles_count: 0,
                max_pebbles_per_turn: 0,
            }),
    {
        PebblesInit { difficulty: DifficultyLevel::Easy, pebbles_count: 0, max_pebbles_per_turn: 0 }
    }
}

/// What the user asks of a running game.
#[derive(Debug, Clone, Copy, PartialEq, Eq, Structural)]
pub enum PebblesAction {
    /// Remove this many pebbles.
    Turn(u32),
    /// Let the program move instead.
    GiveUp,
    /// Replace the game with a new one.
    Restart { difficulty: DifficultyLevel, pebbles_count: u32, max_pebbles_per_turn: u32 },
}

/// A user turn may remove between one and `max_pebbles_per_turn` pebbles.
pub open spec fn valid_turn_amount(amount: u32, max_pebbles_per_turn: u32) -> bool {
    1 <= amount <= max_pebbles_per_turn
}

impl PebblesAction {
    /// Checks the action's own arguments against the per-turn bound in force.
    pub fn assert_valid(&self, max_pebbles_per_turn: u32) -> (r: Result<(), PebblesError>)
        ensures
            r == (match *self {
                PebblesAction::Turn(amount) => if valid_turn_amount(amount, max_pebbles_per_turn) {
                    Ok(())
                } else {
                    Err(PebblesError::InvalidTurnAmount)
                },
                PebblesAction::GiveUp => Ok(()),
                PebblesAction::Restart { pebbles_count, max_pebbles_per_turn, .. } => if valid_config(
                    pebbles_count,
                    max_pebbles_per_turn,
                ) {
                    Ok(())
                } else {
                    Err(PebblesError::InvalidConfig)
                },
            }),
    {
        match self {
            PebblesAction::Turn(amount) => {
                if 1 <= *amount && *amount <= max_pebbles_per_turn {
                    Ok(())
                } else {
                    Err(PebblesError::InvalidTurnAmount)
                }
            },
            PebblesAction::GiveUp => Ok(()),
            PebblesAction::Restart { pebbles_count, max_pebbles_per_turn, .. } => {
                if *pebbles_count > *max_pebbles_per_turn {
                    Ok(())
                } else {
                    Err(PebblesError::InvalidConfig)
                }
            },
        }
    }
}

/// What a running game answers to a turn or a give-up.
#[derive(Debug, Clone, Copy, PartialEq, Eq, Structural)]
pub enum PebblesEvent {
    /// The program removed this many pebbles and the game goes on.
    CounterTurn(u32),
    /// The game is over.
    Won(Player),
}

/// Why an action was refused; a refused action changes nothing.
#[derive(Debug, Clone, Copy, PartialEq, Eq, Structural)]
pub enum PebblesError {
    /// `pebbles_count` is not greater than `max_pebbles_per_turn`.
    InvalidConfig,
    /// A turn removes no pebble, more than `max_pebbles_per_turn`, or more than remain.
    InvalidTurnAmount,
    /// The game already has a winner.
    GameOver,
}

/// The whole state of one game.
#[derive(Debug, Clone, Copy, PartialEq, Eq, Structural)]
pub struct GameState {
    pub pebbles_count: u32,
    pub max_pebbles_per_turn: u32,
    pub pebbles_remaining: u32,
    pub difficulty: DifficultyLevel,
    pub first_player: Player,
    pub winner: Option<Player>,
}

impl Default for GameState {
    fn default() -> (r: Self)
        ensures
            r == (GameState {
                pebbles_count: 0,
                max_pebbles_per_turn: 0,
                pebbles_remaining: 0,
                difficulty: DifficultyLevel::Easy,
                first_player: Player::User,
                winner: None,
            }),
    {
        GameState {
            pebbles_count: 0,
            max_pebbles_per_turn: 0,
            pebbles_remaining: 0,
            difficulty: DifficultyLevel::Easy,
            first_player: Player::User,
            winner: None,
        }
    }
}

impl GameState {
    /// A game in progress or finished: the configuration is playable, the pile
    /// never grows, and there is a winner exactly when the pile is empty.
    pub open spec fn wf(&self) -> bool {
        &&& valid_config(self.pebbles_count, self.max_pebbles_per_turn)
        &&& self.pebbles_remaining <= self.pebbles_count
        &&& (self.winner is Some <==> self.pebbles_remaining == 0)
    }

    /// The state of a game that has just been configured, before the first
    /// player is chosen.
    pub open spec fn from_init(init: PebblesInit) -> GameState {
        GameState {
            pebbles_count: init.pebbles_count,
            max_pebbles_per_turn: init.max_pebbles_per_turn,
            pebbles_remaining: init.pebbles_count,
            difficulty: init.difficulty,
            first_player: Player::User,
            winner: None,
        }
    }
}

impl From<PebblesInit> for GameState {
    fn from(init: PebblesInit) -> (r: GameState)
        ensures
            r == GameState::from_init(init),
    {
        GameState {
            pebbles_count: init.pebbles_count,
            max_pebbles_per_turn: init.max_pebbles_per_turn,
            pebbles_remaining: init.pebbles_count,
            difficulty: init.difficulty,
            first_player: Player::User,
            winner: None,
        }
    }
}

impl vstd::std_specs::convert::FromSpecImpl<PebblesInit> for GameState {
    open spec fn obeys_from_spec() -> bool {
        true
    }

    open spec fn from_spec(init: PebblesInit) -> GameState {
        GameState::from_init(init)
    }
}

} // verus!
