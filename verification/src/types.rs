//! The values exchanged with a player, and the state of one game.

use vstd::prelude::*;

verus! {

/// The identity of a player: a 256-bit value, split into its upper and its
/// lower 128 bits.
pub type PlayerId = (u128, u128);

/// How the program chooses its moves.
#[derive(Clone, Copy, Debug, PartialEq, Eq, Structural)]
pub enum DifficultyLevel {
    /// A random move.
    Easy,
    /// The move that leaves the user in a losing position, where one exists.
    Hard,
}

/// One of the two sides of a game.
#[derive(Clone, Copy, Debug, PartialEq, Eq, Structural)]
pub enum Player {
    User,
    Program,
}

/// The configuration that a game starts from.
#[derive(Clone, Copy, Debug, PartialEq, Eq, Structural)]
pub struct PebblesInit {
    pub difficulty: DifficultyLevel,
    pub pebbles_count: u32,
    pub max_pebbles_per_turn: u32,
}

/// What a player asks for.
#[derive(Clone, Copy, Debug, PartialEq, Eq, Structural)]
pub enum PebblesAction {
    /// Take this many pebbles.
    Turn(u32),
    /// Concede the game to the program.
    GiveUp,
    /// Abandon the running game and start another with this configuration.
    Restart { difficulty: DifficultyLevel, pebbles_count: u32, max_pebbles_per_turn: u32 },
}

/// What a turn or a surrender is answered with.
#[derive(Clone, Copy, Debug, PartialEq, Eq, Structural)]
pub enum PebblesEvent {
    /// The program took this many pebbles in reply. Zero answers a move that
    /// was not accepted.
    CounterTurn(u32),
    /// The game is over and this side has won it.
    Won(Player),
}

/// The state of one player's game.
#[derive(Clone, Copy, Debug, PartialEq, Eq, Structural)]
pub struct GameState {
    pub pebbles_count: u32,
    pub max_pebbles_per_turn: u32,
    pub pebbles_remaining: u32,
    pub difficulty: DifficultyLevel,
    pub first_player: Player,
    pub winner: Option<Player>,
}

/// The answer to one action.
#[derive(Clone, Copy, Debug, PartialEq, Eq, Structural)]
pub enum PebblesReply {
    /// The answer to a turn or to a surrender.
    Event(PebblesEvent),
    /// The answer to a restart: the game as it stands afterwards.
    State(GameState),
}

/// What an action has made of a player's game, and the reply to the player.
#[derive(Clone, Copy, Debug, PartialEq, Eq, Structural)]
pub struct Outcome {
    /// The game after the action. A game that has a winner is over and is
    /// no longer kept.
    pub state: GameState,
    pub reply: PebblesReply,
}

/// Why an operation was refused.
#[derive(Clone, Copy, Debug, PartialEq, Eq, Structural)]
pub enum PebblesError {
    /// No configuration has been set yet.
    NotInitialized,
    /// The pile would be empty, or the per-turn maximum is zero or larger
    /// than the pile.
    InvalidConfig,
    /// A random number from an empty range was asked for.
    InvalidArgument,
    /// A random value was needed and the entropy source had none.
    RandomnessUnavailable,
}

/// The random values at the disposal of one action, one for each purpose.
/// `None` stands for a value that the entropy source failed to produce.
#[derive(Clone, Copy, Debug, PartialEq, Eq, Structural)]
pub struct Draws {
    /// Decides who moves first after a restart.
    pub first_player: Option<u32>,
    /// Decides the program's move at the easy level.
    pub program_turn: Option<u32>,
}

impl PebblesInit {
    /// A configuration is valid when the pile is not empty and the per-turn
    /// maximum lies between one and the size of the pile.
    pub open spec fn is_valid(&self) -> bool {
        1 <= self.max_pebbles_per_turn <= self.pebbles_count
    }

    /// Accepts a valid configuration and refuses any other.
    pub fn validate(&self) -> (result: Result<(), PebblesError>)
        ensures
            match result {
                Ok(_) => self.is_valid(),
                Err(e) => !self.is_valid() && e == PebblesError::InvalidConfig,
            },
    {
        if 1 <= self.max_pebbles_per_turn && self.max_pebbles_per_turn <= self.pebbles_count {
            Ok(())
        } else {
            Err(PebblesError::InvalidConfig)
        }
    }
}

impl GameState {
    /// The game that a configuration starts, with the given side to move
    /// first: the pile is full and nobody has won.
    pub open spec fn fresh(init: PebblesInit, first_player: Player) -> GameState {
        GameState {
            pebbles_count: init.pebbles_count,
            max_pebbles_per_turn: init.max_pebbles_per_turn,
            pebbles_remaining: init.pebbles_count,
            difficulty: init.difficulty,
            first_player,
            winner: None,
        }
    }

    /// The configuration of the game is valid and the pile holds no more than
    /// it started with.
    pub open spec fn is_valid(&self) -> bool {
        &&& 1 <= self.max_pebbles_per_turn <= self.pebbles_count
        &&& self.pebbles_remaining <= self.pebbles_count
    }

    /// The game is valid, pebbles are left and nobody has won yet.
    pub open spec fn in_progress(&self) -> bool {
        &&& self.is_valid()
        &&& self.pebbles_remaining >= 1
        &&& self.winner is None
    }

    /// The largest number of pebbles that the side to move may take.
    pub open spec fn legal_limit(&self) -> int {
        if self.max_pebbles_per_turn <= self.pebbles_remaining {
            self.max_pebbles_per_turn as int
        } else {
            self.pebbles_remaining as int
        }
    }

    /// Starts a game from a configuration.
    pub fn new(init: &PebblesInit, first_player: Player) -> (game_state: GameState)
        ensures
            game_state == GameState::fresh(*init, first_player),
    {
        GameState {
            pebbles_count: init.pebbles_count,
            max_pebbles_per_turn: init.max_pebbles_per_turn,
            pebbles_remaining: init.pebbles_count,
            difficulty: init.difficulty,
            first_player,
            winner: None,
        }
    }
}

} // verus!
