//! A pebble-removal game played by one user against the program.
//!
//! Each player identity owns at most one running game. On every turn a side
//! takes between one and a configured maximum of pebbles from the pile, and
//! whoever takes the last pebble wins.

pub mod context;
pub mod random;
pub mod session;
pub mod store;
pub mod strategy;
pub mod types;

pub use context::{
    get_max_pebbles_per_turn, get_or_create_game, get_pebbles_count, get_pebbles_difficulty,
    handle, init, initialize_pebbles_games, initialize_pebbles_init, remove_game, state,
    PebblesContext,
};
pub use random::{get_random_num_1_to_k, get_random_u32};
pub use session::{apply_action, give_up, process_program_turn, restart, user_turn};
pub use store::SessionStore;
pub use strategy::{program_easy_turn, program_hard_turn};
pub use types::{
    DifficultyLevel, Draws, GameState, Outcome, PebblesAction, PebblesError, PebblesEvent,
    PebblesInit, PebblesReply, Player, PlayerId,
};
