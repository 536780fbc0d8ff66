//! The course of one game: the user's turn, the program's turn, surrender
//! and restart.

use vstd::prelude::*;
use crate::strategy::{easy_move, hard_move, program_easy_turn, program_hard_turn};
use crate::types::{
    DifficultyLevel,
    Draws,
    GameState,
    PebblesAction,
    PebblesError,
    PebblesEvent,
    PebblesInit,
    PebblesReply,
    Player,
};

verus! {

/// The game after a side has taken pebbles from the pile: the pile shrinks
/// by as much, and the side that empties it has won.
pub open spec fn after_taking(game_state: GameState, taken: u32, side: Player) -> GameState
    recommends
        taken <= game_state.pebbles_remaining,
{
    let left = (game_state.pebbles_remaining - taken) as u32;
    GameState {
        pebbles_remaining: left,
        winner: if left == 0 {
            Some(side)
        } else {
            game_state.winner
        },
        ..game_state
    }
}

/// The number of pebbles that the program takes. The hard level needs no
/// random value; the easy level fails without one.
pub open spec fn program_move(game_state: GameState, random_value: Option<u32>) -> Result<
    u32,
    PebblesError,
> {
    match game_state.difficulty {
        DifficultyLevel::Hard => Ok(hard_move(game_state) as u32),
        DifficultyLevel::Easy => match random_value {
            None => Err(PebblesError::RandomnessUnavailable),
            Some(r) => if game_state.max_pebbles_per_turn == 0 {
                Err(PebblesError::InvalidArgument)
            } else {
                Ok(easy_move(game_state, r) as u32)
            },
        },
    }
}

/// The game after the program's turn, and the number of pebbles it took.
pub open spec fn program_turn_outcome(game_state: GameState, random_value: Option<u32>) -> Result<
    (GameState, u32),
    PebblesError,
> {
    match program_move(game_state, random_value) {
        Ok(taken) => Ok((after_taking(game_state, taken, Player::Program), taken)),
        Err(e) => Err(e),
    }
}

/// Whether the user may take this many pebbles: at least one, no more than
/// the per-turn maximum and no more than the pile holds.
pub open spec fn turn_is_accepted(game_state: GameState, pebbles: u32) -> bool {
    &&& 1 <= pebbles <= game_state.max_pebbles_per_turn
    &&& pebbles <= game_state.pebbles_remaining
}

/// The game after the user's turn, and the answer to it. A move that is not
/// accepted leaves the game as it is and is answered with a counter-turn of
/// zero. A move that empties the pile wins the game for the user. After any
/// other move the program takes its turn, and either wins by emptying the
/// pile or answers with the number of pebbles it took.
pub open spec fn turn_outcome(
    game_state: GameState,
    pebbles: u32,
    random_value: Option<u32>,
) -> Result<(GameState, PebblesEvent), PebblesError> {
    if !turn_is_accepted(game_state, pebbles) {
        Ok((game_state, PebblesEvent::CounterTurn(0)))
    } else {
        let moved = after_taking(game_state, pebbles, Player::User);
        if moved.pebbles_remaining == 0 {
            Ok((moved, PebblesEvent::Won(Player::User)))
        } else {
            match program_turn_outcome(moved, random_value) {
                Ok((next, taken)) => Ok(
                    (
                        next,
                        if next.pebbles_remaining == 0 {
                            PebblesEvent::Won(Player::Program)
                        } else {
                            PebblesEvent::CounterTurn(taken)
                        },
                    ),
                ),
                Err(e) => Err(e),
            }
        }
    }
}

/// The game after the user has given up: the program has won, whatever is
/// left in the pile.
pub open spec fn surrendered(game_state: GameState) -> GameState {
    GameState { winner: Some(Player::Program), ..game_state }
}

/// The side that a random value chooses to move first.
pub open spec fn first_player_of(random_value: u32) -> Player {
    if random_value % 2 == 0 {
        Player::User
    } else {
        Player::Program
    }
}

/// The game that a restart begins. The configuration must be valid. The
/// pile is full, nobody has won, and a random value chooses who moves first;
/// where that is the program, it takes its first turn at once.
pub open spec fn restart_outcome(init: PebblesInit, draws: Draws) -> Result<
    GameState,
    PebblesError,
> {
    if !init.is_valid() {
        Err(PebblesError::InvalidConfig)
    } else {
        match draws.first_player {
            None => Err(PebblesError::RandomnessUnavailable),
            Some(r) => {
                let fresh = GameState::fresh(init, first_player_of(r));
                match fresh.first_player {
                    Player::User => Ok(fresh),
                    Player::Program => match program_turn_outcome(fresh, draws.program_turn) {
                        Ok((next, _)) => Ok(next),
                        Err(e) => Err(e),
                    },
                }
            },
        }
    }
}

/// The game after an action, and the reply to it. A turn and a surrender
/// are answered with an event, a restart with the game that it began.
pub open spec fn action_outcome(
    game_state: GameState,
    action: PebblesAction,
    draws: Draws,
) -> Result<(GameState, PebblesReply), PebblesError> {
    match action {
        PebblesAction::Turn(pebbles) => match turn_outcome(
            game_state,
            pebbles,
            draws.program_turn,
        ) {
            Ok((next, event)) => Ok((next, PebblesReply::Event(event))),
            Err(e) => Err(e),
        },
        PebblesAction::GiveUp => Ok(
            (surrendered(game_state), PebblesReply::Event(PebblesEvent::Won(Player::Program))),
        ),
        PebblesAction::Restart { difficulty, pebbles_count, max_pebbles_per_turn } => {
            match restart_outcome(
                PebblesInit { difficulty, pebbles_count, max_pebbles_per_turn },
                draws,
            ) {
                Ok(next) => Ok((next, PebblesReply::State(next))),
                Err(e) => Err(e),
            }
        },
    }
}

/// Lets the program take its turn, and returns the game afterwards with the
/// number of pebbles taken.
pub fn process_program_turn(game_state: GameState, random_value: Option<u32>) -> (result: Result<
    (GameState, u32),
    PebblesError,
>)
    ensures
        result == program_turn_outcome(game_state, random_value),
{
    let pebbles_to_remove: u32 = match game_state.difficulty {
        DifficultyLevel::Easy => match random_value {
            Some(r) => match program_easy_turn(&game_state, r) {
                Ok(taken) => taken,
                Err(e) => {
                    return Err(e);
                },
            },
            None => {
                return Err(PebblesError::RandomnessUnavailable);
            },
        },
        DifficultyLevel::Hard => program_hard_turn(&game_state),
    };
    let mut next = game_state;
    next.pebbles_remaining = game_state.pebbles_remaining - pebbles_to_remove;
    if next.pebbles_remaining == 0 {
        next.winner = Some(Player::Program);
    }
    Ok((next, pebbles_to_remove))
}

/// Lets the user take `pebbles` pebbles and the program answer, and returns
/// the game afterwards with the answer.
pub fn user_turn(game_state: GameState, pebbles: u32, random_value: Option<u32>) -> (result:
    Result<(GameState, PebblesEvent), PebblesError>)
    ensures
        result == turn_outcome(game_state, pebbles, random_value),
{
    if pebbles > game_state.max_pebbles_per_turn || pebbles == 0 || pebbles
        > game_state.pebbles_remaining {
        return Ok((game_state, PebblesEvent::CounterTurn(0)));
    }
    let mut moved = game_state;
    moved.pebbles_remaining = game_state.pebbles_remaining - pebbles;
    if moved.pebbles_remaining == 0 {
        moved.winner = Some(Player::User);
        return Ok((moved, PebblesEvent::Won(Player::User)));
    }
    match process_program_turn(moved, random_value) {
        Ok((next, taken)) => {
            if next.pebbles_remaining == 0 {
                Ok((next, PebblesEvent::Won(Player::Program)))
            } else {
                Ok((next, PebblesEvent::CounterTurn(taken)))
            }
        },
        Err(e) => Err(e),
    }
}

/// Concedes the game to the program.
pub fn give_up(game_state: GameState) -> (next: GameState)
    ensures
        next == surrendered(game_state),
{
    let mut next = game_state;
    next.winner = Some(Player::Program);
    next
}

/// Begins a game with a new configuration.
pub fn restart(init: PebblesInit, draws: Draws) -> (result: Result<GameState, PebblesError>)
    ensures
        result == restart_outcome(init, draws),
{
    match init.validate() {
        Ok(_) => {},
        Err(e) => {
            return Err(e);
        },
    }
    let first_player = match draws.first_player {
        Some(r) => if r % 2 == 0 {
            Player::User
        } else {
            Player::Program
        },
        None => {
            return Err(PebblesError::RandomnessUnavailable);
        },
    };
    let fresh = GameState::new(&init, first_player);
    match first_player {
        Player::User => Ok(fresh),
        Player::Program => match process_program_turn(fresh, draws.program_turn) {
            Ok((next, _)) => Ok(next),
            Err(e) => Err(e),
        },
    }
}

/// Applies one action to a game, and returns the game afterwards with the
/// reply.
pub fn apply_action(game_state: GameState, action: PebblesAction, draws: Draws) -> (result: Result<
    (GameState, PebblesReply),
    PebblesError,
>)
    ensures
        result == action_outcome(game_state, action, draws),
{
    match action {
        PebblesAction::Turn(pebbles) => match user_turn(game_state, pebbles, draws.program_turn) {
            Ok((next, event)) => Ok((next, PebblesReply::Event(event))),
            Err(e) => Err(e),
        },
        PebblesAction::GiveUp => Ok(
            (give_up(game_state), PebblesReply::Event(PebblesEvent::Won(Player::Program))),
        ),
        PebblesAction::Restart { difficulty, pebbles_count, max_pebbles_per_turn } => {
            match restart(PebblesInit { difficulty, pebbles_count, max_pebbles_per_turn }, draws) {
                Ok(next) => Ok((next, PebblesReply::State(next))),
                Err(e) => Err(e),
            }
        },
    }
}

/// A turn of no pebbles, or of more than the per-turn maximum, changes
/// nothing: the pile and the winner stay as they are, and the answer is a
/// counter-turn of zero.
pub proof fn lemma_rejected_turn_changes_nothing(
    game_state: GameState,
    pebbles: u32,
    random_value: Option<u32>,
)
    requires
        pebbles == 0 || pebbles > game_state.max_pebbles_per_turn,
    ensures
        turn_outcome(game_state, pebbles, random_value) == Ok::<
            (GameState, PebblesEvent),
            PebblesError,
        >((game_state, PebblesEvent::CounterTurn(0))),
{
}

/// In a game in progress, an accepted turn that takes the whole pile wins
/// the game for the user. Any other accepted turn is followed by the
/// program's move, which fails only for want of a random value at the easy
/// level. Where the program's move empties the pile the program has won and
/// the answer says so; otherwise nobody has won and the answer is the number
/// of pebbles that the program took.
pub proof fn lemma_emptying_the_pile_wins(
    game_state: GameState,
    pebbles: u32,
    random_value: Option<u32>,
)
    requires
        game_state.in_progress(),
        turn_is_accepted(game_state, pebbles),
    ensures
        pebbles == game_state.pebbles_remaining ==> turn_outcome(game_state, pebbles, random_value)
            == Ok::<(GameState, PebblesEvent), PebblesError>(
            (
                GameState { pebbles_remaining: 0, winner: Some(Player::User), ..game_state },
                PebblesEvent::Won(Player::User),
            ),
        ),
        pebbles < game_state.pebbles_remaining ==> match turn_outcome(
            game_state,
            pebbles,
            random_value,
        ) {
            Ok((next, event)) => {
                let taken = game_state.pebbles_remaining - pebbles - next.pebbles_remaining;
                &&& 1 <= taken <= game_state.max_pebbles_per_turn
                &&& next == (GameState {
                    pebbles_remaining: next.pebbles_remaining,
                    winner: next.winner,
                    ..game_state
                })
                &&& next.pebbles_remaining == 0 ==> next.winner == Some(Player::Program) && event
                    == PebblesEvent::Won(Player::Program)
                &&& next.pebbles_remaining > 0 ==> next.winner is None && event
                    == PebblesEvent::CounterTurn(taken as u32)
            },
            Err(e) => {
                &&& game_state.difficulty == DifficultyLevel::Easy
                &&& random_value is None
                &&& e == PebblesError::RandomnessUnavailable
            },
        },
{
}

/// Giving up hands the game to the program, whatever is left in the pile,
/// and changes nothing else.
pub proof fn lemma_giving_up_loses(game_state: GameState)
    ensures
        surrendered(game_state).winner == Some(Player::Program),
        surrendered(game_state) == (GameState { winner: Some(Player::Program), ..game_state }),
{
}

/// A restart succeeds exactly if the configuration is valid and the random
/// values that it needs are there: one to choose who moves first, and, where
/// that is the program at the easy level, one for its move. The game that it
/// begins has the new configuration. Where the user moves first, the pile is
/// full and nobody has won. Where the program moves first, the pile is short
/// of the program's first move, and the program has won exactly if that move
/// emptied the pile.
pub proof fn lemma_restart_begins_a_new_game(init: PebblesInit, draws: Draws)
    ensures
        match restart_outcome(init, draws) {
            Ok(next) => {
                &&& init.is_valid()
                &&& draws.first_player is Some
                &&& next.pebbles_count == init.pebbles_count
                &&& next.max_pebbles_per_turn == init.max_pebbles_per_turn
                &&& next.difficulty == init.difficulty
                &&& next.first_player == first_player_of(draws.first_player->Some_0)
                &&& next.first_player == Player::User ==> next.pebbles_remaining
                    == init.pebbles_count && next.winner is None
                &&& next.first_player == Player::Program ==> {
                    &&& next.pebbles_remaining < init.pebbles_count
                    &&& init.pebbles_count - next.pebbles_remaining <= init.max_pebbles_per_turn
                    &&& next.pebbles_remaining == 0 ==> next.winner == Some(Player::Program)
                    &&& next.pebbles_remaining > 0 ==> next.winner is None
                }
            },
            Err(e) => if !init.is_valid() {
                e == PebblesError::InvalidConfig
            } else {
                &&& e == PebblesError::RandomnessUnavailable
                &&& {
                    ||| draws.first_player is None
                    ||| {
                        &&& first_player_of(draws.first_player->Some_0) == Player::Program
                        &&& init.difficulty == DifficultyLevel::Easy
                        &&& draws.program_turn is None
                    }
                }
            },
        },
{
}

/// Unless the program moves first and leaves pebbles in the pile, a restart
/// that succeeds either begins a game with a full pile that nobody has won,
/// or the program has moved first, emptied the pile and won.
pub proof fn lemma_restart_resets_pile_and_winner(init: PebblesInit, draws: Draws)
    requires
        (restart_outcome(init, draws) is Ok),
        ({
            let next = restart_outcome(init, draws)->Ok_0;
            next.first_player == Player::User || next.pebbles_remaining == 0
        }),
    ensures
        ({
            let next = restart_outcome(init, draws)->Ok_0;
            ||| next.pebbles_remaining == next.pebbles_count && next.winner is None
            ||| next.first_player == Player::Program && next.winner == Some(Player::Program)
        }),
{
    lemma_restart_begins_a_new_game(init, draws);
}

/// No action makes a game in progress unsound: afterwards the configuration
/// is valid, the pile holds no more than the game started with, and the game
/// has a winner exactly if it is over. As long as it has none it is still in
/// progress.
pub proof fn lemma_action_keeps_the_game_sound(
    game_state: GameState,
    action: PebblesAction,
    draws: Draws,
)
    requires
        game_state.in_progress(),
    ensures
        match action_outcome(game_state, action, draws) {
            Ok((next, _)) => {
                &&& next.is_valid()
                &&& next.pebbles_remaining <= next.pebbles_count
                &&& next.winner is None ==> next.in_progress()
                &&& next.pebbles_remaining == 0 ==> next.winner is Some
            },
            Err(_) => true,
        },
{
}

/// An action on a game in progress fails in two cases and in no other: a
/// restart asks for an invalid configuration, or a random value that the
/// action needs is missing. A turn needs one where it is accepted, leaves
/// pebbles in the pile and the program answers at the easy level. Giving up
/// never fails.
pub proof fn lemma_when_an_action_fails(
    game_state: GameState,
    action: PebblesAction,
    draws: Draws,
)
    requires
        game_state.in_progress(),
    ensures
        match action {
            PebblesAction::Turn(pebbles) => {
                let needs_value = {
                    &&& turn_is_accepted(game_state, pebbles)
                    &&& pebbles < game_state.pebbles_remaining
                    &&& game_state.difficulty == DifficultyLevel::Easy
                };
                if needs_value && draws.program_turn is None {
                    action_outcome(game_state, action, draws) == Err::<
                        (GameState, PebblesReply),
                        PebblesError,
                    >(PebblesError::RandomnessUnavailable)
                } else {
                    action_outcome(game_state, action, draws) is Ok
                }
            },
            PebblesAction::GiveUp => action_outcome(game_state, action, draws) is Ok,
            PebblesAction::Restart { difficulty, pebbles_count, max_pebbles_per_turn } => {
                let init = PebblesInit { difficulty, pebbles_count, max_pebbles_per_turn };
                let needs_second = {
                    &&& draws.first_player matches Some(r)
                    &&& first_player_of(r) == Player::Program
                    &&& difficulty == DifficultyLevel::Easy
                };
                if !init.is_valid() {
                    action_outcome(game_state, action, draws) == Err::<
                        (GameState, PebblesReply),
                        PebblesError,
                    >(PebblesError::InvalidConfig)
                } else if draws.first_player is None || (needs_second && draws.program_turn
                    is None) {
                    action_outcome(game_state, action, draws) == Err::<
                        (GameState, PebblesReply),
                        PebblesError,
                    >(PebblesError::RandomnessUnavailable)
                } else {
                    action_outcome(game_state, action, draws) is Ok
                }
            },
        },
{
}

} // verus!
