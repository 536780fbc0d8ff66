//! The games of all players, and the requests that the players make.

use vstd::prelude::*;
use crate::session::{
    action_outcome,
    apply_action,
    lemma_action_keeps_the_game_sound,
    lemma_when_an_action_fails,
};
use crate::store::SessionStore;
use crate::types::{
    DifficultyLevel,
    Draws,
    GameState,
    Outcome,
    PebblesAction,
    PebblesError,
    PebblesInit,
    Player,
    PlayerId,
};

verus! {

/// What a context holds: the configuration that was set, if any, and the
/// game of each player who has one.
pub struct GameModel {
    pub config: Option<PebblesInit>,
    pub sessions: Map<PlayerId, GameState>,
}

impl GameModel {
    /// The configuration, if one was set, is valid, and every game that is
    /// kept is in progress.
    pub open spec fn wf(self) -> bool {
        &&& self.config matches Some(init) ==> init.is_valid()
        &&& forall|id: PlayerId| #[trigger]
            self.sessions.contains_key(id) ==> self.sessions[id].in_progress()
    }

    /// The game that an action of this player applies to: the player's own,
    /// or for a player without one a new game with the configuration that
    /// was set, in which the user moves first.
    pub open spec fn session(self, id: PlayerId) -> GameState
        recommends
            self.config is Some,
    {
        if self.sessions.contains_key(id) {
            self.sessions[id]
        } else {
            GameState::fresh(self.config->Some_0, Player::User)
        }
    }

    /// The games once this player's game has become `next`: a game that has
    /// a winner is dropped, any other is kept as the player's game.
    pub open spec fn settled(self, id: PlayerId, next: GameState) -> GameModel {
        GameModel {
            config: self.config,
            sessions: if next.winner is Some {
                self.sessions.remove(id)
            } else {
                self.sessions.insert(id, next)
            },
        }
    }

    /// The games after a player's action, and what the player is told.
    /// Before a configuration is set every action fails. An action that
    /// fails changes nothing.
    pub open spec fn handled(self, id: PlayerId, action: PebblesAction, draws: Draws) -> (
        GameModel,
        Result<Outcome, PebblesError>,
    ) {
        match self.config {
            None => (self, Err(PebblesError::NotInitialized)),
            Some(_) => match action_outcome(self.session(id), action, draws) {
                Ok((next, reply)) => (self.settled(id, next), Ok(Outcome { state: next, reply })),
                Err(e) => (self, Err(e)),
            },
        }
    }

    /// The games after a sequence of actions, each with the player who
    /// makes it and the random values at its disposal.
    pub open spec fn replayed(self, requests: Seq<(PlayerId, PebblesAction, Draws)>) -> GameModel
        decreases requests.len(),
    {
        if requests.len() == 0 {
            self
        } else {
            let (id, action, draws) = requests.last();
            self.replayed(requests.drop_last()).handled(id, action, draws).0
        }
    }
}

/// The configuration and the games of one process.
pub struct PebblesContext {
    init: Option<PebblesInit>,
    games: SessionStore,
}

impl View for PebblesContext {
    type V = GameModel;

    closed spec fn view(&self) -> GameModel {
        GameModel { config: self.init, sessions: self.games@ }
    }
}

impl PebblesContext {
    /// A context without a configuration and without games.
    pub fn new() -> (ctx: PebblesContext)
        ensures
            ctx@ == (GameModel { config: None, sessions: Map::empty() }),
            ctx@.wf(),
    {
        PebblesContext { init: None, games: SessionStore::new() }
    }
}

/// Sets the configuration that new games start from. An invalid
/// configuration is refused and changes nothing.
pub fn initialize_pebbles_init(ctx: &mut PebblesContext, init_value: PebblesInit) -> (result:
    Result<(), PebblesError>)
    ensures
        match result {
            Ok(_) => {
                &&& init_value.is_valid()
                &&& final(ctx)@ == (GameModel { config: Some(init_value), ..old(ctx)@ })
            },
            Err(e) => {
                &&& !init_value.is_valid()
                &&& e == PebblesError::InvalidConfig
                &&& final(ctx)@ == old(ctx)@
            },
        },
        old(ctx)@.wf() ==> final(ctx)@.wf(),
{
    match init_value.validate() {
        Ok(_) => {
            ctx.init = Some(init_value);
            Ok(())
        },
        Err(e) => Err(e),
    }
}

/// The difficulty that new games start with, once a configuration is set.
pub fn get_pebbles_difficulty(ctx: &PebblesContext) -> (difficulty: Option<DifficultyLevel>)
    ensures
        difficulty == match ctx@.config {
            Some(init) => Some(init.difficulty),
            None => None,
        },
{
    match ctx.init {
        Some(init) => Some(init.difficulty),
        None => None,
    }
}

/// The size of the pile that new games start with, once a configuration is
/// set.
pub fn get_pebbles_count(ctx: &PebblesContext) -> (pebbles_count: Option<u32>)
    ensures
        pebbles_count == match ctx@.config {
            Some(init) => Some(init.pebbles_count),
            None => None,
        },
{
    match ctx.init {
        Some(init) => Some(init.pebbles_count),
        None => None,
    }
}

/// The per-turn maximum that new games start with, once a configuration is
/// set.
pub fn get_max_pebbles_per_turn(ctx: &PebblesContext) -> (max_pebbles_per_turn: Option<u32>)
    ensures
        max_pebbles_per_turn == match ctx@.config {
            Some(init) => Some(init.max_pebbles_per_turn),
            None => None,
        },
{
    match ctx.init {
        Some(init) => Some(init.max_pebbles_per_turn),
        None => None,
    }
}

/// Drops every game and keeps the configuration.
pub fn initialize_pebbles_games(ctx: &mut PebblesContext)
    ensures
        final(ctx)@ == (GameModel { config: old(ctx)@.config, sessions: Map::empty() }),
        old(ctx)@.wf() ==> final(ctx)@.wf(),
{
    ctx.games.clear();
}

/// Drops the game of one player, if the player has one.
pub fn remove_game(ctx: &mut PebblesContext, actor_id: PlayerId)
    ensures
        final(ctx)@ == (GameModel {
            config: old(ctx)@.config,
            sessions: old(ctx)@.sessions.remove(actor_id),
        }),
        old(ctx)@.wf() ==> final(ctx)@.wf(),
{
    ctx.games.remove(actor_id);
}

/// The game of a player. A player without a game is given a new one with
/// the configuration that was set, in which the user moves first, and that
/// game is kept. Before a configuration is set there is no game to give.
pub fn get_or_create_game(ctx: &mut PebblesContext, user_id: PlayerId) -> (result: Result<
    GameState,
    PebblesError,
>)
    ensures
        match result {
            Ok(game_state) => {
                &&& old(ctx)@.config is Some
                &&& game_state == old(ctx)@.session(user_id)
                &&& final(ctx)@ == (GameModel {
                    config: old(ctx)@.config,
                    sessions: old(ctx)@.sessions.insert(user_id, game_state),
                })
            },
            Err(e) => {
                &&& old(ctx)@.config is None
                &&& e == PebblesError::NotInitialized
                &&& final(ctx)@ == old(ctx)@
            },
        },
        old(ctx)@.wf() ==> final(ctx)@.wf(),
{
    match ctx.init {
        Some(init_value) => {
            let fresh = GameState::new(&init_value, Player::User);
            let game_state = ctx.games.get_or_create(user_id, fresh);
            proof {
                if old(ctx)@.wf() {
                    assert(old(ctx)@.sessions.contains_key(user_id) ==> game_state.in_progress());
                }
            }
            Ok(game_state)
        },
        None => Err(PebblesError::NotInitialized),
    }
}

/// Sets the configuration and drops every game. An invalid configuration is
/// refused and changes nothing.
pub fn init(ctx: &mut PebblesContext, init_value: PebblesInit) -> (result: Result<
    (),
    PebblesError,
>)
    ensures
        match result {
            Ok(_) => {
                &&& init_value.is_valid()
                &&& final(ctx)@ == (GameModel { config: Some(init_value), sessions: Map::empty() })
                &&& final(ctx)@.wf()
            },
            Err(e) => {
                &&& !init_value.is_valid()
                &&& e == PebblesError::InvalidConfig
                &&& final(ctx)@ == old(ctx)@
            },
        },
{
    match initialize_pebbles_init(ctx, init_value) {
        Ok(_) => {
            initialize_pebbles_games(ctx);
            Ok(())
        },
        Err(e) => Err(e),
    }
}

/// Applies a player's action to that player's game and returns the game
/// afterwards with the reply. A player without a game is given a new one
/// first. A game that is over is dropped, any other is kept. An action that
/// fails changes nothing.
pub fn handle(
    ctx: &mut PebblesContext,
    user_id: PlayerId,
    action: PebblesAction,
    draws: Draws,
) -> (result: Result<Outcome, PebblesError>)
    ensures
        (final(ctx)@, result) == old(ctx)@.handled(user_id, action, draws),
        old(ctx)@.wf() ==> final(ctx)@.wf(),
{
    let init_value = match ctx.init {
        Some(init_value) => init_value,
        None => {
            return Err(PebblesError::NotInitialized);
        },
    };
    let game_state = match ctx.games.get(user_id) {
        Some(game_state) => game_state,
        None => GameState::new(&init_value, Player::User),
    };
    match apply_action(game_state, action, draws) {
        Ok((next, reply)) => {
            proof {
                assert(game_state == old(ctx)@.session(user_id));
                if old(ctx)@.wf() {
                    assert(old(ctx)@.sessions.contains_key(user_id) ==> game_state.in_progress());
                    lemma_action_keeps_the_game_sound(game_state, action, draws);
                }
            }
            if next.winner.is_some() {
                ctx.games.remove(user_id);
            } else {
                ctx.games.replace(user_id, next);
            }
            Ok(Outcome { state: next, reply })
        },
        Err(e) => Err(e),
    }
}

/// The game of a player as it stands, if the player has one.
pub fn state(ctx: &PebblesContext, user_id: PlayerId) -> (snapshot: Option<GameState>)
    ensures
        snapshot == ctx@.sessions.get(user_id),
{
    ctx.games.get(user_id)
}

/// An action on sound games leaves them sound, and the game that it returns
/// holds no more pebbles than that game started with.
pub proof fn lemma_handling_keeps_games_sound(
    model: GameModel,
    id: PlayerId,
    action: PebblesAction,
    draws: Draws,
)
    requires
        model.wf(),
    ensures
        model.handled(id, action, draws).0.wf(),
        match model.handled(id, action, draws).1 {
            Ok(outcome) => {
                &&& outcome.state.is_valid()
                &&& 0 <= outcome.state.pebbles_remaining <= outcome.state.pebbles_count
            },
            Err(_) => model.handled(id, action, draws).0 == model,
        },
{
    if model.config is Some {
        lemma_action_keeps_the_game_sound(model.session(id), action, draws);
    }
}

/// After any sequence of actions on sound games the games are sound: in
/// each of them the pile holds at least one pebble and no more than the
/// game started with.
pub proof fn lemma_games_stay_sound(
    model: GameModel,
    requests: Seq<(PlayerId, PebblesAction, Draws)>,
)
    requires
        model.wf(),
    ensures
        model.replayed(requests).wf(),
        forall|id: PlayerId| #[trigger]
            model.replayed(requests).sessions.contains_key(id) ==> 1 <= model.replayed(
                requests,
            ).sessions[id].pebbles_remaining <= model.replayed(requests).sessions[id].pebbles_count,
    decreases requests.len(),
{
    if requests.len() > 0 {
        let (id, action, draws) = requests.last();
        lemma_games_stay_sound(model, requests.drop_last());
        lemma_handling_keeps_games_sound(model.replayed(requests.drop_last()), id, action, draws);
    }
}

/// Once an action has given a game a winner, the player has no game any
/// more, and the player's next action applies to a new game with the
/// configuration that was set. A game without a winner is kept as it was
/// returned.
pub proof fn lemma_finished_game_is_dropped(
    model: GameModel,
    id: PlayerId,
    action: PebblesAction,
    draws: Draws,
)
    ensures
        match model.handled(id, action, draws) {
            (next, Ok(outcome)) => {
                &&& outcome.state.winner is Some ==> {
                    &&& next.sessions.get(id) == None::<GameState>
                    &&& next.session(id) == GameState::fresh(model.config->Some_0, Player::User)
                }
                &&& outcome.state.winner is None ==> {
                    &&& next.sessions.get(id) == Some(outcome.state)
                    &&& next.session(id) == outcome.state
                }
            },
            (_, Err(_)) => true,
        },
{
}

/// The action of one player leaves the games of all the others, and the
/// configuration, as they were.
pub proof fn lemma_players_do_not_interfere(
    model: GameModel,
    id: PlayerId,
    action: PebblesAction,
    draws: Draws,
    other: PlayerId,
)
    requires
        other != id,
    ensures
        model.handled(id, action, draws).0.config == model.config,
        model.handled(id, action, draws).0.sessions.get(other) == model.sessions.get(other),
{
}

/// On sound games an action fails before a configuration is set, and
/// afterwards exactly where the action fails on the player's game: for an
/// invalid configuration or for want of a random value.
pub proof fn lemma_when_handling_fails(
    model: GameModel,
    id: PlayerId,
    action: PebblesAction,
    draws: Draws,
)
    requires
        model.wf(),
    ensures
        match model.handled(id, action, draws).1 {
            Ok(_) => model.config is Some && action_outcome(model.session(id), action, draws) is Ok,
            Err(e) => match e {
                PebblesError::NotInitialized => model.config is None,
                PebblesError::InvalidConfig => {
                    &&& model.config is Some
                    &&& action matches PebblesAction::Restart {
                        difficulty,
                        pebbles_count,
                        max_pebbles_per_turn,
                    }
                    &&& !(1 <= max_pebbles_per_turn <= pebbles_count)
                },
                PebblesError::RandomnessUnavailable => {
                    &&& model.config is Some
                    &&& draws.first_player is None || draws.program_turn is None
                },
                PebblesError::InvalidArgument => false,
            },
        },
{
    if model.config is Some {
        lemma_when_an_action_fails(model.session(id), action, draws);
    }
}

} // verus!
