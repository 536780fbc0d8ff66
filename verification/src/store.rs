//! The games in progress, one for each player at most.

use std::collections::BTreeMap;
use vstd::prelude::*;
use crate::types::{GameState, PlayerId};

verus! {

/// An ordered map from a player's identity to that player's game.
pub struct SessionStore {
    games: BTreeMap<PlayerId, GameState>,
}

impl View for SessionStore {
    type V = Map<PlayerId, GameState>;

    closed spec fn view(&self) -> Map<PlayerId, GameState> {
        self.games@
    }
}

impl SessionStore {
    /// A store without games.
    pub fn new() -> (store: SessionStore)
        ensures
            store@ == Map::<PlayerId, GameState>::empty(),
    {
        SessionStore { games: BTreeMap::new() }
    }

    /// The game of a player, if the player has one.
    pub fn get(&self, id: PlayerId) -> (found: Option<GameState>)
        ensures
            found == self@.get(id),
    {
        broadcast use vstd::laws_cmp::group_laws_cmp;
        broadcast use vstd::std_specs::btree::group_btree_axioms;

        match self.games.get(&id) {
            Some(game_state) => Some(*game_state),
            None => None,
        }
    }

    /// The game of a player. A player without a game is given `fresh`, and
    /// that game is stored.
    pub fn get_or_create(&mut self, id: PlayerId, fresh: GameState) -> (game_state: GameState)
        ensures
            game_state == (if old(self)@.contains_key(id) {
                old(self)@[id]
            } else {
                fresh
            }),
            final(self)@ == old(self)@.insert(id, game_state),
    {
        broadcast use vstd::laws_cmp::group_laws_cmp;
        broadcast use vstd::std_specs::btree::group_btree_axioms;

        match self.games.get(&id) {
            Some(game_state) => {
                let found = *game_state;
                assert(self@ =~= self@.insert(id, found));
                found
            },
            None => {
                self.games.insert(id, fresh);
                fresh
            },
        }
    }

    /// Drops the game of a player, if the player has one.
    pub fn remove(&mut self, id: PlayerId)
        ensures
            final(self)@ == old(self)@.remove(id),
    {
        broadcast use vstd::laws_cmp::group_laws_cmp;
        broadcast use vstd::std_specs::btree::group_btree_axioms;

        self.games.remove(&id);
    }

    /// Stores a game for a player, in place of the one that the player may
    /// have had.
    pub fn replace(&mut self, id: PlayerId, game_state: GameState)
        ensures
            final(self)@ == old(self)@.insert(id, game_state),
    {
        broadcast use vstd::laws_cmp::group_laws_cmp;

        self.games.insert(id, game_state);
    }

    /// Drops every game.
    pub fn clear(&mut self)
        ensures
            final(self)@ == Map::<PlayerId, GameState>::empty(),
    {
        self.games.clear();
    }
}

} // verus!
