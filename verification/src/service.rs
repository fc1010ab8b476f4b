//! The read-only side of a match partition: what a client may look up.

use linera_base::identifiers::Owner;
use vstd::prelude::*;

use crate::board::Board;
use crate::identity::{parse_owner, parsed_owner};
use crate::messages::GameResult;
use crate::state::{balance_of, GameState};

verus! {

/// Answers queries about the state it holds, and never changes it.
#[derive(Debug)]
pub struct GameService {
    pub state: GameState,
}

/// What a client sees of a match.
#[derive(Clone, Debug, PartialEq, Eq)]
pub struct GameStateResponse {
    pub players: Vec<Owner>,
    pub turn_index: u8,
    pub board: Board,
    pub result: Option<GameResult>,
}

impl GameService {
    /// The players, the turn counter, the board and the result of the
    /// match, as they stand.
    pub fn game_state(&self) -> (response: GameStateResponse)
        ensures
            response.players@ == self.state.players@,
            response.turn_index == self.state.turn_index,
            response.board@ == self.state.board@,
            response.result == self.state.game_result,
    {
        let mut players: Vec<Owner> = Vec::new();
        let mut i: usize = 0;
        while i < self.state.players.len()
            invariant
                i <= self.state.players@.len(),
                players@ == self.state.players@.take(i as int),
            decreases self.state.players@.len() - i,
        {
            players.push(self.state.players[i]);
            assert(self.state.players@.take(i as int + 1) =~= self.state.players@.take(
                i as int,
            ).push(self.state.players@[i as int]));
            i += 1;
        }
        assert(players@ =~= self.state.players@);
        let units = self.state.board.units.clone();
        assert(units@ =~= self.state.board.units@);
        GameStateResponse {
            players,
            turn_index: self.state.turn_index,
            board: Board { units, size: self.state.board.size },
            result: self.state.game_result,
        }
    }

    /// What `player` can still spend; zero for a player without resources
    /// on record.
    pub fn resources_of(&self, player: &Owner) -> (amount: u64)
        ensures
            amount == balance_of(self.state@.resources, *player),
    {
        match self.state.resources.get(player) {
            Some(amount) => amount,
            None => 0,
        }
    }

    /// The health pool of `player`, which is apart from the health of
    /// their units; zero for a player without a pool on record.
    pub fn hp_of(&self, player: &Owner) -> (amount: u64)
        ensures
            amount == balance_of(self.state@.hp, *player),
    {
        match self.state.hp.get(player) {
            Some(amount) => amount,
            None => 0,
        }
    }

    /// What the player that `player` names can still spend, as
    /// [`GameService::resources_of`] tells it; nothing where the text
    /// names no player.
    pub fn resources(&self, player: String) -> (amount: Option<u64>)
        ensures
            amount == match parsed_owner(player@) {
                Some(owner) => Some(balance_of(self.state@.resources, owner)),
                None => None,
            },
    {
        match parse_owner(player.as_str()) {
            Some(owner) => Some(self.resources_of(&owner)),
            None => None,
        }
    }

    /// The health pool of the player that `player` names, as
    /// [`GameService::hp_of`] tells it; nothing where the text names no
    /// player.
    pub fn hp(&self, player: String) -> (amount: Option<u64>)
        ensures
            amount == match parsed_owner(player@) {
                Some(owner) => Some(balance_of(self.state@.hp, owner)),
                None => None,
            },
    {
        match parse_owner(player.as_str()) {
            Some(owner) => Some(self.hp_of(&owner)),
            None => None,
        }
    }
}

} // verus!
