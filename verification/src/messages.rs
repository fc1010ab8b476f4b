//! What travels between callers and partitions: operations that a caller
//! submits to its own partition, the messages that partitions send each
//! other, and the moves and results they carry.

use linera_base::identifiers::{ChainId, Owner};
use vstd::prelude::*;

use crate::units::{Position, UnitType};

verus! {

/// Wishes of a caller who asks for a match.  The rules carry them along and
/// read neither.
#[derive(Clone, Copy, Debug, PartialEq, Eq, Structural)]
pub struct MatchParams {
    pub max_players: u8,
    pub board_size: u8,
}

/// The three things a player can do on their turn.
#[derive(Clone, Copy, Debug, PartialEq, Eq, Structural)]
pub enum MoveKind {
    /// Put a new unit of `unit_type` on `position`, paying its cost.
    Deploy { unit_type: UnitType, position: Position },
    /// Move the player's unit on `from` to `to`, at most two squares away.
    MoveUnit { from: Position, to: Position },
    /// Strike the unit on `target` with the player's unit on `from`.
    Attack { from: Position, target: Position },
}

/// A move as it is sent: its kind with the kind's fields.
#[derive(Clone, Copy, Debug, PartialEq, Eq, Structural)]
pub struct Move {
    pub kind: MoveKind,
}

/// An attack on a player's health pool, made outside the board.  Nothing
/// checks that `attacker` takes part in the match.
#[derive(Clone, Copy, Debug, PartialEq, Eq)]
pub struct AttackPayload {
    pub attacker: Owner,
    pub damage: u64,
}

/// How a match ended.  No rule ever produces `Draw`.
#[derive(Clone, Copy, Debug, PartialEq, Eq)]
pub enum GameResult {
    Victory { winner: Owner },
    Surrender { loser: Owner },
    Draw,
}

/// A message from one partition to another.
#[derive(Clone, Copy, Debug, PartialEq, Eq)]
pub enum Message {
    /// `player` joins the match, unless they already take part.
    JoinGame { player: Owner },
    /// `player` makes a move.
    MoveMessage { player: Owner, move_data: Move },
    /// The health pool of `from` is attacked.  `to_chain` is carried along
    /// and not read.
    AttackMessage { from: Owner, to_chain: ChainId, attack: AttackPayload },
    /// The match ends with `result`, unless it has ended before.
    ResolveGame { result: GameResult },
}

/// What a caller can ask of its own partition.
#[derive(Clone, Copy, Debug, PartialEq, Eq)]
pub enum Operation {
    RequestMatch { tournament_id: ChainId, params: MatchParams },
    MakeMove { game_chain: ChainId, move_data: Move },
    Surrender { game_chain: ChainId },
}

/// What a match is created from.
#[derive(Clone, Debug, PartialEq, Eq)]
pub struct InstantiationArgument {
    pub players: Vec<Owner>,
    pub seed: u64,
}

/// A message on its way out: where it goes, and whether the sender's
/// identity is forwarded with it.
#[derive(Clone, Copy, Debug, PartialEq, Eq)]
pub struct OutgoingMessage {
    pub destination: ChainId,
    pub message: Message,
    pub authenticated: bool,
}

/// What became of a submitted move.  Every outcome but `RejectedWrongTurn`
/// uses up the player's turn.
#[derive(Clone, Copy, Debug, PartialEq, Eq, Structural)]
pub enum MoveOutcome {
    /// The move took effect on the board.
    Accepted,
    /// It was another player's turn: nothing changed.
    RejectedWrongTurn,
    /// A deploy that the player could not pay for.
    RejectedInsufficientResources,
    /// The player has no unit on the square the move starts from.
    RejectedInvalidSource,
    /// A unit was asked to move more than two squares.
    RejectedInvalidDistance,
    /// An attack on a square that holds no unit.
    RejectedInvalidTarget,
}

} // verus!
