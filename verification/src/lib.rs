//! Rules of a turn-based strategy match whose state lives in one partition
//! and is driven by messages from other partitions.
//!
//! * [`units`], [`board`]: unit types, positions, and what a move does to
//!   the units on the board.
//! * [`ledger`]: balances by player, for resources and for health pools.
//! * [`messages`]: operations, messages, moves and results.
//! * [`state`]: the state of a match, and the rules as functions from a
//!   state and an event to the next state.
//! * [`contract`], [`service`]: the handlers that change the state, and
//!   the queries that read it.
//! * [`laws`]: what holds of the rules in every state.
//! * [`identity`]: players and partitions, as `linera_base` defines them.

pub mod board;
pub mod contract;
pub mod identity;
pub mod laws;
pub mod ledger;
pub mod messages;
pub mod service;
pub mod state;
pub mod units;

pub use board::{Board, BoardView, BOARD_SIZE, MOVE_RANGE};
pub use contract::GameContract;
pub use ledger::Ledger;
pub use messages::{
    AttackPayload, GameResult, InstantiationArgument, MatchParams, Message, Move, MoveKind,
    MoveOutcome, Operation, OutgoingMessage,
};
pub use service::{GameService, GameStateResponse};
pub use state::{GameState, GameStateView, STARTING_HP, STARTING_RESOURCES};
pub use units::{Position, Unit, UnitType};
