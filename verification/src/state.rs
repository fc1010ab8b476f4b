//! The state of one match, and the rules as a function from a state and an
//! event to the next state.
//!
//! The rules are written once, over [`GameStateView`], the state as a
//! mathematical value.  The executable handlers are held to them.

use linera_base::identifiers::Owner;
use vstd::prelude::*;

use crate::board::{Board, BoardView, BOARD_SIZE};
use crate::ledger::Ledger;
use crate::messages::{AttackPayload, GameResult, Message, Move, MoveKind, MoveOutcome};

verus! {

/// The resources a player holds when they join.
pub const STARTING_RESOURCES: u64 = 100;

/// The health pool a player has when they join.
pub const STARTING_HP: u64 = 100;

/// Everything one partition holds about its match.
#[derive(Debug)]
pub struct GameState {
    /// The players in the order in which they take turns.
    pub players: Vec<Owner>,
    /// How many moves have used up a turn so far.
    pub turn_index: u8,
    pub board: Board,
    pub seed: u64,
    /// How the match ended, once it has.
    pub game_result: Option<GameResult>,
    /// What each player can still spend on units.
    pub resources: Ledger,
    /// Each player's health pool, apart from the health of their units.
    pub hp: Ledger,
}

/// The state of a match as a mathematical value.
#[verifier::ext_equal]
pub struct GameStateView {
    pub players: Seq<Owner>,
    pub turn_index: nat,
    pub board: BoardView,
    pub seed: u64,
    pub game_result: Option<GameResult>,
    pub resources: Map<Owner, u64>,
    pub hp: Map<Owner, u64>,
}

impl View for GameState {
    type V = GameStateView;

    open spec fn view(&self) -> GameStateView {
        GameStateView {
            players: self.players@,
            turn_index: self.turn_index as nat,
            board: self.board@,
            seed: self.seed,
            game_result: self.game_result,
            resources: self.resources@,
            hp: self.hp@,
        }
    }
}

/// What `balances` shows for `player`: their balance, or zero where they
/// have none.
pub open spec fn balance_of(balances: Map<Owner, u64>, player: Owner) -> u64 {
    if balances.dom().contains(player) {
        balances[player]
    } else {
        0
    }
}

/// `balances` after each of `players` had their balance set to `amount`.
pub open spec fn credited(balances: Map<Owner, u64>, players: Seq<Owner>, amount: u64) -> Map<
    Owner,
    u64,
> {
    Map::new(
        |p: Owner| balances.dom().contains(p) || players.contains(p),
        |p: Owner|
            if players.contains(p) {
                amount
            } else {
                balances[p]
            },
    )
}

/// Crediting one more player is one more insertion.
pub proof fn lemma_credited_step(
    balances: Map<Owner, u64>,
    players: Seq<Owner>,
    i: int,
    amount: u64,
)
    requires
        0 <= i < players.len(),
    ensures
        credited(balances, players.take(i + 1), amount) == credited(
            balances,
            players.take(i),
            amount,
        ).insert(players[i], amount),
{
    let shorter = players.take(i);
    let longer = players.take(i + 1);
    assert forall|p: Owner| longer.contains(p) <==> (shorter.contains(p) || p == players[i]) by {
        if longer.contains(p) {
            let k = choose|k: int| 0 <= k < longer.len() && longer[k] == p;
            if k < i {
                assert(shorter[k] == p);
            }
        }
        if shorter.contains(p) {
            let k = choose|k: int| 0 <= k < shorter.len() && shorter[k] == p;
            assert(longer[k] == p);
        }
        if p == players[i] {
            assert(longer[i] == p);
        }
    }
    assert(credited(balances, longer, amount) =~= credited(balances, shorter, amount).insert(
        players[i],
        amount,
    ));
}

impl GameStateView {
    /// The state of a partition that holds no match yet.
    pub open spec fn empty() -> GameStateView {
        GameStateView {
            players: Seq::empty(),
            turn_index: 0,
            board: BoardView { units: Seq::empty(), size: BOARD_SIZE },
            seed: 0,
            game_result: None,
            resources: Map::empty(),
            hp: Map::empty(),
        }
    }

    /// What holds of every state that the rules can reach: the board is
    /// well formed.
    pub open spec fn wf(self) -> bool {
        self.board.wf()
    }

    /// The player whose turn it is: turns go round the players in the
    /// order of the list.
    pub open spec fn current_player(self) -> Owner
        recommends
            self.players.len() > 0,
    {
        self.players[self.turn_index as int % self.players.len() as int]
    }

    /// A move by `player` is admissible: it is their turn.
    pub open spec fn is_turn_of(self, player: Owner) -> bool {
        self.players.len() > 0 && self.current_player() == player
    }

    /// A match is set up for `players`: nobody has moved, the board is
    /// empty, no result is known, and each of the players gets the
    /// starting resources and health.
    pub open spec fn instantiated(self, players: Seq<Owner>, seed: u64) -> GameStateView {
        GameStateView {
            players,
            turn_index: 0,
            board: BoardView { units: Seq::empty(), size: BOARD_SIZE },
            seed,
            game_result: None,
            resources: credited(self.resources, players, STARTING_RESOURCES),
            hp: credited(self.hp, players, STARTING_HP),
        }
    }

    /// `player` joins: they are added behind the others with the starting
    /// resources and health, unless they take part already.
    pub open spec fn joined(self, player: Owner) -> GameStateView {
        if self.players.contains(player) {
            self
        } else {
            GameStateView {
                players: self.players.push(player),
                resources: self.resources.insert(player, STARTING_RESOURCES),
                hp: self.hp.insert(player, STARTING_HP),
                ..self
            }
        }
    }

    /// The match ends with `result`, unless it has ended before: the first
    /// result stands.
    pub open spec fn resolved(self, result: GameResult) -> GameStateView {
        if self.game_result is Some {
            self
        } else {
            GameStateView { game_result: Some(result), ..self }
        }
    }

    /// What a move of the given kind does to board and resources, once it
    /// is known to be `player`'s turn.
    pub open spec fn acted(self, player: Owner, kind: MoveKind) -> GameStateView {
        match kind {
            MoveKind::Deploy { unit_type, position } => {
                let funds = balance_of(self.resources, player);
                if funds >= unit_type.spec_cost() {
                    GameStateView {
                        board: self.board.deployed(player, unit_type, position),
                        resources: self.resources.insert(
                            player,
                            (funds - unit_type.spec_cost()) as u64,
                        ),
                        ..self
                    }
                } else {
                    self
                }
            },
            MoveKind::MoveUnit { from, to } => GameStateView {
                board: self.board.relocated(player, from, to),
                ..self
            },
            MoveKind::Attack { from, target } => GameStateView {
                board: self.board.struck(player, from, target),
                ..self
            },
        }
    }

    /// Whether a move of the given kind takes effect, once it is known to
    /// be `player`'s turn.
    pub open spec fn action_outcome(self, player: Owner, kind: MoveKind) -> MoveOutcome {
        match kind {
            MoveKind::Deploy { unit_type, position } => {
                if balance_of(self.resources, player) >= unit_type.spec_cost() {
                    MoveOutcome::Accepted
                } else {
                    MoveOutcome::RejectedInsufficientResources
                }
            },
            MoveKind::MoveUnit { from, to } => self.board.relocation_outcome(player, from, to),
            MoveKind::Attack { from, target } => self.board.strike_outcome(player, from, target),
        }
    }

    /// `player` submits a move.  Out of turn it changes nothing.  In turn
    /// it is carried out as far as it can be, the turn passes on whether
    /// or not it took effect, and the player wins if no unit of another
    /// player is left on the board.
    pub open spec fn moved(self, player: Owner, move_data: Move) -> GameStateView {
        if !self.is_turn_of(player) {
            self
        } else {
            let acted = self.acted(player, move_data.kind);
            let passed = GameStateView { turn_index: self.turn_index + 1, ..acted };
            if passed.board.has_no_opponent_of(player) {
                passed.resolved(GameResult::Victory { winner: player })
            } else {
                passed
            }
        }
    }

    /// What the submitter of a move is told.
    pub open spec fn move_outcome(self, player: Owner, move_data: Move) -> MoveOutcome {
        if !self.is_turn_of(player) {
            MoveOutcome::RejectedWrongTurn
        } else {
            self.action_outcome(player, move_data.kind)
        }
    }

    /// The health pool of `from` is attacked.  A pool larger than the
    /// damage shrinks by it.  Any other pool drops to zero, and the
    /// attacker named in the payload wins.
    pub open spec fn attacked(self, from: Owner, attack: AttackPayload) -> GameStateView {
        let pool = balance_of(self.hp, from);
        if pool > attack.damage {
            GameStateView { hp: self.hp.insert(from, (pool - attack.damage) as u64), ..self }
        } else {
            GameStateView { hp: self.hp.insert(from, 0), ..self }.resolved(
                GameResult::Victory { winner: attack.attacker },
            )
        }
    }

    /// The state after `message` was received.
    pub open spec fn received(self, message: Message) -> GameStateView {
        match message {
            Message::JoinGame { player } => self.joined(player),
            Message::MoveMessage { player, move_data } => self.moved(player, move_data),
            Message::AttackMessage { from, to_chain, attack } => self.attacked(from, attack),
            Message::ResolveGame { result } => self.resolved(result),
        }
    }

    /// What the sender of `message` is told: the outcome of a move, and
    /// nothing for any other message.
    pub open spec fn message_outcome(self, message: Message) -> Option<MoveOutcome> {
        match message {
            Message::MoveMessage { player, move_data } => Some(
                self.move_outcome(player, move_data),
            ),
            _ => None,
        }
    }

    /// The state after `messages` were received one after the other.
    pub open spec fn received_all(self, messages: Seq<Message>) -> GameStateView
        decreases messages.len(),
    {
        if messages.len() == 0 {
            self
        } else {
            self.received_all(messages.drop_last()).received(messages.last())
        }
    }

    /// Every player who takes part has resources and a health pool on
    /// record.
    pub open spec fn players_have_balances(self) -> bool {
        forall|i: int|
            0 <= i < self.players.len() ==> self.resources.dom().contains(#[trigger] self.players[i])
                && self.hp.dom().contains(self.players[i])
    }
}

impl GameState {
    /// The state of a partition that holds no match yet.
    pub fn new() -> (state: GameState)
        ensures
            state@ == GameStateView::empty(),
    {
        GameState {
            players: Vec::new(),
            turn_index: 0,
            board: Board::new(),
            seed: 0,
            game_result: None,
            resources: Ledger::new(),
            hp: Ledger::new(),
        }
    }
}

} // verus!
