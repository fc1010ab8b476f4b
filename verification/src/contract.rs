//! The handlers of a match partition: setting a match up, turning a
//! caller's operation into the message it sends, and receiving messages.

use linera_base::identifiers::Owner;
use vstd::prelude::*;

use crate::board::Board;
use crate::identity::same_owner;
use crate::messages::{
    AttackPayload, GameResult, InstantiationArgument, Message, Move, MoveKind, MoveOutcome,
    Operation, OutgoingMessage,
};
use crate::state::{
    credited, lemma_credited_step, GameState, GameStateView, STARTING_HP, STARTING_RESOURCES,
};

verus! {

/// One partition's side of the game: its state, changed by nothing but the
/// handlers below.  Each handler runs to its end on a state that nobody
/// else touches meanwhile.
///
/// A match that has a result is not locked: moves and attacks still change
/// board, resources and health.  Only the result itself stays as it is.
#[derive(Debug)]
pub struct GameContract {
    pub state: GameState,
}

impl View for GameContract {
    type V = GameStateView;

    open spec fn view(&self) -> GameStateView {
        self.state@
    }
}

/// The message that `operation` sends when `signer` submits it.  The
/// player that the message names is always the signer.
pub open spec fn dispatched(signer: Owner, operation: Operation) -> OutgoingMessage {
    match operation {
        Operation::RequestMatch { tournament_id, params } => OutgoingMessage {
            destination: tournament_id,
            message: Message::JoinGame { player: signer },
            authenticated: true,
        },
        Operation::MakeMove { game_chain, move_data } => OutgoingMessage {
            destination: game_chain,
            message: Message::MoveMessage { player: signer, move_data },
            authenticated: true,
        },
        Operation::Surrender { game_chain } => OutgoingMessage {
            destination: game_chain,
            message: Message::ResolveGame { result: GameResult::Surrender { loser: signer } },
            authenticated: false,
        },
    }
}

impl GameContract {
    /// A move by `player` can be handled: if it uses up a turn, the turn
    /// counter has room for one more.
    pub open spec fn spec_can_apply_move(&self, player: Owner) -> bool {
        self@.is_turn_of(player) ==> self.state.turn_index < u8::MAX
    }

    /// `message` can be handled: a move as far as
    /// [`GameContract::can_apply_move`] says, any other message always.
    pub open spec fn spec_can_execute_message(&self, message: Message) -> bool {
        message matches Message::MoveMessage { player, .. } ==> self.spec_can_apply_move(player)
    }

    /// The player whose turn it is.  While nobody takes part it is
    /// nobody's turn, and every move is out of turn.
    pub fn current_player(&self) -> (current: Option<Owner>)
        ensures
            match current {
                Some(player) => self@.players.len() > 0 && player == self@.current_player(),
                None => self@.players.len() == 0,
            },
    {
        if self.state.players.len() == 0 {
            None
        } else {
            let index: usize = (self.state.turn_index as usize) % self.state.players.len();
            Some(self.state.players[index])
        }
    }

    /// Whether a move by `player` can be handled.
    #[verifier::when_used_as_spec(spec_can_apply_move)]
    pub fn can_apply_move(&self, player: Owner) -> (able: bool)
        ensures
            able == self.spec_can_apply_move(player),
    {
        match self.current_player() {
            None => true,
            Some(current) => !same_owner(&current, &player) || self.state.turn_index < u8::MAX,
        }
    }

    /// Whether `message` can be handled.
    #[verifier::when_used_as_spec(spec_can_execute_message)]
    pub fn can_execute_message(&self, message: Message) -> (able: bool)
        ensures
            able == self.spec_can_execute_message(message),
    {
        match message {
            Message::MoveMessage { player, move_data } => self.can_apply_move(player),
            _ => true,
        }
    }

    /// Handles a move that `player` submits, and says what became of it.
    pub fn apply_move(&mut self, player: Owner, move_data: Move) -> (outcome: MoveOutcome)
        requires
            old(self).can_apply_move(player),
        ensures
            final(self)@ == old(self)@.moved(player, move_data),
            outcome == old(self)@.move_outcome(player, move_data),
    {
        let in_turn = match self.current_player() {
            Some(current) => same_owner(&current, &player),
            None => false,
        };
        if !in_turn {
            return MoveOutcome::RejectedWrongTurn;
        }
        let outcome = match move_data.kind {
            MoveKind::Deploy { unit_type, position } => {
                let funds: u64 = match self.state.resources.get(&player) {
                    Some(amount) => amount,
                    None => 0,
                };
                let cost: u64 = unit_type.cost();
                if funds >= cost {
                    self.state.board.deploy(player, unit_type, position);
                    self.state.resources.insert(player, funds - cost);
                    MoveOutcome::Accepted
                } else {
                    MoveOutcome::RejectedInsufficientResources
                }
            },
            MoveKind::MoveUnit { from, to } => self.state.board.move_unit(player, from, to),
            MoveKind::Attack { from, target } => self.state.board.attack(player, from, target),
        };
        self.state.turn_index = self.state.turn_index + 1;
        if self.state.board.has_no_opponent_of(player) {
            self.resolve(GameResult::Victory { winner: player });
        }
        outcome
    }

    /// Handles an attack on the health pool of `from`.  Neither `from` nor
    /// the attacker that the payload names is checked against the players
    /// of the match.
    pub fn apply_attack(&mut self, from: Owner, attack: AttackPayload)
        ensures
            final(self)@ == old(self)@.attacked(from, attack),
    {
        let pool: u64 = match self.state.hp.get(&from) {
            Some(amount) => amount,
            None => 0,
        };
        if pool > attack.damage {
            self.state.hp.insert(from, pool - attack.damage);
        } else {
            self.state.hp.insert(from, 0);
            self.resolve(GameResult::Victory { winner: attack.attacker });
        }
    }

    /// Whether `player` takes part in the match.
    pub fn takes_part(&self, player: &Owner) -> (present: bool)
        ensures
            present == self@.players.contains(*player),
    {
        let mut i: usize = 0;
        while i < self.state.players.len()
            invariant
                i <= self.state.players@.len(),
                forall|j: int| 0 <= j < i ==> self.state.players@[j] != *player,
            decreases self.state.players@.len() - i,
        {
            if same_owner(&self.state.players[i], player) {
                return true;
            }
            i += 1;
        }
        false
    }

    /// Lets `player` join the match.  Joining twice is joining once.
    pub fn join(&mut self, player: Owner)
        ensures
            final(self)@ == old(self)@.joined(player),
    {
        if !self.takes_part(&player) {
            self.state.players.push(player);
            self.state.resources.insert(player, STARTING_RESOURCES);
            self.state.hp.insert(player, STARTING_HP);
        }
    }

    /// Sets up a match for the players of `argument`.
    pub fn instantiate(&mut self, argument: InstantiationArgument)
        ensures
            final(self)@ == old(self)@.instantiated(argument.players@, argument.seed),
    {
        let ghost resources = self.state.resources@;
        let ghost hp = self.state.hp@;
        let mut i: usize = 0;
        assert(argument.players@.take(0) =~= Seq::<Owner>::empty());
        assert(credited(resources, Seq::<Owner>::empty(), STARTING_RESOURCES) =~= resources);
        assert(credited(hp, Seq::<Owner>::empty(), STARTING_HP) =~= hp);
        while i < argument.players.len()
            invariant
                i <= argument.players@.len(),
                self.state.resources@ == credited(
                    resources,
                    argument.players@.take(i as int),
                    STARTING_RESOURCES,
                ),
                self.state.hp@ == credited(hp, argument.players@.take(i as int), STARTING_HP),
            decreases argument.players@.len() - i,
        {
            let player = argument.players[i];
            proof {
                lemma_credited_step(resources, argument.players@, i as int, STARTING_RESOURCES);
                lemma_credited_step(hp, argument.players@, i as int, STARTING_HP);
            }
            self.state.resources.insert(player, STARTING_RESOURCES);
            self.state.hp.insert(player, STARTING_HP);
            i += 1;
        }
        assert(argument.players@.take(i as int) =~= argument.players@);
        self.state.players = argument.players;
        self.state.turn_index = 0;
        self.state.seed = argument.seed;
        self.state.game_result = None;
        self.state.board = Board::new();
    }

    /// The message that `operation` sends on behalf of `signer`, the
    /// caller who submitted it.  Nothing is sent here, and the state is
    /// not read.
    pub fn execute_operation(&self, signer: Owner, operation: Operation) -> (outgoing:
        OutgoingMessage)
        ensures
            outgoing == dispatched(signer, operation),
    {
        match operation {
            Operation::RequestMatch { tournament_id, params } => OutgoingMessage {
                destination: tournament_id,
                message: Message::JoinGame { player: signer },
                authenticated: true,
            },
            Operation::MakeMove { game_chain, move_data } => OutgoingMessage {
                destination: game_chain,
                message: Message::MoveMessage { player: signer, move_data },
                authenticated: true,
            },
            Operation::Surrender { game_chain } => OutgoingMessage {
                destination: game_chain,
                message: Message::ResolveGame { result: GameResult::Surrender { loser: signer } },
                authenticated: false,
            },
        }
    }

    /// Receives `message` from another partition, and says what became of
    /// the move if it was one.
    pub fn execute_message(&mut self, message: Message) -> (outcome: Option<MoveOutcome>)
        requires
            old(self).can_execute_message(message),
        ensures
            final(self)@ == old(self)@.received(message),
            outcome == old(self)@.message_outcome(message),
    {
        match message {
            Message::JoinGame { player } => {
                self.join(player);
                None
            },
            Message::MoveMessage { player, move_data } => Some(self.apply_move(player, move_data)),
            Message::AttackMessage { from, to_chain, attack } => {
                self.apply_attack(from, attack);
                None
            },
            Message::ResolveGame { result } => {
                self.resolve(result);
                None
            },
        }
    }

    /// Ends the match with `result`, unless it has ended before.
    pub fn resolve(&mut self, result: GameResult)
        ensures
            final(self)@ == old(self)@.resolved(result),
    {
        if self.state.game_result.is_none() {
            self.state.game_result = Some(result);
        }
    }
}

} // verus!
