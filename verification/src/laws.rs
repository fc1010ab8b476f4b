//! What holds of the rules whatever the state and whatever arrives.

use linera_base::identifiers::{ChainId, Owner};
use vstd::prelude::*;

use crate::board::{find_unit, lemma_find_unit_from, BoardView, BOARD_SIZE};
use crate::contract::dispatched;
use crate::messages::{
    AttackPayload, GameResult, Message, Move, MoveKind, MoveOutcome, Operation,
};
use crate::state::{balance_of, GameStateView, STARTING_HP, STARTING_RESOURCES};
use crate::units::{Position, Unit, UnitType};

verus! {

/// A unit that is found is on the board, stands on the square that was
/// asked for, and belongs to the owner that was asked for; no unit before
/// it does.  Where none is found, no unit on the board does.
pub proof fn lemma_find_unit(units: Seq<Unit>, owner: Option<Owner>, position: Position)
    ensures
        match find_unit(units, owner, position) {
            Some(i) => {
                &&& 0 <= i < units.len()
                &&& units[i].position == position
                &&& owner matches Some(p) ==> units[i].owner == p
                &&& forall|j: int|
                    0 <= j < i ==> !(units[j].position == position && (owner matches Some(p)
                        ==> units[j].owner == p))
            },
            None => forall|j: int|
                0 <= j < units.len() ==> !(units[j].position == position && (owner matches Some(p)
                    ==> units[j].owner == p)),
        },
{
    lemma_find_unit_from(units, owner, position, 0);
}

/// A deployed unit is alive, so deploying keeps the board well formed.
pub proof fn lemma_deployed_wf(
    board: BoardView,
    player: Owner,
    unit_type: UnitType,
    position: Position,
)
    requires
        board.wf(),
    ensures
        board.deployed(player, unit_type, position).wf(),
{
}

/// Moving a unit changes nobody's health and no owner, and neither adds
/// nor removes a unit.
pub proof fn lemma_relocated(board: BoardView, player: Owner, from: Position, to: Position)
    ensures
        board.relocated(player, from, to).size == board.size,
        board.relocated(player, from, to).units.len() == board.units.len(),
        forall|i: int|
            0 <= i < board.units.len() ==> {
                let before = #[trigger] board.units[i];
                let after = board.relocated(player, from, to).units[i];
                after.owner == before.owner && after.unit_type == before.unit_type && after.hp
                    == before.hp
            },
        board.wf() ==> board.relocated(player, from, to).wf(),
{
    lemma_find_unit_from(board.units, Some(player), from, 0);
}

/// An attack never leaves a unit without health on the board: the target
/// keeps more than nothing or is gone.
pub proof fn lemma_struck_wf(board: BoardView, player: Owner, from: Position, target: Position)
    requires
        board.wf(),
    ensures
        board.struck(player, from, target).wf(),
{
    let after = board.struck(player, from, target);
    lemma_find_unit_from(board.units, Some(player), from, 0);
    lemma_find_unit_from(board.units, None, target, 0);
    assert forall|i: int| 0 <= i < after.units.len() implies (#[trigger] after.units[i]).hp
        > 0 by {
        match (find_unit(board.units, Some(player), from), find_unit(board.units, None, target)) {
            (Some(a), Some(t)) => {
                let damage = board.units[a].unit_type.spec_attack_power();
                if board.units[t].hp > damage {
                    if i != t {
                        assert(after.units[i] == board.units[i]);
                    }
                } else {
                    if i < t {
                        assert(after.units[i] == board.units[i]);
                    } else {
                        assert(after.units[i] == board.units[i + 1]);
                    }
                }
            },
            _ => {},
        }
    }
}

/// A match that was just set up is well formed, at turn zero and without
/// a result; each of its players holds the starting resources and health.
pub proof fn lemma_instantiated(state: GameStateView, players: Seq<Owner>, seed: u64)
    ensures
        state.instantiated(players, seed).wf(),
        state.instantiated(players, seed).players == players,
        state.instantiated(players, seed).turn_index == 0,
        state.instantiated(players, seed).seed == seed,
        state.instantiated(players, seed).board.units.len() == 0,
        state.instantiated(players, seed).board.size == BOARD_SIZE,
        state.instantiated(players, seed).game_result is None,
        forall|i: int|
            0 <= i < players.len() ==> {
                &&& balance_of(state.instantiated(players, seed).resources, #[trigger] players[i])
                    == STARTING_RESOURCES
                &&& balance_of(state.instantiated(players, seed).hp, players[i]) == STARTING_HP
            },
{
}

/// Whatever message arrives, a well-formed state stays well formed: the
/// board keeps its size and every unit on it is alive.
pub proof fn lemma_received_preserves_wf(state: GameStateView, message: Message)
    requires
        state.wf(),
    ensures
        state.received(message).wf(),
{
    match message {
        Message::MoveMessage { player, move_data } => {
            match move_data.kind {
                MoveKind::Deploy { unit_type, position } => {
                    lemma_deployed_wf(state.board, player, unit_type, position);
                },
                MoveKind::MoveUnit { from, to } => {
                    lemma_relocated(state.board, player, from, to);
                },
                MoveKind::Attack { from, target } => {
                    lemma_struck_wf(state.board, player, from, target);
                },
            }
        },
        _ => {},
    }
}

/// The size of the board never changes.
pub proof fn lemma_board_size_fixed(state: GameStateView, message: Message)
    ensures
        state.received(message).board.size == state.board.size,
{
}

/// A move out of turn changes nothing, and the submitter is told so.
pub proof fn lemma_wrong_turn_changes_nothing(
    state: GameStateView,
    player: Owner,
    move_data: Move,
)
    requires
        !state.is_turn_of(player),
    ensures
        state.moved(player, move_data) == state,
        state.move_outcome(player, move_data) == MoveOutcome::RejectedWrongTurn,
{
}

/// A move in turn uses up the turn, whether or not it took effect: the
/// turn counter goes up by exactly one and the players stay as they are.
pub proof fn lemma_move_in_turn_passes_turn(
    state: GameStateView,
    player: Owner,
    move_data: Move,
)
    requires
        state.is_turn_of(player),
    ensures
        state.moved(player, move_data).turn_index == state.turn_index + 1,
        state.moved(player, move_data).players == state.players,
        state.move_outcome(player, move_data) != MoveOutcome::RejectedWrongTurn,
{
}

/// A move in turn that did not take effect leaves board and resources as
/// they were.
pub proof fn lemma_rejected_move_keeps_board(
    state: GameStateView,
    player: Owner,
    move_data: Move,
)
    requires
        state.move_outcome(player, move_data) != MoveOutcome::Accepted,
    ensures
        state.moved(player, move_data).board == state.board,
        state.moved(player, move_data).resources == state.resources,
        state.moved(player, move_data).hp == state.hp,
{
    match move_data.kind {
        MoveKind::MoveUnit { from, to } => {
            lemma_find_unit_from(state.board.units, Some(player), from, 0);
        },
        _ => {},
    }
}

/// A deploy that took effect costs the player exactly the price of the
/// unit and puts one unit with full health at the end of the board; no
/// move touches anybody's health pool.
pub proof fn lemma_deploy_accounting(
    state: GameStateView,
    player: Owner,
    unit_type: UnitType,
    position: Position,
)
    requires
        state.is_turn_of(player),
        balance_of(state.resources, player) >= unit_type.spec_cost(),
    ensures
        ({
            let after = state.moved(
                player,
                Move { kind: MoveKind::Deploy { unit_type, position } },
            );
            &&& balance_of(after.resources, player) == balance_of(state.resources, player)
                - unit_type.spec_cost()
            &&& forall|other: Owner|
                other != player ==> balance_of(after.resources, other) == balance_of(
                    state.resources,
                    other,
                )
            &&& after.hp == state.hp
            &&& after.board.units == state.board.units.push(
                Unit { owner: player, unit_type, position, hp: unit_type.spec_max_hp() },
            )
        }),
{
}

/// The turn counter never goes down and never skips: a message moves it
/// by one or leaves it.  Only a move in turn moves it.
pub proof fn lemma_turn_index_steps(state: GameStateView, message: Message)
    ensures
        state.received(message).turn_index == state.turn_index || state.received(
            message,
        ).turn_index == state.turn_index + 1,
        state.received(message).turn_index == state.turn_index + 1 <==> (message matches Message::MoveMessage {
            player,
            ..
        } && state.is_turn_of(player)),
{
}

/// Players are only ever added at the end of the list: those who take
/// part keep their places, so nobody leaves and the order of turns among
/// them stays.
pub proof fn lemma_players_append_only(state: GameStateView, message: Message)
    ensures
        state.players.is_prefix_of(state.received(message).players),
        state.players.len() > 0 ==> state.received(message).players.len() > 0,
{
}

/// The seed of a match never changes.
pub proof fn lemma_seed_fixed(state: GameStateView, message: Message)
    ensures
        state.received(message).seed == state.seed,
{
}

/// Once a result is set it is final: no message replaces it.
pub proof fn lemma_result_is_final(state: GameStateView, message: Message)
    requires
        state.game_result is Some,
    ensures
        state.received(message).game_result == state.game_result,
{
}

/// A player who leaves no unit of anybody else on the board with a move
/// in turn wins, unless the match had a result already.
pub proof fn lemma_elimination_wins(state: GameStateView, player: Owner, move_data: Move)
    requires
        state.is_turn_of(player),
        state.moved(player, move_data).board.has_no_opponent_of(player),
    ensures
        state.moved(player, move_data).game_result == if state.game_result is Some {
            state.game_result
        } else {
            Some(GameResult::Victory { winner: player })
        },
{
}

/// A move in turn that leaves a unit of somebody else on the board does
/// not touch the result.
pub proof fn lemma_no_elimination_no_result(
    state: GameStateView,
    player: Owner,
    move_data: Move,
)
    requires
        !state.moved(player, move_data).board.has_no_opponent_of(player),
    ensures
        state.moved(player, move_data).game_result == state.game_result,
{
}

/// An attack on a health pool takes the damage off it and stops at zero;
/// the attacker named in the payload wins exactly when the pool is empty
/// afterwards, unless the match had a result already.  Nothing else
/// changes.
pub proof fn lemma_pool_attack(state: GameStateView, from: Owner, attack: AttackPayload)
    ensures
        ({
            let after = state.attacked(from, attack);
            let pool = balance_of(state.hp, from);
            &&& balance_of(after.hp, from) == if pool > attack.damage {
                pool - attack.damage
            } else {
                0
            }
            &&& forall|other: Owner|
                other != from ==> balance_of(after.hp, other) == balance_of(state.hp, other)
            &&& after.game_result == if state.game_result is None && pool <= attack.damage {
                Some(GameResult::Victory { winner: attack.attacker })
            } else {
                state.game_result
            }
            &&& after.players == state.players
            &&& after.turn_index == state.turn_index
            &&& after.board == state.board
            &&& after.resources == state.resources
        }),
{
}

/// Joining is idempotent: a player who takes part already joins without
/// any effect, so a join that arrives twice counts once.
pub proof fn lemma_join_idempotent(state: GameStateView, player: Owner)
    ensures
        state.players.contains(player) ==> state.joined(player) == state,
        state.joined(player).players.contains(player),
        state.joined(player).joined(player) == state.joined(player),
{
    if !state.players.contains(player) {
        let longer = state.players.push(player);
        assert(longer[state.players.len() as int] == player);
    }
}

/// A player who joins for the first time goes to the end of the list with
/// the starting resources and health.
pub proof fn lemma_first_join(state: GameStateView, player: Owner)
    requires
        !state.players.contains(player),
    ensures
        state.joined(player).players == state.players.push(player),
        balance_of(state.joined(player).resources, player) == STARTING_RESOURCES,
        balance_of(state.joined(player).hp, player) == STARTING_HP,
{
}

/// Resolving is idempotent: a result that arrives twice counts once.
pub proof fn lemma_resolve_idempotent(state: GameStateView, result: GameResult)
    ensures
        state.resolved(result).game_result is Some,
        state.resolved(result).resolved(result) == state.resolved(result),
{
}

/// Players who are told apart stay told apart: nobody gets into the list
/// twice by joining.
pub proof fn lemma_players_stay_distinct(state: GameStateView, message: Message)
    requires
        state.players.no_duplicates(),
    ensures
        state.received(message).players.no_duplicates(),
{
}

/// A match that was just set up has balances on record for each of its
/// players, and no message takes a balance off the record.
pub proof fn lemma_players_keep_balances(state: GameStateView, message: Message)
    requires
        state.players_have_balances(),
    ensures
        state.received(message).players_have_balances(),
        forall|p: Owner|
            state.resources.dom().contains(p) ==> state.received(message).resources.dom().contains(
                p,
            ),
        forall|p: Owner| state.hp.dom().contains(p) ==> state.received(message).hp.dom().contains(p),
{
    let after = state.received(message);
    assert forall|i: int| 0 <= i < after.players.len() implies after.resources.dom().contains(
        #[trigger] after.players[i],
    ) && after.hp.dom().contains(after.players[i]) by {
        if i < state.players.len() {
            assert(after.players[i] == state.players[i]);
        }
    }
}

/// See [`lemma_players_keep_balances`].
pub proof fn lemma_instantiated_players_have_balances(
    state: GameStateView,
    players: Seq<Owner>,
    seed: u64,
)
    ensures
        state.instantiated(players, seed).players_have_balances(),
{
}

/// What no history of messages changes: a well-formed state stays well
/// formed, the board keeps its size, the seed stays, the players of the
/// start keep their places, a result that was set stays, and the turn
/// counter goes up by at most one for each message and never down.
pub proof fn lemma_history(state: GameStateView, messages: Seq<Message>)
    ensures
        state.wf() ==> state.received_all(messages).wf(),
        state.received_all(messages).board.size == state.board.size,
        state.received_all(messages).seed == state.seed,
        state.players.is_prefix_of(state.received_all(messages).players),
        state.players.no_duplicates() ==> state.received_all(messages).players.no_duplicates(),
        state.players_have_balances() ==> state.received_all(messages).players_have_balances(),
        state.game_result is Some ==> state.received_all(messages).game_result
            == state.game_result,
        state.turn_index <= state.received_all(messages).turn_index <= state.turn_index
            + messages.len(),
    decreases messages.len(),
{
    if messages.len() > 0 {
        let earlier = state.received_all(messages.drop_last());
        let last = messages.last();
        lemma_history(state, messages.drop_last());
        if earlier.wf() {
            lemma_received_preserves_wf(earlier, last);
        }
        lemma_board_size_fixed(earlier, last);
        lemma_seed_fixed(earlier, last);
        lemma_players_append_only(earlier, last);
        if earlier.players.no_duplicates() {
            lemma_players_stay_distinct(earlier, last);
        }
        if earlier.players_have_balances() {
            lemma_players_keep_balances(earlier, last);
        }
        if earlier.game_result is Some {
            lemma_result_is_final(earlier, last);
        }
        lemma_turn_index_steps(earlier, last);
    }
}

/// Every state that a match can get into is well formed: set up for any
/// players and driven by any messages whatever, the board has its size,
/// every unit on it is alive, and every player has balances on record.
pub proof fn lemma_reachable_states(
    start: GameStateView,
    players: Seq<Owner>,
    seed: u64,
    messages: Seq<Message>,
)
    ensures
        start.instantiated(players, seed).received_all(messages).wf(),
        start.instantiated(players, seed).received_all(messages).players_have_balances(),
        start.instantiated(players, seed).received_all(messages).seed == seed,
        players.is_prefix_of(start.instantiated(players, seed).received_all(messages).players),
        players.len() > 0 ==> start.instantiated(players, seed).received_all(
            messages,
        ).players.len() > 0,
        start.instantiated(players, seed).received_all(messages).turn_index <= messages.len(),
{
    lemma_instantiated(start, players, seed);
    lemma_instantiated_players_have_balances(start, players, seed);
    lemma_history(start.instantiated(players, seed), messages);
}

/// Whatever a caller submits, the message that goes out names the caller
/// and nobody else: as the player who joins, who moves, or who gives up.
/// It goes to the partition that the operation names, and carries the move
/// of the operation unchanged.
pub proof fn lemma_dispatched_names_signer(signer: Owner, operation: Operation)
    ensures
        match operation {
            Operation::RequestMatch { tournament_id, .. } => {
                &&& dispatched(signer, operation).destination == tournament_id
                &&& dispatched(signer, operation).message == (Message::JoinGame { player: signer })
            },
            Operation::MakeMove { game_chain, move_data } => {
                &&& dispatched(signer, operation).destination == game_chain
                &&& dispatched(signer, operation).message == (Message::MoveMessage {
                    player: signer,
                    move_data,
                })
            },
            Operation::Surrender { game_chain } => {
                &&& dispatched(signer, operation).destination == game_chain
                &&& dispatched(signer, operation).message == (Message::ResolveGame {
                    result: GameResult::Surrender { loser: signer },
                })
            },
        },
        !(dispatched(signer, operation).message is AttackMessage),
{
}

/// A player who gives up loses, if the match has not ended before: what
/// their surrender sends sets the result when it arrives, and changes
/// nothing else.
pub proof fn lemma_surrender_arrives(
    state: GameStateView,
    signer: Owner,
    game_chain: ChainId,
)
    ensures
        ({
            let sent = dispatched(signer, Operation::Surrender { game_chain }).message;
            &&& state.received(sent).game_result == if state.game_result is Some {
                state.game_result
            } else {
                Some(GameResult::Surrender { loser: signer })
            }
            &&& state.received(sent) == (GameStateView {
                game_result: state.received(sent).game_result,
                ..state
            })
        }),
{
}

} // verus!
