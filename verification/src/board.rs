//! The board: the units on it in the order in which they were deployed,
//! and what a move does to them.
//!
//! Several units may stand on one square.  Wherever a rule speaks of "the
//! unit on a square", it means the one that was deployed first.

use linera_base::identifiers::Owner;
use vstd::prelude::*;

use crate::identity::same_owner;
use crate::messages::MoveOutcome;
use crate::units::{Position, Unit, UnitType};

verus! {

/// The side length every board is created with.
pub const BOARD_SIZE: u8 = 10;

/// The farthest a unit can move at once, in Manhattan distance.
pub const MOVE_RANGE: u16 = 2;

/// The board of one match.
#[derive(Clone, Debug, PartialEq, Eq)]
pub struct Board {
    pub units: Vec<Unit>,
    pub size: u8,
}

/// A board as a mathematical value.
#[verifier::ext_equal]
pub struct BoardView {
    pub units: Seq<Unit>,
    pub size: u8,
}

impl View for Board {
    type V = BoardView;

    open spec fn view(&self) -> BoardView {
        BoardView { units: self.units@, size: self.size }
    }
}

/// `unit` stands on `position` and, where `owner` names a player, belongs
/// to that player.
pub open spec fn unit_matches(unit: Unit, owner: Option<Owner>, position: Position) -> bool {
    unit.position == position && (owner matches Some(p) ==> unit.owner == p)
}

/// The index of the first unit at or after `start` that matches, if any.
pub open spec fn find_unit_from(
    units: Seq<Unit>,
    owner: Option<Owner>,
    position: Position,
    start: int,
) -> Option<int>
    decreases units.len() - start,
{
    if start < 0 || start >= units.len() {
        None
    } else if unit_matches(units[start], owner, position) {
        Some(start)
    } else {
        find_unit_from(units, owner, position, start + 1)
    }
}

/// The index of the first unit on `position`, among those of `owner` where
/// one is named.
pub open spec fn find_unit(units: Seq<Unit>, owner: Option<Owner>, position: Position) -> Option<
    int,
> {
    find_unit_from(units, owner, position, 0)
}

/// What `find_unit_from` finds is the first match from `start` on; where it
/// finds nothing, nothing from `start` on matches.
pub proof fn lemma_find_unit_from(
    units: Seq<Unit>,
    owner: Option<Owner>,
    position: Position,
    start: int,
)
    requires
        0 <= start <= units.len(),
    ensures
        match find_unit_from(units, owner, position, start) {
            Some(i) => {
                &&& start <= i < units.len()
                &&& unit_matches(units[i], owner, position)
                &&& forall|j: int| start <= j < i ==> !unit_matches(units[j], owner, position)
            },
            None => forall|j: int|
                start <= j < units.len() ==> !unit_matches(units[j], owner, position),
        },
    decreases units.len() - start,
{
    if start < units.len() && !unit_matches(units[start], owner, position) {
        lemma_find_unit_from(units, owner, position, start + 1);
    }
}

impl BoardView {
    /// The board has the size it was created with, and every unit on it is
    /// alive.
    pub open spec fn wf(self) -> bool {
        &&& self.size == BOARD_SIZE
        &&& forall|i: int| 0 <= i < self.units.len() ==> (#[trigger] self.units[i]).hp > 0
    }

    /// The board after `player` has deployed a fresh unit of `unit_type`
    /// on `position`.
    pub open spec fn deployed(
        self,
        player: Owner,
        unit_type: UnitType,
        position: Position,
    ) -> BoardView {
        BoardView {
            units: self.units.push(
                Unit { owner: player, unit_type, position, hp: unit_type.spec_max_hp() },
            ),
            ..self
        }
    }

    /// Whether `player` can move a unit from `from` to `to`, and if not,
    /// why not.
    pub open spec fn relocation_outcome(
        self,
        player: Owner,
        from: Position,
        to: Position,
    ) -> MoveOutcome {
        if find_unit(self.units, Some(player), from) is None {
            MoveOutcome::RejectedInvalidSource
        } else if from.manhattan(to) > MOVE_RANGE {
            MoveOutcome::RejectedInvalidDistance
        } else {
            MoveOutcome::Accepted
        }
    }

    /// The board after `player` has asked to move a unit from `from` to
    /// `to`: the player's first unit on `from` stands on `to` if that is
    /// within range, and nothing has changed otherwise.
    pub open spec fn relocated(self, player: Owner, from: Position, to: Position) -> BoardView {
        match find_unit(self.units, Some(player), from) {
            Some(i) if from.manhattan(to) <= MOVE_RANGE => BoardView {
                units: self.units.update(i, Unit { position: to, ..self.units[i] }),
                ..self
            },
            _ => self,
        }
    }

    /// Whether `player` can attack `target` from `from`, and if not, why
    /// not.
    pub open spec fn strike_outcome(
        self,
        player: Owner,
        from: Position,
        target: Position,
    ) -> MoveOutcome {
        if find_unit(self.units, Some(player), from) is None {
            MoveOutcome::RejectedInvalidSource
        } else if find_unit(self.units, None, target) is None {
            MoveOutcome::RejectedInvalidTarget
        } else {
            MoveOutcome::Accepted
        }
    }

    /// The board after `player` has asked to attack `target` from `from`.
    /// The attacker is the player's first unit on `from`, the target the
    /// first unit on `target`, whoever owns it.  A target with more health
    /// than the attacker's power loses that much; any other target leaves
    /// the board.  Without attacker or target nothing changes.
    pub open spec fn struck(self, player: Owner, from: Position, target: Position) -> BoardView {
        match (find_unit(self.units, Some(player), from), find_unit(self.units, None, target)) {
            (Some(a), Some(t)) => {
                let damage = self.units[a].unit_type.spec_attack_power();
                if self.units[t].hp > damage {
                    BoardView {
                        units: self.units.update(
                            t,
                            Unit { hp: (self.units[t].hp - damage) as u64, ..self.units[t] },
                        ),
                        ..self
                    }
                } else {
                    BoardView { units: self.units.remove(t), ..self }
                }
            },
            _ => self,
        }
    }

    /// No unit on the board belongs to anyone but `player`.
    pub open spec fn has_no_opponent_of(self, player: Owner) -> bool {
        forall|i: int| 0 <= i < self.units.len() ==> (#[trigger] self.units[i]).owner == player
    }
}

impl Board {
    /// An empty board of the fixed size.
    pub fn new() -> (board: Board)
        ensures
            board@ == (BoardView { units: Seq::empty(), size: BOARD_SIZE }),
    {
        Board { units: Vec::new(), size: BOARD_SIZE }
    }

    /// The index of the first unit on `position`, among those of `owner`
    /// where one is named.
    pub fn find_unit(&self, owner: Option<Owner>, position: Position) -> (found: Option<usize>)
        ensures
            match found {
                Some(i) => i < self.units.len() && find_unit(self@.units, owner, position) == Some(
                    i as int,
                ),
                None => find_unit(self@.units, owner, position) is None,
            },
    {
        let mut i: usize = 0;
        while i < self.units.len()
            invariant
                i <= self.units@.len(),
                find_unit(self@.units, owner, position) == find_unit_from(
                    self@.units,
                    owner,
                    position,
                    i as int,
                ),
            decreases self.units@.len() - i,
        {
            let unit = self.units[i];
            let owned = match owner {
                Some(p) => same_owner(&unit.owner, &p),
                None => true,
            };
            if owned && unit.position == position {
                return Some(i);
            }
            i += 1;
        }
        None
    }

    /// Puts a fresh unit of `unit_type`, owned by `player`, on `position`.
    pub fn deploy(&mut self, player: Owner, unit_type: UnitType, position: Position)
        ensures
            final(self)@ == old(self)@.deployed(player, unit_type, position),
    {
        self.units.push(Unit { owner: player, unit_type, position, hp: unit_type.max_hp() });
    }

    /// Moves the first unit of `player` on `from` to `to`, if there is one
    /// and `to` is within range.
    pub fn move_unit(&mut self, player: Owner, from: Position, to: Position) -> (outcome:
        MoveOutcome)
        ensures
            final(self)@ == old(self)@.relocated(player, from, to),
            outcome == old(self)@.relocation_outcome(player, from, to),
    {
        match self.find_unit(Some(player), from) {
            None => MoveOutcome::RejectedInvalidSource,
            Some(i) => {
                if from.distance_to(to) <= MOVE_RANGE {
                    let mut unit = self.units[i];
                    unit.position = to;
                    self.units.set(i, unit);
                    MoveOutcome::Accepted
                } else {
                    MoveOutcome::RejectedInvalidDistance
                }
            },
        }
    }

    /// Strikes the first unit on `target` with the first unit of `player`
    /// on `from`, if both are there.
    pub fn attack(&mut self, player: Owner, from: Position, target: Position) -> (outcome:
        MoveOutcome)
        ensures
            final(self)@ == old(self)@.struck(player, from, target),
            outcome == old(self)@.strike_outcome(player, from, target),
    {
        let attacker = self.find_unit(Some(player), from);
        let victim = self.find_unit(None, target);
        match (attacker, victim) {
            (None, _) => MoveOutcome::RejectedInvalidSource,
            (Some(_), None) => MoveOutcome::RejectedInvalidTarget,
            (Some(a), Some(t)) => {
                let damage: u64 = self.units[a].unit_type.attack_power();
                let mut unit = self.units[t];
                if unit.hp > damage {
                    unit.hp = unit.hp - damage;
                    self.units.set(t, unit);
                } else {
                    self.units.remove(t);
                }
                MoveOutcome::Accepted
            },
        }
    }

    /// Whether no unit on the board belongs to anyone but `player`.
    pub fn has_no_opponent_of(&self, player: Owner) -> (none: bool)
        ensures
            none == self@.has_no_opponent_of(player),
    {
        let mut i: usize = 0;
        while i < self.units.len()
            invariant
                i <= self.units@.len(),
                forall|j: int| 0 <= j < i ==> (#[trigger] self.units@[j]).owner == player,
            decreases self.units@.len() - i,
        {
            if !same_owner(&self.units[i].owner, &player) {
                return false;
            }
            i += 1;
        }
        true
    }
}

} // verus!
