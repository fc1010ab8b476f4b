//! Unit types with their fixed table of cost, health and attack power,
//! board positions with the Manhattan metric, and units themselves.

use linera_base::identifiers::Owner;
use vstd::prelude::*;



verus! {

/// The three kinds of unit a player can deploy.
#[derive(Clone, Copy, Debug, PartialEq, Eq, Structural)]
pub enum UnitType {
    Warrior,
    Archer,
    Mage,
}

impl UnitType {
    /// Resources a player pays to deploy a unit of this type.
    pub open spec fn spec_cost(&self) -> u64 {
        match self {
            UnitType::Warrior => 20,
            UnitType::Archer => 30,
            UnitType::Mage => 40,
        }
    }

    /// Hit points a unit of this type starts with.
    pub open spec fn spec_max_hp(&self) -> u64 {
        match self {
            UnitType::Warrior => 100,
            UnitType::Archer => 60,
            UnitType::Mage => 40,
        }
    }

    /// Damage a unit of this type deals with one attack.
    pub open spec fn spec_attack_power(&self) -> u64 {
        match self {
            UnitType::Warrior => 20,
            UnitType::Archer => 30,
            UnitType::Mage => 50,
        }
    }

    /// Resources a player pays to deploy a unit of this type: 20 for a
    /// warrior, 30 for an archer, 40 for a mage.
    #[verifier::when_used_as_spec(spec_cost)]
    pub fn cost(&self) -> (c: u64)
        ensures
            c == self.spec_cost(),
    {
        match self {
            UnitType::Warrior => 20,
            UnitType::Archer => 30,
            UnitType::Mage => 40,
        }
    }

    /// Hit points a unit of this type starts with: 100 for a warrior, 60
    /// for an archer, 40 for a mage.
    #[verifier::when_used_as_spec(spec_max_hp)]
    pub fn max_hp(&self) -> (h: u64)
        ensures
            h == self.spec_max_hp(),
    {
        match self {
            UnitType::Warrior => 100,
            UnitType::Archer => 60,
            UnitType::Mage => 40,
        }
    }

    /// Damage a unit of this type deals with one attack: 20 for a warrior,
    /// 30 for an archer, 50 for a mage.
    #[verifier::when_used_as_spec(spec_attack_power)]
    pub fn attack_power(&self) -> (p: u64)
        ensures
            p == self.spec_attack_power(),
    {
        match self {
            UnitType::Warrior => 20,
            UnitType::Archer => 30,
            UnitType::Mage => 50,
        }
    }
}

/// The distance between two coordinates on one axis.
pub open spec fn axis_distance(a: int, b: int) -> int {
    if a >= b {
        a - b
    } else {
        b - a
    }
}

/// A square of the board.  Coordinates are not held to the board's size.
#[derive(Clone, Copy, Debug, PartialEq, Eq, Structural)]
pub struct Position {
    pub x: u8,
    pub y: u8,
}

impl Position {
    /// The Manhattan distance `|dx| + |dy|` between two positions.
    pub open spec fn manhattan(self, other: Position) -> int {
        axis_distance(self.x as int, other.x as int) + axis_distance(self.y as int, other.y as int)
    }

    /// The Manhattan distance to `other`.  It can reach 510, so it is
    /// returned in sixteen bits.
    pub fn distance_to(&self, other: Position) -> (d: u16)
        ensures
            d == self.manhattan(other),
    {
        let dx: u8 = if self.x >= other.x {
            self.x - other.x
        } else {
            other.x - self.x
        };
        let dy: u8 = if self.y >= other.y {
            self.y - other.y
        } else {
            other.y - self.y
        };
        dx as u16 + dy as u16
    }
}

/// Distance does not depend on the direction in which it is measured.
pub proof fn lemma_distance_symmetric(a: Position, b: Position)
    ensures
        a.manhattan(b) == b.manhattan(a),
{
}

/// Going from `a` to `c` directly is never longer than going through `b`.
pub proof fn lemma_distance_triangle(a: Position, b: Position, c: Position)
    ensures
        a.manhattan(c) <= a.manhattan(b) + b.manhattan(c),
{
}

/// Distance is never negative, and it is zero exactly between a position
/// and itself.
pub proof fn lemma_distance_zero(a: Position, b: Position)
    ensures
        a.manhattan(b) >= 0,
        a.manhattan(b) == 0 <==> a == b,
{
}

/// A unit on the board.  Its `hp` is its own health, apart from its
/// owner's health pool.
#[derive(Clone, Copy, Debug, PartialEq, Eq)]
pub struct Unit {
    pub owner: Owner,
    pub unit_type: UnitType,
    pub position: Position,
    pub hp: u64,
}

} // verus!
