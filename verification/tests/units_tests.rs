use game_contract::{Board, MoveOutcome, Position, Unit, UnitType, BOARD_SIZE, MOVE_RANGE};
use linera_base::crypto::CryptoHash;
use linera_base::identifiers::Owner;

fn player(n: u64) -> Owner {
    Owner(CryptoHash::from([n, 0, 0, 0]))
}

fn at(x: u8, y: u8) -> Position {
    Position { x, y }
}

fn unit(owner: Owner, unit_type: UnitType, position: Position, hp: u64) -> Unit {
    Unit { owner, unit_type, position, hp }
}

#[test]
fn unit_table_is_exact() {
    let table = [
        (UnitType::Warrior, 20u64, 100u64, 20u64),
        (UnitType::Archer, 30, 60, 30),
        (UnitType::Mage, 40, 40, 50),
    ];
    for (unit_type, cost, max_hp, attack_power) in table {
        assert_eq!(unit_type.cost(), cost);
        assert_eq!(unit_type.max_hp(), max_hp);
        assert_eq!(unit_type.attack_power(), attack_power);
    }
}

#[test]
fn distance_is_symmetric() {
    let points = [at(0, 0), at(3, 4), at(255, 0), at(17, 200), at(255, 255)];
    for a in points {
        for b in points {
            assert_eq!(a.distance_to(b), b.distance_to(a));
        }
    }
}

#[test]
fn distance_obeys_triangle_inequality() {
    let points = [at(0, 0), at(3, 4), at(255, 0), at(17, 200), at(255, 255), at(9, 9)];
    for a in points {
        for b in points {
            for c in points {
                assert!(a.distance_to(c) <= a.distance_to(b) + b.distance_to(c));
            }
        }
    }
}

#[test]
fn distance_to_self_is_zero() {
    assert_eq!(at(7, 9).distance_to(at(7, 9)), 0);
    assert_eq!(at(255, 255).distance_to(at(255, 255)), 0);
}

#[test]
fn distance_does_not_wrap_beyond_a_byte() {
    assert_eq!(at(0, 0).distance_to(at(255, 1)), 256);
    assert_eq!(at(0, 0).distance_to(at(255, 255)), 510);
    assert_eq!(at(255, 0).distance_to(at(0, 255)), 510);
    assert_eq!(at(200, 10).distance_to(at(10, 200)), 380);
}

#[test]
fn constants_of_the_board() {
    assert_eq!(BOARD_SIZE, 10);
    assert_eq!(MOVE_RANGE, 2);
}

#[test]
fn board_deploy_appends_unit_with_full_health() {
    let a = player(1);
    let mut board = Board::new();
    board.deploy(a, UnitType::Archer, at(4, 4));
    board.deploy(a, UnitType::Mage, at(4, 4));
    assert_eq!(
        board.units,
        vec![unit(a, UnitType::Archer, at(4, 4), 60), unit(a, UnitType::Mage, at(4, 4), 40)]
    );
    assert_eq!(board.size, 10);
}

#[test]
fn find_unit_returns_first_match() {
    let a = player(1);
    let b = player(2);
    let board = Board {
        units: vec![
            unit(b, UnitType::Warrior, at(1, 1), 100),
            unit(a, UnitType::Mage, at(1, 1), 40),
            unit(a, UnitType::Archer, at(1, 1), 60),
            unit(a, UnitType::Archer, at(2, 2), 60),
        ],
        size: 10,
    };
    assert_eq!(board.find_unit(None, at(1, 1)), Some(0));
    assert_eq!(board.find_unit(Some(a), at(1, 1)), Some(1));
    assert_eq!(board.find_unit(Some(b), at(1, 1)), Some(0));
    assert_eq!(board.find_unit(Some(a), at(2, 2)), Some(3));
    assert_eq!(board.find_unit(Some(b), at(2, 2)), None);
    assert_eq!(board.find_unit(None, at(3, 3)), None);
    assert_eq!(Board::new().find_unit(None, at(0, 0)), None);
}

#[test]
fn move_unit_within_range() {
    let a = player(1);
    let mut board = Board { units: vec![unit(a, UnitType::Warrior, at(5, 5), 100)], size: 10 };
    assert_eq!(board.move_unit(a, at(5, 5), at(6, 6)), MoveOutcome::Accepted);
    assert_eq!(board.units, vec![unit(a, UnitType::Warrior, at(6, 6), 100)]);
    assert_eq!(board.move_unit(a, at(6, 6), at(6, 8)), MoveOutcome::Accepted);
    assert_eq!(board.units, vec![unit(a, UnitType::Warrior, at(6, 8), 100)]);
    assert_eq!(board.move_unit(a, at(6, 8), at(6, 8)), MoveOutcome::Accepted);
    assert_eq!(board.units, vec![unit(a, UnitType::Warrior, at(6, 8), 100)]);
}

#[test]
fn move_unit_out_of_range_is_rejected() {
    let a = player(1);
    let before = vec![unit(a, UnitType::Warrior, at(5, 5), 100)];
    let mut board = Board { units: before.clone(), size: 10 };
    assert_eq!(board.move_unit(a, at(5, 5), at(6, 7)), MoveOutcome::RejectedInvalidDistance);
    assert_eq!(board.units, before);
    assert_eq!(board.move_unit(a, at(5, 5), at(8, 5)), MoveOutcome::RejectedInvalidDistance);
    assert_eq!(board.units, before);
}

#[test]
fn move_unit_far_away_does_not_wrap_into_range() {
    let a = player(1);
    let before = vec![unit(a, UnitType::Warrior, at(0, 0), 100)];
    let mut board = Board { units: before.clone(), size: 10 };
    assert_eq!(board.move_unit(a, at(0, 0), at(255, 1)), MoveOutcome::RejectedInvalidDistance);
    assert_eq!(board.move_unit(a, at(0, 0), at(255, 2)), MoveOutcome::RejectedInvalidDistance);
    assert_eq!(board.units, before);
}

#[test]
fn move_unit_needs_own_unit_on_source() {
    let a = player(1);
    let b = player(2);
    let before = vec![unit(b, UnitType::Warrior, at(5, 5), 100)];
    let mut board = Board { units: before.clone(), size: 10 };
    assert_eq!(board.move_unit(a, at(5, 5), at(5, 6)), MoveOutcome::RejectedInvalidSource);
    assert_eq!(board.move_unit(b, at(4, 4), at(4, 5)), MoveOutcome::RejectedInvalidSource);
    assert_eq!(board.move_unit(a, at(5, 5), at(9, 9)), MoveOutcome::RejectedInvalidSource);
    assert_eq!(board.units, before);
}

#[test]
fn move_unit_takes_first_own_unit_on_square() {
    let a = player(1);
    let b = player(2);
    let mut board = Board {
        units: vec![
            unit(b, UnitType::Warrior, at(1, 1), 100),
            unit(a, UnitType::Mage, at(1, 1), 40),
            unit(a, UnitType::Archer, at(1, 1), 60),
        ],
        size: 10,
    };
    assert_eq!(board.move_unit(a, at(1, 1), at(1, 2)), MoveOutcome::Accepted);
    assert_eq!(
        board.units,
        vec![
            unit(b, UnitType::Warrior, at(1, 1), 100),
            unit(a, UnitType::Mage, at(1, 2), 40),
            unit(a, UnitType::Archer, at(1, 1), 60),
        ]
    );
}

#[test]
fn attack_subtracts_damage_when_target_survives() {
    let a = player(1);
    let b = player(2);
    let mut board = Board {
        units: vec![
            unit(a, UnitType::Archer, at(0, 0), 60),
            unit(b, UnitType::Warrior, at(9, 9), 100),
        ],
        size: 10,
    };
    assert_eq!(board.attack(a, at(0, 0), at(9, 9)), MoveOutcome::Accepted);
    assert_eq!(
        board.units,
        vec![unit(a, UnitType::Archer, at(0, 0), 60), unit(b, UnitType::Warrior, at(9, 9), 70)]
    );
}

#[test]
fn attack_removes_target_when_health_equals_damage() {
    let a = player(1);
    let b = player(2);
    let mut board = Board {
        units: vec![
            unit(b, UnitType::Warrior, at(9, 9), 30),
            unit(a, UnitType::Archer, at(0, 0), 60),
            unit(b, UnitType::Mage, at(3, 3), 40),
        ],
        size: 10,
    };
    assert_eq!(board.attack(a, at(0, 0), at(9, 9)), MoveOutcome::Accepted);
    assert_eq!(
        board.units,
        vec![unit(a, UnitType::Archer, at(0, 0), 60), unit(b, UnitType::Mage, at(3, 3), 40)]
    );
}

#[test]
fn attack_leaves_one_health_when_one_above_damage() {
    let a = player(1);
    let b = player(2);
    let mut board = Board {
        units: vec![
            unit(a, UnitType::Mage, at(0, 0), 40),
            unit(b, UnitType::Warrior, at(9, 9), 51),
        ],
        size: 10,
    };
    assert_eq!(board.attack(a, at(0, 0), at(9, 9)), MoveOutcome::Accepted);
    assert_eq!(board.units[1].hp, 1);
    assert_eq!(board.attack(a, at(0, 0), at(9, 9)), MoveOutcome::Accepted);
    assert_eq!(board.units, vec![unit(a, UnitType::Mage, at(0, 0), 40)]);
}

#[test]
fn attack_may_target_own_unit_and_itself() {
    let a = player(1);
    let mut board = Board {
        units: vec![
            unit(a, UnitType::Warrior, at(0, 0), 100),
            unit(a, UnitType::Mage, at(1, 1), 40),
        ],
        size: 10,
    };
    assert_eq!(board.attack(a, at(0, 0), at(1, 1)), MoveOutcome::Accepted);
    assert_eq!(board.units[1].hp, 20);
    assert_eq!(board.attack(a, at(0, 0), at(0, 0)), MoveOutcome::Accepted);
    assert_eq!(board.units[0].hp, 80);
    assert_eq!(board.attack(a, at(1, 1), at(1, 1)), MoveOutcome::Accepted);
    assert_eq!(board.units, vec![unit(a, UnitType::Warrior, at(0, 0), 80)]);
}

#[test]
fn attack_without_attacker_or_target_changes_nothing() {
    let a = player(1);
    let b = player(2);
    let before = vec![
        unit(a, UnitType::Archer, at(0, 0), 60),
        unit(b, UnitType::Warrior, at(9, 9), 100),
    ];
    let mut board = Board { units: before.clone(), size: 10 };
    assert_eq!(board.attack(a, at(9, 9), at(0, 0)), MoveOutcome::RejectedInvalidSource);
    assert_eq!(board.attack(a, at(5, 5), at(6, 6)), MoveOutcome::RejectedInvalidSource);
    assert_eq!(board.attack(a, at(0, 0), at(6, 6)), MoveOutcome::RejectedInvalidTarget);
    assert_eq!(board.units, before);
}

#[test]
fn attack_hits_first_unit_on_target_square() {
    let a = player(1);
    let b = player(2);
    let mut board = Board {
        units: vec![
            unit(a, UnitType::Warrior, at(0, 0), 100),
            unit(b, UnitType::Mage, at(4, 4), 40),
            unit(b, UnitType::Archer, at(4, 4), 60),
        ],
        size: 10,
    };
    assert_eq!(board.attack(a, at(0, 0), at(4, 4)), MoveOutcome::Accepted);
    assert_eq!(board.units[1].hp, 20);
    assert_eq!(board.units[2].hp, 60);
    assert_eq!(board.attack(a, at(0, 0), at(4, 4)), MoveOutcome::Accepted);
    assert_eq!(
        board.units,
        vec![unit(a, UnitType::Warrior, at(0, 0), 100), unit(b, UnitType::Archer, at(4, 4), 60)]
    );
}

#[test]
fn has_no_opponent_of_checks_every_unit() {
    let a = player(1);
    let b = player(2);
    assert!(Board::new().has_no_opponent_of(a));
    let own = Board { units: vec![unit(a, UnitType::Mage, at(0, 0), 40)], size: 10 };
    assert!(own.has_no_opponent_of(a));
    assert!(!own.has_no_opponent_of(b));
    let mixed = Board {
        units: vec![unit(a, UnitType::Mage, at(0, 0), 40), unit(b, UnitType::Mage, at(0, 0), 40)],
        size: 10,
    };
    assert!(!mixed.has_no_opponent_of(a));
    assert!(!mixed.has_no_opponent_of(b));
}
