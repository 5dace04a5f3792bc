use solarance::identity::Identity;
use solarance::ships::{ItemVolume, ShipCargoItem, ShipStatus};
use solarance::stellar::{same_sector_from_ids, StellarObject, StellarObjectControllerTurnLeft, StellarObjectKinds};

fn status(id: u64, used: u16, max: u16) -> ShipStatus {
    ShipStatus {
        id,
        sector_id: 1,
        player_id: Identity::from_halves(0, 1),
        weapon_cooldown_ms: 0,
        missile_cooldown_ms: 0,
        used_cargo_capacity: used,
        max_cargo_capacity: max,
    }
}

fn item(ship_id: u64, item_id: u32, quantity: u16) -> ShipCargoItem {
    ShipCargoItem { id: 0, ship_id, item_id, quantity }
}

#[test]
fn remaining_cargo_space() {
    assert_eq!(status(1, 30, 100).get_remaining_cargo_space(), 70);
    assert_eq!(status(1, 100, 100).get_remaining_cargo_space(), 0);
}

#[test]
fn used_cargo_counts_known_items_of_this_ship() {
    let volumes = vec![
        ItemVolume { item_id: 1, volume_per_unit: 2 },
        ItemVolume { item_id: 2, volume_per_unit: 5 },
    ];
    let items = vec![item(1, 1, 10), item(2, 1, 50), item(1, 2, 3), item(1, 9, 40)];
    assert_eq!(status(1, 0, 100).calculate_used_cargo_space(&items, &volumes), 35);
    assert_eq!(status(2, 0, 100).calculate_used_cargo_space(&items, &volumes), 100);
    assert_eq!(status(3, 0, 100).calculate_used_cargo_space(&items, &volumes), 0);
}

#[test]
fn used_cargo_at_the_limit() {
    let volumes = vec![ItemVolume { item_id: 1, volume_per_unit: 1 }];
    let items = vec![item(1, 1, u16::MAX)];
    assert_eq!(status(1, 0, 0).calculate_used_cargo_space(&items, &volumes), u16::MAX);
}

#[test]
fn stellar_objects() {
    let objects = vec![
        StellarObject { id: 1, kind: StellarObjectKinds::Ship, sector_id: 4 },
        StellarObject { id: 2, kind: StellarObjectKinds::Asteroid, sector_id: 4 },
        StellarObject { id: 3, kind: StellarObjectKinds::Station, sector_id: 5 },
    ];
    assert_eq!(objects[1].id(), 2);
    assert!(same_sector_from_ids(&objects, 1, 2));
    assert!(same_sector_from_ids(&objects, 2, 1));
    assert!(!same_sector_from_ids(&objects, 1, 3));
    assert!(!same_sector_from_ids(&objects, 1, 9));
    assert!(same_sector_from_ids(&objects, 3, 3));
    assert!(StellarObjectKinds::Ship < StellarObjectKinds::JumpGate);
    assert_eq!(StellarObjectControllerTurnLeft { id: 8 }.id(), 8);
}
