use solarance::commands::{flight_change_row, set_thrust_input, set_turn_input, CommandError, ThrustChange};
use solarance::identity::{Identity, Timestamp};
use solarance::input::{InputState, ThrustMode};
use solarance::ships::ShipRecord;

fn player(n: u128) -> Identity {
    Identity::from_halves(0, n)
}

fn ship(who: u128, input_state: InputState) -> ShipRecord {
    ShipRecord {
        id: who as u64,
        player_id: player(who),
        sector_id: 1,
        ship_config_id: 1,
        input_state,
        last_fired: Timestamp::from_micros_since_unix_epoch(0),
        movement_updated_at: 0,
    }
}

#[test]
fn thrust_request_changes_ship_once() {
    let mut ships = vec![ship(1, InputState::default())];
    let change = set_thrust_input(&ships, player(1), 5_000, true, false).unwrap().unwrap();
    assert_eq!(change.mode, ThrustMode::Thrust);
    assert!(change.ship.input_state.is_thrusting);
    assert_eq!(change.ship.movement_updated_at, 5_000);
    ships[0] = change.ship;
    assert_eq!(set_thrust_input(&ships, player(1), 6_000, true, false), Ok(None));
    let brake: Option<ThrustChange> = set_thrust_input(&ships, player(1), 7_000, false, true).unwrap();
    let brake = brake.unwrap();
    assert_eq!(brake.mode, ThrustMode::Brake);
    assert!(!brake.ship.input_state.is_thrusting && brake.ship.input_state.is_breaking);
    assert_eq!(brake.ship.movement_updated_at, 7_000);
}

#[test]
fn thrust_request_without_ship() {
    let ships = vec![ship(1, InputState::default())];
    assert_eq!(set_thrust_input(&ships, player(2), 0, true, false), Err(CommandError::ShipNotFound));
}

#[test]
fn turn_request() {
    let ships = vec![ship(1, InputState::default())];
    assert_eq!(set_turn_input(&ships, player(1), 10, 5), Err(CommandError::InvalidTurnDirection(5)));
    // The direction is checked before the ship.
    assert_eq!(set_turn_input(&ships, player(9), 10, 5), Err(CommandError::InvalidTurnDirection(5)));
    assert_eq!(set_turn_input(&ships, player(9), 10, 1), Err(CommandError::ShipNotFound));
    assert_eq!(set_turn_input(&ships, player(1), 10, 0), Ok(None));
    let turned = set_turn_input(&ships, player(1), 10, -1).unwrap().unwrap();
    assert_eq!(turned.input_state.turn_direction, -1);
    assert_eq!(turned, ShipRecord { input_state: turned.input_state, movement_updated_at: 10, ..ships[0] });
}

#[test]
fn flight_change_restamps_only_the_snapshot_time() {
    let ships = vec![ship(1, InputState::default()), ship(2, InputState::default())];
    assert_eq!(flight_change_row(&ships, player(2), 42), Ok(ShipRecord { movement_updated_at: 42, ..ships[1] }));
    assert_eq!(flight_change_row(&ships, player(3), 42), Err(CommandError::ShipNotFound));
}
