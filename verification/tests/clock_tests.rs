use solarance::clock::{
    client_time_micros, get_server_time, micros_as_i64, offset_between, server_time_at,
    server_time_from_reading, ClockSync,
};

#[test]
fn offset_round_trip() {
    let server = 1_700_000_000_000_000i64;
    let client = 1_699_999_999_000_000i64;
    let offset = offset_between(server, client);
    assert_eq!(offset, 1_000_000);
    assert_eq!(server_time_at(client, offset), server);
}

#[test]
fn clock_sync_starts_at_zero_and_updates() {
    let mut clock = ClockSync::new();
    assert_eq!(clock.offset_micros(), 0);
    clock.update_at(500, 200);
    assert_eq!(clock.offset_micros(), 300);
    assert_eq!(clock.server_time_at(1_000), 1_300);
}

#[test]
fn server_time_tracks_local_clock() {
    let before = client_time_micros().unwrap();
    let estimate = get_server_time(5_000_000).unwrap();
    let after = client_time_micros().unwrap();
    assert!(estimate >= before + 5_000_000);
    assert!(estimate <= after + 5_000_000);
}

#[test]
fn server_time_overflow_is_none() {
    assert_eq!(get_server_time(i64::MAX), None);
}

#[test]
fn update_from_server_uses_local_clock() {
    let mut clock = ClockSync::new();
    let before = client_time_micros().unwrap();
    clock.update_from_server(before + 2_000_000);
    let offset = clock.offset_micros();
    assert!(offset <= 2_000_000 && offset > 1_000_000);
    let estimate = clock.get_server_time().unwrap();
    assert!(estimate >= before + 2_000_000 - 1);
}

#[test]
fn micros_truncate_to_64_bits() {
    assert_eq!(micros_as_i64(42), 42);
    assert_eq!(micros_as_i64(1u128 << 64), 0);
    assert_eq!(micros_as_i64(u64::MAX as u128), -1);
}

#[test]
fn server_time_for_each_reading() {
    assert_eq!(server_time_from_reading(Some(1_000), 250), Some(1_250));
    assert_eq!(server_time_from_reading(Some(1_000), -1_500), Some(-500));
    assert_eq!(server_time_from_reading(None, 250), None);
    assert_eq!(server_time_from_reading(Some(i64::MAX), 1), None);
}

#[test]
fn offset_update_for_each_reading() {
    let mut clock = ClockSync::new();
    clock.update_from_reading(5_000, Some(2_000));
    assert_eq!(clock.offset_micros(), 3_000);
    clock.update_from_reading(9_000, None);
    assert_eq!(clock.offset_micros(), 3_000);
    clock.update_from_reading(i64::MAX, Some(-1));
    assert_eq!(clock.offset_micros(), 3_000);
}
