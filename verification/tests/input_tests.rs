use solarance::input::{
    input_changes, input_from_keys, input_step, thrust_input_update, thrust_mode, turn_input_update,
    validate_turn_direction, InputError, InputState, ThrustMode,
};

fn state(is_thrusting: bool, is_breaking: bool, turn_direction: i8) -> InputState {
    InputState { is_thrusting, is_breaking, turn_direction }
}

#[test]
fn default_input_is_idle() {
    assert_eq!(InputState::default(), state(false, false, 0));
}

#[test]
fn thrust_from_idle_starts_thrusting() {
    let r = thrust_input_update(&state(false, false, 0), true, false);
    assert_eq!(r, Some((state(true, false, 0), ThrustMode::Thrust)));
}

#[test]
fn thrust_wins_over_brake() {
    let r = thrust_input_update(&state(false, false, 1), true, true);
    assert_eq!(r, Some((state(true, false, 1), ThrustMode::Thrust)));
}

#[test]
fn brake_from_thrust() {
    let r = thrust_input_update(&state(true, false, -1), false, true);
    assert_eq!(r, Some((state(false, true, -1), ThrustMode::Brake)));
}

#[test]
fn release_keys_coasts() {
    let r = thrust_input_update(&state(false, true, 0), false, false);
    assert_eq!(r, Some((state(false, false, 0), ThrustMode::Coast)));
}

#[test]
fn repeated_thrust_input_is_noop() {
    assert_eq!(thrust_input_update(&state(true, false, 0), true, false), None);
    assert_eq!(thrust_input_update(&state(true, false, 0), true, true), None);
    assert_eq!(thrust_input_update(&state(false, true, 0), false, true), None);
    assert_eq!(thrust_input_update(&state(false, false, 0), false, false), None);
}

#[test]
fn both_flags_stored_and_release_is_noop() {
    // A state that thrusts and brakes at once counts as unchanged on release.
    assert_eq!(thrust_input_update(&state(true, true, 0), false, false), None);
}

#[test]
fn applied_thrust_input_settles() {
    for &(t, b) in &[(true, false), (false, true), (false, false), (true, true)] {
        for cur in [state(false, false, 0), state(true, false, 1), state(false, true, -1)] {
            if let Some((next, _)) = thrust_input_update(&cur, t, b) {
                assert!(!(next.is_thrusting && next.is_breaking));
                assert_eq!(thrust_input_update(&next, t, b), None);
                assert_eq!(next.turn_direction, cur.turn_direction);
            }
        }
    }
}

#[test]
fn thrust_modes() {
    assert_eq!(thrust_mode(true, false), ThrustMode::Thrust);
    assert_eq!(thrust_mode(true, true), ThrustMode::Thrust);
    assert_eq!(thrust_mode(false, true), ThrustMode::Brake);
    assert_eq!(thrust_mode(false, false), ThrustMode::Coast);
}

#[test]
fn turn_direction_validation() {
    assert_eq!(validate_turn_direction(-1), Ok(()));
    assert_eq!(validate_turn_direction(0), Ok(()));
    assert_eq!(validate_turn_direction(1), Ok(()));
    assert_eq!(validate_turn_direction(2), Err(InputError::InvalidTurnDirection(2)));
    assert_eq!(validate_turn_direction(-128), Err(InputError::InvalidTurnDirection(-128)));
}

#[test]
fn turn_input_updates_and_settles() {
    let cur = state(true, false, 0);
    let next = turn_input_update(&cur, -1);
    assert_eq!(next, Some(state(true, false, -1)));
    assert_eq!(turn_input_update(&next.unwrap(), -1), None);
}

#[test]
fn keys_to_input() {
    assert_eq!(input_from_keys(true, false, false, false), state(true, false, 0));
    assert_eq!(input_from_keys(false, true, false, true), state(false, true, -1));
    assert_eq!(input_from_keys(false, false, true, true), state(false, false, 1));
}

#[test]
fn input_change_detection() {
    let c = input_changes(&state(false, false, 0), &state(false, false, 0));
    assert!(!c.thrust_changed && !c.turn_changed);
    let c = input_changes(&state(false, false, 0), &state(false, true, 0));
    assert!(c.thrust_changed && !c.turn_changed);
    let c = input_changes(&state(true, false, 1), &state(true, false, -1));
    assert!(!c.thrust_changed && c.turn_changed);
}

#[test]
fn input_step_waits_for_ship() {
    let prev = state(true, false, 1);
    let step = input_step(&prev, false, false, true, false, true);
    assert!(!step.changes.thrust_changed && !step.changes.turn_changed);
    assert_eq!(step.previous, prev);
    let step = input_step(&prev, true, false, true, false, true);
    assert!(step.changes.thrust_changed && step.changes.turn_changed);
    assert_eq!(step.previous, state(false, true, -1));
    let again = input_step(&step.previous, true, false, true, false, true);
    assert!(!again.changes.thrust_changed && !again.changes.turn_changed);
}
