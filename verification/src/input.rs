//! Pilot input: the raw key state stored with each ship, and the decisions
//! made when a pilot presses or releases a key.

use vstd::prelude::*;

verus! {

/// Raw key state of a ship, stored beside its movement snapshot so that a
/// repeated input can be recognised without touching the flight model.
#[derive(Clone, Copy, Debug, PartialEq, Eq, Structural)]
pub struct InputState {
    pub is_thrusting: bool,
    /// Never set together with `is_thrusting` once an input has been applied.
    pub is_breaking: bool,
    /// -1 (left), 0 (none), +1 (right).
    pub turn_direction: i8,
}

impl Default for InputState {
    fn default() -> (s: Self)
        ensures
            s == (InputState { is_thrusting: false, is_breaking: false, turn_direction: 0 }),
    {
        InputState { is_thrusting: false, is_breaking: false, turn_direction: 0 }
    }
}

/// What the engine does with a thrust input: the sign of the ship's linear
/// acceleration.
#[derive(Clone, Copy, Debug, PartialEq, Eq, Structural)]
pub enum ThrustMode {
    /// Accelerate forward at the ship's maximum acceleration.
    Thrust,
    /// Decelerate at the ship's maximum acceleration.
    Brake,
    /// No acceleration: the ship keeps its speed.
    Coast,
}

/// A turn direction that is not -1, 0 or 1.
#[derive(Clone, Copy, Debug, PartialEq, Eq, Structural)]
pub enum InputError {
    InvalidTurnDirection(i8),
}

/// Which of the two kinds of input changed between two frames.
#[derive(Clone, Copy, Debug, PartialEq, Eq, Structural)]
pub struct InputChanges {
    pub thrust_changed: bool,
    pub turn_changed: bool,
}

/// The thrust input is a no-op for a ship whose stored state is `cur`.
pub open spec fn spec_thrust_input_unchanged(cur: InputState, is_thrusting: bool, is_breaking: bool) -> bool {
    if is_thrusting {
        cur.is_thrusting && !cur.is_breaking
    } else if is_breaking {
        !cur.is_thrusting && cur.is_breaking
    } else {
        cur.is_thrusting == cur.is_breaking
    }
}

pub open spec fn spec_thrust_mode(is_thrusting: bool, is_breaking: bool) -> ThrustMode {
    if is_thrusting {
        ThrustMode::Thrust
    } else if is_breaking {
        ThrustMode::Brake
    } else {
        ThrustMode::Coast
    }
}

/// The stored state after a thrust input: thrust wins over brake.
pub open spec fn spec_with_thrust_input(cur: InputState, is_thrusting: bool, is_breaking: bool) -> InputState {
    InputState { is_thrusting: is_thrusting, is_breaking: !is_thrusting && is_breaking, ..cur }
}

pub open spec fn valid_turn_direction(turn_direction: i8) -> bool {
    turn_direction == -1 || turn_direction == 0 || turn_direction == 1
}

/// Neither thrust and brake at once.
pub open spec fn exclusive(s: InputState) -> bool {
    !(s.is_thrusting && s.is_breaking)
}

impl InputState {
    /// Whether a thrust input leaves this stored state as it is, so that the
    /// ship's trajectory need not be rewritten.
    pub fn is_thrust_input_unchanged(&self, is_thrusting: bool, is_breaking: bool) -> (r: bool)
        ensures
            r == spec_thrust_input_unchanged(*self, is_thrusting, is_breaking),
    {
        if is_thrusting {
            self.is_thrusting == is_thrusting && self.is_breaking == false
        } else if is_breaking {
            self.is_thrusting == false && self.is_breaking == is_breaking
        } else {
            self.is_thrusting == self.is_breaking
        }
    }

    /// The state stored after a thrust input.
    pub fn with_thrust_input(&self, is_thrusting: bool, is_breaking: bool) -> (r: InputState)
        ensures
            r == spec_with_thrust_input(*self, is_thrusting, is_breaking),
    {
        InputState {
            is_thrusting: is_thrusting,
            is_breaking: if !is_thrusting { is_breaking } else { false },
            turn_direction: self.turn_direction,
        }
    }

    /// The state stored after a turn input.
    pub fn with_turn_input(&self, turn_direction: i8) -> (r: InputState)
        ensures
            r == (InputState { turn_direction: turn_direction, ..*self }),
    {
        InputState {
            is_thrusting: self.is_thrusting,
            is_breaking: self.is_breaking,
            turn_direction: turn_direction,
        }
    }
}

/// The sign of the linear acceleration that a thrust input asks for.
pub fn thrust_mode(is_thrusting: bool, is_breaking: bool) -> (r: ThrustMode)
    ensures
        r == spec_thrust_mode(is_thrusting, is_breaking),
{
    if is_thrusting {
        ThrustMode::Thrust
    } else if is_breaking {
        ThrustMode::Brake
    } else {
        ThrustMode::Coast
    }
}

/// The decision taken on a thrust input: `None` when the input changes
/// nothing, else the new stored state and the acceleration it calls for.
pub fn thrust_input_update(current: &InputState, is_thrusting: bool, is_breaking: bool) -> (r: Option<(InputState, ThrustMode)>)
    ensures
        spec_thrust_input_unchanged(*current, is_thrusting, is_breaking) ==> r is None,
        !spec_thrust_input_unchanged(*current, is_thrusting, is_breaking) ==> r == Some((
            spec_with_thrust_input(*current, is_thrusting, is_breaking),
            spec_thrust_mode(is_thrusting, is_breaking),
        )),
{
    if current.is_thrust_input_unchanged(is_thrusting, is_breaking) {
        None
    } else {
        Some((current.with_thrust_input(is_thrusting, is_breaking), thrust_mode(is_thrusting, is_breaking)))
    }
}

/// Accepts exactly the turn directions -1, 0 and 1.
pub fn validate_turn_direction(turn_direction: i8) -> (r: Result<(), InputError>)
    ensures
        valid_turn_direction(turn_direction) <==> r is Ok,
        !valid_turn_direction(turn_direction) ==> r == Err::<(), InputError>(InputError::InvalidTurnDirection(turn_direction)),
{
    if turn_direction != -1 && turn_direction != 0 && turn_direction != 1 {
        Err(InputError::InvalidTurnDirection(turn_direction))
    } else {
        Ok(())
    }
}

/// The decision taken on a turn input: `None` when the stored direction is
/// already the requested one, else the new stored state.
pub fn turn_input_update(current: &InputState, turn_direction: i8) -> (r: Option<InputState>)
    ensures
        r == spec_turn_input_update(*current, turn_direction),
{
    if current.turn_direction == turn_direction {
        None
    } else {
        Some(current.with_turn_input(turn_direction))
    }
}

/// The input state read from the keyboard: right wins over left.
pub fn input_from_keys(thrust_key: bool, brake_key: bool, right_key: bool, left_key: bool) -> (r: InputState)
    ensures
        r == spec_input_from_keys(thrust_key, brake_key, right_key, left_key),
{
    let turn_direction: i8 = if right_key {
        1
    } else if left_key {
        -1
    } else {
        0
    };
    InputState { is_thrusting: thrust_key, is_breaking: brake_key, turn_direction }
}

/// Which inputs a client must report after a frame: thrust when either the
/// thrust or the brake key changed, turn when the direction changed.
pub fn input_changes(previous: &InputState, current: &InputState) -> (r: InputChanges)
    ensures
        r == spec_input_changes(*previous, *current),
{
    InputChanges {
        thrust_changed: current.is_thrusting != previous.is_thrusting
            || current.is_breaking != previous.is_breaking,
        turn_changed: current.turn_direction != previous.turn_direction,
    }
}

/// Once a thrust input has been applied, the same input again is a no-op,
/// and the stored state never thrusts and brakes at once.
pub proof fn lemma_thrust_input_settles(cur: InputState, is_thrusting: bool, is_breaking: bool)
    ensures
        spec_thrust_input_unchanged(spec_with_thrust_input(cur, is_thrusting, is_breaking), is_thrusting, is_breaking),
        exclusive(spec_with_thrust_input(cur, is_thrusting, is_breaking)),
        spec_with_thrust_input(cur, is_thrusting, is_breaking).turn_direction == cur.turn_direction,
{
}

/// For a state that does not thrust and brake at once, an input counts as
/// unchanged exactly when applying it would leave the state as it is.
pub proof fn lemma_unchanged_means_fixed_point(cur: InputState, is_thrusting: bool, is_breaking: bool)
    requires
        exclusive(cur),
    ensures
        spec_thrust_input_unchanged(cur, is_thrusting, is_breaking)
            <==> spec_with_thrust_input(cur, is_thrusting, is_breaking) == cur,
{
}

/// The stored flags always describe the acceleration that was chosen.
pub proof fn lemma_thrust_mode_matches_state(cur: InputState, is_thrusting: bool, is_breaking: bool)
    ensures
        ({
            let s = spec_with_thrust_input(cur, is_thrusting, is_breaking);
            &&& (spec_thrust_mode(is_thrusting, is_breaking) == ThrustMode::Thrust <==> s.is_thrusting)
            &&& (spec_thrust_mode(is_thrusting, is_breaking) == ThrustMode::Brake <==> s.is_breaking)
            &&& (spec_thrust_mode(is_thrusting, is_breaking) == ThrustMode::Coast <==> (!s.is_thrusting && !s.is_breaking))
        }),
{
}

/// Stored state after a turn input, or `None` when the input changes nothing.
pub open spec fn spec_turn_input_update(cur: InputState, turn_direction: i8) -> Option<InputState> {
    if cur.turn_direction == turn_direction {
        None
    } else {
        Some(InputState { turn_direction: turn_direction, ..cur })
    }
}

/// A turn input that was just applied is a no-op when sent again, and it
/// leaves the thrust flags alone.
pub proof fn lemma_turn_input_settles(cur: InputState, turn_direction: i8)
    ensures
        spec_turn_input_update(cur, turn_direction) matches Some(next) ==> {
            &&& spec_turn_input_update(next, turn_direction) is None
            &&& next.is_thrusting == cur.is_thrusting
            &&& next.is_breaking == cur.is_breaking
        },
{
}


/// After a turn input the stored direction is the requested one, whether or
/// not the update writes anything; releasing the key (direction 0) is no
/// exception. The update writes nothing exactly when that direction was
/// already stored, and it never touches the thrust flags.
pub proof fn lemma_turn_input_takes_requested_direction(cur: InputState, turn_direction: i8)
    ensures
        ({
            let stored = match spec_turn_input_update(cur, turn_direction) {
                Some(next) => next,
                None => cur,
            };
            &&& stored.turn_direction == turn_direction
            &&& stored.is_thrusting == cur.is_thrusting
            &&& stored.is_breaking == cur.is_breaking
        }),
        spec_turn_input_update(cur, turn_direction) is None <==> cur.turn_direction == turn_direction,
{
}

pub open spec fn spec_input_from_keys(thrust_key: bool, brake_key: bool, right_key: bool, left_key: bool) -> InputState {
    InputState {
        is_thrusting: thrust_key,
        is_breaking: brake_key,
        turn_direction: if right_key { 1i8 } else if left_key { -1i8 } else { 0i8 },
    }
}

pub open spec fn spec_input_changes(previous: InputState, current: InputState) -> InputChanges {
    InputChanges {
        thrust_changed: previous.is_thrusting != current.is_thrusting || previous.is_breaking != current.is_breaking,
        turn_changed: previous.turn_direction != current.turn_direction,
    }
}

/// What one frame of keyboard handling reports, and the input remembered
/// for the next frame.
#[derive(Clone, Copy, Debug, PartialEq, Eq, Structural)]
pub struct InputStep {
    pub changes: InputChanges,
    pub previous: InputState,
}

/// One frame of keyboard handling. While the player's ship is missing from
/// the client's tables nothing is reported and the remembered input stays;
/// otherwise the keys are read, the changed inputs reported, and the new
/// input remembered.
pub fn input_step(previous: &InputState, ship_present: bool, thrust_key: bool, brake_key: bool, right_key: bool, left_key: bool) -> (r: InputStep)
    ensures
        !ship_present ==> r == (InputStep {
            changes: InputChanges { thrust_changed: false, turn_changed: false },
            previous: *previous,
        }),
        ship_present ==> r == (InputStep {
            changes: spec_input_changes(*previous, spec_input_from_keys(thrust_key, brake_key, right_key, left_key)),
            previous: spec_input_from_keys(thrust_key, brake_key, right_key, left_key),
        }),
{
    if !ship_present {
        return InputStep {
            changes: InputChanges { thrust_changed: false, turn_changed: false },
            previous: *previous,
        };
    }
    let current = input_from_keys(thrust_key, brake_key, right_key, left_key);
    InputStep { changes: input_changes(previous, &current), previous: current }
}

/// Reporting what changed keeps the server in step with the keyboard: a
/// copy of the previous frame's input that takes the reported thrust input
/// (both flags) and the reported turn input becomes the current frame's
/// input, so a change of either thrust flag alone is reported. An input is
/// reported only when it changed.
pub proof fn lemma_reported_changes_carry_the_input(previous: InputState, current: InputState)
    ensures
        ({
            let changes = spec_input_changes(previous, current);
            let received = InputState {
                is_thrusting: if changes.thrust_changed { current.is_thrusting } else { previous.is_thrusting },
                is_breaking: if changes.thrust_changed { current.is_breaking } else { previous.is_breaking },
                turn_direction: if changes.turn_changed { current.turn_direction } else { previous.turn_direction },
            };
            &&& received == current
            &&& changes.thrust_changed ==> (previous.is_thrusting != current.is_thrusting
                || previous.is_breaking != current.is_breaking)
            &&& changes.turn_changed ==> previous.turn_direction != current.turn_direction
        }),
{
}

/// Once a frame's input is remembered, the same keys in the next frame
/// report nothing.
pub proof fn lemma_same_keys_report_nothing(previous: InputState, thrust_key: bool, brake_key: bool, right_key: bool, left_key: bool)
    ensures
        ({
            let cur = spec_input_from_keys(thrust_key, brake_key, right_key, left_key);
            spec_input_changes(cur, cur) == (InputChanges { thrust_changed: false, turn_changed: false })
        }),
{
}

} // verus!
