//! The pilot's requests as the server receives them: which ship they
//! concern, whether they change anything, and the ship row they leave.

use vstd::prelude::*;
use crate::identity::Identity;
use crate::input::{
    InputError, InputState, ThrustMode, spec_thrust_input_unchanged, spec_thrust_mode, spec_turn_input_update,
    spec_with_thrust_input, thrust_input_update, turn_input_update, valid_turn_direction,
    validate_turn_direction,
};
use crate::ships::{ShipRecord, find_ship_by_player, ship_of_player};
use crate::table::first_match;

verus! {

#[derive(Clone, Copy, Debug, PartialEq, Eq, Structural)]
pub enum CommandError {
    /// A turn direction other than -1, 0 or 1.
    InvalidTurnDirection(i8),
    /// The sender has no ship.
    ShipNotFound,
}

/// A thrust input that changes the ship: the ship with its new input
/// state and its flight snapshot retaken at the request's time, and the
/// acceleration to give it.
#[derive(Clone, Copy, Debug, PartialEq, Eq, Structural)]
pub struct ThrustChange {
    pub ship: ShipRecord,
    pub mode: ThrustMode,
}

pub open spec fn spec_set_thrust_input(ships: Seq<ShipRecord>, sender: Identity, now: i64, is_thrusting: bool, is_breaking: bool) -> Result<Option<ThrustChange>, CommandError> {
    match first_match(ships, ship_of_player(sender)) {
        None => Err(CommandError::ShipNotFound),
        Some(ship) => if spec_thrust_input_unchanged(ship.input_state, is_thrusting, is_breaking) {
            Ok(None)
        } else {
            Ok(Some(ThrustChange {
                ship: ShipRecord {
                    input_state: spec_with_thrust_input(ship.input_state, is_thrusting, is_breaking),
                    movement_updated_at: now,
                    ..ship
                },
                mode: spec_thrust_mode(is_thrusting, is_breaking),
            }))
        },
    }
}

pub open spec fn spec_set_turn_input(ships: Seq<ShipRecord>, sender: Identity, now: i64, turn_direction: i8) -> Result<Option<ShipRecord>, CommandError> {
    if !valid_turn_direction(turn_direction) {
        Err(CommandError::InvalidTurnDirection(turn_direction))
    } else {
        match first_match(ships, ship_of_player(sender)) {
            None => Err(CommandError::ShipNotFound),
            Some(ship) => match spec_turn_input_update(ship.input_state, turn_direction) {
                None => Ok(None),
                Some(input_state) => Ok(Some(ShipRecord { input_state: input_state, movement_updated_at: now, ..ship })),
            },
        }
    }
}

pub open spec fn spec_flight_change_row(ships: Seq<ShipRecord>, sender: Identity, now: i64) -> Result<ShipRecord, CommandError> {
    match first_match(ships, ship_of_player(sender)) {
        None => Err(CommandError::ShipNotFound),
        Some(ship) => Ok(ShipRecord { movement_updated_at: now, ..ship }),
    }
}

/// A thrust or brake key pressed or released, received at `now`:
/// `Ok(None)` when the input changes nothing and the ship's trajectory is
/// left alone.
pub fn set_thrust_input(ships: &Vec<ShipRecord>, sender: Identity, now: i64, is_thrusting: bool, is_breaking: bool) -> (r: Result<Option<ThrustChange>, CommandError>)
    ensures
        r == spec_set_thrust_input(ships@, sender, now, is_thrusting, is_breaking),
{
    let ship = match find_ship_by_player(ships, sender) {
        Some(s) => s,
        None => return Err(CommandError::ShipNotFound),
    };
    match thrust_input_update(&ship.input_state, is_thrusting, is_breaking) {
        None => Ok(None),
        Some((input_state, mode)) => Ok(Some(ThrustChange { ship: ShipRecord { input_state, movement_updated_at: now, ..ship }, mode })),
    }
}

/// A turn key pressed or released, received at `now`: the direction is
/// checked first, then the ship; `Ok(None)` when the direction is the
/// stored one, else the ship with the new direction and its flight
/// snapshot retaken at `now`.
pub fn set_turn_input(ships: &Vec<ShipRecord>, sender: Identity, now: i64, turn_direction: i8) -> (r: Result<Option<ShipRecord>, CommandError>)
    ensures
        r == spec_set_turn_input(ships@, sender, now, turn_direction),
{
    match validate_turn_direction(turn_direction) {
        Err(InputError::InvalidTurnDirection(d)) => return Err(CommandError::InvalidTurnDirection(d)),
        Ok(()) => {},
    }
    let ship = match find_ship_by_player(ships, sender) {
        Some(s) => s,
        None => return Err(CommandError::ShipNotFound),
    };
    match turn_input_update(&ship.input_state, turn_direction) {
        None => Ok(None),
        Some(input_state) => Ok(Some(ShipRecord { input_state, movement_updated_at: now, ..ship })),
    }
}

/// The sender's ship row as a direct speed or turn-rate request received
/// at `now` leaves it when it changes the ship's flight: the flight
/// snapshot retaken at `now`, every other column kept.
pub fn flight_change_row(ships: &Vec<ShipRecord>, sender: Identity, now: i64) -> (r: Result<ShipRecord, CommandError>)
    ensures
        r == spec_flight_change_row(ships@, sender, now),
{
    match find_ship_by_player(ships, sender) {
        Some(ship) => Ok(ShipRecord { movement_updated_at: now, ..ship }),
        None => Err(CommandError::ShipNotFound),
    }
}

/// Sending the same thrust input twice changes the ship once: once the
/// changed row is stored, the request is a no-op whenever it comes again,
/// and the stored row never thrusts and brakes at once.
pub proof fn lemma_thrust_request_idempotent(ships: Seq<ShipRecord>, sender: Identity, now: i64, later: i64, is_thrusting: bool, is_breaking: bool, i: int)
    requires
        0 <= i < ships.len(),
        ships[i].player_id == sender,
        forall|j: int| 0 <= j < i ==> #[trigger] ships[j].player_id != sender,
        spec_set_thrust_input(ships, sender, now, is_thrusting, is_breaking) is Ok,
    ensures
        ({
            let stored = match spec_set_thrust_input(ships, sender, now, is_thrusting, is_breaking) {
                Ok(Some(change)) => ships.update(i, change.ship),
                _ => ships,
            };
            &&& spec_set_thrust_input(stored, sender, later, is_thrusting, is_breaking) == Ok::<Option<ThrustChange>, CommandError>(None)
            &&& (spec_set_thrust_input(ships, sender, now, is_thrusting, is_breaking) matches Ok(Some(_)) ==>
                !(stored[i].input_state.is_thrusting && stored[i].input_state.is_breaking))
        }),
{
    crate::input::lemma_thrust_input_settles(ships[i].input_state, is_thrusting, is_breaking);
    lemma_first_match_at(ships, sender, i, ships[i]);
    assert(ships.update(i, ships[i]) =~= ships);
    if let Ok(Some(change)) = spec_set_thrust_input(ships, sender, now, is_thrusting, is_breaking) {
        lemma_first_match_at(ships, sender, i, change.ship);
    }
}

/// A valid turn request from a pilot with a ship (one ship per player)
/// always succeeds and leaves the ship turning the requested way: nothing
/// is written exactly when that is already its direction, and otherwise the
/// row written is the ship with that direction (releasing the key, 0,
/// included) and its snapshot retaken at `now`, every other column kept.
pub proof fn lemma_turn_request_sets_direction(ships: Seq<ShipRecord>, sender: Identity, now: i64, turn_direction: i8, ship: ShipRecord)
    requires
        forall|i: int, j: int| #![trigger ships[i], ships[j]]
            0 <= i < ships.len() && 0 <= j < ships.len() && ships[i].player_id == ships[j].player_id ==> i == j,
        ships.contains(ship),
        ship.player_id == sender,
        turn_direction == -1 || turn_direction == 0 || turn_direction == 1,
    ensures
        spec_set_turn_input(ships, sender, now, turn_direction) matches Ok(written)
            && (written is None <==> ship.input_state.turn_direction == turn_direction)
            && (written matches Some(row) ==> row == ShipRecord {
                input_state: InputState { turn_direction: turn_direction, ..ship.input_state },
                movement_updated_at: now,
                ..ship
            }),
{
    crate::table::lemma_first_match_only(ships, ship_of_player(sender), ship);
}

/// When row `i` is the sender's first ship, a lookup finds whatever ship
/// of the sender stands at `i`.
proof fn lemma_first_match_at(rows: Seq<ShipRecord>, sender: Identity, i: int, row: ShipRecord)
    requires
        0 <= i < rows.len(),
        rows[i].player_id == sender,
        row.player_id == sender,
        forall|j: int| 0 <= j < i ==> #[trigger] rows[j].player_id != sender,
    ensures
        first_match(rows.update(i, row), ship_of_player(sender)) == Some(row),
    decreases rows.len(),
{
    if i > 0 {
        assert(rows[0].player_id != sender);
        assert(rows.update(i, row).drop_first() =~= rows.drop_first().update(i - 1, row));
        assert forall|j: int| 0 <= j < i - 1 implies #[trigger] rows.drop_first()[j].player_id != sender by {
            assert(rows.drop_first()[j] == rows[j + 1]);
        }
        lemma_first_match_at(rows.drop_first(), sender, i - 1, row);
    }
}

} // verus!
