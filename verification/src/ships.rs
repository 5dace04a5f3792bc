//! Ships: the columns of ship and bullet rows that the rules read, the
//! ship tables of the wider game, and cargo accounting.

use vstd::prelude::*;
use crate::identity::{Identity, Timestamp};
use crate::input::InputState;
use crate::table::{find_first, first_match};

verus! {

#[derive(Clone, Copy, Debug, PartialEq, Eq, Structural)]
pub enum ShipClass {
    Miner,
    Shuttle,
    Freighter,
    Fighter,
    Scout,
    Cruiser,
    BattleCruiser,
    Carrier,
}

#[derive(Clone, Copy, Debug, PartialEq, Eq, Structural)]
pub enum ShipLocation {
    /// Interplanetary travel.
    System,
    /// Regular flying around.
    Sector,
    /// Docked at a station.
    Station,
    /// Docked at a ship.
    Ship,
}

/// The kinds of equipment slot on a ship.
#[derive(Clone, Copy, Debug, PartialEq, Eq, Hash, Structural)]
pub enum EquipmentSlotType {
    Weapon,
    Shield,
    Engine,
    MiningLaser,
    /// Cloaking devices, tractor beams and the like.
    Special,
    CargoExpansion,
}

/// The columns of a space ship row that the rules read. The ship's health
/// and its flight snapshot are held beside it by the application; of the
/// snapshot only its time is kept here.
#[derive(Clone, Copy, Debug, PartialEq, Eq, Structural)]
pub struct ShipRecord {
    pub id: u64,
    pub player_id: Identity,
    pub sector_id: u64,
    pub ship_config_id: u32,
    pub input_state: InputState,
    pub last_fired: Timestamp,
    /// When the flight snapshot was taken, in microseconds since the epoch.
    pub movement_updated_at: i64,
}

/// The columns of a bullet row that the rules read.
#[derive(Clone, Copy, Debug, PartialEq, Eq, Structural)]
pub struct BulletRecord {
    pub id: u32,
    pub player_id: Identity,
    pub sector_id: u64,
    /// When the bullet expires, in microseconds since the epoch.
    pub lifetime: i64,
    /// When the flight snapshot was taken, in microseconds since the epoch.
    pub movement_updated_at: i64,
}

pub open spec fn ship_of_player(player: Identity) -> spec_fn(ShipRecord) -> bool {
    |s: ShipRecord| s.player_id == player
}

pub open spec fn ship_with_id(id: u64) -> spec_fn(ShipRecord) -> bool {
    |s: ShipRecord| s.id == id
}

pub open spec fn bullet_with_id(id: u32) -> spec_fn(BulletRecord) -> bool {
    |b: BulletRecord| b.id == id
}

/// The ship a player flies (player ids are unique among ships).
pub fn find_ship_by_player(ships: &Vec<ShipRecord>, player: Identity) -> (r: Option<ShipRecord>)
    ensures
        r == first_match(ships@, ship_of_player(player)),
{
    let ghost pred = ship_of_player(player);
    let matches = |row: &ShipRecord| -> (b: bool)
        ensures
            b == (row.player_id == player),
        { row.player_id.same_as(&player) };
    find_first(ships, matches, Ghost(pred))
}

/// The ship with a primary key.
pub fn find_ship_by_id(ships: &Vec<ShipRecord>, id: u64) -> (r: Option<ShipRecord>)
    ensures
        r == first_match(ships@, ship_with_id(id)),
{
    let ghost pred = ship_with_id(id);
    let matches = |row: &ShipRecord| -> (b: bool)
        ensures
            b == (row.id == id),
        { row.id == id };
    find_first(ships, matches, Ghost(pred))
}

/// The bullet with a primary key.
pub fn find_bullet_by_id(bullets: &Vec<BulletRecord>, id: u32) -> (r: Option<BulletRecord>)
    ensures
        r == first_match(bullets@, bullet_with_id(id)),
{
    let ghost pred = bullet_with_id(id);
    let matches = |row: &BulletRecord| -> (b: bool)
        ensures
            b == (row.id == id),
        { row.id == id };
    find_first(bullets, matches, Ghost(pred))
}


/// A ship of the wider game, flying or docked.
#[derive(Clone, Copy, Debug, PartialEq, Eq, Structural)]
pub struct Ship {
    pub id: u64,
    pub shiptype_id: u32,
    /// Whether the ship is flying or docked, and where.
    pub location: ShipLocation,
    /// Docked ships have a stellar object id of 0.
    pub sobj_id: u64,
    /// 0 when the ship is not docked at a station.
    pub station_id: u64,
    pub sector_id: u64,
    pub player_id: Identity,
    pub faction_id: u32,
}

/// A stack of one item in a ship's hold.
#[derive(Clone, Copy, Debug, PartialEq, Eq, Structural)]
pub struct ShipCargoItem {
    pub id: u64,
    pub ship_id: u64,
    pub item_id: u32,
    /// How many of the item are in this stack.
    pub quantity: u16,
}

/// What is mounted in one equipment slot of a ship.
#[derive(Clone, Copy, Debug, PartialEq, Eq, Structural)]
pub struct ShipEquipmentSlot {
    pub id: u64,
    pub ship_id: u64,
    pub slot_type: EquipmentSlotType,
    /// The slot's index within its type.
    pub slot_index: u8,
    pub item_id: u32,
}

/// The movement keys a player holds for the ship it controls.
#[derive(Clone, Copy, Debug, PartialEq, Eq, Structural)]
pub struct ShipMovementController {
    pub id: Identity,
    pub stellar_object_id: u64,
    pub forward: bool,
    pub backward: bool,
    pub left: bool,
    pub right: bool,
}

/// The volume one unit of an item takes up in a hold.
#[derive(Clone, Copy, Debug, PartialEq, Eq, Structural)]
pub struct ItemVolume {
    pub item_id: u32,
    pub volume_per_unit: u16,
}

/// The status columns of a ship that the cargo rules read: where it is,
/// whose it is, its weapon cooldowns and its hold. Its health, shields,
/// energy and AI state are held by the application.
#[derive(Clone, Copy, Debug, PartialEq, Eq, Structural)]
pub struct ShipStatus {
    pub id: u64,
    pub sector_id: u64,
    pub player_id: Identity,
    /// Milliseconds until the weapons can fire again.
    pub weapon_cooldown_ms: u32,
    /// Milliseconds until the missiles can fire again.
    pub missile_cooldown_ms: u32,
    /// Kept in step with the ship's cargo items.
    pub used_cargo_capacity: u16,
    pub max_cargo_capacity: u16,
}

pub open spec fn item_volume_of(item_id: u32) -> spec_fn(ItemVolume) -> bool {
    |d: ItemVolume| d.item_id == item_id
}

/// The volume used by the stacks of a ship whose item is known.
pub open spec fn spec_used_cargo(items: Seq<ShipCargoItem>, volumes: Seq<ItemVolume>, ship_id: u64) -> nat
    decreases items.len(),
{
    if items.len() == 0 {
        0
    } else {
        let rest = spec_used_cargo(items.drop_last(), volumes, ship_id);
        let item = items.last();
        if item.ship_id == ship_id {
            match first_match(volumes, item_volume_of(item.item_id)) {
                Some(d) => rest + (item.quantity as nat) * (d.volume_per_unit as nat),
                None => rest,
            }
        } else {
            rest
        }
    }
}

/// The volume used by a prefix of the stacks is at most that of all.
pub proof fn lemma_used_cargo_prefix(items: Seq<ShipCargoItem>, volumes: Seq<ItemVolume>, ship_id: u64, i: int)
    requires
        0 <= i <= items.len(),
    ensures
        spec_used_cargo(items.take(i), volumes, ship_id) <= spec_used_cargo(items, volumes, ship_id),
    decreases items.len(),
{
    if i == items.len() {
        assert(items.take(i) =~= items);
    } else {
        lemma_used_cargo_prefix(items.drop_last(), volumes, ship_id, i);
        assert(items.drop_last().take(i) =~= items.take(i));
    }
}

/// The volume of an item, looked up by the item's id.
fn find_item_volume(volumes: &Vec<ItemVolume>, item_id: u32) -> (r: Option<ItemVolume>)
    ensures
        r == first_match(volumes@, item_volume_of(item_id)),
{
    let ghost pred = item_volume_of(item_id);
    let matches = |row: &ItemVolume| -> (b: bool)
        ensures
            b == (row.item_id == item_id),
        { row.item_id == item_id };
    find_first(volumes, matches, Ghost(pred))
}

impl ShipStatus {
    /// Free volume in the hold.
    pub fn get_remaining_cargo_space(&self) -> (r: u16)
        requires
            self.used_cargo_capacity <= self.max_cargo_capacity,
        ensures
            r == self.max_cargo_capacity - self.used_cargo_capacity,
    {
        self.max_cargo_capacity - self.used_cargo_capacity
    }

    /// The volume used by this ship's cargo stacks: each stack's quantity
    /// times its item's volume per unit; stacks of an unknown item count
    /// for nothing. The total must fit the 16-bit capacity type.
    pub fn calculate_used_cargo_space(&self, cargo_items: &Vec<ShipCargoItem>, item_volumes: &Vec<ItemVolume>) -> (r: u16)
        requires
            spec_used_cargo(cargo_items@, item_volumes@, self.id) <= u16::MAX,
        ensures
            r == spec_used_cargo(cargo_items@, item_volumes@, self.id),
    {
        let mut used_cargo_space: u16 = 0;
        let mut i: usize = 0;
        while i < cargo_items.len()
            invariant
                i <= cargo_items.len(),
                used_cargo_space == spec_used_cargo(cargo_items@.take(i as int), item_volumes@, self.id),
                spec_used_cargo(cargo_items@, item_volumes@, self.id) <= u16::MAX,
            decreases cargo_items.len() - i,
        {
            let item = cargo_items[i];
            proof {
                assert(cargo_items@.take(i + 1).drop_last() =~= cargo_items@.take(i as int));
                lemma_used_cargo_prefix(cargo_items@, item_volumes@, self.id, i + 1);
            }
            if item.ship_id == self.id {
                match find_item_volume(item_volumes, item.item_id) {
                    Some(def) => {
                        let volume_usage: u16 = item.quantity * def.volume_per_unit;
                        used_cargo_space += volume_usage;
                    },
                    None => {},
                }
            }
            i += 1;
        }
        proof {
            assert(cargo_items@.take(cargo_items@.len() as int) =~= cargo_items@);
        }
        used_cargo_space
    }
}

} // verus!
