//! Star systems, sectors and what each player has seen of them: the
//! queries that scope a player's view, sector travel, the rows written when
//! a player first spawns, and the seed universe.

use vstd::prelude::*;
use crate::identity::{Identity, Timestamp};
use crate::input::InputState;
use crate::ships::{BulletRecord, ShipRecord, find_ship_by_player, ship_of_player};
use crate::table::{find_first, first_match, lemma_first_match_end, lemma_first_match_start, lemma_first_match_step};

verus! {

#[derive(Clone, Copy, Debug, PartialEq, Eq, Structural)]
pub enum VisitedStatus {
    /// The player has not visited this system or sector.
    Unvisited,
    /// The player has observed it, by intel report or sensors.
    Observed,
    /// The player has visited it.
    Visited,
}

#[derive(Clone, Copy, Debug, PartialEq, Eq, Structural)]
pub enum EventType {
    Bullet,
    Explosion,
    Warpgate,
}

pub struct System {
    pub id: u32,
    pub name: String,
}

impl Clone for System {
    fn clone(&self) -> (r: Self)
        ensures
            r == *self,
    {
        System { id: self.id, name: self.name.clone() }
    }
}

#[derive(Clone, Copy, Debug, PartialEq, Eq, Structural)]
pub struct Sector {
    pub id: u64,
    pub system_id: u32,
    pub x: i32,
    pub y: i32,
    /// A public sector holds a station or gate and is visible to anyone who
    /// has visited its system.
    pub is_public: bool,
}

/// Where a player's ship currently is.
#[derive(Clone, Copy, Debug, PartialEq, Eq, Structural)]
pub struct PlayerState {
    pub id: Identity,
    pub current_system_id: u32,
    pub current_sector_id: u64,
}

/// Who has visited or observed which system.
#[derive(Clone, Copy, Debug, PartialEq, Eq, Structural)]
pub struct VisitedSystem {
    pub id: u64,
    pub player_id: Identity,
    pub system_id: u32,
    pub visited_status: VisitedStatus,
}

/// Who has visited or observed which sector.
#[derive(Clone, Copy, Debug, PartialEq, Eq, Structural)]
pub struct VisitedSector {
    pub id: u64,
    pub player_id: Identity,
    pub sector_id: u64,
    pub visited_status: VisitedStatus,
}

#[derive(Clone, Copy, Debug, PartialEq, Eq, Structural)]
pub enum TravelError {
    ShipNotFound,
    PlayerStateNotFound,
    SectorNotFound,
    CurrentSectorNotFound,
    /// The target sector lies in another star system.
    CrossSystem,
}

/// A spawn that would repeat the key of the player's state row.
#[derive(Clone, Copy, Debug, PartialEq, Eq, Structural)]
pub enum SpawnError {
    PlayerStateExists,
}

/// The rows a successful sector jump writes.
#[derive(Clone, Copy, Debug, PartialEq, Eq, Structural)]
pub struct TravelPlan {
    /// The ship, moved to the target sector.
    pub ship: ShipRecord,
    /// The player's state, moved to the target sector.
    pub player_state: PlayerState,
    /// A visit of the target sector, when the player had none recorded.
    pub new_visit: Option<VisitedSector>,
}

/// The rows written for a player's first ship. The ship's key is left 0:
/// the table assigns it on insert.
#[derive(Clone, Copy, Debug, PartialEq, Eq, Structural)]
pub struct SpawnPlan {
    pub ship: ShipRecord,
    pub player_state: PlayerState,
    pub visited_sector: VisitedSector,
    pub visited_system: VisitedSystem,
}

/// Where every new player starts.
pub const STARTING_SYSTEM_ID: u32 = 1;
pub const STARTING_SECTOR_ID: u64 = 1;
/// The ship configuration new ships are built from.
pub const DEFAULT_SHIP_CONFIG_ID: u32 = 1;

pub open spec fn spec_is_visible(s: VisitedStatus) -> bool {
    s is Observed || s is Visited
}

impl VisitedStatus {
    /// Whether the player knows of the system or sector at all.
    pub fn is_visible(&self) -> (r: bool)
        ensures
            r == spec_is_visible(*self),
    {
        match self {
            VisitedStatus::Observed => true,
            VisitedStatus::Visited => true,
            _ => false,
        }
    }
}

pub open spec fn player_state_of(player: Identity) -> spec_fn(PlayerState) -> bool {
    |p: PlayerState| p.id == player
}

pub open spec fn sector_with_id(id: u64) -> spec_fn(Sector) -> bool {
    |s: Sector| s.id == id
}

pub open spec fn system_with_id(id: u32) -> spec_fn(System) -> bool {
    |s: System| s.id == id
}

/// The row that records that a player has observed a sector.
pub open spec fn observation(player: Identity, sector_id: u64) -> VisitedSector {
    VisitedSector { id: 0, player_id: player, sector_id: sector_id, visited_status: VisitedStatus::Observed }
}

/// Observations of the public sectors of a system, in table order.
pub open spec fn spec_observations(sectors: Seq<Sector>, system_id: u32, player: Identity) -> Seq<VisitedSector>
    decreases sectors.len(),
{
    if sectors.len() == 0 {
        seq![]
    } else {
        let rest = spec_observations(sectors.drop_last(), system_id, player);
        let s = sectors.last();
        if s.system_id == system_id && s.is_public {
            rest.push(observation(player, s.id))
        } else {
            rest
        }
    }
}

pub open spec fn spec_observe_all_public_sectors(player_states: Seq<PlayerState>, sectors: Seq<Sector>, player: Identity) -> Seq<VisitedSector> {
    match first_match(player_states, player_state_of(player)) {
        None => seq![],
        Some(p) => spec_observations(sectors, p.current_system_id, player),
    }
}

/// The systems a player has seen, in the order of the player's visit rows.
pub open spec fn spec_visited_systems(visited: Seq<VisitedSystem>, systems: Seq<System>, player: Identity) -> Seq<System>
    decreases visited.len(),
{
    if visited.len() == 0 {
        seq![]
    } else {
        let rest = spec_visited_systems(visited.drop_last(), systems, player);
        let v = visited.last();
        if v.player_id == player && spec_is_visible(v.visited_status) {
            match first_match(systems, system_with_id(v.system_id)) {
                Some(s) => rest.push(s),
                None => rest,
            }
        } else {
            rest
        }
    }
}

pub open spec fn spec_sectors_where(sectors: Seq<Sector>, p: spec_fn(Sector) -> bool) -> Seq<Sector>
    decreases sectors.len(),
{
    if sectors.len() == 0 {
        seq![]
    } else {
        let rest = spec_sectors_where(sectors.drop_last(), p);
        if p(sectors.last()) {
            rest.push(sectors.last())
        } else {
            rest
        }
    }
}

pub open spec fn spec_current_system_visible_sectors(
    player_states: Seq<PlayerState>,
    sectors: Seq<Sector>,
    visited: Seq<VisitedSector>,
    player: Identity,
) -> Seq<Sector> {
    match first_match(player_states, player_state_of(player)) {
        None => seq![],
        Some(p) => spec_sectors_where(
            sectors,
            |s: Sector| s.system_id == p.current_system_id && player_has_visit(visited, player, s.id),
        ),
    }
}

/// Some state of this player is in this sector.
pub open spec fn player_in_sector(player_states: Seq<PlayerState>, player: Identity, sector_id: u64) -> bool {
    exists|i: int| 0 <= i < player_states.len() && #[trigger] player_states[i].id == player
        && player_states[i].current_sector_id == sector_id
}

pub open spec fn spec_ships_in_player_sector(player_states: Seq<PlayerState>, ships: Seq<ShipRecord>, player: Identity) -> Seq<ShipRecord>
    decreases ships.len(),
{
    if ships.len() == 0 {
        seq![]
    } else {
        let rest = spec_ships_in_player_sector(player_states, ships.drop_last(), player);
        if player_in_sector(player_states, player, ships.last().sector_id) {
            rest.push(ships.last())
        } else {
            rest
        }
    }
}

pub open spec fn spec_bullets_in_player_sector(player_states: Seq<PlayerState>, bullets: Seq<BulletRecord>, player: Identity) -> Seq<BulletRecord>
    decreases bullets.len(),
{
    if bullets.len() == 0 {
        seq![]
    } else {
        let rest = spec_bullets_in_player_sector(player_states, bullets.drop_last(), player);
        if player_in_sector(player_states, player, bullets.last().sector_id) {
            rest.push(bullets.last())
        } else {
            rest
        }
    }
}

/// The player has a visit row for this sector.
pub open spec fn player_has_visit(visited: Seq<VisitedSector>, player: Identity, sector_id: u64) -> bool {
    exists|i: int| 0 <= i < visited.len() && #[trigger] visited[i].player_id == player
        && visited[i].sector_id == sector_id
}

pub open spec fn spec_travel_to_sector(
    ships: Seq<ShipRecord>,
    player_states: Seq<PlayerState>,
    sectors: Seq<Sector>,
    visited: Seq<VisitedSector>,
    player: Identity,
    sector_id: u64,
) -> Result<TravelPlan, TravelError> {
    match first_match(ships, ship_of_player(player)) {
        None => Err(TravelError::ShipNotFound),
        Some(ship) => match first_match(player_states, player_state_of(player)) {
            None => Err(TravelError::PlayerStateNotFound),
            Some(state) => match first_match(sectors, sector_with_id(sector_id)) {
                None => Err(TravelError::SectorNotFound),
                Some(target) => match first_match(sectors, sector_with_id(ship.sector_id)) {
                    None => Err(TravelError::CurrentSectorNotFound),
                    Some(current) => if current.system_id != target.system_id {
                        Err(TravelError::CrossSystem)
                    } else {
                        Ok(TravelPlan {
                            ship: ShipRecord { sector_id: sector_id, ..ship },
                            player_state: PlayerState { current_sector_id: sector_id, ..state },
                            new_visit: if player_has_visit(visited, player, sector_id) {
                                None
                            } else {
                                Some(VisitedSector {
                                    id: 0,
                                    player_id: player,
                                    sector_id: sector_id,
                                    visited_status: VisitedStatus::Visited,
                                })
                            },
                        })
                    },
                },
            },
        },
    }
}

pub open spec fn spec_spawn_plan(player: Identity, now: Timestamp) -> SpawnPlan {
    SpawnPlan {
        ship: ShipRecord {
            id: 0,
            player_id: player,
            sector_id: STARTING_SECTOR_ID,
            ship_config_id: DEFAULT_SHIP_CONFIG_ID,
            input_state: InputState { is_thrusting: false, is_breaking: false, turn_direction: 0 },
            last_fired: now,
            movement_updated_at: now.micros_since_unix_epoch,
        },
        player_state: PlayerState {
            id: player,
            current_system_id: STARTING_SYSTEM_ID,
            current_sector_id: STARTING_SECTOR_ID,
        },
        visited_sector: VisitedSector {
            id: 0,
            player_id: player,
            sector_id: STARTING_SECTOR_ID,
            visited_status: VisitedStatus::Visited,
        },
        visited_system: VisitedSystem {
            id: 0,
            player_id: player,
            system_id: STARTING_SYSTEM_ID,
            visited_status: VisitedStatus::Visited,
        },
    }
}

/// A player's state, looked up by the player's identity.
pub fn find_player_state(player_states: &Vec<PlayerState>, player: Identity) -> (r: Option<PlayerState>)
    ensures
        r == first_match(player_states@, player_state_of(player)),
{
    let ghost pred = player_state_of(player);
    let matches = |row: &PlayerState| -> (b: bool)
        ensures
            b == (row.id == player),
        { row.id.same_as(&player) };
    find_first(player_states, matches, Ghost(pred))
}

/// A sector, looked up by its primary key.
pub fn find_sector(sectors: &Vec<Sector>, id: u64) -> (r: Option<Sector>)
    ensures
        r == first_match(sectors@, sector_with_id(id)),
{
    let ghost pred = sector_with_id(id);
    let matches = |row: &Sector| -> (b: bool)
        ensures
            b == (row.id == id),
        { row.id == id };
    find_first(sectors, matches, Ghost(pred))
}

/// A system, looked up by its primary key.
pub fn find_system(systems: &Vec<System>, id: u32) -> (r: Option<System>)
    ensures
        r == first_match(systems@, system_with_id(id)),
{
    let mut i: usize = 0;
    proof {
        lemma_first_match_start(systems@, system_with_id(id));
    }
    while i < systems.len()
        invariant
            i <= systems.len(),
            first_match(systems@, system_with_id(id)) == first_match(systems@.skip(i as int), system_with_id(id)),
        decreases systems.len() - i,
    {
        proof {
            lemma_first_match_step(systems@, system_with_id(id), i as int);
        }
        if systems[i].id == id {
            return Some(systems[i].clone());
        }
        i += 1;
    }
    proof {
        lemma_first_match_end(systems@, system_with_id(id));
    }
    None
}

/// The rows that mark every public sector of the player's current system
/// as observed. Nothing when the player has no state yet.
pub fn observe_all_public_sectors(player_states: &Vec<PlayerState>, sectors: &Vec<Sector>, player: Identity) -> (r: Vec<VisitedSector>)
    ensures
        r@ == spec_observe_all_public_sectors(player_states@, sectors@, player),
{
    let current_system_id = match find_player_state(player_states, player) {
        Some(state) => state.current_system_id,
        None => return Vec::new(),
    };
    let mut out: Vec<VisitedSector> = Vec::new();
    let mut i: usize = 0;
    while i < sectors.len()
        invariant
            i <= sectors.len(),
            out@ == spec_observations(sectors@.take(i as int), current_system_id, player),
        decreases sectors.len() - i,
    {
        let sector = sectors[i];
        proof {
            assert(sectors@.take(i + 1).drop_last() =~= sectors@.take(i as int));
        }
        if sector.system_id == current_system_id && sector.is_public {
            out.push(VisitedSector {
                id: 0,
                player_id: player,
                sector_id: sector.id,
                visited_status: VisitedStatus::Observed,
            });
        }
        i += 1;
    }
    proof {
        assert(sectors@.take(sectors@.len() as int) =~= sectors@);
    }
    out
}

/// The player's own state row, if any.
pub fn my_player_state(player_states: &Vec<PlayerState>, player: Identity) -> (r: Vec<PlayerState>)
    ensures
        r@ == (match first_match(player_states@, player_state_of(player)) {
            Some(p) => seq![p],
            None => Seq::<PlayerState>::empty(),
        }),
{
    match find_player_state(player_states, player) {
        Some(p) => {
            let mut v: Vec<PlayerState> = Vec::new();
            v.push(p);
            v
        },
        None => Vec::new(),
    }
}

/// Every system the player has visited or observed, each looked up by the
/// system id of the player's visit row; a row whose system is missing is
/// skipped.
pub fn my_visited_systems(visited_systems: &Vec<VisitedSystem>, systems: &Vec<System>, player: Identity) -> (r: Vec<System>)
    ensures
        r@ == spec_visited_systems(visited_systems@, systems@, player),
{
    let mut out: Vec<System> = Vec::new();
    let mut i: usize = 0;
    while i < visited_systems.len()
        invariant
            i <= visited_systems.len(),
            out@ == spec_visited_systems(visited_systems@.take(i as int), systems@, player),
        decreases visited_systems.len() - i,
    {
        let v = visited_systems[i];
        proof {
            assert(visited_systems@.take(i + 1).drop_last() =~= visited_systems@.take(i as int));
        }
        if v.player_id.same_as(&player) && v.visited_status.is_visible() {
            match find_system(systems, v.system_id) {
                Some(s) => out.push(s),
                None => {},
            }
        }
        i += 1;
    }
    proof {
        assert(visited_systems@.take(visited_systems@.len() as int) =~= visited_systems@);
    }
    out
}

/// The sectors of the player's current system that the player has a visit
/// row for (from visiting or from observing). A player without state sees
/// no sector.
pub fn current_system_visible_sectors(
    player_states: &Vec<PlayerState>,
    sectors: &Vec<Sector>,
    visited_sectors: &Vec<VisitedSector>,
    player: Identity,
) -> (r: Vec<Sector>)
    ensures
        r@ == spec_current_system_visible_sectors(player_states@, sectors@, visited_sectors@, player),
{
    let state = match find_player_state(player_states, player) {
        None => {
            return Vec::new();
        },
        Some(st) => st,
    };
    let ghost p: spec_fn(Sector) -> bool = |s: Sector| s.system_id == state.current_system_id
        && player_has_visit(visited_sectors@, player, s.id);
    let mut out: Vec<Sector> = Vec::new();
    let mut i: usize = 0;
    while i < sectors.len()
        invariant
            i <= sectors.len(),
            p == (|s: Sector| s.system_id == state.current_system_id
                && player_has_visit(visited_sectors@, player, s.id)),
            out@ == spec_sectors_where(sectors@.take(i as int), p),
        decreases sectors.len() - i,
    {
        let sector = sectors[i];
        proof {
            assert(sectors@.take(i + 1).drop_last() =~= sectors@.take(i as int));
        }
        if sector.system_id == state.current_system_id && has_player_visit(visited_sectors, player, sector.id) {
            out.push(sector);
        }
        i += 1;
    }
    proof {
        assert(sectors@.take(sectors@.len() as int) =~= sectors@);
    }
    out
}

/// Whether the player has a state row placing it in the sector.
fn in_player_sector(player_states: &Vec<PlayerState>, player: Identity, sector_id: u64) -> (r: bool)
    ensures
        r == player_in_sector(player_states@, player, sector_id),
{
    let mut i: usize = 0;
    while i < player_states.len()
        invariant
            i <= player_states.len(),
            forall|j: int| 0 <= j < i ==> !(#[trigger] player_states@[j].id == player
                && player_states@[j].current_sector_id == sector_id),
        decreases player_states.len() - i,
    {
        if player_states[i].id.same_as(&player) && player_states[i].current_sector_id == sector_id {
            return true;
        }
        i += 1;
    }
    false
}

/// The ships in the player's current sector.
pub fn current_sector_ships(player_states: &Vec<PlayerState>, ships: &Vec<ShipRecord>, player: Identity) -> (r: Vec<ShipRecord>)
    ensures
        r@ == spec_ships_in_player_sector(player_states@, ships@, player),
{
    let mut out: Vec<ShipRecord> = Vec::new();
    let mut i: usize = 0;
    while i < ships.len()
        invariant
            i <= ships.len(),
            out@ == spec_ships_in_player_sector(player_states@, ships@.take(i as int), player),
        decreases ships.len() - i,
    {
        let ship = ships[i];
        proof {
            assert(ships@.take(i + 1).drop_last() =~= ships@.take(i as int));
        }
        if in_player_sector(player_states, player, ship.sector_id) {
            out.push(ship);
        }
        i += 1;
    }
    proof {
        assert(ships@.take(ships@.len() as int) =~= ships@);
    }
    out
}

/// The bullets in the player's current sector.
pub fn current_sector_bullets(player_states: &Vec<PlayerState>, bullets: &Vec<BulletRecord>, player: Identity) -> (r: Vec<BulletRecord>)
    ensures
        r@ == spec_bullets_in_player_sector(player_states@, bullets@, player),
{
    let mut out: Vec<BulletRecord> = Vec::new();
    let mut i: usize = 0;
    while i < bullets.len()
        invariant
            i <= bullets.len(),
            out@ == spec_bullets_in_player_sector(player_states@, bullets@.take(i as int), player),
        decreases bullets.len() - i,
    {
        let bullet = bullets[i];
        proof {
            assert(bullets@.take(i + 1).drop_last() =~= bullets@.take(i as int));
        }
        if in_player_sector(player_states, player, bullet.sector_id) {
            out.push(bullet);
        }
        i += 1;
    }
    proof {
        assert(bullets@.take(bullets@.len() as int) =~= bullets@);
    }
    out
}

/// Whether the player has a visit row for the sector.
fn has_player_visit(visited: &Vec<VisitedSector>, player: Identity, sector_id: u64) -> (r: bool)
    ensures
        r == player_has_visit(visited@, player, sector_id),
{
    let mut i: usize = 0;
    while i < visited.len()
        invariant
            i <= visited.len(),
            forall|j: int| 0 <= j < i ==> !(#[trigger] visited@[j].player_id == player
                && visited@[j].sector_id == sector_id),
        decreases visited.len() - i,
    {
        if visited[i].player_id.same_as(&player) && visited[i].sector_id == sector_id {
            return true;
        }
        i += 1;
    }
    false
}

/// The checks and writes of a jump to another sector of the same system.
pub fn travel_to_sector(
    ships: &Vec<ShipRecord>,
    player_states: &Vec<PlayerState>,
    sectors: &Vec<Sector>,
    visited_sectors: &Vec<VisitedSector>,
    player: Identity,
    sector_id: u64,
) -> (r: Result<TravelPlan, TravelError>)
    ensures
        r == spec_travel_to_sector(ships@, player_states@, sectors@, visited_sectors@, player, sector_id),
{
    let ship = match find_ship_by_player(ships, player) {
        Some(s) => s,
        None => return Err(TravelError::ShipNotFound),
    };
    let state = match find_player_state(player_states, player) {
        Some(s) => s,
        None => return Err(TravelError::PlayerStateNotFound),
    };
    let target = match find_sector(sectors, sector_id) {
        Some(s) => s,
        None => return Err(TravelError::SectorNotFound),
    };
    let current = match find_sector(sectors, ship.sector_id) {
        Some(s) => s,
        None => return Err(TravelError::CurrentSectorNotFound),
    };
    if current.system_id != target.system_id {
        return Err(TravelError::CrossSystem);
    }
    let new_visit = if has_player_visit(visited_sectors, player, sector_id) {
        None
    } else {
        Some(VisitedSector { id: 0, player_id: player, sector_id, visited_status: VisitedStatus::Visited })
    };
    Ok(TravelPlan {
        ship: ShipRecord { sector_id, ..ship },
        player_state: PlayerState { current_sector_id: sector_id, ..state },
        new_visit,
    })
}

/// The rows written when a player without a ship spawns one at `now`: an
/// idle ship of the default configuration in the starting sector, last
/// fired and moved at `now`; `Ok(None)` when the player already flies a
/// ship; and an error (the whole spawn is undone) when the player has no
/// ship but already has a state row, whose key the new state row would
/// repeat.
pub fn spawn_ship(ships: &Vec<ShipRecord>, player_states: &Vec<PlayerState>, player: Identity, now: Timestamp) -> (r: Result<Option<SpawnPlan>, SpawnError>)
    ensures
        first_match(ships@, ship_of_player(player)) is Some ==> r == Ok::<Option<SpawnPlan>, SpawnError>(None),
        first_match(ships@, ship_of_player(player)) is None && first_match(player_states@, player_state_of(player)) is Some
            ==> r == Err::<Option<SpawnPlan>, SpawnError>(SpawnError::PlayerStateExists),
        first_match(ships@, ship_of_player(player)) is None && first_match(player_states@, player_state_of(player)) is None
            ==> r == Ok::<Option<SpawnPlan>, SpawnError>(Some(spec_spawn_plan(player, now))),
{
    if find_ship_by_player(ships, player).is_some() {
        return Ok(None);
    }
    if find_player_state(player_states, player).is_some() {
        return Err(SpawnError::PlayerStateExists);
    }
    Ok(Some(SpawnPlan {
        ship: ShipRecord {
            id: 0,
            player_id: player,
            sector_id: STARTING_SECTOR_ID,
            ship_config_id: DEFAULT_SHIP_CONFIG_ID,
            input_state: InputState::default(),
            last_fired: now,
            movement_updated_at: now.to_micros_since_unix_epoch(),
        },
        player_state: PlayerState {
            id: player,
            current_system_id: STARTING_SYSTEM_ID,
            current_sector_id: STARTING_SECTOR_ID,
        },
        visited_sector: VisitedSector {
            id: 0,
            player_id: player,
            sector_id: STARTING_SECTOR_ID,
            visited_status: VisitedStatus::Visited,
        },
        visited_system: VisitedSystem {
            id: 0,
            player_id: player,
            system_id: STARTING_SYSTEM_ID,
            visited_status: VisitedStatus::Visited,
        },
    }))
}


pub open spec fn seed_sector(id: u64, system_id: u32, x: i32, y: i32, is_public: bool) -> Sector {
    Sector { id: id, system_id: system_id, x: x, y: y, is_public: is_public }
}

/// The sectors the universe is seeded with, in the order they are created.
pub open spec fn spec_seed_sectors() -> Seq<Sector> {
    seq![
        seed_sector(1, 1, 0, 0, true),
        seed_sector(2, 1, 5, 0, true),
        seed_sector(3, 1, 15, 0, false),
        seed_sector(20, 2, 0, 0, true),
        seed_sector(30, 3, 0, 0, true),
    ]
}

/// The sectors the universe is seeded with: three in system 1 (the third
/// private), one each in systems 2 and 3.
pub fn seed_sectors() -> (r: Vec<Sector>)
    ensures
        r@ == spec_seed_sectors(),
{
    let mut v: Vec<Sector> = Vec::new();
    v.push(Sector { id: 1, system_id: 1, x: 0, y: 0, is_public: true });
    v.push(Sector { id: 2, system_id: 1, x: 5, y: 0, is_public: true });
    v.push(Sector { id: 3, system_id: 1, x: 15, y: 0, is_public: false });
    v.push(Sector { id: 20, system_id: 2, x: 0, y: 0, is_public: true });
    v.push(Sector { id: 30, system_id: 3, x: 0, y: 0, is_public: true });
    v
}

/// The star systems the universe is seeded with: Sol (1), Alpha Centauri
/// (2) and Tau Ceti (3).
pub fn seed_systems() -> (r: Vec<System>)
    ensures
        r@.len() == 3,
        r@[0].id == 1 && r@[0].name@ == "Sol"@,
        r@[1].id == 2 && r@[1].name@ == "Alpha Centauri"@,
        r@[2].id == 3 && r@[2].name@ == "Tau Ceti"@,
{
    let mut v: Vec<System> = Vec::new();
    v.push(System { id: 1, name: "Sol".to_owned() });
    v.push(System { id: 2, name: "Alpha Centauri".to_owned() });
    v.push(System { id: 3, name: "Tau Ceti".to_owned() });
    v
}

/// Every observation row is the player's, marks a sector observed, and
/// names a public sector of the given system.
pub proof fn lemma_observations_are_public(sectors: Seq<Sector>, system_id: u32, player: Identity)
    ensures
        forall|k: int| 0 <= k < spec_observations(sectors, system_id, player).len() ==> {
            let o = #[trigger] spec_observations(sectors, system_id, player)[k];
            &&& o.player_id == player
            &&& o.visited_status == VisitedStatus::Observed
            &&& exists|i: int| 0 <= i < sectors.len() && #[trigger] sectors[i].id == o.sector_id
                && sectors[i].is_public && sectors[i].system_id == system_id
        },
    decreases sectors.len(),
{
    if sectors.len() > 0 {
        let rest = sectors.drop_last();
        lemma_observations_are_public(rest, system_id, player);
        let obs = spec_observations(sectors, system_id, player);
        assert forall|k: int| 0 <= k < obs.len() implies {
            let o = #[trigger] obs[k];
            &&& o.player_id == player
            &&& o.visited_status == VisitedStatus::Observed
            &&& exists|i: int| 0 <= i < sectors.len() && #[trigger] sectors[i].id == o.sector_id
                && sectors[i].is_public && sectors[i].system_id == system_id
        } by {
            let rest_obs = spec_observations(rest, system_id, player);
            if k < rest_obs.len() {
                let o = rest_obs[k];
                let i = choose|i: int| 0 <= i < rest.len() && #[trigger] rest[i].id == o.sector_id
                    && rest[i].is_public && rest[i].system_id == system_id;
                assert(sectors[i] == rest[i]);
            } else {
                assert(sectors[sectors.len() - 1] == sectors.last());
            }
        }
    }
}

/// The player has a visit row of the system that is visible.
pub open spec fn has_visible_visit(visited: Seq<VisitedSystem>, player: Identity, system_id: u32) -> bool {
    exists|i: int| 0 <= i < visited.len() && #[trigger] visited[i].system_id == system_id
        && visited[i].player_id == player && spec_is_visible(visited[i].visited_status)
}

/// Every system listed for a player has a visible visit row of that player.
pub proof fn lemma_visited_systems_are_visible(visited: Seq<VisitedSystem>, systems: Seq<System>, player: Identity)
    ensures
        forall|k: int| 0 <= k < spec_visited_systems(visited, systems, player).len() ==>
            has_visible_visit(visited, player, (#[trigger] spec_visited_systems(visited, systems, player)[k]).id),
    decreases visited.len(),
{
    if visited.len() > 0 {
        let rest = visited.drop_last();
        lemma_visited_systems_are_visible(rest, systems, player);
        let out = spec_visited_systems(visited, systems, player);
        let rest_out = spec_visited_systems(rest, systems, player);
        let v = visited.last();
        crate::table::lemma_first_match_found(systems, system_with_id(v.system_id));
        assert forall|k: int| 0 <= k < out.len() implies has_visible_visit(visited, player, (#[trigger] out[k]).id) by {
            if k < rest_out.len() {
                assert(out[k] == rest_out[k]);
                assert(has_visible_visit(rest, player, rest_out[k].id));
                let i = choose|i: int| 0 <= i < rest.len() && #[trigger] rest[i].system_id == rest_out[k].id
                    && rest[i].player_id == player && spec_is_visible(rest[i].visited_status);
                assert(visited[i] == rest[i]);
            } else {
                assert(visited[visited.len() - 1] == v);
            }
        }
    }
}

/// After an accepted jump the ship and the player are both in the target
/// sector, which lies in the system they came from, and a visit row is
/// written exactly when the player had none for that sector.
pub proof fn lemma_travel_lands_in_target(
    ships: Seq<ShipRecord>,
    player_states: Seq<PlayerState>,
    sectors: Seq<Sector>,
    visited: Seq<VisitedSector>,
    player: Identity,
    sector_id: u64,
)
    ensures
        spec_travel_to_sector(ships, player_states, sectors, visited, player, sector_id) matches Ok(plan) ==> {
            &&& plan.ship.sector_id == sector_id
            &&& plan.ship.player_id == player
            &&& plan.player_state.current_sector_id == sector_id
            &&& plan.player_state.id == player
            &&& (plan.new_visit is None <==> player_has_visit(visited, player, sector_id))
            &&& (plan.new_visit matches Some(v) ==> v.player_id == player && v.sector_id == sector_id
                && v.visited_status == VisitedStatus::Visited)
        },
{
    crate::table::lemma_first_match_found(ships, ship_of_player(player));
    crate::table::lemma_first_match_found(player_states, player_state_of(player));
}

/// A new player's ship, state and first visit all name the starting sector,
/// of the starting system, which is seeded public in that system; the ship
/// belongs to the player and starts idle.
pub proof fn lemma_spawn_is_consistent(player: Identity, now: Timestamp)
    ensures
        ({
            let plan = spec_spawn_plan(player, now);
            &&& plan.ship.player_id == player && plan.player_state.id == player
            &&& plan.ship.sector_id == plan.player_state.current_sector_id
            &&& !plan.ship.input_state.is_thrusting && !plan.ship.input_state.is_breaking
            &&& plan.ship.input_state.turn_direction == 0
            &&& plan.player_state.current_sector_id == plan.visited_sector.sector_id
            &&& plan.player_state.current_system_id == plan.visited_system.system_id
            &&& first_match(spec_seed_sectors(), sector_with_id(STARTING_SECTOR_ID))
                == Some(seed_sector(STARTING_SECTOR_ID, STARTING_SYSTEM_ID, 0, 0, true))
        }),
{
    reveal_with_fuel(first_match, 2);
}


/// A player is sent exactly the ships of its own current sector: a ship is
/// listed if and only if it is in the table and a state row of the player
/// (not of any other player) names the ship's sector.
pub proof fn lemma_sector_view_is_exact(player_states: Seq<PlayerState>, ships: Seq<ShipRecord>, player: Identity)
    ensures
        forall|s: ShipRecord| spec_ships_in_player_sector(player_states, ships, player).contains(s)
            <==> (ships.contains(s) && exists|i: int| 0 <= i < player_states.len()
                && #[trigger] player_states[i].id == player && player_states[i].current_sector_id == s.sector_id),
    decreases ships.len(),
{
    if ships.len() > 0 {
        let rest = ships.drop_last();
        lemma_sector_view_is_exact(player_states, rest, player);
        let out = spec_ships_in_player_sector(player_states, ships, player);
        let rest_out = spec_ships_in_player_sector(player_states, rest, player);
        assert forall|s: ShipRecord| out.contains(s) <==> (ships.contains(s) && player_in_sector(player_states, player, s.sector_id)) by {
            if out.contains(s) {
                let k = choose|k: int| 0 <= k < out.len() && out[k] == s;
                if k < rest_out.len() {
                    assert(out[k] == rest_out[k]);
                    assert(rest_out.contains(s));
                    assert(rest.contains(s));
                    let j = choose|j: int| 0 <= j < rest.len() && rest[j] == s;
                    assert(ships[j] == s);
                } else {
                    assert(out == rest_out.push(ships.last()));
                    assert(ships[ships.len() - 1] == s);
                }
            }
            if ships.contains(s) && player_in_sector(player_states, player, s.sector_id) {
                let j = choose|j: int| 0 <= j < ships.len() && ships[j] == s;
                if j < ships.len() - 1 {
                    assert(rest[j] == s);
                    assert(rest.contains(s));
                    let k = choose|k: int| 0 <= k < rest_out.len() && rest_out[k] == s;
                    assert(out[k] == s);
                } else {
                    assert(out[out.len() - 1] == s);
                }
            }
        }
    }
}

/// A player is sent exactly the bullets of its own current sector: a bullet
/// is listed if and only if it is in the table and a state row of the
/// player (not of any other player) names the bullet's sector.
pub proof fn lemma_bullet_view_is_exact(player_states: Seq<PlayerState>, bullets: Seq<BulletRecord>, player: Identity)
    ensures
        forall|b: BulletRecord| spec_bullets_in_player_sector(player_states, bullets, player).contains(b)
            <==> (bullets.contains(b) && exists|i: int| 0 <= i < player_states.len()
                && #[trigger] player_states[i].id == player && player_states[i].current_sector_id == b.sector_id),
    decreases bullets.len(),
{
    if bullets.len() > 0 {
        let rest = bullets.drop_last();
        lemma_bullet_view_is_exact(player_states, rest, player);
        let out = spec_bullets_in_player_sector(player_states, bullets, player);
        let rest_out = spec_bullets_in_player_sector(player_states, rest, player);
        assert forall|b: BulletRecord| out.contains(b) <==> (bullets.contains(b) && player_in_sector(player_states, player, b.sector_id)) by {
            if out.contains(b) {
                let k = choose|k: int| 0 <= k < out.len() && out[k] == b;
                if k < rest_out.len() {
                    assert(out[k] == rest_out[k]);
                    assert(rest_out.contains(b));
                    assert(rest.contains(b));
                    let j = choose|j: int| 0 <= j < rest.len() && rest[j] == b;
                    assert(bullets[j] == b);
                } else {
                    assert(out == rest_out.push(bullets.last()));
                    assert(bullets[bullets.len() - 1] == b);
                }
            }
            if bullets.contains(b) && player_in_sector(player_states, player, b.sector_id) {
                let j = choose|j: int| 0 <= j < bullets.len() && bullets[j] == b;
                if j < bullets.len() - 1 {
                    assert(rest[j] == b);
                    assert(rest.contains(b));
                    let k = choose|k: int| 0 <= k < rest_out.len() && rest_out[k] == b;
                    assert(out[k] == b);
                } else {
                    assert(out[out.len() - 1] == b);
                }
            }
        }
    }
}

/// Every sector listed as visible lies in the player's current system and
/// has a visit row of that player.
pub proof fn lemma_visible_sectors_in_current_system(
    player_states: Seq<PlayerState>,
    sectors: Seq<Sector>,
    visited: Seq<VisitedSector>,
    player: Identity,
    p: PlayerState,
)
    requires
        first_match(player_states, player_state_of(player)) == Some(p),
    ensures
        forall|k: int| 0 <= k < spec_current_system_visible_sectors(player_states, sectors, visited, player).len() ==> {
            let s = #[trigger] spec_current_system_visible_sectors(player_states, sectors, visited, player)[k];
            s.system_id == p.current_system_id && player_has_visit(visited, player, s.id)
        },
{
    let pred = |s: Sector| s.system_id == p.current_system_id && player_has_visit(visited, player, s.id);
    lemma_sectors_where_satisfy(sectors, pred);
}

/// What a filter over sectors keeps satisfies its predicate.
pub proof fn lemma_sectors_where_satisfy(sectors: Seq<Sector>, p: spec_fn(Sector) -> bool)
    ensures
        forall|k: int| 0 <= k < spec_sectors_where(sectors, p).len() ==> p(#[trigger] spec_sectors_where(sectors, p)[k]),
    decreases sectors.len(),
{
    if sectors.len() > 0 {
        lemma_sectors_where_satisfy(sectors.drop_last(), p);
        let out = spec_sectors_where(sectors, p);
        let rest_out = spec_sectors_where(sectors.drop_last(), p);
        assert forall|k: int| 0 <= k < out.len() implies p(#[trigger] out[k]) by {
            if k < rest_out.len() {
                assert(out[k] == rest_out[k]);
            }
        }
    }
}


/// Why a sector row is refused: its key, or its (x, y) position, which the
/// table also keeps unique, is taken.
#[derive(Clone, Copy, Debug, PartialEq, Eq, Structural)]
pub enum SectorInsertError {
    DuplicateId,
    DuplicatePosition,
}

pub open spec fn sector_id_taken(table: Seq<Sector>, id: u64) -> bool {
    exists|i: int| 0 <= i < table.len() && #[trigger] table[i].id == id
}

pub open spec fn sector_position_taken(table: Seq<Sector>, x: i32, y: i32) -> bool {
    exists|i: int| 0 <= i < table.len() && #[trigger] table[i].x == x && table[i].y == y
}

/// Adds a sector to the table unless its key or its position is taken; a
/// refused row leaves the table as it was.
pub fn insert_sector(table: &mut Vec<Sector>, sector: Sector) -> (r: Result<(), SectorInsertError>)
    ensures
        sector_id_taken(old(table)@, sector.id) ==> r == Err::<(), SectorInsertError>(SectorInsertError::DuplicateId)
            && final(table)@ == old(table)@,
        !sector_id_taken(old(table)@, sector.id) && sector_position_taken(old(table)@, sector.x, sector.y)
            ==> r == Err::<(), SectorInsertError>(SectorInsertError::DuplicatePosition) && final(table)@ == old(table)@,
        !sector_id_taken(old(table)@, sector.id) && !sector_position_taken(old(table)@, sector.x, sector.y)
            ==> r == Ok::<(), SectorInsertError>(()) && final(table)@ == old(table)@.push(sector),
{
    let mut id_taken = false;
    let mut position_taken = false;
    let mut i: usize = 0;
    while i < table.len()
        invariant
            i <= table@.len(),
            table@ == old(table)@,
            id_taken == (exists|j: int| 0 <= j < i && #[trigger] table@[j].id == sector.id),
            position_taken == (exists|j: int| 0 <= j < i && #[trigger] table@[j].x == sector.x && table@[j].y == sector.y),
        decreases table@.len() - i,
    {
        if table[i].id == sector.id {
            id_taken = true;
        }
        if table[i].x == sector.x && table[i].y == sector.y {
            position_taken = true;
        }
        i += 1;
    }
    if id_taken {
        Err(SectorInsertError::DuplicateId)
    } else if position_taken {
        Err(SectorInsertError::DuplicatePosition)
    } else {
        table.push(sector);
        Ok(())
    }
}

} // verus!
