use solarance::identity::{Identity, Timestamp};
use solarance::input::InputState;
use solarance::ships::ShipRecord;
use solarance::world::{
    current_sector_bullets, current_sector_ships, current_system_visible_sectors, find_sector,
    my_player_state, my_visited_systems, observe_all_public_sectors, seed_sectors, seed_systems,
    insert_sector, spawn_ship, travel_to_sector, PlayerState, Sector, SectorInsertError, SpawnError, System,
    TravelError, VisitedSector,
    VisitedStatus, VisitedSystem, STARTING_SECTOR_ID, STARTING_SYSTEM_ID,
};
use solarance::ships::BulletRecord;

fn player(n: u128) -> Identity {
    Identity::from_halves(0, n)
}

fn ship(id: u64, who: u128, sector_id: u64) -> ShipRecord {
    ShipRecord {
        id,
        player_id: player(who),
        sector_id,
        ship_config_id: 1,
        input_state: InputState::default(),
        last_fired: Timestamp::from_micros_since_unix_epoch(0),
        movement_updated_at: 0,
    }
}

fn state(who: u128, system: u32, sector: u64) -> PlayerState {
    PlayerState { id: player(who), current_system_id: system, current_sector_id: sector }
}

fn visit(who: u128, sector_id: u64, status: VisitedStatus) -> VisitedSector {
    VisitedSector { id: 0, player_id: player(who), sector_id, visited_status: status }
}

#[test]
fn visibility_of_statuses() {
    assert!(!VisitedStatus::Unvisited.is_visible());
    assert!(VisitedStatus::Observed.is_visible());
    assert!(VisitedStatus::Visited.is_visible());
}

#[test]
fn seeds() {
    let sectors = seed_sectors();
    let ids: Vec<u64> = sectors.iter().map(|s| s.id).collect();
    assert_eq!(ids, vec![1, 2, 3, 20, 30]);
    assert_eq!(sectors[2], Sector { id: 3, system_id: 1, x: 15, y: 0, is_public: false });
    let systems = seed_systems();
    let names: Vec<&str> = systems.iter().map(|s| s.name.as_str()).collect();
    assert_eq!(names, vec!["Sol", "Alpha Centauri", "Tau Ceti"]);
}

#[test]
fn observe_public_sectors_of_current_system() {
    let sectors = seed_sectors();
    let states = vec![state(1, 1, 1)];
    let obs = observe_all_public_sectors(&states, &sectors, player(1));
    assert_eq!(obs, vec![visit(1, 1, VisitedStatus::Observed), visit(1, 2, VisitedStatus::Observed)]);
    assert_eq!(observe_all_public_sectors(&states, &sectors, player(2)), vec![]);
    let states = vec![state(1, 2, 20)];
    assert_eq!(observe_all_public_sectors(&states, &sectors, player(1)), vec![visit(1, 20, VisitedStatus::Observed)]);
}

#[test]
fn player_state_view() {
    let states = vec![state(1, 1, 1), state(2, 1, 2)];
    assert_eq!(my_player_state(&states, player(2)), vec![state(2, 1, 2)]);
    assert_eq!(my_player_state(&states, player(3)), vec![]);
}

#[test]
fn visited_systems_view() {
    let systems = seed_systems();
    let visited = vec![
        VisitedSystem { id: 1, player_id: player(1), system_id: 1, visited_status: VisitedStatus::Visited },
        VisitedSystem { id: 2, player_id: player(1), system_id: 2, visited_status: VisitedStatus::Unvisited },
        VisitedSystem { id: 3, player_id: player(2), system_id: 3, visited_status: VisitedStatus::Visited },
        VisitedSystem { id: 4, player_id: player(1), system_id: 3, visited_status: VisitedStatus::Observed },
        VisitedSystem { id: 5, player_id: player(1), system_id: 9, visited_status: VisitedStatus::Visited },
    ];
    let got: Vec<u32> = my_visited_systems(&visited, &systems, player(1)).iter().map(|s: &System| s.id).collect();
    assert_eq!(got, vec![1, 3]);
}

#[test]
fn visible_sectors_view() {
    let sectors = seed_sectors();
    let states = vec![state(1, 1, 1)];
    let visits = vec![visit(2, 3, VisitedStatus::Visited), visit(1, 1, VisitedStatus::Visited), visit(1, 20, VisitedStatus::Visited)];
    let got: Vec<u64> = current_system_visible_sectors(&states, &sectors, &visits, player(1)).iter().map(|s| s.id).collect();
    assert_eq!(got, vec![1]);
    // A sector only another player has visited stays hidden.
    let private = vec![Sector { id: 5, system_id: 1, x: 7, y: 7, is_public: false }];
    let others = vec![visit(2, 5, VisitedStatus::Visited)];
    assert!(current_system_visible_sectors(&states, &private, &others, player(1)).is_empty());
    let mine = vec![visit(1, 5, VisitedStatus::Observed)];
    assert_eq!(current_system_visible_sectors(&states, &private, &mine, player(1)).len(), 1);
    // Without state nothing is listed, whatever the sectors' ids.
    assert!(current_system_visible_sectors(&states, &sectors, &visits, player(5)).is_empty());
    let zero = vec![Sector { id: 0, system_id: 1, x: 1, y: 1, is_public: true }];
    let zero_visit = vec![visit(5, 0, VisitedStatus::Visited)];
    assert!(current_system_visible_sectors(&states, &zero, &zero_visit, player(5)).is_empty());
    assert!(current_system_visible_sectors(&vec![], &zero, &vec![], player(5)).is_empty());
}

#[test]
fn sector_scoped_views() {
    let states = vec![state(1, 1, 2)];
    let ships = vec![ship(1, 1, 2), ship(2, 2, 1), ship(3, 3, 2)];
    let got: Vec<u64> = current_sector_ships(&states, &ships, player(1)).iter().map(|s| s.id).collect();
    assert_eq!(got, vec![1, 3]);
    assert!(current_sector_ships(&states, &ships, player(2)).is_empty());
    let bullets = vec![
        BulletRecord { id: 4, player_id: player(2), sector_id: 2, lifetime: 0, movement_updated_at: 0 },
        BulletRecord { id: 5, player_id: player(2), sector_id: 1, lifetime: 0, movement_updated_at: 0 },
    ];
    let got: Vec<u32> = current_sector_bullets(&states, &bullets, player(1)).iter().map(|b| b.id).collect();
    assert_eq!(got, vec![4]);
}

#[test]
fn travel_within_system() {
    let sectors = seed_sectors();
    let ships = vec![ship(7, 1, 1)];
    let states = vec![state(1, 1, 1)];
    let visits = vec![visit(1, 1, VisitedStatus::Visited)];
    let plan = travel_to_sector(&ships, &states, &sectors, &visits, player(1), 2).unwrap();
    assert_eq!(plan.ship.sector_id, 2);
    assert_eq!(plan.player_state, state(1, 1, 2));
    assert_eq!(plan.new_visit, Some(visit(1, 2, VisitedStatus::Visited)));
    // Travelling back records no new visit.
    let plan = travel_to_sector(&ships, &states, &sectors, &visits, player(1), 1).unwrap();
    assert_eq!(plan.new_visit, None);
}

#[test]
fn travel_errors() {
    let sectors = seed_sectors();
    let visits = vec![];
    let ships = vec![ship(7, 1, 1), ship(8, 2, 99)];
    let states = vec![state(1, 1, 1), state(2, 1, 99)];
    assert_eq!(travel_to_sector(&ships, &states, &sectors, &visits, player(3), 2), Err(TravelError::ShipNotFound));
    assert_eq!(travel_to_sector(&ships, &vec![], &sectors, &visits, player(1), 2), Err(TravelError::PlayerStateNotFound));
    assert_eq!(travel_to_sector(&ships, &states, &sectors, &visits, player(1), 4), Err(TravelError::SectorNotFound));
    assert_eq!(travel_to_sector(&ships, &states, &sectors, &visits, player(2), 2), Err(TravelError::CurrentSectorNotFound));
    assert_eq!(travel_to_sector(&ships, &states, &sectors, &visits, player(1), 20), Err(TravelError::CrossSystem));
}

#[test]
fn spawn_plan() {
    let ships = vec![ship(7, 1, 1)];
    let states = vec![state(1, 1, 1), state(3, 1, 1)];
    let now = Timestamp::from_micros_since_unix_epoch(1_234_567);
    assert_eq!(spawn_ship(&ships, &states, player(1), now), Ok(None));
    assert_eq!(spawn_ship(&ships, &states, player(3), now), Err(SpawnError::PlayerStateExists));
    let plan = spawn_ship(&ships, &states, player(2), now).unwrap().unwrap();
    assert_eq!(
        plan.ship,
        ShipRecord {
            id: 0,
            player_id: player(2),
            sector_id: 1,
            ship_config_id: 1,
            input_state: InputState { is_thrusting: false, is_breaking: false, turn_direction: 0 },
            last_fired: now,
            movement_updated_at: 1_234_567,
        }
    );
    assert_eq!(plan.player_state, state(2, STARTING_SYSTEM_ID, STARTING_SECTOR_ID));
    assert_eq!(plan.visited_sector, visit(2, 1, VisitedStatus::Visited));
    assert_eq!(plan.visited_system.system_id, 1);
    assert_eq!(plan.visited_system.visited_status, VisitedStatus::Visited);
    let start = find_sector(&seed_sectors(), STARTING_SECTOR_ID).unwrap();
    assert!(start.is_public);
    assert_eq!(start.system_id, STARTING_SYSTEM_ID);
}

#[test]
fn sector_inserts_keep_keys_and_positions_unique() {
    let mut table = Vec::new();
    for sector in seed_sectors() {
        let _ = insert_sector(&mut table, sector);
    }
    let ids: Vec<u64> = table.iter().map(|s| s.id).collect();
    assert_eq!(ids, vec![1, 2, 3]);
    assert_eq!(
        insert_sector(&mut table, Sector { id: 2, system_id: 9, x: 99, y: 99, is_public: true }),
        Err(SectorInsertError::DuplicateId)
    );
    assert_eq!(
        insert_sector(&mut table, Sector { id: 40, system_id: 9, x: 5, y: 0, is_public: true }),
        Err(SectorInsertError::DuplicatePosition)
    );
    assert_eq!(insert_sector(&mut table, Sector { id: 40, system_id: 9, x: 5, y: 1, is_public: true }), Ok(()));
    assert_eq!(table.len(), 4);
}
