use solarance::combat::{
    bullet_lifetime, check_fire_cooldown, check_hit_claim, fire_weapons, is_expired, may_hit,
    FireError, HitError, BULLET_LIFETIME_MICROS, FIRE_COOLDOWN_MICROS,
};
use solarance::identity::{Identity, Timestamp};
use solarance::input::InputState;
use solarance::ships::{BulletRecord, ShipRecord};

fn player(n: u128) -> Identity {
    Identity::from_halves(0, n)
}

fn ship(id: u64, who: u128, sector_id: u64, last_fired: i64, movement_updated_at: i64) -> ShipRecord {
    ShipRecord {
        id,
        player_id: player(who),
        sector_id,
        ship_config_id: 1,
        input_state: InputState::default(),
        last_fired: Timestamp::from_micros_since_unix_epoch(last_fired),
        movement_updated_at,
    }
}

fn bullet(id: u32, who: u128, sector_id: u64, lifetime: i64) -> BulletRecord {
    BulletRecord { id, player_id: player(who), sector_id, lifetime, movement_updated_at: lifetime - BULLET_LIFETIME_MICROS }
}

fn ts(m: i64) -> Timestamp {
    Timestamp::from_micros_since_unix_epoch(m)
}

#[test]
fn cooldown_constants() {
    assert_eq!(FIRE_COOLDOWN_MICROS, 500_000);
    assert_eq!(BULLET_LIFETIME_MICROS, 1_000_000);
}

#[test]
fn cooldown_boundaries() {
    assert_eq!(check_fire_cooldown(ts(1_000_000), ts(1_499_999)), Err(FireError::TooSoon));
    assert_eq!(check_fire_cooldown(ts(1_000_000), ts(1_500_000)), Ok(()));
    assert_eq!(check_fire_cooldown(ts(i64::MAX - 10), ts(i64::MAX)), Err(FireError::CooldownOverflow));
}

#[test]
fn fire_accepted() {
    let ships = vec![ship(7, 1, 3, 0, 2_000_000)];
    let plan = fire_weapons(&ships, player(1), ts(1_000_000), 1_900_000).unwrap();
    assert_eq!(
        plan.bullet,
        BulletRecord { id: 0, player_id: player(1), sector_id: 3, lifetime: 2_900_000, movement_updated_at: 1_900_000 }
    );
    assert!(plan.from_snapshot);
    assert_eq!(plan.shooter, ShipRecord { last_fired: ts(1_900_000), ..ships[0] });
}

#[test]
fn fire_refusals() {
    let ships = vec![ship(7, 1, 3, 1_000_000, 0)];
    assert_eq!(fire_weapons(&ships, player(2), ts(9_000_000), 0), Err(FireError::ShipNotFound));
    assert_eq!(fire_weapons(&ships, player(1), ts(1_200_000), 1_200_000), Err(FireError::TooSoon));
    let late = fire_weapons(&ships, player(1), ts(1_600_000), 1_600_000).unwrap();
    assert!(!late.from_snapshot);
}

#[test]
fn second_shot_needs_cooldown_from_first() {
    let mut ships = vec![ship(7, 1, 3, 0, 0)];
    let first = fire_weapons(&ships, player(1), ts(10_000_000), 10_000_000).unwrap();
    ships[0] = first.shooter;
    assert_eq!(fire_weapons(&ships, player(1), ts(10_400_000), 10_400_000), Err(FireError::TooSoon));
    assert!(fire_weapons(&ships, player(1), ts(10_500_000), 10_500_000).is_ok());
}

#[test]
fn lifetime_is_one_second() {
    assert_eq!(bullet_lifetime(5), 1_000_005);
}

#[test]
fn expiry_and_friendly_fire() {
    assert!(!is_expired(100, 100));
    assert!(is_expired(99, 100));
    assert!(may_hit(player(1), player(2)));
    assert!(!may_hit(player(1), player(1)));
}

#[test]
fn hit_claim_accepted() {
    let ships = vec![ship(1, 10, 5, 0, 100), ship(2, 20, 5, 0, 300)];
    let bullets = vec![bullet(9, 10, 5, 1_000_000)];
    let claim = check_hit_claim(&ships, &bullets, player(10), 2, 9, 200, 500).unwrap();
    assert_eq!(claim.hit_ship.id, 2);
    assert_eq!(claim.bullet.id, 9);
    assert!(claim.ship_from_snapshot);
    assert!(!claim.bullet_from_snapshot);
}

#[test]
fn hit_claim_errors_in_order() {
    let ships = vec![ship(1, 10, 5, 0, 0), ship(2, 20, 5, 0, 0), ship(3, 30, 6, 0, 0)];
    let bullets = vec![bullet(9, 10, 5, 1_000_000), bullet(8, 20, 5, 1_000_000)];
    assert_eq!(check_hit_claim(&ships, &bullets, player(99), 2, 9, 0, 0), Err(HitError::ShipNotFound));
    assert_eq!(check_hit_claim(&ships, &bullets, player(10), 42, 9, 0, 0), Err(HitError::ShipNotFound));
    assert_eq!(check_hit_claim(&ships, &bullets, player(10), 3, 9, 0, 0), Err(HitError::DifferentSector));
    assert_eq!(check_hit_claim(&ships, &bullets, player(10), 2, 77, 0, 0), Err(HitError::BulletNotFound));
    assert_eq!(check_hit_claim(&ships, &bullets, player(10), 2, 8, 0, 0), Err(HitError::ShooterShip));
    assert_eq!(check_hit_claim(&ships, &bullets, player(10), 2, 9, 0, 1_000_001), Err(HitError::Expired));
    assert!(check_hit_claim(&ships, &bullets, player(10), 2, 9, 0, 1_000_000).is_ok());
}
