//! Weapons: the fire-rate limit, bullet lifetimes, and the checks a
//! reported bullet hit must pass before the server measures it.

use vstd::prelude::*;
use crate::identity::{Identity, TimeDuration, Timestamp, spec_checked_add};
use crate::ships::{
    BulletRecord, ShipRecord, bullet_with_id, find_bullet_by_id, find_ship_by_id,
    find_ship_by_player, ship_of_player, ship_with_id,
};
use crate::table::first_match;

verus! {

/// A ship may fire at most once per half second.
pub const FIRE_COOLDOWN_MICROS: i64 = 500_000;

/// A bullet lives for one second after it was fired.
pub const BULLET_LIFETIME_MICROS: i64 = 1_000_000;

#[derive(Clone, Copy, Debug, PartialEq, Eq, Structural)]
pub enum FireError {
    /// The sender has no ship.
    ShipNotFound,
    /// The cooldown since the last shot has not passed.
    TooSoon,
    /// The end of the cooldown is not a representable timestamp.
    CooldownOverflow,
}

/// What the server writes when a shot is accepted.
#[derive(Clone, Copy, Debug, PartialEq, Eq, Structural)]
pub struct FirePlan {
    /// The shooter's row, last fired at the time the client fired at.
    pub shooter: ShipRecord,
    /// The new bullet: the sender's, in the shooter's sector, expiring one
    /// lifetime after the firing time, its flight snapshot taken at the
    /// firing time. Its key is left 0: the table assigns it on insert.
    pub bullet: BulletRecord,
    /// Whether the shot leaves from the ship's stored position and heading
    /// (the client fired before the stored snapshot) rather than from its
    /// predicted ones.
    pub from_snapshot: bool,
}

#[derive(Clone, Copy, Debug, PartialEq, Eq, Structural)]
pub enum HitError {
    /// The reporter or the ship said to be hit does not exist.
    ShipNotFound,
    /// The reporter is in another sector than the ship said to be hit.
    DifferentSector,
    BulletNotFound,
    /// The ship said to be hit fired the bullet.
    ShooterShip,
    /// The bullet has expired. The request fails and leaves the tables as
    /// they were (the bullet among them).
    Expired,
}

/// A hit claim that passed the checks: what remains is to compare the two
/// positions at the claimed time.
#[derive(Clone, Copy, Debug, PartialEq, Eq, Structural)]
pub struct HitClaim {
    pub hit_ship: ShipRecord,
    pub bullet: BulletRecord,
    /// The claimed time is before the ship's snapshot: use the stored position.
    pub ship_from_snapshot: bool,
    /// The claimed time is before the bullet's snapshot: use the stored position.
    pub bullet_from_snapshot: bool,
}

pub open spec fn spec_fire_check(last_fired: Timestamp, now: Timestamp) -> Result<(), FireError> {
    match spec_checked_add(last_fired, TimeDuration { micros: FIRE_COOLDOWN_MICROS }) {
        Some(ready_at) => if ready_at.micros_since_unix_epoch > now.micros_since_unix_epoch {
            Err(FireError::TooSoon)
        } else {
            Ok(())
        },
        None => Err(FireError::CooldownOverflow),
    }
}

pub open spec fn spec_fire_weapons(ships: Seq<ShipRecord>, sender: Identity, now: Timestamp, fired_at: i64) -> Result<FirePlan, FireError> {
    match first_match(ships, ship_of_player(sender)) {
        None => Err(FireError::ShipNotFound),
        Some(ship) => match spec_fire_check(ship.last_fired, now) {
            Err(e) => Err(e),
            Ok(_) => Ok(FirePlan {
                shooter: ShipRecord { last_fired: Timestamp { micros_since_unix_epoch: fired_at }, ..ship },
                bullet: BulletRecord {
                    id: 0,
                    player_id: sender,
                    sector_id: ship.sector_id,
                    lifetime: (fired_at + BULLET_LIFETIME_MICROS) as i64,
                    movement_updated_at: fired_at,
                },
                from_snapshot: fired_at < ship.movement_updated_at,
            }),
        },
    }
}

/// The lifetime of a bullet can be computed for a shot that gets that far.
pub open spec fn fire_lifetime_fits(ships: Seq<ShipRecord>, sender: Identity, now: Timestamp, fired_at: i64) -> bool {
    match first_match(ships, ship_of_player(sender)) {
        Some(ship) => spec_fire_check(ship.last_fired, now) is Ok ==> fired_at + BULLET_LIFETIME_MICROS <= i64::MAX,
        None => true,
    }
}

/// Whether a bullet with this lifetime has expired at `now`.
pub open spec fn spec_is_expired(lifetime: i64, now: i64) -> bool {
    lifetime < now
}

pub open spec fn spec_check_hit_claim(
    ships: Seq<ShipRecord>,
    bullets: Seq<BulletRecord>,
    sender: Identity,
    hit_ship_id: u64,
    bullet_id: u32,
    hit_at: i64,
    now: i64,
) -> Result<HitClaim, HitError> {
    match first_match(ships, ship_of_player(sender)) {
        None => Err(HitError::ShipNotFound),
        Some(reporter) => match first_match(ships, ship_with_id(hit_ship_id)) {
            None => Err(HitError::ShipNotFound),
            Some(hit_ship) => if reporter.sector_id != hit_ship.sector_id {
                Err(HitError::DifferentSector)
            } else {
                match first_match(bullets, bullet_with_id(bullet_id)) {
                    None => Err(HitError::BulletNotFound),
                    Some(bullet) => if hit_ship.player_id == bullet.player_id {
                        Err(HitError::ShooterShip)
                    } else if spec_is_expired(bullet.lifetime, now) {
                        Err(HitError::Expired)
                    } else {
                        Ok(HitClaim {
                            hit_ship: hit_ship,
                            bullet: bullet,
                            ship_from_snapshot: hit_at < hit_ship.movement_updated_at,
                            bullet_from_snapshot: hit_at < bullet.movement_updated_at,
                        })
                    },
                }
            },
        },
    }
}

/// The fire-rate limit: refuses a shot until the cooldown since the last
/// one has passed.
pub fn check_fire_cooldown(last_fired: Timestamp, now: Timestamp) -> (r: Result<(), FireError>)
    ensures
        r == spec_fire_check(last_fired, now),
{
    match last_fired.checked_add(TimeDuration::from_micros(FIRE_COOLDOWN_MICROS)) {
        Some(ready_at) => {
            if ready_at.is_after(&now) {
                Err(FireError::TooSoon)
            } else {
                Ok(())
            }
        },
        None => Err(FireError::CooldownOverflow),
    }
}

/// When a bullet fired at `fired_at` expires.
pub fn bullet_lifetime(fired_at: i64) -> (r: i64)
    requires
        fired_at + BULLET_LIFETIME_MICROS <= i64::MAX,
    ensures
        r == fired_at + BULLET_LIFETIME_MICROS,
{
    fired_at + BULLET_LIFETIME_MICROS
}

/// The decisions of a weapons request from `sender` received at `now` for
/// a shot the client fired at `fired_at`.
pub fn fire_weapons(ships: &Vec<ShipRecord>, sender: Identity, now: Timestamp, fired_at: i64) -> (r: Result<FirePlan, FireError>)
    requires
        fire_lifetime_fits(ships@, sender, now, fired_at),
    ensures
        r == spec_fire_weapons(ships@, sender, now, fired_at),
{
    let ship = match find_ship_by_player(ships, sender) {
        Some(ship) => ship,
        None => return Err(FireError::ShipNotFound),
    };
    let from_snapshot = fired_at < ship.movement_updated_at;
    match check_fire_cooldown(ship.last_fired, now) {
        Err(e) => Err(e),
        Ok(()) => Ok(FirePlan {
            shooter: ShipRecord { last_fired: Timestamp::from_micros_since_unix_epoch(fired_at), ..ship },
            bullet: BulletRecord {
                id: 0,
                player_id: sender,
                sector_id: ship.sector_id,
                lifetime: bullet_lifetime(fired_at),
                movement_updated_at: fired_at,
            },
            from_snapshot,
        }),
    }
}

/// Whether a bullet with this lifetime has expired at `now`. Clients drop
/// such bullets and the server refuses hits by them.
pub fn is_expired(lifetime: i64, now: i64) -> (r: bool)
    ensures
        r == spec_is_expired(lifetime, now),
{
    lifetime < now
}

/// Whether a bullet may hit a ship: never the ship of its own shooter.
pub fn may_hit(bullet_player: Identity, ship_player: Identity) -> (r: bool)
    ensures
        r == (bullet_player != ship_player),
{
    !bullet_player.same_as(&ship_player)
}

/// The checks of a hit claim sent by `sender`, in the order the server
/// makes them, and whether each position is the stored or the predicted one.
pub fn check_hit_claim(
    ships: &Vec<ShipRecord>,
    bullets: &Vec<BulletRecord>,
    sender: Identity,
    hit_ship_id: u64,
    bullet_id: u32,
    hit_at: i64,
    now: i64,
) -> (r: Result<HitClaim, HitError>)
    ensures
        r == spec_check_hit_claim(ships@, bullets@, sender, hit_ship_id, bullet_id, hit_at, now),
{
    let reporter = match find_ship_by_player(ships, sender) {
        Some(s) => s,
        None => return Err(HitError::ShipNotFound),
    };
    let hit_ship = match find_ship_by_id(ships, hit_ship_id) {
        Some(s) => s,
        None => return Err(HitError::ShipNotFound),
    };
    if reporter.sector_id != hit_ship.sector_id {
        return Err(HitError::DifferentSector);
    }
    let bullet = match find_bullet_by_id(bullets, bullet_id) {
        Some(b) => b,
        None => return Err(HitError::BulletNotFound),
    };
    if hit_ship.player_id.same_as(&bullet.player_id) {
        return Err(HitError::ShooterShip);
    }
    if is_expired(bullet.lifetime, now) {
        return Err(HitError::Expired);
    }
    Ok(HitClaim {
        hit_ship,
        bullet,
        ship_from_snapshot: hit_at < hit_ship.movement_updated_at,
        bullet_from_snapshot: hit_at < bullet.movement_updated_at,
    })
}

/// A shot is accepted only once the cooldown since the sender's last shot
/// has passed, and then the bullet is the sender's, in the shooter's
/// sector, lives exactly one second from the firing time, and the
/// shooter's last-fired time becomes the firing time, its other columns
/// unchanged.
pub proof fn lemma_fire_respects_cooldown(ships: Seq<ShipRecord>, sender: Identity, now: Timestamp, fired_at: i64)
    requires
        fire_lifetime_fits(ships, sender, now, fired_at),
    ensures
        spec_fire_weapons(ships, sender, now, fired_at) matches Ok(plan) ==> exists|ship: ShipRecord| {
            &&& #[trigger] ships.contains(ship)
            &&& ship.player_id == sender
            &&& now.micros_since_unix_epoch >= ship.last_fired.micros_since_unix_epoch + FIRE_COOLDOWN_MICROS
            &&& plan.shooter == ShipRecord { last_fired: Timestamp { micros_since_unix_epoch: fired_at }, ..ship }
            &&& plan.bullet.player_id == sender
            &&& plan.bullet.sector_id == ship.sector_id
            &&& plan.bullet.lifetime == fired_at + BULLET_LIFETIME_MICROS
        },
{
    crate::table::lemma_first_match_found(ships, ship_of_player(sender));
    if let Some(ship) = first_match(ships, ship_of_player(sender)) {
        assert(ships.contains(ship));
    }
}

/// Any client with a ship in the hit ship's sector may report a hit, by
/// whoever's bullet. In tables whose keys are unique (ship ids, one ship per
/// player, bullet ids), a claim that passes the server's checks (the
/// reporter has a ship, the hit ship exists in the reporter's sector, the
/// bullet exists, is not the hit ship's owner's, and has not expired at
/// `now`) is accepted, naming that ship and that bullet, with each position
/// taken from the snapshot exactly when the claimed time precedes it.
pub proof fn lemma_hit_claim_accepted_from_any_reporter(
    ships: Seq<ShipRecord>,
    bullets: Seq<BulletRecord>,
    sender: Identity,
    hit_at: i64,
    now: i64,
    reporter: ShipRecord,
    hit_ship: ShipRecord,
    bullet: BulletRecord,
)
    requires
        forall|i: int, j: int| #![trigger ships[i], ships[j]]
            0 <= i < ships.len() && 0 <= j < ships.len() && ships[i].id == ships[j].id ==> i == j,
        forall|i: int, j: int| #![trigger ships[i], ships[j]]
            0 <= i < ships.len() && 0 <= j < ships.len() && ships[i].player_id == ships[j].player_id ==> i == j,
        forall|i: int, j: int| #![trigger bullets[i], bullets[j]]
            0 <= i < bullets.len() && 0 <= j < bullets.len() && bullets[i].id == bullets[j].id ==> i == j,
        ships.contains(reporter),
        reporter.player_id == sender,
        ships.contains(hit_ship),
        reporter.sector_id == hit_ship.sector_id,
        bullets.contains(bullet),
        bullet.player_id != hit_ship.player_id,
        now <= bullet.lifetime,
    ensures
        spec_check_hit_claim(ships, bullets, sender, hit_ship.id, bullet.id, hit_at, now)
            == Ok::<HitClaim, HitError>(HitClaim {
                hit_ship: hit_ship,
                bullet: bullet,
                ship_from_snapshot: hit_at < hit_ship.movement_updated_at,
                bullet_from_snapshot: hit_at < bullet.movement_updated_at,
            }),
{
    crate::table::lemma_first_match_only(ships, ship_of_player(sender), reporter);
    crate::table::lemma_first_match_only(ships, ship_with_id(hit_ship.id), hit_ship);
    crate::table::lemma_first_match_only(bullets, bullet_with_id(bullet.id), bullet);
}

/// An accepted hit claim names an unexpired bullet that hits a ship in the
/// reporter's sector and not its own shooter.
pub proof fn lemma_accepted_hit_is_plausible(
    ships: Seq<ShipRecord>,
    bullets: Seq<BulletRecord>,
    sender: Identity,
    hit_ship_id: u64,
    bullet_id: u32,
    hit_at: i64,
    now: i64,
)
    ensures
        spec_check_hit_claim(ships, bullets, sender, hit_ship_id, bullet_id, hit_at, now) matches Ok(claim) ==> {
            &&& claim.hit_ship.id == hit_ship_id
            &&& claim.bullet.id == bullet_id
            &&& claim.hit_ship.player_id != claim.bullet.player_id
            &&& !spec_is_expired(claim.bullet.lifetime, now)
            &&& exists|reporter: ShipRecord| #[trigger] ships.contains(reporter) && reporter.player_id == sender
                && reporter.sector_id == claim.hit_ship.sector_id
        },
{
    crate::table::lemma_first_match_found(ships, ship_of_player(sender));
    crate::table::lemma_first_match_found(ships, ship_with_id(hit_ship_id));
    crate::table::lemma_first_match_found(bullets, bullet_with_id(bullet_id));
}

} // verus!
