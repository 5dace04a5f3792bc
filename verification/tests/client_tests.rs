use solarance::client::{first_hit, BulletManager, ShipManager, TrackedBullet};
use solarance::identity::Identity;

fn player(n: u128) -> Identity {
    Identity::from_halves(0, n)
}

fn bullet(who: u128, lifetime: i64, body: &'static str) -> TrackedBullet<&'static str> {
    TrackedBullet { player_id: player(who), lifetime, body }
}

#[test]
fn ship_manager_tracks_ships() {
    let mut m: ShipManager<u32> = ShipManager::new();
    assert_eq!(m.count(), 0);
    m.upsert_ship(player(1), 10);
    m.upsert_ship(player(2), 20);
    m.upsert_ship(player(1), 11);
    assert_eq!(m.count(), 2);
    assert_eq!(m.get_ship(&player(1)), Some(11));
    m.remove_ship(&player(1));
    assert_eq!(m.get_ship(&player(1)), None);
    m.sync_from_db(vec![(player(3), 30), (player(4), 40)]);
    let mut all = m.get_all();
    all.sort();
    assert_eq!(all, vec![30, 40]);
    assert!(m.get_server_time().is_some());
}

#[test]
fn bullet_manager_drops_expired_on_sync() {
    let mut m: BulletManager<&'static str> = BulletManager::new();
    m.sync_from_db(vec![(1, bullet(1, 100, "a")), (2, bullet(1, 99, "b")), (3, bullet(2, 500, "c"))], 100);
    assert_eq!(m.bullets.len(), 2);
    assert!(m.bullets.contains_key(&1));
    assert!(!m.bullets.contains_key(&2));
    let mut expired = m.expired_ids(200);
    expired.sort();
    assert_eq!(expired, vec![1]);
    m.remove_bullet(1);
    assert!(m.expired_ids(200).is_empty());
    assert_eq!(m.expired_ids(501), vec![3]);
}

#[test]
fn first_hit_skips_shooter_and_out_of_range() {
    let candidates = vec![(player(1), true), (player(2), false), (player(3), true), (player(4), true)];
    assert_eq!(first_hit(player(1), &candidates), Some(2));
    assert_eq!(first_hit(player(9), &candidates), Some(0));
    assert_eq!(first_hit(player(1), &vec![(player(1), true), (player(2), false)]), None);
    assert_eq!(first_hit(player(1), &vec![]), None);
}

#[test]
fn collision_pass_reports_each_bullet_once_and_drops_it() {
    let mut m: BulletManager<&'static str> = BulletManager::new();
    m.sync_from_db(
        vec![(1, bullet(1, 1_000, "a")), (2, bullet(2, 1_000, "b")), (3, bullet(1, 50, "c")), (4, bullet(3, 1_000, "d"))],
        0,
    );
    let in_range = vec![(player(1), true), (player(2), true)];
    let checks = vec![
        // Bullet 1 (shooter 1) skips its shooter's ship and hits the second.
        (1, in_range.clone()),
        // Bullet 2 (shooter 2) hits the first ship.
        (2, in_range.clone()),
        // Bullet 1 again: already reported and dropped.
        (1, in_range.clone()),
        // Bullet 3 has expired at time 100, whatever it was measured against.
        (3, in_range.clone()),
        // Bullet 4 is out of range of every ship: it stays.
        (4, vec![(player(1), false), (player(2), false)]),
        // An id that is not tracked.
        (9, in_range.clone()),
    ];
    let reports = m.check_collisions(100, &checks);
    assert_eq!(reports, vec![(1, 1), (2, 0)]);
    assert_eq!(m.bullets.len(), 1);
    assert!(m.bullets.contains_key(&4));
    // A second pass with the same checks reports nothing.
    assert!(m.check_collisions(100, &checks).is_empty());
    assert_eq!(m.bullets.len(), 1);
}
