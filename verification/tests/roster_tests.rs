use solarance::identity::Identity;
use solarance::motion::extrapolation_span;
use solarance::roster::Roster;

fn player(n: u128) -> Identity {
    Identity::from_halves(n, 0)
}

#[test]
fn upsert_get_remove() {
    let mut r: Roster<Identity, &str> = Roster::new();
    assert_eq!(r.count(), 0);
    r.upsert(player(1), "a");
    r.upsert(player(2), "b");
    assert_eq!(r.count(), 2);
    assert_eq!(r.get(&player(1)), Some("a"));
    r.upsert(player(1), "c");
    assert_eq!(r.count(), 2);
    assert_eq!(r.get(&player(1)), Some("c"));
    r.remove(&player(1));
    assert_eq!(r.get(&player(1)), None);
    assert!(!r.contains(&player(1)));
    assert!(r.contains(&player(2)));
    assert_eq!(r.count(), 1);
    r.remove(&player(7));
    assert_eq!(r.count(), 1);
}

#[test]
fn sync_replaces_everything_last_row_wins() {
    let mut r: Roster<u32, i32> = Roster::new();
    r.upsert(9, 9);
    r.sync_from_rows(vec![(1, 10), (2, 20), (1, 11)]);
    assert_eq!(r.count(), 2);
    assert_eq!(r.get(&1), Some(11));
    assert_eq!(r.get(&2), Some(20));
    assert_eq!(r.get(&9), None);
    let mut all = r.get_all();
    all.sort();
    assert_eq!(all, vec![11, 20]);
}

#[test]
fn extrapolation_guard() {
    assert_eq!(extrapolation_span(0, 100), None);
    assert_eq!(extrapolation_span(100, 100), None);
    assert_eq!(extrapolation_span(100, 50), None);
    assert_eq!(extrapolation_span(1, 1_000_001), Some(1_000_000));
}
