//! What a client keeps between database syncs: the ships and bullets of
//! its sector, each with a flight snapshot that the application
//! extrapolates every frame, and its estimate of the server clock.

use vstd::prelude::*;
use crate::clock::ClockSync;
use crate::combat::{is_expired, may_hit, spec_is_expired};
use crate::identity::Identity;
use std::collections::HashMap;
use vstd::std_specs::iter::IteratorSpec;
use crate::roster::{Roster, fold_map};

verus! {

/// Ships by their owner's identity. `S` is the application's ship data.
pub struct ShipManager<S> {
    pub ships: Roster<Identity, S>,
    pub clock_sync: ClockSync,
}

impl<S> ShipManager<S> {
    pub fn new() -> (r: Self)
        ensures
            r.ships@ == Map::<Identity, S>::empty(),
            r.clock_sync@ == 0,
    {
        ShipManager { ships: Roster::new(), clock_sync: ClockSync::new() }
    }

    /// Replaces the tracked ships with those of a database sync; a later
    /// row overrides an earlier one of the same owner.
    pub fn sync_from_db(&mut self, rows: Vec<(Identity, S)>)
        ensures
            final(self).ships@ == fold_map(rows@),
            final(self).clock_sync@ == old(self).clock_sync@,
    {
        self.ships.sync_from_rows(rows);
    }

    /// Adds or updates one ship.
    pub fn upsert_ship(&mut self, entity_id: Identity, ship: S)
        ensures
            final(self).ships@ == old(self).ships@.insert(entity_id, ship),
            final(self).clock_sync@ == old(self).clock_sync@,
    {
        self.ships.upsert(entity_id, ship);
    }

    /// Forgets one ship.
    pub fn remove_ship(&mut self, entity_id: &Identity)
        ensures
            final(self).ships@ == old(self).ships@.remove(*entity_id),
            final(self).clock_sync@ == old(self).clock_sync@,
    {
        self.ships.remove(entity_id);
    }

    /// How many ships are tracked.
    pub fn count(&self) -> (r: usize)
        ensures
            r == self.ships@.len(),
    {
        self.ships.count()
    }

    /// Current server time estimate.
    pub fn get_server_time(&self) -> (r: Option<i64>)
        ensures
            r matches Some(t) ==> crate::clock::fits_i64(t - self.clock_sync@),
    {
        self.clock_sync.get_server_time()
    }
}

impl<S: Clone> ShipManager<S> {
    /// A copy of every tracked ship, each once, in no promised order.
    pub fn get_all(&self) -> (r: Vec<S>)
        ensures
            exists|ids: Seq<Identity>| {
                &&& ids.len() == r@.len()
                &&& ids.no_duplicates()
                &&& forall|k: Identity| self.ships@.contains_key(k) <==> ids.contains(k)
                &&& forall|i: int| 0 <= i < ids.len() ==> cloned(self.ships@[ids[i]], #[trigger] r@[i])
            },
    {
        self.ships.get_all()
    }

    /// A copy of one ship.
    pub fn get_ship(&self, entity_id: &Identity) -> (r: Option<S>)
        ensures
            r is Some <==> self.ships@.contains_key(*entity_id),
            r matches Some(s) ==> cloned(self.ships@[*entity_id], s),
    {
        self.ships.get(entity_id)
    }
}

/// A bullet as a client tracks it: its shooter, its expiry and the
/// application's flight data `B`.
pub struct TrackedBullet<B> {
    pub player_id: Identity,
    /// When the bullet expires, in microseconds since the epoch.
    pub lifetime: i64,
    pub body: B,
}

/// The rows of a sync that are still alive at `now`, in order.
pub open spec fn spec_live_rows<B>(rows: Seq<(u32, TrackedBullet<B>)>, now: i64) -> Seq<(u32, TrackedBullet<B>)>
    decreases rows.len(),
{
    if rows.len() == 0 {
        seq![]
    } else {
        let rest = spec_live_rows(rows.drop_last(), now);
        if spec_is_expired(rows.last().1.lifetime, now) {
            rest
        } else {
            rest.push(rows.last())
        }
    }
}

/// Bullets by id.
pub struct BulletManager<B> {
    pub bullets: HashMap<u32, TrackedBullet<B>>,
    /// server time - client time
    pub server_offset_micros: i64,
}

impl<B> BulletManager<B> {
    pub fn new() -> (r: Self)
        ensures
            r.bullets@ == Map::<u32, TrackedBullet<B>>::empty(),
            r.server_offset_micros == 0,
    {
        BulletManager { bullets: HashMap::new(), server_offset_micros: 0 }
    }

    /// Replaces the tracked bullets with the unexpired ones of a database
    /// sync, judged at server time `now`; a later row overrides an earlier
    /// one with the same id.
    pub fn sync_from_db(&mut self, rows: Vec<(u32, TrackedBullet<B>)>, now: i64)
        ensures
            final(self).bullets@ == fold_map(spec_live_rows(rows@, now)),
            final(self).server_offset_micros == old(self).server_offset_micros,
    {
        broadcast use vstd::std_specs::hash::group_hash_axioms;
        let ghost all = rows@;
        let mut rows = rows;
        let mut live: HashMap<u32, TrackedBullet<B>> = HashMap::new();
        let mut n: usize = 0;
        assert(all.len() == rows.len());
        assert(all.skip(0) =~= all);
        while rows.len() > 0
            invariant
                n <= all.len(),
                all.len() <= usize::MAX,
                rows@ == all.skip(n as int),
                live@ == fold_map(spec_live_rows(all.take(n as int), now)),
            decreases rows@.len(),
        {
            let row = rows.remove(0);
            proof {
                assert(all.take(n + 1).drop_last() =~= all.take(n as int));
                assert(all[n as int] == row);
                assert(rows@ =~= all.skip(n + 1));
            }
            if !is_expired(row.1.lifetime, now) {
                let (id, bullet) = row;
                live.insert(id, bullet);
                proof {
                    let prev = spec_live_rows(all.take(n as int), now);
                    assert(spec_live_rows(all.take(n + 1), now) == prev.push((id, bullet)));
                    assert(prev.push((id, bullet)).drop_last() =~= prev);
                }
            }
            n += 1;
        }
        proof {
            assert(all.take(n as int) =~= all);
        }
        self.bullets = live;
    }

    /// Forgets one bullet.
    pub fn remove_bullet(&mut self, bullet_id: u32)
        ensures
            final(self).bullets@ == old(self).bullets@.remove(bullet_id),
            final(self).server_offset_micros == old(self).server_offset_micros,
    {
        broadcast use vstd::std_specs::hash::group_hash_axioms;
        self.bullets.remove(&bullet_id);
    }

    /// The ids of the tracked bullets that have expired at `now`, each
    /// once, in no promised order.
    pub fn expired_ids(&self, now: i64) -> (r: Vec<u32>)
        ensures
            r@.no_duplicates(),
            forall|id: u32| r@.contains(id) <==> is_expired_entry(self.bullets@, now, id),
    {
        broadcast use vstd::std_specs::hash::group_hash_axioms;
        let ghost pred = |id: u32| is_expired_entry(self.bullets@, now, id);
        let keys = self.bullets.keys();
        let ghost all: Seq<u32> = IteratorSpec::remaining(&keys).unref();
        proof {
            assert(all.to_set() == self.bullets@.dom());
        }
        let mut out: Vec<u32> = Vec::new();
        for id in it: keys
            invariant
                pred == (|id: u32| is_expired_entry(self.bullets@, now, id)),
                all == it.seq().unref(),
                all.to_set() == self.bullets@.dom(),
                out@ == all.take(it.index()).filter(pred),
        {
            proof {
                reveal(Seq::filter);
                assert(all.take(it.index() + 1).drop_last() =~= all.take(it.index()));
                assert(all[it.index()] == *id);
            }
            match self.bullets.get(id) {
                Some(b) => {
                    if is_expired(b.lifetime, now) {
                        out.push(*id);
                    }
                },
                None => {},
            }
        }
        proof {
            assert(all.take(all.len() as int) =~= all);
            assert(all.no_duplicates());
            lemma_filter_no_duplicates(all, pred);
            broadcast use vstd::seq_lib::group_filter_ensures;
            assert forall|id: u32| out@.contains(id) <==> is_expired_entry(self.bullets@, now, id) by {
                if out@.contains(id) {
                    let k = choose|k: int| 0 <= k < out@.len() && out@[k] == id;
                    assert(pred(out@[k]));
                }
                if is_expired_entry(self.bullets@, now, id) {
                    assert(all.to_set().contains(id));
                    let k = choose|k: int| 0 <= k < all.len() && all[k] == id;
                    assert(pred(all[k]));
                    assert(all.filter(pred).contains(all[k]));
                }
            }
        }
        out
    }

    /// One collision pass at `now`. Expired bullets are dropped first;
    /// then, for each check in turn (a bullet id and, for each candidate
    /// ship, its owner and whether the bullet is within hit distance of
    /// it), a bullet still tracked that hits a candidate other than its
    /// shooter's ship is reported with the first such candidate's index and
    /// dropped, so that it is not reported again before the next sync.
    pub fn check_collisions(&mut self, now: i64, checks: &Vec<(u32, Vec<(Identity, bool)>)>) -> (r: Vec<(u32, usize)>)
        ensures
            final(self).bullets@ == spec_collision_pass(spec_unexpired(old(self).bullets@, now), checks@).0,
            r@ == spec_collision_pass(spec_unexpired(old(self).bullets@, now), checks@).1,
            final(self).server_offset_micros == old(self).server_offset_micros,
            final(self).bullets@.submap_of(old(self).bullets@),
            forall|id: u32| is_expired_entry(old(self).bullets@, now, id) ==> !final(self).bullets@.contains_key(id),
            forall|k: int| 0 <= k < r@.len() ==>
                old(self).bullets@.contains_key(#[trigger] r@[k].0) && !final(self).bullets@.contains_key(r@[k].0),
            forall|a: int, b: int| 0 <= a < b < r@.len() ==> #[trigger] r@[a].0 != #[trigger] r@[b].0,
    {
        broadcast use vstd::std_specs::hash::group_hash_axioms;
        let ghost start = self.bullets@;
        let expired = self.expired_ids(now);
        let mut i: usize = 0;
        while i < expired.len()
            invariant
                i <= expired@.len(),
                forall|id: u32| expired@.contains(id) <==> is_expired_entry(start, now, id),
                self.bullets@ == Map::new(
                    |id: u32| start.contains_key(id) && !expired@.take(i as int).contains(id),
                    |id: u32| start[id],
                ),
                self.server_offset_micros == old(self).server_offset_micros,
            decreases expired@.len() - i,
        {
            let id = expired[i];
            self.remove_bullet(id);
            proof {
                let before = expired@.take(i as int);
                let after = expired@.take(i + 1);
                assert forall|k: u32| after.contains(k) <==> (before.contains(k) || k == id) by {
                    if after.contains(k) {
                        let j = choose|j: int| 0 <= j < after.len() && after[j] == k;
                        if j < i {
                            assert(before[j] == k);
                        }
                    }
                    if before.contains(k) {
                        let j = choose|j: int| 0 <= j < before.len() && before[j] == k;
                        assert(after[j] == k);
                    }
                    if k == id {
                        assert(after[i as int] == id);
                    }
                }
                assert(self.bullets@ =~= Map::new(
                    |k: u32| start.contains_key(k) && !expired@.take(i + 1).contains(k),
                    |k: u32| start[k],
                ));
            }
            i += 1;
        }
        let ghost m0 = spec_unexpired(start, now);
        proof {
            assert(expired@.take(expired@.len() as int) =~= expired@);
            assert(self.bullets@ =~= m0);
        }
        let mut reports: Vec<(u32, usize)> = Vec::new();
        let mut i: usize = 0;
        while i < checks.len()
            invariant
                i <= checks@.len(),
                m0 == spec_unexpired(start, now),
                self.bullets@ == spec_collision_pass(m0, checks@.take(i as int)).0,
                reports@ == spec_collision_pass(m0, checks@.take(i as int)).1,
                self.server_offset_micros == old(self).server_offset_micros,
            decreases checks@.len() - i,
        {
            proof {
                assert(checks@.take(i + 1).drop_last() =~= checks@.take(i as int));
            }
            let id = checks[i].0;
            let hit = match self.bullets.get(&id) {
                Some(b) => first_hit(b.player_id, &checks[i].1),
                None => None,
            };
            match hit {
                Some(j) => {
                    self.remove_bullet(id);
                    reports.push((id, j));
                },
                None => {},
            }
            i += 1;
        }
        proof {
            assert(checks@.take(checks@.len() as int) =~= checks@);
            lemma_collision_pass_drops_reported(m0, checks@);
            let left = self.bullets@;
            assert forall|k: u32| #[trigger] left.dom().contains(k) implies
                start.dom().contains(k) && left[k] == start[k] by {
                assert(m0.dom().contains(k));
            }
            assert forall|k: u32| is_expired_entry(start, now, k) implies !left.contains_key(k) by {
                assert(!m0.dom().contains(k));
            }
        }
        reports
    }
}

/// The tracked bullet with this id has expired at `now`.
pub open spec fn is_expired_entry<B>(m: Map<u32, TrackedBullet<B>>, now: i64, id: u32) -> bool {
    m.contains_key(id) && spec_is_expired(m[id].lifetime, now)
}

/// Filtering keeps a sequence free of duplicates.
pub proof fn lemma_filter_no_duplicates<A>(s: Seq<A>, pred: spec_fn(A) -> bool)
    requires
        s.no_duplicates(),
    ensures
        s.filter(pred).no_duplicates(),
    decreases s.len(),
{
    reveal(Seq::filter);
    if s.len() > 0 {
        let rest = s.drop_last();
        assert(rest.no_duplicates());
        lemma_filter_no_duplicates(rest, pred);
        if pred(s.last()) {
            let out = s.filter(pred);
            let prev = rest.filter(pred);
            assert(!prev.contains(s.last())) by {
                if prev.contains(s.last()) {
                    rest.lemma_filter_contains_rev(pred, s.last());
                    let k = choose|k: int| 0 <= k < rest.len() && rest[k] == s.last();
                    assert(s[k] == s[s.len() - 1]);
                }
            }
            assert forall|a: int, c: int| 0 <= a < out.len() && 0 <= c < out.len() && a != c implies out[a] != out[c] by {
                if a == out.len() - 1 {
                    assert(prev[c] == out[c]);
                } else if c == out.len() - 1 {
                    assert(prev[a] == out[a]);
                } else {
                    assert(prev[a] == out[a] && prev[c] == out[c]);
                }
            }
        }
    }
}


/// A sync keeps no bullet that has expired at the time it is judged by, and
/// every bullet it keeps came from the sync.
pub proof fn lemma_live_rows_unexpired<B>(rows: Seq<(u32, TrackedBullet<B>)>, now: i64)
    ensures
        forall|k: int| 0 <= k < spec_live_rows(rows, now).len() ==>
            !spec_is_expired((#[trigger] spec_live_rows(rows, now)[k]).1.lifetime, now)
            && rows.contains(spec_live_rows(rows, now)[k]),
    decreases rows.len(),
{
    if rows.len() > 0 {
        let rest = rows.drop_last();
        lemma_live_rows_unexpired(rest, now);
        let out = spec_live_rows(rows, now);
        let rest_out = spec_live_rows(rest, now);
        assert forall|k: int| 0 <= k < out.len() implies
            !spec_is_expired((#[trigger] out[k]).1.lifetime, now) && rows.contains(out[k]) by {
            if k < rest_out.len() {
                assert(out[k] == rest_out[k]);
                let j = choose|j: int| 0 <= j < rest.len() && rest[j] == rest_out[k];
                assert(rows[j] == out[k]);
            } else {
                assert(rows[rows.len() - 1] == out[k]);
            }
        }
    }
}


/// A candidate counts as hit by a bullet of `bullet_player` when it is in
/// range and is not the shooter's own ship. A candidate is a ship's owner
/// and whether the bullet is within hit distance of that ship.
pub open spec fn is_hit(bullet_player: Identity, candidate: (Identity, bool)) -> bool {
    candidate.1 && candidate.0 != bullet_player
}

/// Candidate `j` is the first one that a bullet of `bullet_player` hits.
pub open spec fn is_first_hit(bullet_player: Identity, candidates: Seq<(Identity, bool)>, j: int) -> bool {
    &&& 0 <= j < candidates.len()
    &&& is_hit(bullet_player, candidates[j])
    &&& forall|k: int| 0 <= k < j ==> !is_hit(bullet_player, #[trigger] candidates[k])
}

/// The first candidate a bullet of `bullet_player` hits, if any.
pub open spec fn spec_first_hit(bullet_player: Identity, candidates: Seq<(Identity, bool)>) -> Option<int> {
    if exists|j: int| is_first_hit(bullet_player, candidates, j) {
        Some(choose|j: int| is_first_hit(bullet_player, candidates, j))
    } else {
        None
    }
}

/// At most one candidate is the first one hit.
proof fn lemma_first_hit_unique(bullet_player: Identity, candidates: Seq<(Identity, bool)>, i: int, j: int)
    requires
        is_first_hit(bullet_player, candidates, i),
        is_first_hit(bullet_player, candidates, j),
    ensures
        i == j,
{
    if i < j {
        assert(!is_hit(bullet_player, candidates[i]));
    }
    if j < i {
        assert(!is_hit(bullet_player, candidates[j]));
    }
}

/// Which ship a bullet is reported to have hit: the first candidate in range
/// that is not the shooter's ship, so each bullet is reported at most once.
pub fn first_hit(bullet_player: Identity, candidates: &Vec<(Identity, bool)>) -> (r: Option<usize>)
    ensures
        r matches Some(j) ==> j < candidates@.len() && is_hit(bullet_player, candidates@[j as int])
            && forall|k: int| 0 <= k < j ==> !is_hit(bullet_player, #[trigger] candidates@[k]),
        r is None ==> forall|k: int| 0 <= k < candidates@.len() ==> !is_hit(bullet_player, #[trigger] candidates@[k]),
        match r {
            Some(j) => spec_first_hit(bullet_player, candidates@) == Some(j as int),
            None => spec_first_hit(bullet_player, candidates@) is None,
        },
{
    let mut i: usize = 0;
    while i < candidates.len()
        invariant
            i <= candidates@.len(),
            forall|k: int| 0 <= k < i ==> !is_hit(bullet_player, #[trigger] candidates@[k]),
        decreases candidates@.len() - i,
    {
        let (owner, in_range) = candidates[i];
        if in_range && may_hit(bullet_player, owner) {
            proof {
                assert(is_first_hit(bullet_player, candidates@, i as int));
                let c = choose|j: int| is_first_hit(bullet_player, candidates@, j);
                lemma_first_hit_unique(bullet_player, candidates@, i as int, c);
            }
            return Some(i);
        }
        i += 1;
    }
    proof {
        assert forall|j: int| !is_first_hit(bullet_player, candidates@, j) by {
            if 0 <= j < candidates@.len() {
                assert(!is_hit(bullet_player, candidates@[j]));
            }
        }
    }
    None
}

/// The tracked bullets that have not expired at `now`.
pub open spec fn spec_unexpired<B>(m: Map<u32, TrackedBullet<B>>, now: i64) -> Map<u32, TrackedBullet<B>> {
    Map::new(|id: u32| m.contains_key(id) && !spec_is_expired(m[id].lifetime, now), |id: u32| m[id])
}

/// A collision pass over `checks`, each a bullet id and the candidate
/// ships it was measured against: a bullet still tracked that hits a
/// candidate is reported with the first candidate it hits, and is dropped.
/// The result is the bullets left and the reports, in the order of the
/// checks.
pub open spec fn spec_collision_pass<B>(
    m: Map<u32, TrackedBullet<B>>,
    checks: Seq<(u32, Vec<(Identity, bool)>)>,
) -> (Map<u32, TrackedBullet<B>>, Seq<(u32, usize)>)
    decreases checks.len(),
{
    if checks.len() == 0 {
        (m, seq![])
    } else {
        let prev = spec_collision_pass(m, checks.drop_last());
        let id = checks.last().0;
        if prev.0.contains_key(id) {
            match spec_first_hit(prev.0[id].player_id, checks.last().1@) {
                Some(j) => (prev.0.remove(id), prev.1.push((id, j as usize))),
                None => prev,
            }
        } else {
            prev
        }
    }
}

/// A collision pass only drops bullets, and each bullet it reports was
/// tracked, is reported once, and is dropped.
pub proof fn lemma_collision_pass_drops_reported<B>(m: Map<u32, TrackedBullet<B>>, checks: Seq<(u32, Vec<(Identity, bool)>)>)
    ensures
        ({
            let (left, reports) = spec_collision_pass(m, checks);
            &&& left.submap_of(m)
            &&& forall|k: int| 0 <= k < reports.len() ==>
                m.contains_key(#[trigger] reports[k].0) && !left.contains_key(reports[k].0)
            &&& forall|a: int, b: int| 0 <= a < b < reports.len() ==> #[trigger] reports[a].0 != #[trigger] reports[b].0
        }),
    decreases checks.len(),
{
    if checks.len() > 0 {
        lemma_collision_pass_drops_reported(m, checks.drop_last());
        let prev = spec_collision_pass(m, checks.drop_last());
        let (left, reports) = spec_collision_pass(m, checks);
        let id = checks.last().0;
        if prev.0.contains_key(id) {
            if let Some(j) = spec_first_hit(prev.0[id].player_id, checks.last().1@) {
                assert forall|k: int| 0 <= k < reports.len() implies
                    m.contains_key(#[trigger] reports[k].0) && !left.contains_key(reports[k].0) by {
                    if k < prev.1.len() {
                        assert(reports[k] == prev.1[k]);
                    }
                }
                assert forall|a: int, b: int| 0 <= a < b < reports.len() implies
                    #[trigger] reports[a].0 != #[trigger] reports[b].0 by {
                    assert(reports[a] == prev.1[a]);
                    if b < prev.1.len() {
                        assert(reports[b] == prev.1[b]);
                    } else {
                        assert(!prev.0.contains_key(prev.1[a].0));
                    }
                }
            }
        }
    }
}

} // verus!
