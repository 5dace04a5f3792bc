//! The client's cache of the entities it tracks between database syncs,
//! keyed by entity id: a map kept as a vector of entries whose keys are
//! distinct. Ships are keyed by a player's 256-bit identity, a struct of two
//! `u128` halves. vstd gives `HashMap` its map model only for keys of the
//! integer types, `bool` and boxes of them; for any other key type the model
//! can only be assumed, and no single integer holds an identity. Bullets,
//! keyed by `u32`, are kept in a `HashMap`.

use vstd::prelude::*;
use crate::identity::Identity;

verus! {

/// A key that can be compared at run time the way it is compared in specs.
pub trait EntityKey: Copy {
    fn same_key(&self, other: &Self) -> (r: bool)
        ensures
            r == (*self == *other);
}

impl EntityKey for Identity {
    fn same_key(&self, other: &Self) -> (r: bool) {
        self.same_as(other)
    }
}

impl EntityKey for u32 {
    fn same_key(&self, other: &Self) -> (r: bool) {
        *self == *other
    }
}

/// The map that inserting the entries one after the other builds: a later
/// entry overrides an earlier one with the same key.
pub open spec fn fold_map<K, V>(s: Seq<(K, V)>) -> Map<K, V>
    decreases s.len(),
{
    if s.len() == 0 {
        Map::empty()
    } else {
        fold_map(s.drop_last()).insert(s.last().0, s.last().1)
    }
}

pub open spec fn distinct_keys<K, V>(s: Seq<(K, V)>) -> bool {
    forall|i: int, j: int| 0 <= i < j < s.len() ==> #[trigger] s[i].0 != #[trigger] s[j].0
}

pub open spec fn has_key<K, V>(s: Seq<(K, V)>, k: K) -> bool {
    exists|i: int| 0 <= i < s.len() && #[trigger] s[i].0 == k
}

/// The keys of a folded map are the keys of its entries.
pub proof fn lemma_fold_map_dom<K, V>(s: Seq<(K, V)>, k: K)
    ensures
        fold_map(s).contains_key(k) <==> has_key(s, k),
    decreases s.len(),
{
    if s.len() > 0 {
        lemma_fold_map_dom(s.drop_last(), k);
        if has_key(s.drop_last(), k) {
            let i = choose|i: int| 0 <= i < s.drop_last().len() && #[trigger] s.drop_last()[i].0 == k;
            assert(s[i].0 == k);
        }
        if has_key(s, k) && s.last().0 != k {
            let i = choose|i: int| 0 <= i < s.len() && #[trigger] s[i].0 == k;
            assert(i < s.len() - 1);
            assert(s.drop_last()[i].0 == k);
        }
    }
}

/// With distinct keys every entry's value is what the map holds for its key.
pub proof fn lemma_fold_map_value<K, V>(s: Seq<(K, V)>, i: int)
    requires
        distinct_keys(s),
        0 <= i < s.len(),
    ensures
        fold_map(s).contains_key(s[i].0),
        fold_map(s)[s[i].0] == s[i].1,
    decreases s.len(),
{
    if i < s.len() - 1 {
        assert(s.drop_last()[i] == s[i]);
        lemma_fold_map_value(s.drop_last(), i);
    }
}

/// With distinct keys the map is finite and has one key per entry.
pub proof fn lemma_fold_map_len<K, V>(s: Seq<(K, V)>)
    requires
        distinct_keys(s),
    ensures
        fold_map(s).dom().finite(),
        fold_map(s).len() == s.len(),
    decreases s.len(),
{
    if s.len() > 0 {
        let rest = s.drop_last();
        lemma_fold_map_len(rest);
        lemma_fold_map_dom(rest, s.last().0);
        if has_key(rest, s.last().0) {
            let i = choose|i: int| 0 <= i < rest.len() && #[trigger] rest[i].0 == s.last().0;
            assert(s[i].0 == s[s.len() - 1].0);
        }
        assert(fold_map(s).dom() =~= fold_map(rest).dom().insert(s.last().0));
    }
}

/// A folded map with distinct keys, and the same entries in another order,
/// or with one value replaced, or with one entry taken out, fold to the
/// map updated accordingly.
pub proof fn lemma_fold_map_update<K, V>(s: Seq<(K, V)>, i: int, v: V)
    requires
        distinct_keys(s),
        0 <= i < s.len(),
    ensures
        distinct_keys(s.update(i, (s[i].0, v))),
        fold_map(s.update(i, (s[i].0, v))) == fold_map(s).insert(s[i].0, v),
{
    let k = s[i].0;
    let t = s.update(i, (k, v));
    assert(distinct_keys(t)) by {
        assert forall|a: int, b: int| 0 <= a < b < t.len() implies #[trigger] t[a].0 != #[trigger] t[b].0 by {
            assert(t[a].0 == s[a].0);
            assert(t[b].0 == s[b].0);
        }
    }
    assert forall|key: K| #[trigger] fold_map(t).contains_key(key) <==> fold_map(s).insert(k, v).contains_key(key) by {
        lemma_fold_map_dom(t, key);
        lemma_fold_map_dom(s, key);
        if has_key(t, key) {
            let j = choose|j: int| 0 <= j < t.len() && #[trigger] t[j].0 == key;
            assert(s[j].0 == key);
        }
        if has_key(s, key) {
            let j = choose|j: int| 0 <= j < s.len() && #[trigger] s[j].0 == key;
            assert(t[j].0 == key);
        }
    }
    assert forall|key: K| #[trigger] fold_map(t).contains_key(key) implies fold_map(t)[key] == fold_map(s).insert(k, v)[key] by {
        lemma_fold_map_dom(t, key);
        let j = choose|j: int| 0 <= j < t.len() && #[trigger] t[j].0 == key;
        lemma_fold_map_value(t, j);
        if j != i {
            lemma_fold_map_value(s, j);
        }
    }
    assert(fold_map(t) =~= fold_map(s).insert(k, v));
}

pub proof fn lemma_fold_map_remove<K, V>(s: Seq<(K, V)>, i: int)
    requires
        distinct_keys(s),
        0 <= i < s.len(),
    ensures
        distinct_keys(s.remove(i)),
        fold_map(s.remove(i)) == fold_map(s).remove(s[i].0),
{
    let k = s[i].0;
    let t = s.remove(i);
    assert(distinct_keys(t)) by {
        assert forall|a: int, b: int| 0 <= a < b < t.len() implies #[trigger] t[a].0 != #[trigger] t[b].0 by {
            let sa = if a < i { a } else { a + 1 };
            let sb = if b < i { b } else { b + 1 };
            assert(t[a] == s[sa]);
            assert(t[b] == s[sb]);
        }
    }
    assert forall|key: K| #[trigger] fold_map(t).contains_key(key) <==> fold_map(s).remove(k).contains_key(key) by {
        lemma_fold_map_dom(t, key);
        lemma_fold_map_dom(s, key);
        if has_key(t, key) {
            let j = choose|j: int| 0 <= j < t.len() && #[trigger] t[j].0 == key;
            let sj = if j < i { j } else { j + 1 };
            assert(t[j] == s[sj]);
        }
        if has_key(s, key) && key != k {
            let j = choose|j: int| 0 <= j < s.len() && #[trigger] s[j].0 == key;
            if j < i {
                assert(t[j] == s[j]);
            } else {
                assert(t[j - 1] == s[j]);
            }
        }
    }
    assert forall|key: K| #[trigger] fold_map(t).contains_key(key) implies fold_map(t)[key] == fold_map(s).remove(k)[key] by {
        lemma_fold_map_dom(t, key);
        let j = choose|j: int| 0 <= j < t.len() && #[trigger] t[j].0 == key;
        let sj = if j < i { j } else { j + 1 };
        assert(t[j] == s[sj]);
        lemma_fold_map_value(t, j);
        lemma_fold_map_value(s, sj);
    }
    assert(fold_map(t) =~= fold_map(s).remove(k));
}

/// Tracked entities by id. At most one entry per id.
pub struct Roster<K: EntityKey, V> {
    entries: Vec<(K, V)>,
}

impl<K: EntityKey, V> View for Roster<K, V> {
    type V = Map<K, V>;

    closed spec fn view(&self) -> Map<K, V> {
        fold_map(self.entries@)
    }
}

impl<K: EntityKey, V> Roster<K, V> {
    #[verifier::type_invariant]
    spec fn keys_distinct(&self) -> bool {
        distinct_keys(self.entries@)
    }

    /// An empty roster.
    pub fn new() -> (r: Self)
        ensures
            r@ == Map::<K, V>::empty(),
    {
        Roster { entries: Vec::new() }
    }

    fn index_of(&self, key: &K) -> (r: Option<usize>)
        ensures
            r matches Some(i) ==> i < self.entries@.len() && self.entries@[i as int].0 == *key,
            r is None ==> !has_key(self.entries@, *key),
    {
        let mut i: usize = 0;
        while i < self.entries.len()
            invariant
                i <= self.entries@.len(),
                forall|j: int| 0 <= j < i ==> #[trigger] self.entries@[j].0 != *key,
            decreases self.entries@.len() - i,
        {
            if self.entries[i].0.same_key(key) {
                return Some(i);
            }
            i += 1;
        }
        None
    }

    /// Adds an entity, or replaces the one with the same id.
    pub fn upsert(&mut self, key: K, value: V)
        ensures
            final(self)@ == old(self)@.insert(key, value),
    {
        proof {
            use_type_invariant(&*self);
        }
        match self.index_of(&key) {
            Some(i) => {
                proof {
                    lemma_fold_map_update(self.entries@, i as int, value);
                }
                let mut entries: Vec<(K, V)> = Vec::new();
                std::mem::swap(&mut entries, &mut self.entries);
                entries.set(i, (key, value));
                self.entries = entries;
            },
            None => {
                proof {
                    assert forall|a: int, b: int| 0 <= a < b < self.entries@.push((key, value)).len()
                        implies #[trigger] self.entries@.push((key, value))[a].0 != #[trigger] self.entries@.push((key, value))[b].0 by {
                        if b == self.entries@.len() {
                            assert(self.entries@[a].0 != key);
                        }
                    }
                    assert(self.entries@.push((key, value)).drop_last() =~= self.entries@);
                }
                let mut entries: Vec<(K, V)> = Vec::new();
                std::mem::swap(&mut entries, &mut self.entries);
                entries.push((key, value));
                self.entries = entries;
            },
        }
    }

    /// Forgets the entity with an id, if there is one.
    pub fn remove(&mut self, key: &K)
        ensures
            final(self)@ == old(self)@.remove(*key),
    {
        proof {
            use_type_invariant(&*self);
        }
        match self.index_of(key) {
            Some(i) => {
                proof {
                    lemma_fold_map_remove(self.entries@, i as int);
                }
                let mut entries: Vec<(K, V)> = Vec::new();
                std::mem::swap(&mut entries, &mut self.entries);
                entries.remove(i);
                self.entries = entries;
            },
            None => {
                proof {
                    lemma_fold_map_dom(self.entries@, *key);
                    assert(self@.remove(*key) =~= self@);
                }
            },
        }
    }

    /// How many entities are tracked.
    pub fn count(&self) -> (r: usize)
        ensures
            self@.dom().finite(),
            r == self@.len(),
    {
        proof {
            use_type_invariant(self);
            lemma_fold_map_len(self.entries@);
        }
        self.entries.len()
    }

    /// Whether an entity with this id is tracked.
    pub fn contains(&self, key: &K) -> (r: bool)
        ensures
            r == self@.contains_key(*key),
    {
        proof {
            lemma_fold_map_dom(self.entries@, *key);
        }
        match self.index_of(key) {
            Some(_) => true,
            None => false,
        }
    }

    /// The entries rebuilt from rows: a later row overrides an earlier one
    /// with the same id.
    pub fn from_rows(rows: Vec<(K, V)>) -> (r: Self)
        ensures
            r@ == fold_map(rows@),
    {
        let ghost all = rows@;
        let mut rows = rows;
        assert(all.len() == rows.len());
        assert(all.skip(0) =~= all);
        let mut out: Roster<K, V> = Roster::new();
        let mut n: usize = 0;
        while rows.len() > 0
            invariant
                n <= all.len(),
                all.len() <= usize::MAX,
                rows@ == all.skip(n as int),
                out@ == fold_map(all.take(n as int)),
            decreases rows@.len(),
        {
            let (k, v) = rows.remove(0);
            proof {
                assert(all.take(n + 1).drop_last() =~= all.take(n as int));
                assert(all[n as int] == (k, v));
                assert(rows@ =~= all.skip(n + 1));
            }
            out.upsert(k, v);
            n += 1;
        }
        proof {
            assert(all.take(n as int) =~= all);
        }
        out
    }

    /// Replaces everything tracked with the entities of a database sync.
    pub fn sync_from_rows(&mut self, rows: Vec<(K, V)>)
        ensures
            final(self)@ == fold_map(rows@),
    {
        *self = Self::from_rows(rows);
    }
}


impl<K: EntityKey, V> Roster<K, V> {
    /// The tracked entity with this id, by reference.
    pub fn get_ref(&self, key: &K) -> (r: Option<&V>)
        ensures
            r is Some <==> self@.contains_key(*key),
            r matches Some(v) ==> *v == self@[*key],
    {
        proof {
            use_type_invariant(self);
            lemma_fold_map_dom(self.entries@, *key);
        }
        match self.index_of(key) {
            Some(i) => {
                proof {
                    lemma_fold_map_value(self.entries@, i as int);
                }
                Some(&self.entries[i].1)
            },
            None => None,
        }
    }

    /// The tracked ids, each once, in no promised order.
    pub fn keys(&self) -> (r: Vec<K>)
        ensures
            r@.no_duplicates(),
            forall|k: K| self@.contains_key(k) <==> r@.contains(k),
    {
        proof {
            use_type_invariant(self);
        }
        let mut out: Vec<K> = Vec::new();
        let mut i: usize = 0;
        while i < self.entries.len()
            invariant
                i <= self.entries@.len(),
                distinct_keys(self.entries@),
                out@ == self.entries@.take(i as int).map_values(|e: (K, V)| e.0),
            decreases self.entries@.len() - i,
        {
            proof {
                assert(self.entries@.take(i + 1).map_values(|e: (K, V)| e.0)
                    =~= self.entries@.take(i as int).map_values(|e: (K, V)| e.0).push(self.entries@[i as int].0));
            }
            out.push(self.entries[i].0);
            i += 1;
        }
        proof {
            assert(self.entries@.take(self.entries@.len() as int) =~= self.entries@);
            let ids = out@;
            assert(ids.no_duplicates()) by {
                assert forall|a: int, b: int| 0 <= a < ids.len() && 0 <= b < ids.len() && a != b implies ids[a] != ids[b] by {
                    if a < b {
                        assert(self.entries@[a].0 != self.entries@[b].0);
                    } else {
                        assert(self.entries@[b].0 != self.entries@[a].0);
                    }
                }
            }
            assert forall|k: K| self@.contains_key(k) <==> ids.contains(k) by {
                lemma_fold_map_dom(self.entries@, k);
                if has_key(self.entries@, k) {
                    let j = choose|j: int| 0 <= j < self.entries@.len() && #[trigger] self.entries@[j].0 == k;
                    assert(ids[j] == k);
                }
                if ids.contains(k) {
                    let j = choose|j: int| 0 <= j < ids.len() && ids[j] == k;
                    assert(self.entries@[j].0 == k);
                }
            }
        }
        out
    }
}

impl<K: EntityKey, V: Clone> Roster<K, V> {
    /// A copy of the entity with this id.
    pub fn get(&self, key: &K) -> (r: Option<V>)
        ensures
            r is Some <==> self@.contains_key(*key),
            r matches Some(v) ==> cloned(self@[*key], v),
    {
        proof {
            use_type_invariant(self);
            lemma_fold_map_dom(self.entries@, *key);
        }
        match self.index_of(key) {
            Some(i) => {
                proof {
                    lemma_fold_map_value(self.entries@, i as int);
                }
                Some(self.entries[i].1.clone())
            },
            None => None,
        }
    }

    /// Copies of all tracked entities, one per id, in no promised order.
    pub fn get_all(&self) -> (r: Vec<V>)
        ensures
            exists|ids: Seq<K>| {
                &&& ids.len() == r@.len()
                &&& ids.no_duplicates()
                &&& forall|k: K| self@.contains_key(k) <==> ids.contains(k)
                &&& forall|i: int| 0 <= i < ids.len() ==> cloned(self@[ids[i]], #[trigger] r@[i])
            },
    {
        proof {
            use_type_invariant(self);
        }
        let ghost ids = self.entries@.map_values(|e: (K, V)| e.0);
        let mut out: Vec<V> = Vec::new();
        let mut i: usize = 0;
        while i < self.entries.len()
            invariant
                i <= self.entries@.len(),
                out@.len() == i,
                distinct_keys(self.entries@),
                ids == self.entries@.map_values(|e: (K, V)| e.0),
                forall|j: int| 0 <= j < i ==> cloned(self@[ids[j]], #[trigger] out@[j]),
            decreases self.entries@.len() - i,
        {
            proof {
                lemma_fold_map_value(self.entries@, i as int);
            }
            out.push(self.entries[i].1.clone());
            i += 1;
        }
        proof {
            assert(ids.no_duplicates()) by {
                assert forall|a: int, b: int| 0 <= a < ids.len() && 0 <= b < ids.len() && a != b implies ids[a] != ids[b] by {
                    if a < b {
                        assert(self.entries@[a].0 != self.entries@[b].0);
                    } else {
                        assert(self.entries@[b].0 != self.entries@[a].0);
                    }
                }
            }
            assert forall|k: K| self@.contains_key(k) <==> ids.contains(k) by {
                lemma_fold_map_dom(self.entries@, k);
                if has_key(self.entries@, k) {
                    let j = choose|j: int| 0 <= j < self.entries@.len() && #[trigger] self.entries@[j].0 == k;
                    assert(ids[j] == k);
                }
                if ids.contains(k) {
                    let j = choose|j: int| 0 <= j < ids.len() && ids[j] == k;
                    assert(self.entries@[j].0 == k);
                }
            }
        }
        out
    }
}


/// A read gives back what the last write stored: after an upsert the id
/// maps to the new value and other ids are untouched; after a removal the
/// id is gone; an upsert grows the count by one exactly for a new id and a
/// removal shrinks it by one exactly for a present id.
pub proof fn lemma_read_after_write<K, V>(m: Map<K, V>, k: K, v: V, other: K)
    requires
        m.dom().finite(),
    ensures
        m.insert(k, v).contains_key(k) && m.insert(k, v)[k] == v,
        other != k ==> (m.insert(k, v).contains_key(other) == m.contains_key(other)),
        other != k && m.contains_key(other) ==> m.insert(k, v)[other] == m[other],
        !m.remove(k).contains_key(k),
        other != k ==> (m.remove(k).contains_key(other) == m.contains_key(other)),
        m.insert(k, v).len() == m.len() + (if m.contains_key(k) { 0int } else { 1 }),
        m.remove(k).len() + (if m.contains_key(k) { 1int } else { 0 }) == m.len(),
{
    assert(m.insert(k, v).dom() =~= m.dom().insert(k));
    assert(m.remove(k).dom() =~= m.dom().remove(k));
}

/// A sync keeps exactly the ids of the rows, each with the value of the
/// last row that carries it.
pub proof fn lemma_fold_map_last_wins<K, V>(s: Seq<(K, V)>, i: int)
    requires
        0 <= i < s.len(),
        forall|j: int| i < j < s.len() ==> #[trigger] s[j].0 != s[i].0,
    ensures
        fold_map(s).contains_key(s[i].0),
        fold_map(s)[s[i].0] == s[i].1,
    decreases s.len(),
{
    if i < s.len() - 1 {
        assert(s.drop_last()[i] == s[i]);
        assert(s[s.len() - 1].0 != s[i].0);
        lemma_fold_map_last_wins(s.drop_last(), i);
    }
}

} // verus!
