//! A mapping from string keys to values in which every entry carries an
//! absolute expiry time. All operations take the current time as an explicit
//! argument; an entry is observable exactly while `now` is strictly below its
//! expiry. Reaping expired entries is a memory optimization and never changes
//! what `get` or `remove` can observe.

use vstd::map::*;
use vstd::prelude::*;

verus! {

/// One stored entry: a key, its value, and the absolute time at which the
/// entry stops being observable.
pub struct CacheEntry<V> {
    pub key: String,
    pub value: V,
    pub expires_at: u64,
}

/// The position of the first entry with key `k`, or `s.len()` if none has it.
pub open spec fn idx_of<V>(s: Seq<CacheEntry<V>>, k: Seq<char>) -> int
    decreases s.len(),
{
    if s.len() == 0 {
        0
    } else if s[0].key@ == k {
        0
    } else {
        1 + idx_of(s.subrange(1, s.len() as int), k)
    }
}

/// Whether some entry of `s` has key `k`.
pub open spec fn has_key<V>(s: Seq<CacheEntry<V>>, k: Seq<char>) -> bool {
    idx_of(s, k) < s.len()
}

/// No two entries share a key.
pub open spec fn keys_unique<V>(s: Seq<CacheEntry<V>>) -> bool {
    forall|i: int, j: int| 0 <= i < j < s.len() ==> s[i].key@ != s[j].key@
}

/// The entry sequence read as a map from key to value and expiry.
pub open spec fn map_of<V>(s: Seq<CacheEntry<V>>) -> Map<Seq<char>, (V, u64)> {
    Map::new(
        |k: Seq<char>| has_key(s, k),
        |k: Seq<char>| (s[idx_of(s, k)].value, s[idx_of(s, k)].expires_at),
    )
}

/// An entry lookup in the map model: present and unexpired.
pub open spec fn live<V>(m: Map<Seq<char>, (V, u64)>, k: Seq<char>, now: u64) -> bool {
    m.contains_key(k) && now < m[k].1
}

/// `idx_of` points at the first entry with the given key.
pub proof fn lemma_idx_of<V>(s: Seq<CacheEntry<V>>, k: Seq<char>)
    ensures
        0 <= idx_of(s, k) <= s.len(),
        idx_of(s, k) < s.len() ==> s[idx_of(s, k)].key@ == k,
        forall|j: int| 0 <= j < idx_of(s, k) ==> s[j].key@ != k,
    decreases s.len(),
{
    if s.len() == 0 {
    } else if s[0].key@ == k {
    } else {
        let rest = s.subrange(1, s.len() as int);
        lemma_idx_of(rest, k);
        assert forall|j: int| 0 <= j < idx_of(s, k) implies s[j].key@ != k by {
            if j > 0 {
                assert(s[j] == rest[j - 1]);
            }
        }
    }
}

/// When the keys are unique, `idx_of` maps an entry's key back to its index.
pub proof fn lemma_idx_of_unique<V>(s: Seq<CacheEntry<V>>, i: int)
    requires
        keys_unique(s),
        0 <= i < s.len(),
    ensures
        idx_of(s, s[i].key@) == i,
{
    lemma_idx_of(s, s[i].key@);
    let m = idx_of(s, s[i].key@);
    if m < i {
        assert(s[m].key@ != s[i].key@);
    }
}

/// Appending an entry leaves every present key at its index; a fresh key
/// lands at the end.
pub proof fn lemma_idx_of_push<V>(s: Seq<CacheEntry<V>>, e: CacheEntry<V>, k: Seq<char>)
    ensures
        has_key(s, k) ==> idx_of(s.push(e), k) == idx_of(s, k),
        !has_key(s, k) && e.key@ == k ==> idx_of(s.push(e), k) == s.len(),
        !has_key(s, k) && e.key@ != k ==> !has_key(s.push(e), k),
    decreases s.len(),
{
    lemma_idx_of(s, k);
    lemma_idx_of(s.push(e), k);
    if s.len() == 0 {
        assert(s.push(e)[0] == e);
        if e.key@ != k {
            assert(s.push(e).subrange(1, 1) =~= Seq::<CacheEntry<V>>::empty());
        }
    } else {
        assert(s.push(e)[0] == s[0]);
        if s[0].key@ != k {
            let rest = s.subrange(1, s.len() as int);
            assert(s.push(e).subrange(1, s.push(e).len() as int) =~= rest.push(e));
            lemma_idx_of_push(rest, e, k);
        }
    }
}

/// Removing the entry at `i` removes exactly its key from view; every other
/// present key keeps the entry it had.
pub proof fn lemma_idx_of_remove<V>(s: Seq<CacheEntry<V>>, i: int, k: Seq<char>)
    requires
        keys_unique(s),
        0 <= i < s.len(),
    ensures
        s[i].key@ == k ==> !has_key(s.remove(i), k),
        s[i].key@ != k ==> (has_key(s.remove(i), k) <==> has_key(s, k)),
        s[i].key@ != k && has_key(s, k) ==> s.remove(i)[idx_of(s.remove(i), k)] == s[idx_of(
            s,
            k,
        )],
    decreases s.len(),
{
    lemma_idx_of(s, k);
    lemma_idx_of(s.remove(i), k);
    s.remove_ensures(i);
    if i == 0 {
        assert(s.remove(0) =~= s.subrange(1, s.len() as int));
        if s[0].key@ == k {
            if has_key(s.remove(0), k) {
                let m = idx_of(s.remove(0), k);
                assert(s.remove(0)[m] == s[m + 1]);
            }
        }
    } else {
        assert(s.remove(i)[0] == s[0]);
        if s[0].key@ == k {
            // with unique keys the entry at i > 0 cannot also hold k,
            // and both sequences find k at position 0
            assert(s[i].key@ != k);
        } else {
            let rest = s.subrange(1, s.len() as int);
            assert forall|a: int, b: int| 0 <= a < b < rest.len() implies rest[a].key@
                != rest[b].key@ by {
                assert(rest[a] == s[a + 1]);
                assert(rest[b] == s[b + 1]);
            }
            assert(s.remove(i).subrange(1, (s.len() - 1) as int) =~= rest.remove(i - 1));
            assert(rest[i - 1] == s[i]);
            lemma_idx_of_remove(rest, i - 1, k);
            rest.remove_ensures(i - 1);
        }
    }
}

/// Removing an entry keeps the keys unique.
pub proof fn lemma_unique_remove<V>(s: Seq<CacheEntry<V>>, i: int)
    requires
        keys_unique(s),
        0 <= i < s.len(),
    ensures
        keys_unique(s.remove(i)),
{
    s.remove_ensures(i);
    assert forall|a: int, b: int| 0 <= a < b < s.remove(i).len() implies s.remove(i)[a].key@
        != s.remove(i)[b].key@ by {
        assert(s.remove(i)[a] == (if a < i {
            s[a]
        } else {
            s[a + 1]
        }));
        assert(s.remove(i)[b] == (if b < i {
            s[b]
        } else {
            s[b + 1]
        }));
    }
}

/// Appending an entry whose key is absent keeps the keys unique.
pub proof fn lemma_unique_push<V>(s: Seq<CacheEntry<V>>, e: CacheEntry<V>)
    requires
        keys_unique(s),
        !has_key(s, e.key@),
    ensures
        keys_unique(s.push(e)),
{
    lemma_idx_of(s, e.key@);
    assert forall|a: int, b: int| 0 <= a < b < s.push(e).len() implies s.push(e)[a].key@ != s.push(
        e,
    )[b].key@ by {
        if b < s.len() {
            assert(s.push(e)[a] == s[a]);
            assert(s.push(e)[b] == s[b]);
        } else {
            assert(s.push(e)[a] == s[a]);
            assert(s.push(e)[b] == e);
            assert(s[a].key@ != e.key@);
        }
    }
}

/// Removing the entry at `i` removes its key from the map model.
pub proof fn lemma_map_of_remove<V>(s: Seq<CacheEntry<V>>, i: int)
    requires
        keys_unique(s),
        0 <= i < s.len(),
    ensures
        map_of(s.remove(i)) == map_of(s).remove(s[i].key@),
{
    let k = s[i].key@;
    lemma_idx_of_unique(s, i);
    assert_maps_equal!(map_of(s.remove(i)), map_of(s).remove(k), k2 => {
        lemma_idx_of(s, k2);
        lemma_idx_of(s.remove(i), k2);
        lemma_idx_of_remove(s, i, k2);
    });
}

/// Replacing any old entry for a key (at `i`, when present) by a fresh entry
/// at the end re-binds exactly that key in the map model.
pub proof fn lemma_map_of_upsert<V>(
    s0: Seq<CacheEntry<V>>,
    s1: Seq<CacheEntry<V>>,
    idx: Option<usize>,
)
    requires
        keys_unique(s0),
        s1.len() > 0,
        match idx {
            Some(i) => i == idx_of(s0, s1.last().key@) && i < s0.len() && s1 == s0.remove(
                i as int,
            ).push(s1.last()),
            None => !has_key(s0, s1.last().key@) && s1 == s0.push(s1.last()),
        },
    ensures
        map_of(s1) == map_of(s0).insert(s1.last().key@, (s1.last().value, s1.last().expires_at)),
{
    let e = s1.last();
    let k = e.key@;
    let base = if idx is Some {
        s0.remove(idx.unwrap() as int)
    } else {
        s0
    };
    lemma_idx_of(s0, k);
    assert_maps_equal!(map_of(s1), map_of(s0).insert(k, (e.value, e.expires_at)), k2 => {
        lemma_idx_of(s0, k2);
        lemma_idx_of(base, k2);
        lemma_idx_of(s1, k2);
        if idx is Some {
            lemma_idx_of_remove(s0, idx.unwrap() as int, k2);
        }
        lemma_idx_of_push(base, e, k2);
    });
}

/// Law: an entry inserted at time `t0` with lifetime `ttl` is live, holding
/// exactly the inserted value, at every instant strictly before `t0 + ttl`,
/// and is no longer live at any instant from `t0 + ttl` on. Together with the
/// contract of `get`, this pins down what a read returns at every time.
pub proof fn lemma_insert_observability<V>(
    m: Map<Seq<char>, (V, u64)>,
    k: Seq<char>,
    v: V,
    ttl: u64,
    t0: u64,
    now: u64,
)
    requires
        t0 + ttl <= u64::MAX,
    ensures
        now < t0 + ttl ==> live(m.insert(k, (v, (t0 + ttl) as u64)), k, now) && m.insert(
            k,
            (v, (t0 + ttl) as u64),
        )[k].0 == v,
        now >= t0 + ttl ==> !live(m.insert(k, (v, (t0 + ttl) as u64)), k, now),
{
}

/// Law: removal takes effect exactly once. After a `remove` of `k` the key is
/// not live at any time, so by the contract of `remove` every later removal
/// of `k` — in particular the losers of a race serialized behind the winner —
/// returns nothing.
pub proof fn lemma_remove_exactly_once<V>(m: Map<Seq<char>, (V, u64)>, k: Seq<char>, now: u64)
    ensures
        !live(m.remove(k), k, now),
{
}

/// A key-value store with per-entry expiry. The view is the map from each
/// stored key to its value and absolute expiry time, whether expired or not;
/// `live` tells which entries the accessors can still observe.
pub struct ExpiringCache<V> {
    entries: Vec<CacheEntry<V>>,
}

impl<V> View for ExpiringCache<V> {
    type V = Map<Seq<char>, (V, u64)>;

    closed spec fn view(&self) -> Map<Seq<char>, (V, u64)> {
        map_of(self.entries@)
    }
}

impl<V> ExpiringCache<V> {
    #[verifier::type_invariant]
    spec fn wf(self) -> bool {
        keys_unique(self.entries@)
    }

    /// An empty cache.
    pub fn new() -> (r: Self)
        ensures
            r@ == Map::<Seq<char>, (V, u64)>::empty(),
    {
        let r = ExpiringCache { entries: Vec::new() };
        proof {
            assert(r@ =~= Map::<Seq<char>, (V, u64)>::empty());
        }
        r
    }

    /// The index of the entry holding `key`, if any.
    fn find_index(&self, key: &String) -> (r: Option<usize>)
        ensures
            match r {
                Some(i) => i == idx_of(self.entries@, key@) && i < self.entries@.len(),
                None => !has_key(self.entries@, key@),
            },
    {
        proof {
            lemma_idx_of(self.entries@, key@);
        }
        let n = self.entries.len();
        let mut i: usize = 0;
        while i < n
            invariant
                n == self.entries@.len(),
                0 <= i <= n,
                forall|j: int| 0 <= j < i ==> self.entries@[j].key@ != key@,
            decreases n - i,
        {
            if self.entries[i].key == *key {
                proof {
                    lemma_idx_of(self.entries@, key@);
                    let m = idx_of(self.entries@, key@);
                    if m < i {
                        assert(self.entries@[m].key@ != key@);
                    }
                    if m > i {
                        assert(self.entries@[i as int].key@ != key@);
                    }
                }
                return Some(i);
            }
            i += 1;
        }
        proof {
            lemma_idx_of(self.entries@, key@);
        }
        None
    }

    /// Inserts or overwrites: after the call the key maps to the given value
    /// with expiry `now + ttl`; a previous entry for the key is discarded.
    pub fn insert(&mut self, key: String, value: V, ttl: u64, now: u64)
        requires
            now + ttl <= u64::MAX,
        ensures
            final(self)@ == old(self)@.insert(key@, (value, (now + ttl) as u64)),
    {
        proof {
            use_type_invariant(&*self);
        }
        let expires_at = now + ttl;
        let idx = self.find_index(&key);
        let ghost s0 = self.entries@;
        let mut entries: Vec<CacheEntry<V>> = Vec::new();
        core::mem::swap(&mut entries, &mut self.entries);
        match idx {
            Some(i) => {
                let _discarded = entries.remove(i);
                proof {
                    lemma_idx_of(s0, key@);
                    lemma_unique_remove(s0, i as int);
                    lemma_idx_of_remove(s0, i as int, key@);
                }
                entries.push(CacheEntry { key, value, expires_at });
                proof {
                    lemma_unique_push(s0.remove(i as int), entries@.last());
                }
            },
            None => {
                proof {
                    lemma_idx_of(s0, key@);
                }
                entries.push(CacheEntry { key, value, expires_at });
                proof {
                    lemma_unique_push(s0, entries@.last());
                }
            },
        }
        core::mem::swap(&mut entries, &mut self.entries);
        proof {
            lemma_map_of_upsert(s0, self.entries@, idx);
        }
    }

    /// A read view of the value under `key`, exactly when the entry exists
    /// and is not expired at `now`. Never extends the entry's lifetime.
    pub fn get(&self, key: &String, now: u64) -> (r: Option<&V>)
        ensures
            match r {
                Some(v) => live(self@, key@, now) && *v == self@[key@].0,
                None => !live(self@, key@, now),
            },
    {
        proof {
            use_type_invariant(&*self);
            lemma_idx_of(self.entries@, key@);
        }
        match self.find_index(key) {
            Some(i) => {
                let e = &self.entries[i];
                if now < e.expires_at {
                    Some(&e.value)
                } else {
                    None
                }
            },
            None => None,
        }
    }

    /// Takes and returns the value under `key` exactly when the entry exists
    /// and is not expired at `now`; the entry itself (expired or not) is gone
    /// afterwards. At most one of any sequence of calls for one inserted
    /// entry can return the value.
    pub fn remove(&mut self, key: &String, now: u64) -> (r: Option<V>)
        ensures
            final(self)@ == old(self)@.remove(key@),
            match r {
                Some(v) => live(old(self)@, key@, now) && v == old(self)@[key@].0,
                None => !live(old(self)@, key@, now),
            },
    {
        proof {
            use_type_invariant(&*self);
        }
        let ghost s0 = self.entries@;
        match self.find_index(key) {
            Some(i) => {
                let mut entries: Vec<CacheEntry<V>> = Vec::new();
                core::mem::swap(&mut entries, &mut self.entries);
                let e = entries.remove(i);
                proof {
                    lemma_unique_remove(s0, i as int);
                }
                core::mem::swap(&mut entries, &mut self.entries);
                proof {
                    lemma_idx_of(s0, key@);
                    lemma_map_of_remove(s0, i as int);
                }
                if now < e.expires_at {
                    Some(e.value)
                } else {
                    None
                }
            },
            None => {
                proof {
                    assert(self@ =~= self@.remove(key@));
                }
                None
            },
        }
    }

    /// Swaps in a new value for a live entry, keeping its expiry, and hands
    /// back the old value; absent or expired entries are left untouched and
    /// the offered value is dropped.
    pub fn replace_value(&mut self, key: &String, value: V, now: u64) -> (r: Option<V>)
        ensures
            live(old(self)@, key@, now) ==> final(self)@ == old(self)@.insert(
                key@,
                (value, old(self)@[key@].1),
            ) && r == Some(old(self)@[key@].0),
            !live(old(self)@, key@, now) ==> final(self)@ == old(self)@ && r is None,
    {
        proof {
            use_type_invariant(&*self);
            lemma_idx_of(self.entries@, key@);
        }
        let ghost s0 = self.entries@;
        let idx = self.find_index(key);
        match idx {
            Some(i) => {
                if now < self.entries[i].expires_at {
                    let mut entries: Vec<CacheEntry<V>> = Vec::new();
                    core::mem::swap(&mut entries, &mut self.entries);
                    let e = entries.remove(i);
                    let CacheEntry { key: stored_key, value: old_value, expires_at } = e;
                    proof {
                        lemma_unique_remove(s0, i as int);
                        lemma_idx_of_remove(s0, i as int, key@);
                    }
                    entries.push(CacheEntry { key: stored_key, value, expires_at });
                    proof {
                        lemma_unique_push(s0.remove(i as int), entries@.last());
                    }
                    core::mem::swap(&mut entries, &mut self.entries);
                    proof {
                        lemma_map_of_upsert(s0, self.entries@, idx);
                    }
                    Some(old_value)
                } else {
                    None
                }
            },
            None => None,
        }
    }

    /// Moves a live entry's expiry to `now + ttl`; absent or expired entries
    /// are left untouched. Used for sliding-window renewal.
    pub fn set_expiration(&mut self, key: &String, ttl: u64, now: u64)
        requires
            now + ttl <= u64::MAX,
        ensures
            live(old(self)@, key@, now) ==> final(self)@ == old(self)@.insert(
                key@,
                (old(self)@[key@].0, (now + ttl) as u64),
            ),
            !live(old(self)@, key@, now) ==> final(self)@ == old(self)@,
    {
        proof {
            use_type_invariant(&*self);
            lemma_idx_of(self.entries@, key@);
        }
        let ghost s0 = self.entries@;
        let idx = self.find_index(key);
        match idx {
            Some(i) => {
                if now < self.entries[i].expires_at {
                    let mut entries: Vec<CacheEntry<V>> = Vec::new();
                    core::mem::swap(&mut entries, &mut self.entries);
                    let e = entries.remove(i);
                    let CacheEntry { key: stored_key, value, expires_at: _ } = e;
                    proof {
                        lemma_unique_remove(s0, i as int);
                        lemma_idx_of_remove(s0, i as int, key@);
                    }
                    entries.push(CacheEntry { key: stored_key, value, expires_at: now + ttl });
                    proof {
                        lemma_unique_push(s0.remove(i as int), entries@.last());
                    }
                    core::mem::swap(&mut entries, &mut self.entries);
                    proof {
                        lemma_map_of_upsert(s0, self.entries@, idx);
                    }
                }
            },
            None => {},
        }
    }

    /// Evicts every expired entry. Purely a memory reclamation: the set of
    /// observable (live) entries and their values are unchanged, and `get`
    /// and the reaper agree on which entries those are.
    pub fn purge_expired(&mut self, now: u64)
        ensures
            forall|k: Seq<char>| #[trigger]
                final(self)@.contains_key(k) <==> live(old(self)@, k, now),
            forall|k: Seq<char>|
                final(self)@.contains_key(k) ==> #[trigger] final(self)@[k] == old(self)@[k],
    {
        proof {
            use_type_invariant(&*self);
        }
        let ghost m0 = self@;
        let mut entries: Vec<CacheEntry<V>> = Vec::new();
        core::mem::swap(&mut entries, &mut self.entries);
        let mut i: usize = 0;
        while i < entries.len()
            invariant
                keys_unique(entries@),
                0 <= i <= entries@.len(),
                forall|j: int| 0 <= j < i ==> now < entries@[j].expires_at,
                forall|k: Seq<char>| #[trigger]
                    map_of(entries@).contains_key(k) ==> m0.contains_key(k) && map_of(entries@)[k]
                        == m0[k],
                forall|k: Seq<char>| live(m0, k, now) ==> #[trigger] map_of(
                    entries@,
                ).contains_key(k),
            decreases entries@.len() - i,
        {
            if now < entries[i].expires_at {
                i += 1;
            } else {
                let ghost before = entries@;
                let e = entries.remove(i);
                proof {
                    lemma_unique_remove(before, i as int);
                    lemma_idx_of_unique(before, i as int);
                    lemma_map_of_remove(before, i as int);
                    before.remove_ensures(i as int);
                    assert forall|k: Seq<char>| live(m0, k, now) implies #[trigger] map_of(
                        entries@,
                    ).contains_key(k) by {
                        assert(map_of(before).contains_key(k));
                        assert(map_of(before)[k] == m0[k]);
                        assert(map_of(before)[e.key@].1 == e.expires_at);
                    }
                }
            }
        }
        core::mem::swap(&mut entries, &mut self.entries);
        proof {
            assert forall|k: Seq<char>| #[trigger] self@.contains_key(k) implies live(
                m0,
                k,
                now,
            ) by {
                lemma_idx_of(self.entries@, k);
            }
        }
    }
}

} // verus!
