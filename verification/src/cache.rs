//! The ephemeral cache: a string-keyed store with idle-based expiry.
//!
//! Entries expire after a fixed idle duration measured from their last access
//! (read or write), independently per key; capacity is otherwise unbounded and
//! nothing persists across process restarts. Eviction is lazy: an expired
//! entry may linger physically, but a lookup never reports one and evicts the
//! one it meets.

use vstd::prelude::*;

verus! {

/// One cache slot: a value and the time of its last access.
pub struct CacheEntry {
    pub key: String,
    pub value: String,
    pub last_access: u64,
}

/// A string-keyed store with idle-based expiry. Times are plain `u64`
/// instants supplied by the caller (the clock lives outside this library);
/// the unit is the caller's, as long as `idle_window` uses the same one.
pub struct EphemeralCache {
    idle_window: u64,
    entries: Vec<CacheEntry>,
}

/// Whether an entry last accessed at `last_access` is still live at `now`
/// under an idle window of `window` time units: no more than `window` has
/// passed since the last access. An instant before the last access (a clock
/// that went backwards) leaves the entry live.
pub open spec fn live_at(last_access: u64, now: u64, window: u64) -> bool {
    now - last_access <= window
}

/// The pairwise-distinct-keys invariant of the backing vector.
pub open spec fn unique_keys(s: Seq<CacheEntry>) -> bool {
    forall|i: int, j: int| 0 <= i < j < s.len() ==> s[i].key@ != s[j].key@
}

/// The abstract contents of a backing vector: a map from key to
/// (value, last access time).
pub open spec fn entries_map(s: Seq<CacheEntry>) -> Map<Seq<char>, (Seq<char>, u64)>
    decreases s.len(),
{
    if s.len() == 0 {
        Map::empty()
    } else {
        entries_map(s.drop_last()).insert(
            s.last().key@,
            (s.last().value@, s.last().last_access),
        )
    }
}

/// A key is in the abstract contents exactly when some slot holds it.
proof fn lemma_map_domain(s: Seq<CacheEntry>, k: Seq<char>)
    ensures
        entries_map(s).contains_key(k) <==> exists|i: int| 0 <= i < s.len() && s[i].key@ == k,
    decreases s.len(),
{
    if s.len() > 0 {
        lemma_map_domain(s.drop_last(), k);
        if s.last().key@ == k {
            assert(s[s.len() - 1].key@ == k);
        } else if entries_map(s).contains_key(k) {
            let i = choose|i: int| 0 <= i < s.drop_last().len() && s.drop_last()[i].key@ == k;
            assert(s[i].key@ == k);
        } else if exists|i: int| 0 <= i < s.len() && s[i].key@ == k {
            let i = choose|i: int| 0 <= i < s.len() && s[i].key@ == k;
            assert(s.drop_last()[i].key@ == k);
        }
    }
}

/// Under distinct keys, the slot holding a key decides its mapped pair.
proof fn lemma_map_at(s: Seq<CacheEntry>, i: int)
    requires
        unique_keys(s),
        0 <= i < s.len(),
    ensures
        entries_map(s).contains_key(s[i].key@),
        entries_map(s)[s[i].key@] == (s[i].value@, s[i].last_access),
    decreases s.len(),
{
    if i == s.len() - 1 {
    } else {
        assert(s.drop_last()[i] == s[i]);
        lemma_map_at(s.drop_last(), i);
        assert(s[s.len() - 1].key@ != s[i].key@);
    }
}

/// Replacing the slot that holds a key rewrites that key's pair and no other.
proof fn lemma_map_update(s: Seq<CacheEntry>, i: int, e: CacheEntry)
    requires
        unique_keys(s),
        0 <= i < s.len(),
        e.key@ == s[i].key@,
    ensures
        unique_keys(s.update(i, e)),
        entries_map(s.update(i, e)) == entries_map(s).insert(e.key@, (e.value@, e.last_access)),
{
    let t = s.update(i, e);
    assert forall|p: int, q: int| 0 <= p < q < t.len() implies t[p].key@ != t[q].key@ by {
        assert(t[p].key@ == s[p].key@ && t[q].key@ == s[q].key@);
    }
    let m1 = entries_map(t);
    let m2 = entries_map(s).insert(e.key@, (e.value@, e.last_access));
    assert forall|k: Seq<char>| m1.contains_key(k) <==> m2.contains_key(k) by {
        lemma_map_domain(t, k);
        lemma_map_domain(s, k);
        if exists|j: int| 0 <= j < s.len() && s[j].key@ == k {
            let j = choose|j: int| 0 <= j < s.len() && s[j].key@ == k;
            assert(t[j].key@ == k);
        }
        if exists|j: int| 0 <= j < t.len() && t[j].key@ == k {
            let j = choose|j: int| 0 <= j < t.len() && t[j].key@ == k;
            assert(s[j].key@ == k || k == e.key@);
            assert(s[i].key@ == e.key@);
        }
    }
    assert forall|k: Seq<char>| m1.contains_key(k) implies m1[k] == m2[k] by {
        lemma_map_domain(t, k);
        let j = choose|j: int| 0 <= j < t.len() && t[j].key@ == k;
        lemma_map_at(t, j);
        if k == e.key@ {
            assert(j == i) by {
                if j != i {
                    assert(t[j].key@ == s[j].key@ && s[i].key@ == e.key@);
                }
            }
        } else {
            assert(j != i);
            assert(s[j].key@ == k);
            lemma_map_at(s, j);
        }
    }
    assert(m1 =~= m2);
}

/// Appending a slot with a fresh key adds exactly that key's pair.
proof fn lemma_map_push(s: Seq<CacheEntry>, e: CacheEntry)
    requires
        unique_keys(s),
        forall|i: int| 0 <= i < s.len() ==> s[i].key@ != e.key@,
    ensures
        unique_keys(s.push(e)),
        entries_map(s.push(e)) == entries_map(s).insert(e.key@, (e.value@, e.last_access)),
{
    let t = s.push(e);
    assert forall|p: int, q: int| 0 <= p < q < t.len() implies t[p].key@ != t[q].key@ by {
        if q < s.len() {
            assert(t[p].key@ == s[p].key@ && t[q].key@ == s[q].key@);
        } else {
            assert(t[p].key@ == s[p].key@ && t[q] == e);
        }
    }
    assert(t.drop_last() =~= s);
    assert(t.last() == e);
}

/// Removing the slot that holds a key removes exactly that key's pair.
proof fn lemma_map_remove(s: Seq<CacheEntry>, i: int)
    requires
        unique_keys(s),
        0 <= i < s.len(),
    ensures
        unique_keys(s.remove(i)),
        entries_map(s.remove(i)) == entries_map(s).remove(s[i].key@),
{
    let t = s.remove(i);
    let k0 = s[i].key@;
    assert forall|p: int, q: int| 0 <= p < q < t.len() implies t[p].key@ != t[q].key@ by {
        let sp: int = if p < i { p } else { p + 1 };
        let sq: int = if q < i { q } else { q + 1 };
        assert(t[p] == s[sp] && t[q] == s[sq]);
    }
    let m1 = entries_map(t);
    let m2 = entries_map(s).remove(k0);
    assert forall|k: Seq<char>| m1.contains_key(k) <==> m2.contains_key(k) by {
        lemma_map_domain(t, k);
        lemma_map_domain(s, k);
        if exists|j: int| 0 <= j < t.len() && t[j].key@ == k {
            let j = choose|j: int| 0 <= j < t.len() && t[j].key@ == k;
            let sj: int = if j < i { j } else { j + 1 };
            assert(s[sj].key@ == k);
            assert(k != k0) by {
                if k == k0 {
                    assert(s[sj].key@ == s[i].key@ && sj != i);
                }
            }
        }
        if k != k0 && (exists|j: int| 0 <= j < s.len() && s[j].key@ == k) {
            let j = choose|j: int| 0 <= j < s.len() && s[j].key@ == k;
            assert(j != i);
            let tj: int = if j < i { j } else { j - 1 };
            assert(t[tj] == s[j]);
        }
    }
    assert forall|k: Seq<char>| m1.contains_key(k) implies m1[k] == m2[k] by {
        lemma_map_domain(t, k);
        let j = choose|j: int| 0 <= j < t.len() && t[j].key@ == k;
        lemma_map_at(t, j);
        let sj: int = if j < i { j } else { j + 1 };
        assert(t[j] == s[sj]);
        lemma_map_at(s, sj);
    }
    assert(m1 =~= m2);
}

impl EphemeralCache {
    /// The stored entries, as a map from key to (value, last access time).
    /// Expired entries may still be present here until a lookup evicts them;
    /// `get` never reports one.
    pub closed spec fn contents(self) -> Map<Seq<char>, (Seq<char>, u64)> {
        entries_map(self.entries@)
    }

    /// The configured idle window.
    pub closed spec fn window(self) -> u64 {
        self.idle_window
    }

    /// Well-formedness: no key occupies two slots.
    pub closed spec fn wf(self) -> bool {
        unique_keys(self.entries@)
    }

    /// An empty cache with the given idle window.
    pub fn new(idle_window: u64) -> (c: Self)
        ensures
            c.wf(),
            c.window() == idle_window,
            c.contents() == Map::<Seq<char>, (Seq<char>, u64)>::empty(),
    {
        EphemeralCache { idle_window, entries: Vec::new() }
    }

    /// The slot holding `key`, if any.
    fn find_index(&self, key: &String) -> (r: Option<usize>)
        ensures
            match r {
                Some(i) => i < self.entries@.len() && self.entries@[i as int].key@ == key@,
                None => forall|i: int| 0 <= i < self.entries@.len()
                    ==> self.entries@[i].key@ != key@,
            },
    {
        let mut i: usize = 0;
        while i < self.entries.len()
            invariant
                i <= self.entries@.len(),
                forall|j: int| 0 <= j < i ==> self.entries@[j].key@ != key@,
            decreases self.entries@.len() - i,
        {
            if self.entries[i].key == *key {
                return Some(i);
            }
            i = i + 1;
        }
        None
    }

    /// Whether an entry last accessed at `last_access` is still live at `now`.
    fn is_live(last_access: u64, now: u64, window: u64) -> (b: bool)
        ensures
            b == live_at(last_access, now, window),
    {
        if now >= last_access {
            now - last_access <= window
        } else {
            true
        }
    }

    /// Looks `key` up at instant `now`. A present, live entry is returned and
    /// its last access refreshed to `now`; a present but expired entry is
    /// evicted and absent from the result; an absent key leaves the cache
    /// unchanged. So a key not accessed for longer than the idle window is
    /// absent on the next `get`, and a key accessed within the window remains
    /// present.
    pub fn get(&mut self, key: &String, now: u64) -> (r: Option<String>)
        requires
            old(self).wf(),
        ensures
            final(self).wf(),
            final(self).window() == old(self).window(),
            old(self).contents().contains_key(key@) && live_at(
                old(self).contents()[key@].1,
                now,
                old(self).window(),
            ) ==> r is Some && r->0@ == old(self).contents()[key@].0 && final(self).contents()
                == old(self).contents().insert(key@, (old(self).contents()[key@].0, now)),
            old(self).contents().contains_key(key@) && !live_at(
                old(self).contents()[key@].1,
                now,
                old(self).window(),
            ) ==> r is None && final(self).contents() == old(self).contents().remove(key@),
            !old(self).contents().contains_key(key@) ==> r is None && final(self).contents()
                == old(self).contents(),
    {
        match self.find_index(key) {
            Some(i) => {
                proof {
                    lemma_map_at(self.entries@, i as int);
                }
                let last_access = self.entries[i].last_access;
                if Self::is_live(last_access, now, self.idle_window) {
                    let value = self.entries[i].value.clone();
                    proof {
                        lemma_map_update(
                            self.entries@,
                            i as int,
                            CacheEntry {
                                key: self.entries@[i as int].key,
                                value: self.entries@[i as int].value,
                                last_access: now,
                            },
                        );
                    }
                    self.entries[i].last_access = now;
                    Some(value)
                } else {
                    proof {
                        lemma_map_remove(self.entries@, i as int);
                    }
                    self.entries.remove(i);
                    None
                }
            },
            None => {
                proof {
                    lemma_map_domain(self.entries@, key@);
                }
                None
            },
        }
    }

    /// Stores `value` under `key`, replacing any earlier entry for the key,
    /// with the last access set to `now`.
    pub fn put(&mut self, key: &String, value: String, now: u64)
        requires
            old(self).wf(),
        ensures
            final(self).wf(),
            final(self).window() == old(self).window(),
            final(self).contents() == old(self).contents().insert(key@, (value@, now)),
    {
        match self.find_index(key) {
            Some(i) => {
                let entry = CacheEntry {
                    key: self.entries[i].key.clone(),
                    value,
                    last_access: now,
                };
                proof {
                    lemma_map_update(self.entries@, i as int, entry);
                }
                self.entries[i] = entry;
            },
            None => {
                proof {
                    lemma_map_push(
                        self.entries@,
                        CacheEntry { key: *key, value, last_access: now },
                    );
                }
                let entry = CacheEntry { key: key.clone(), value, last_access: now };
                self.entries.push(entry);
            },
        }
    }

    /// Drops any entry stored under `key`.
    pub fn remove(&mut self, key: &String)
        requires
            old(self).wf(),
        ensures
            final(self).wf(),
            final(self).window() == old(self).window(),
            final(self).contents() == old(self).contents().remove(key@),
    {
        match self.find_index(key) {
            Some(i) => {
                proof {
                    lemma_map_remove(self.entries@, i as int);
                }
                self.entries.remove(i);
            },
            None => {
                proof {
                    lemma_map_domain(self.entries@, key@);
                    assert(self.contents().remove(key@) =~= self.contents());
                }
            },
        }
    }
}

} // verus!
