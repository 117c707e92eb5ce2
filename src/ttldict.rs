//! An expiring key-value store with lazy, access-triggered eviction.
//!
//! Instants and durations are whole milliseconds. Each entry carries the
//! absolute instant at which it expires; an entry whose expiration is at or
//! before the current instant is dead and is swept on the next read.
use crate::clock::now_millis;
use std::collections::HashMap;
use vstd::prelude::*;
use vstd::std_specs::hash::obeys_key_model;

verus! {

broadcast use vstd::std_specs::hash::group_hash_axioms;

/// A stored value and the instant (milliseconds) at which it expires.
pub struct ExpiringValue<V> {
    pub value: V,
    pub expiration: u64,
}

/// The expiration instant of an entry written at `now` with lifetime `ttl`;
/// a sum past the clock's range is capped at the clock's last instant, at
/// which the entry is dead.
pub open spec fn expiration_of(now: u64, ttl: u64) -> u64 {
    if now + ttl > u64::MAX {
        u64::MAX
    } else {
        (now + ttl) as u64
    }
}

/// The entries of `m` that are still alive at instant `now`.
pub open spec fn live_at<K, V>(m: Map<K, ExpiringValue<V>>, now: u64) -> Map<K, ExpiringValue<V>> {
    Map::new(|k: K| m.contains_key(k) && m[k].expiration > now, |k: K| m[k])
}

/// What a read of `key` at instant `now` finds in the entries `m`.
pub open spec fn lookup_at<K, V>(m: Map<K, ExpiringValue<V>>, key: K, now: u64) -> Option<V> {
    if m.contains_key(key) && m[key].expiration > now {
        Some(m[key].value)
    } else {
        None
    }
}

/// Appending `x` adds exactly `x` to what a sequence contains, and keeps it
/// free of duplicates when `x` was not there.
proof fn lemma_push_contains<K>(s: Seq<K>, x: K)
    ensures
        forall|y: K| #[trigger] s.push(x).contains(y) <==> (s.contains(y) || y == x),
        (s.no_duplicates() && !s.contains(x)) ==> s.push(x).no_duplicates(),
{
    assert forall|y: K| #[trigger] s.push(x).contains(y) <==> (s.contains(y) || y == x) by {
        if s.contains(y) {
            let j = choose|j: int| 0 <= j < s.len() && s[j] == y;
            assert(s.push(x)[j] == y);
        }
        if y == x {
            assert(s.push(x)[s.len() as int] == y);
        }
        if s.push(x).contains(y) && y != x {
            let j = choose|j: int| 0 <= j < s.push(x).len() && s.push(x)[j] == y;
            assert(s[j] == y);
        }
    }
    if s.no_duplicates() && !s.contains(x) {
        assert forall|i: int, j: int|
            0 <= i < s.push(x).len() && 0 <= j < s.push(x).len() && i != j implies s.push(x)[i]
            != s.push(x)[j] by {
            if i == s.len() as int {
                assert(s[j] == s.push(x)[j]);
            } else if j == s.len() as int {
                assert(s[i] == s.push(x)[i]);
            }
        }
    }
}

impl<V> ExpiringValue<V> {
    pub fn new(value: V, ttl: u64, now: u64) -> (r: Self)
        ensures
            r.value == value,
            r.expiration == expiration_of(now, ttl),
    {
        ExpiringValue { value, expiration: now.saturating_add(ttl) }
    }
}

/// A map from keys to values that expire.
pub struct TTLDict<K, V> {
    backing: HashMap<K, ExpiringValue<V>>,
    drop_queue: Vec<K>,
}

impl<K: Copy + Eq + std::hash::Hash, V> TTLDict<K, V> {
    /// The stored entries, dead ones included until the next sweep.
    pub closed spec fn entries(&self) -> Map<K, ExpiringValue<V>> {
        self.backing@
    }

    /// Keys hash and compare as values do; every stored key is queued
    /// exactly once, and nothing else is.
    pub closed spec fn wf(&self) -> bool {
        &&& obeys_key_model::<K>()
        &&& self.drop_queue@.no_duplicates()
        &&& forall|k: K| #[trigger]
            self.backing@.contains_key(k) <==> self.drop_queue@.contains(k)
    }

    /// An empty store, for a key type whose hashing and equality follow its
    /// values (as those of the integer types do).
    pub fn new() -> (r: Self)
        requires
            obeys_key_model::<K>(),
        ensures
            r.wf(),
            r.entries() == Map::<K, ExpiringValue<V>>::empty(),
    {
        let r = TTLDict { backing: HashMap::new(), drop_queue: Vec::new() };
        assert(r.backing@ =~= Map::<K, ExpiringValue<V>>::empty());
        r
    }

    /// Removes every entry that is dead at instant `now`.
    fn tidy_up(&mut self, now: u64)
        requires
            old(self).wf(),
        ensures
            final(self).wf(),
            final(self).entries() == live_at(old(self).entries(), now),
    {
        let ghost start = self.backing@;
        let mut kept: Vec<K> = Vec::new();
        let mut i: usize = 0;
        while i < self.drop_queue.len()
            invariant
                obeys_key_model::<K>(),
                self.drop_queue@.no_duplicates(),
                forall|k: K| #[trigger] start.contains_key(k) <==> self.drop_queue@.contains(k),
                0 <= i <= self.drop_queue.len(),
                kept@.no_duplicates(),
                forall|k: K| #[trigger]
                    kept@.contains(k) <==> (start.contains_key(k) && start[k].expiration > now
                        && self.drop_queue@.subrange(0, i as int).contains(k)),
                forall|k: K| #[trigger]
                    self.backing@.contains_key(k) <==> (start.contains_key(k) && (
                    start[k].expiration > now || !self.drop_queue@.subrange(
                        0,
                        i as int,
                    ).contains(k))),
                forall|k: K| #[trigger] self.backing@.contains_key(k) ==> self.backing@[k] == start[k],
            decreases self.drop_queue.len() - i,
        {
            let k = self.drop_queue[i];
            let ghost before = self.drop_queue@.subrange(0, i as int);
            assert(self.drop_queue@.subrange(0, i + 1) =~= before.push(k));
            assert(!before.contains(k)) by {
                if before.contains(k) {
                    let j = choose|j: int| 0 <= j < before.len() && before[j] == k;
                    assert(self.drop_queue@[j] == self.drop_queue@[i as int]);
                }
            }
            assert(self.drop_queue@.contains(k)) by {
                assert(self.drop_queue@[i as int] == k);
            }
            proof {
                lemma_push_contains(before, k);
                lemma_push_contains(kept@, k);
            }
            let expired = match self.backing.get(&k) {
                Some(e) => e.expiration <= now,
                None => false,
            };
            if expired {
                self.backing.remove(&k);
            } else {
                kept.push(k);
            }
            i = i + 1;
        }
        assert(self.drop_queue@.subrange(0, self.drop_queue@.len() as int) =~= self.drop_queue@);
        self.drop_queue = kept;
        assert(self.backing@ =~= live_at(start, now));
    }

    /// Sweeps the dead entries at instant `now`, then finds `key`.
    pub fn get_at(&mut self, key: &K, now: u64) -> (r: Option<&V>)
        requires
            old(self).wf(),
        ensures
            final(self).wf(),
            final(self).entries() == live_at(old(self).entries(), now),
            r matches Some(v) ==> lookup_at(old(self).entries(), *key, now) == Some(*v),
            r is None ==> lookup_at(old(self).entries(), *key, now) is None,
    {
        self.tidy_up(now);
        match self.backing.get(key) {
            Some(e) => Some(&e.value),
            None => None,
        }
    }

    /// Stores `value` under `key` at instant `now`, to live for `ttl`
    /// milliseconds, replacing any entry under that key.
    pub fn set_at(&mut self, key: K, value: V, ttl: u64, now: u64)
        requires
            old(self).wf(),
        ensures
            final(self).wf(),
            final(self).entries() == old(self).entries().insert(
                key,
                ExpiringValue { value, expiration: expiration_of(now, ttl) },
            ),
    {
        let expiring = ExpiringValue::new(value, ttl, now);
        let previous = self.backing.insert(key, expiring);
        match previous {
            Some(_) => {},
            None => {
                proof {
                    lemma_push_contains(self.drop_queue@, key);
                }
                self.drop_queue.push(key);
            },
        }
    }
}

impl<K: Copy + Eq + std::hash::Hash, V> TTLDict<K, V> {
    /// Sweeps the entries that are dead now, then finds `key`.
    pub fn get(&mut self, key: &K) -> (r: Option<&V>)
        requires
            old(self).wf(),
        ensures
            final(self).wf(),
            exists|now: u64|
                {
                    &&& final(self).entries() == live_at(old(self).entries(), now)
                    &&& r matches Some(v) ==> lookup_at(old(self).entries(), *key, now) == Some(*v)
                    &&& r is None ==> lookup_at(old(self).entries(), *key, now) is None
                },
    {
        let now = now_millis();
        self.get_at(key, now)
    }

    /// Stores `value` under `key` now, to live for `ttl` milliseconds.
    pub fn set(&mut self, key: K, value: V, ttl: u64)
        requires
            old(self).wf(),
        ensures
            final(self).wf(),
            exists|now: u64|
                final(self).entries() == old(self).entries().insert(
                    key,
                    ExpiringValue { value, expiration: expiration_of(now, ttl) },
                ),
    {
        let now = now_millis();
        self.set_at(key, value, ttl, now);
    }
}

} // verus!
