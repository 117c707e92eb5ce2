//! The answer cache: entries keyed by question, read back with their record
//! lifetimes reduced by the time spent in the cache.
use crate::dns::{copy_answers, Answer};
use crate::ttldict::{expiration_of, live_at, lookup_at, ExpiringValue, TTLDict};
use vstd::prelude::*;

verus! {

/// The records of one resolution, as captured when it was stored.
pub struct CacheEntry {
    pub entry: Vec<Answer>,
    pub authoritative: bool,
    /// The instant (milliseconds) at which the entry was stored.
    pub init_time: u64,
}

/// `a - b`, or zero where `b` exceeds `a`.
pub open spec fn sat_sub(a: u64, b: u64) -> u64 {
    if a >= b {
        (a - b) as u64
    } else {
        0
    }
}

/// A record read back `elapsed` milliseconds after it was stored.
pub open spec fn aged(a: Answer, elapsed: u64) -> Answer {
    Answer { name: a.name, class: a.class, ttl: sat_sub(a.ttl, elapsed), resource: a.resource }
}

/// Each record of `s` read back `elapsed` milliseconds after it was stored.
pub open spec fn aged_all(s: Seq<Answer>, elapsed: u64) -> Seq<Answer> {
    s.map_values(|a: Answer| aged(a, elapsed))
}

/// The least lifetime among the records of `s`, zero for none.
pub open spec fn min_ttl_of(s: Seq<Answer>) -> u64
    decreases s.len(),
{
    if s.len() == 0 {
        0
    } else if s.len() == 1 {
        s[0].ttl
    } else {
        let m = min_ttl_of(s.drop_last());
        if s.last().ttl < m {
            s.last().ttl
        } else {
            m
        }
    }
}

/// Copies of `answers` with `elapsed` taken off each lifetime, floored at zero.
pub fn age_answers(answers: &Vec<Answer>, elapsed: u64) -> (r: Vec<Answer>)
    ensures
        r@ == aged_all(answers@, elapsed),
{
    let mut r: Vec<Answer> = Vec::new();
    let mut i: usize = 0;
    while i < answers.len()
        invariant
            0 <= i <= answers.len(),
            r@ == aged_all(answers@.subrange(0, i as int), elapsed),
        decreases answers.len() - i,
    {
        let mut a = answers[i].copy();
        a.ttl = a.ttl.saturating_sub(elapsed);
        r.push(a);
        assert(aged_all(answers@.subrange(0, i + 1), elapsed) =~= aged_all(
            answers@.subrange(0, i as int),
            elapsed,
        ).push(aged(answers@[i as int], elapsed)));
        i = i + 1;
    }
    assert(answers@.subrange(0, answers@.len() as int) =~= answers@);
    r
}

/// The least lifetime among `answers`, zero when there are none.
pub fn min_ttl(answers: &Vec<Answer>) -> (r: u64)
    ensures
        r == min_ttl_of(answers@),
{
    if answers.len() == 0 {
        return 0;
    }
    let mut m: u64 = answers[0].ttl;
    let mut i: usize = 1;
    assert(answers@.subrange(0, 1).drop_last() =~= Seq::<Answer>::empty());
    while i < answers.len()
        invariant
            1 <= i <= answers.len(),
            m == min_ttl_of(answers@.subrange(0, i as int)),
        decreases answers.len() - i,
    {
        let t = answers[i].ttl;
        assert(answers@.subrange(0, i + 1).drop_last() =~= answers@.subrange(0, i as int));
        if t < m {
            m = t;
        }
        i = i + 1;
    }
    assert(answers@.subrange(0, answers@.len() as int) =~= answers@);
    m
}

/// The outcome of looking a question up in the cache.
pub enum Lookup {
    Hit { answers: Vec<Answer>, authoritative: bool },
    Miss,
}

/// Reads the entry under `key` at instant `now`: on a hit, copies of its
/// records with the time spent in the cache taken off their lifetimes, and
/// its authoritative flag. The stored entry itself is left as it was; dead
/// entries are swept.
pub fn lookup_cached(cache: &mut TTLDict<u64, CacheEntry>, key: u64, now: u64) -> (r: Lookup)
    requires
        old(cache).wf(),
    ensures
        final(cache).wf(),
        final(cache).entries() == live_at(old(cache).entries(), now),
        lookup_at(old(cache).entries(), key, now) matches Some(e) ==> r matches Lookup::Hit {
            answers,
            authoritative,
        } && answers@ == aged_all(e.entry@, sat_sub(now, e.init_time)) && authoritative
            == e.authoritative,
        lookup_at(old(cache).entries(), key, now) is None ==> r is Miss,
{
    match cache.get_at(&key, now) {
        Some(e) => {
            let elapsed = now.saturating_sub(e.init_time);
            let answers = age_answers(&e.entry, elapsed);
            Lookup::Hit { answers, authoritative: e.authoritative }
        },
        None => Lookup::Miss,
    }
}

/// Stores the records of one resolution under `key` at instant `now`, to live
/// as long as the shortest-lived of them. An empty set is never stored.
pub fn store_answers(
    cache: &mut TTLDict<u64, CacheEntry>,
    key: u64,
    answers: &Vec<Answer>,
    authoritative: bool,
    now: u64,
)
    requires
        old(cache).wf(),
    ensures
        final(cache).wf(),
        answers@.len() == 0 ==> final(cache).entries() == old(cache).entries(),
        answers@.len() > 0 ==> {
            &&& final(cache).entries().contains_key(key)
            &&& final(cache).entries()[key].value.entry@ == answers@
            &&& final(cache).entries()[key].value.authoritative == authoritative
            &&& final(cache).entries()[key].value.init_time == now
            &&& final(cache).entries()[key].expiration == expiration_of(now, min_ttl_of(answers@))
            &&& forall|k: u64|
                k != key ==> (#[trigger] final(cache).entries().contains_key(k) == old(
                    cache,
                ).entries().contains_key(k) && final(cache).entries()[k] == old(
                    cache,
                ).entries()[k])
        },
{
    if answers.len() > 0 {
        let ttl = min_ttl(answers);
        let entry = CacheEntry { entry: copy_answers(answers), authoritative, init_time: now };
        cache.set_at(key, entry, ttl, now);
    }
}

/// A read `t` milliseconds after a store, with `t` under the entry's
/// lifetime (whose end the clock can represent), finds the entry; every record comes back with `t` taken off its
/// stored lifetime (floored at zero), and the authoritative flag unchanged.
pub proof fn law_read_within_lifetime(
    entries: Map<u64, ExpiringValue<CacheEntry>>,
    key: u64,
    e: CacheEntry,
    t0: u64,
    t: u64,
)
    requires
        t < min_ttl_of(e.entry@),
        t0 + min_ttl_of(e.entry@) <= u64::MAX,
        e.init_time == t0,
    ensures
        ({
            let stored = entries.insert(
                key,
                ExpiringValue { value: e, expiration: expiration_of(t0, min_ttl_of(e.entry@)) },
            );
            &&& lookup_at(stored, key, (t0 + t) as u64) == Some(e)
            &&& sat_sub((t0 + t) as u64, e.init_time) == t
            &&& aged_all(e.entry@, t).len() == e.entry@.len()
            &&& forall|i: int|
                0 <= i < e.entry@.len() ==> (#[trigger] aged_all(e.entry@, t)[i]).ttl == sat_sub(
                    e.entry@[i].ttl,
                    t,
                ) && aged_all(e.entry@, t)[i].name == e.entry@[i].name
                    && aged_all(e.entry@, t)[i].resource == e.entry@[i].resource
        }),
{
    let stored = entries.insert(
        key,
        ExpiringValue { value: e, expiration: expiration_of(t0, min_ttl_of(e.entry@)) },
    );
    assert(stored.contains_key(key));
    assert(stored[key].expiration > t0 + t);
    assert forall|i: int| 0 <= i < e.entry@.len() implies (#[trigger] aged_all(e.entry@, t)[i])
        == aged(e.entry@[i], t) by {}
}

/// A read `t` milliseconds after a store, with `t` at or past the entry's
/// lifetime, does not find the entry.
pub proof fn law_read_after_lifetime(
    entries: Map<u64, ExpiringValue<CacheEntry>>,
    key: u64,
    e: CacheEntry,
    t0: u64,
    t: u64,
)
    requires
        t >= min_ttl_of(e.entry@),
        t0 + t <= u64::MAX,
    ensures
        lookup_at(
            entries.insert(
                key,
                ExpiringValue { value: e, expiration: expiration_of(t0, min_ttl_of(e.entry@)) },
            ),
            key,
            (t0 + t) as u64,
        ) is None,
{
}

/// The entries left after reads at the instants `reads`, in order, each of
/// which sweeps the entries dead at its instant.
pub open spec fn after_reads(
    entries: Map<u64, ExpiringValue<CacheEntry>>,
    reads: Seq<u64>,
) -> Map<u64, ExpiringValue<CacheEntry>>
    decreases reads.len(),
{
    if reads.len() == 0 {
        entries
    } else {
        after_reads(live_at(entries, reads[0]), reads.drop_first())
    }
}

/// Any number of hits on a live key, at instants before its expiry and in
/// any order, leave the stored entry as it was; so each read finds the
/// stored records and flag and ages its own copy of them.
pub proof fn law_hits_keep_entry(
    entries: Map<u64, ExpiringValue<CacheEntry>>,
    key: u64,
    reads: Seq<u64>,
)
    requires
        entries.contains_key(key),
        forall|i: int| 0 <= i < reads.len() ==> #[trigger] reads[i] < entries[key].expiration,
    ensures
        after_reads(entries, reads).contains_key(key),
        after_reads(entries, reads)[key] == entries[key],
    decreases reads.len(),
{
    if reads.len() > 0 {
        let swept = live_at(entries, reads[0]);
        assert(swept.contains_key(key) && swept[key] == entries[key]);
        assert forall|i: int| 0 <= i < reads.drop_first().len() implies #[trigger] reads.drop_first()[i]
            < swept[key].expiration by {
            assert(reads.drop_first()[i] == reads[i + 1]);
        }
        law_hits_keep_entry(swept, key, reads.drop_first());
    }
}

} // verus!
