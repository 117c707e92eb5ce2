use badns::address::Address;
use badns::cache::{age_answers, lookup_cached, min_ttl, store_answers, CacheEntry, Lookup};
use badns::dns::{Answer, Payload, Query};
use badns::key::hash_question;
use badns::redirect::host_of;
use badns::ttldict::{ExpiringValue, TTLDict};

fn a_record(name: &str, ttl_ms: u64, ip: &str) -> Answer {
    Answer {
        name: name.to_string(),
        class: 1,
        ttl: ttl_ms,
        resource: Payload::A(ip.parse::<rustdns::A>().unwrap().octets()),
    }
}

#[test]
fn ttldict_read_within_lifetime() {
    let mut d: TTLDict<u64, u32> = TTLDict::new();
    d.set_at(7, 42, 1000, 5000);
    assert_eq!(d.get_at(&7, 5999), Some(&42));
}

#[test]
fn ttldict_read_at_expiry_is_miss() {
    let mut d: TTLDict<u64, u32> = TTLDict::new();
    d.set_at(7, 42, 1000, 5000);
    assert_eq!(d.get_at(&7, 6000), None);
    assert_eq!(d.get_at(&7, 6001), None);
}

#[test]
fn ttldict_sweep_keeps_live_entries() {
    let mut d: TTLDict<u64, &str> = TTLDict::new();
    d.set_at(1, "short", 10, 0);
    d.set_at(2, "long", 1000, 0);
    assert_eq!(d.get_at(&1, 50), None);
    assert_eq!(d.get_at(&2, 50), Some(&"long"));
    // Once swept, an entry stays gone even for an earlier instant.
    assert_eq!(d.get_at(&1, 5), None);
}

#[test]
fn ttldict_set_replaces() {
    let mut d: TTLDict<u64, u32> = TTLDict::new();
    d.set_at(3, 1, 100, 0);
    d.set_at(3, 2, 500, 0);
    assert_eq!(d.get_at(&3, 200), Some(&2));
}

#[test]
fn ttldict_saturating_expiration_lasts_to_the_clock_end() {
    let mut d: TTLDict<u64, u32> = TTLDict::new();
    d.set_at(1, 9, u64::MAX, 10);
    assert_eq!(d.get_at(&1, u64::MAX - 1), Some(&9));
    assert_eq!(d.get_at(&1, u64::MAX), None);
}

#[test]
fn ttldict_clocked_set_then_get() {
    let mut d: TTLDict<u64, u32> = TTLDict::new();
    d.set(11, 5, 3_600_000);
    assert_eq!(d.get(&11), Some(&5));
    assert_eq!(d.get(&12), None);
}

#[test]
fn ttldict_zero_ttl_is_never_found() {
    let mut d: TTLDict<u64, u32> = TTLDict::new();
    d.set(1, 5, 0);
    assert_eq!(d.get(&1), None);
}

#[test]
fn expiring_value_new() {
    let e = ExpiringValue::new("x", 250, 1000);
    assert_eq!(e.value, "x");
    assert_eq!(e.expiration, 1250);
}

#[test]
fn address_canonical_form() {
    let a = Address { address: "1.2.3.4".to_string(), port: 53 };
    assert_eq!(a.to_canonical(), "1.2.3.4:53");
    let b = Address { address: "dns.example".to_string(), port: 0 };
    assert_eq!(b.to_canonical(), "dns.example:0");
    let c = Address { address: "::1".to_string(), port: 65535 };
    assert_eq!(c.to_canonical(), "::1:65535");
}

#[test]
fn key_is_stable_and_separates_fields() {
    let q = Query { name: "example.com.".to_string(), rtype: 1, class: 1 };
    let same = Query { name: "example.com.".to_string(), rtype: 1, class: 1 };
    assert_eq!(hash_question(&q), hash_question(&q));
    assert_eq!(hash_question(&q), hash_question(&same));
    let other_type = Query { name: "example.com.".to_string(), rtype: 28, class: 1 };
    let other_class = Query { name: "example.com.".to_string(), rtype: 1, class: 3 };
    let other_name = Query { name: "example.org.".to_string(), rtype: 1, class: 1 };
    assert_ne!(hash_question(&q), hash_question(&other_type));
    assert_ne!(hash_question(&q), hash_question(&other_class));
    assert_ne!(hash_question(&q), hash_question(&other_name));
}

#[test]
fn min_ttl_values() {
    assert_eq!(min_ttl(&vec![]), 0);
    let v = vec![a_record("a.", 300, "1.1.1.1"), a_record("a.", 60, "1.1.1.2"), a_record("a.", 90, "1.1.1.3")];
    assert_eq!(min_ttl(&v), 60);
}

#[test]
fn aging_floors_at_zero() {
    let v = vec![a_record("a.", 300_000, "1.1.1.1"), a_record("a.", 1_000, "1.1.1.2")];
    let aged = age_answers(&v, 2_000);
    assert_eq!(aged[0].ttl, 298_000);
    assert_eq!(aged[1].ttl, 0);
    assert_eq!(aged[0].name, "a.");
    assert!(matches!(aged[1].resource, Payload::A([1, 1, 1, 2])));
}

#[test]
fn cache_hit_reduces_ttl_and_keeps_flag() {
    let mut cache: TTLDict<u64, CacheEntry> = TTLDict::new();
    let v = vec![a_record("a.", 300_000, "1.1.1.1"), a_record("a.", 120_000, "1.1.1.2")];
    store_answers(&mut cache, 99, &v, true, 10_000);
    match lookup_cached(&mut cache, 99, 40_000) {
        Lookup::Hit { answers, authoritative } => {
            assert!(authoritative);
            assert_eq!(answers.len(), 2);
            assert_eq!(answers[0].ttl, 270_000);
            assert_eq!(answers[1].ttl, 90_000);
        }
        Lookup::Miss => panic!("expected a hit"),
    }
}

#[test]
fn cache_expires_at_min_ttl() {
    let mut cache: TTLDict<u64, CacheEntry> = TTLDict::new();
    let v = vec![a_record("a.", 300_000, "1.1.1.1"), a_record("a.", 120_000, "1.1.1.2")];
    store_answers(&mut cache, 5, &v, false, 0);
    assert!(matches!(lookup_cached(&mut cache, 5, 119_999), Lookup::Hit { .. }));
    assert!(matches!(lookup_cached(&mut cache, 5, 120_000), Lookup::Miss));
}

#[test]
fn repeated_hits_do_not_change_the_stored_entry() {
    let mut cache: TTLDict<u64, CacheEntry> = TTLDict::new();
    let v = vec![a_record("a.", 60_000, "1.1.1.1")];
    store_answers(&mut cache, 1, &v, false, 0);
    let mut seen = Vec::new();
    for now in [10_000u64, 10_000, 20_000, 10_000] {
        match lookup_cached(&mut cache, 1, now) {
            Lookup::Hit { answers, .. } => seen.push(answers[0].ttl),
            Lookup::Miss => panic!("expected a hit"),
        }
    }
    assert_eq!(seen, vec![50_000, 50_000, 40_000, 50_000]);
}

#[test]
fn empty_results_are_not_cached() {
    let mut cache: TTLDict<u64, CacheEntry> = TTLDict::new();
    store_answers(&mut cache, 3, &vec![], true, 0);
    assert!(matches!(lookup_cached(&mut cache, 3, 0), Lookup::Miss));
}

#[test]
fn host_header_drops_port() {
    assert_eq!(host_of("example.com:8080"), "example.com");
    assert_eq!(host_of("example.com"), "example.com");
    assert_eq!(host_of(":80"), "");
    assert_eq!(host_of(""), "");
}

#[test]
fn ttldict_other_key_type() {
    let mut d: TTLDict<u16, &str> = TTLDict::new();
    d.set_at(53, "dns", 100, 0);
    d.set_at(80, "http", 10, 0);
    assert_eq!(d.get_at(&53, 50), Some(&"dns"));
    assert_eq!(d.get_at(&80, 50), None);
}
