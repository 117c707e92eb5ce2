use badns::dns::{Answer, Payload, Query};
use badns::exchange::{after_resolver, Exchange, MissStep};
use badns::forward::{reply_answers, upstream_request, Failover, ForwardAction};
use badns::resolver::{interpret, read_output, resolve_descriptors, resolver_name, splice, Item};
use badns::cache::{lookup_cached, CacheEntry, Lookup};
use badns::ttldict::TTLDict;

fn a_record(name: &str, ttl_ms: u64, ip: &str) -> Answer {
    Answer {
        name: name.to_string(),
        class: 1,
        ttl: ttl_ms,
        resource: Payload::A(ip.parse::<rustdns::A>().unwrap().octets()),
    }
}

fn request(names: &[&str]) -> Vec<u8> {
    let mut m = rustdns::Message::default();
    for n in names {
        m.try_add_question(n, rustdns::Type::A, rustdns::Class::Internet).unwrap();
    }
    m.to_vec().unwrap()
}

fn reply_with(ips: &[&str]) -> Vec<u8> {
    let mut m = rustdns::Message::default();
    m.try_add_question("example.com", rustdns::Type::A, rustdns::Class::Internet).unwrap();
    m.qr = rustdns::QR::Response;
    for ip in ips {
        m.answers.push(rustdns::Record::new(
            "example.com.",
            rustdns::Class::Internet,
            std::time::Duration::from_secs(300),
            rustdns::Resource::A(ip.parse().unwrap()),
        ));
    }
    m.to_vec().unwrap()
}

#[test]
fn failover_skips_a_silent_upstream() {
    let (mut f, first) = Failover::start(3);
    assert!(matches!(first, ForwardAction::Contact(0)));
    // The first upstream timed out.
    assert!(matches!(f.on_attempt(None), ForwardAction::Contact(1)));
    // The second answered.
    let got = reply_answers(&reply_with(&["10.0.0.2"]));
    match f.on_attempt(got) {
        ForwardAction::Finish(a) => {
            assert_eq!(a.len(), 1);
            assert!(matches!(&a[0].resource, Payload::Codec(c) if *c == rustdns::Resource::A("10.0.0.2".parse().unwrap())));
            assert_eq!(a[0].ttl, 300_000);
        }
        ForwardAction::Contact(_) => panic!("the third upstream must not be contacted"),
    }
}

#[test]
fn failover_exhausted_returns_empty() {
    let (mut f, first) = Failover::start(2);
    assert!(matches!(first, ForwardAction::Contact(0)));
    // A malformed reply counts as a failure.
    assert!(matches!(f.on_attempt(reply_answers(&[1, 2, 3])), ForwardAction::Contact(1)));
    // An empty answer set also moves on, here past the last upstream.
    match f.on_attempt(reply_answers(&reply_with(&[]))) {
        ForwardAction::Finish(a) => assert!(a.is_empty()),
        ForwardAction::Contact(_) => panic!("no upstream is left"),
    }
}

#[test]
fn failover_without_upstreams() {
    let (_, first) = Failover::start(0);
    assert!(matches!(first, ForwardAction::Finish(ref a) if a.is_empty()));
}

#[test]
fn upstream_request_encodes_the_question() {
    let q = Query { name: "example.com".to_string(), rtype: 28, class: 1 };
    let bytes = upstream_request(&q, 0x1234).unwrap();
    assert_eq!(&bytes[..2], &[0x12, 0x34]);
    assert_eq!(upstream_request(&q, 0x1234).unwrap(), bytes);
    let m = rustdns::Message::from_slice(&bytes).unwrap();
    assert_eq!(m.questions.len(), 1);
    assert_eq!(m.questions[0].name, "example.com.");
    // The question ends with its type and class codes.
    assert_eq!(&bytes[bytes.len() - 4..], &[0, 28, 0, 1]);
    let unknown = Query { name: "example.com".to_string(), rtype: 3, class: 1 };
    assert!(upstream_request(&unknown, 1).is_none());
}

#[test]
fn undecodable_datagram_gets_no_exchange() {
    assert!(Exchange::begin(&[0xff, 0x00, 0x12]).is_none());
    assert!(Exchange::begin(&[]).is_none());
}

#[test]
fn exchange_reads_questions_in_order() {
    let x = Exchange::begin(&request(&["a.example", "b.example"])).unwrap();
    let q = x.pending().unwrap();
    assert_eq!(q.name, "a.example.");
    assert_eq!(q.rtype, 1);
    assert_eq!(q.class, 1);
}

#[test]
fn two_questions_concatenate_answers() {
    let datagram = request(&["a.example", "b.example"]);
    let id = rustdns::Message::from_slice(&datagram).unwrap().id;
    let mut x = Exchange::begin(&datagram).unwrap();
    x.answer(vec![a_record("a.example.", 60_000, "10.0.0.1")], false);
    assert_eq!(x.pending().unwrap().name, "b.example.");
    x.answer(
        vec![a_record("b.example.", 60_000, "10.0.0.2"), a_record("b.example.", 60_000, "10.0.0.3")],
        true,
    );
    assert!(x.pending().is_none());
    let out = rustdns::Message::from_slice(&x.finish().unwrap()).unwrap();
    assert_eq!(out.qr, rustdns::QR::Response);
    assert_eq!(out.opcode, rustdns::Opcode::Query);
    assert_eq!(out.id, id);
    assert!(out.aa);
    assert_eq!(out.questions.len(), 2);
    let ips: Vec<_> = out.answers.iter().map(|r| r.resource.clone()).collect();
    assert_eq!(
        ips,
        vec![
            rustdns::Resource::A("10.0.0.1".parse().unwrap()),
            rustdns::Resource::A("10.0.0.2".parse().unwrap()),
            rustdns::Resource::A("10.0.0.3".parse().unwrap()),
        ]
    );
    assert_eq!(out.answers[0].ttl, std::time::Duration::from_secs(60));
}

#[test]
fn settle_miss_caches_and_answers() {
    let mut cache: TTLDict<u64, CacheEntry> = TTLDict::new();
    let mut x = Exchange::begin(&request(&["a.example"])).unwrap();
    x.settle_miss(&mut cache, 8, vec![a_record("a.example.", 30_000, "10.0.0.1")], false, 1_000);
    assert!(x.pending().is_none());
    assert!(matches!(lookup_cached(&mut cache, 8, 2_000), Lookup::Hit { .. }));
    let out = rustdns::Message::from_slice(&x.finish().unwrap()).unwrap();
    assert!(!out.aa);
    assert_eq!(out.answers.len(), 1);
}

#[test]
fn settle_miss_with_nothing_caches_nothing() {
    let mut cache: TTLDict<u64, CacheEntry> = TTLDict::new();
    let mut x = Exchange::begin(&request(&["a.example"])).unwrap();
    x.settle_miss(&mut cache, 8, vec![], false, 1_000);
    assert!(matches!(lookup_cached(&mut cache, 8, 1_000), Lookup::Miss));
    let out = rustdns::Message::from_slice(&x.finish().unwrap()).unwrap();
    assert!(out.answers.is_empty());
}

#[test]
fn empty_resolver_answer_goes_upstream() {
    assert!(matches!(after_resolver(vec![]), MissStep::Forward));
    match after_resolver(vec![a_record("a.", 1_000, "10.0.0.1")]) {
        MissStep::Settle(a) => assert_eq!(a.len(), 1),
        MissStep::Forward => panic!("records were given"),
    }
}

#[test]
fn resolver_output_is_read() {
    let q = Query { name: "host.example.".to_string(), rtype: 1, class: 1 };
    let out = r#"[
        {"type": "A", "ttl": 60, "ip": "192.0.2.1"},
        {"type": "CNAME", "ttl": 30, "name": "alias.example.", "target": "host.example.", "authoritative": true},
        {"special": true, "specialType": "queryUpstream", "name": "other.example", "rrtype": 28, "rrclass": 1},
        {"type": "A", "ip": "192.0.2.9"},
        {"type": "A", "ttl": 5, "ip": "not-an-ip"},
        {"type": "MX", "ttl": 5}
    ]"#;
    let ds = read_output(out).unwrap();
    assert_eq!(ds.len(), 6);
    let r = resolve_descriptors(&ds, &q);
    assert!(r.authoritative);
    match &r.items[0] {
        Item::Record(a) => {
            assert_eq!(a.name, "host.example.");
            assert_eq!(a.ttl, 60_000);
            assert_eq!(a.class, 1);
            assert!(matches!(a.resource, Payload::A([192, 0, 2, 1])));
        }
        _ => panic!("expected a record"),
    }
    match &r.items[1] {
        Item::Record(a) => {
            assert_eq!(a.name, "alias.example.");
            assert!(matches!(&a.resource, Payload::Cname(t) if t == "host.example."));
        }
        _ => panic!("expected a record"),
    }
    match &r.items[2] {
        Item::Upstream(u) => {
            assert_eq!(u.name, "other.example");
            assert_eq!(u.rtype, 28);
            assert_eq!(u.class, 1);
        }
        _ => panic!("expected a sub-query"),
    }
    assert!(matches!(r.items[3], Item::Skip));
    assert!(matches!(r.items[4], Item::Skip));
    assert!(matches!(r.items[5], Item::Skip));
}

#[test]
fn resolver_output_not_an_array() {
    assert!(read_output("{\"type\": \"A\"}").is_none());
    assert!(read_output("not json").is_none());
    assert_eq!(read_output("[]").unwrap().len(), 0);
}

#[test]
fn unknown_kind_still_marks_authoritative() {
    let q = Query { name: "h.".to_string(), rtype: 1, class: 1 };
    let ds = read_output(r#"[{"type": "TXT", "ttl": 5, "authoritative": true}]"#).unwrap();
    let r = interpret(&ds[0], &q);
    assert!(matches!(r.item, Item::Skip));
    assert!(r.authoritative);
}

#[test]
fn aaaa_descriptor() {
    let q = Query { name: "h.".to_string(), rtype: 28, class: 1 };
    let ds = read_output(r#"[{"type": "AAAA", "ttl": 7, "ip": "2001:db8::1"}, {"type": "AAAA", "ttl": 7, "ip": "192.0.2.1"}]"#).unwrap();
    match interpret(&ds[0], &q).item {
        Item::Record(a) => assert!(matches!(a.resource, Payload::AAAA(o) if o == "2001:db8::1".parse::<rustdns::AAAA>().unwrap().octets())),
        _ => panic!("expected a record"),
    }
    assert!(matches!(interpret(&ds[1], &q).item, Item::Skip));
}

#[test]
fn special_descriptor_out_of_range_code_is_skipped() {
    let q = Query { name: "h.".to_string(), rtype: 1, class: 1 };
    let ds = read_output(r#"[{"special": true, "specialType": "queryUpstream", "name": "x", "rrtype": 70000, "rrclass": 1},
                            {"special": true, "specialType": "other", "name": "x", "rrtype": 1, "rrclass": 1}]"#).unwrap();
    assert!(matches!(interpret(&ds[0], &q).item, Item::Skip));
    assert!(matches!(interpret(&ds[1], &q).item, Item::Skip));
}

#[test]
fn splice_puts_upstream_answers_in_place() {
    let items = vec![
        Item::Record(a_record("a.", 1_000, "10.0.0.1")),
        Item::Upstream(Query { name: "b".to_string(), rtype: 1, class: 1 }),
        Item::Skip,
        Item::Record(a_record("c.", 1_000, "10.0.0.4")),
    ];
    let fetched = vec![
        vec![],
        vec![a_record("b.", 1_000, "10.0.0.2"), a_record("b.", 1_000, "10.0.0.3")],
        vec![],
        vec![],
    ];
    let r = splice(items, &fetched);
    let names: Vec<&str> = r.iter().map(|a| a.name.as_str()).collect();
    assert_eq!(names, vec!["a.", "b.", "b.", "c."]);
    assert!(matches!(r[2].resource, Payload::A([10, 0, 0, 3])));
}

#[test]
fn resolver_name_drops_trailing_dot() {
    let q = Query { name: "www.example.com.".to_string(), rtype: 1, class: 1 };
    assert_eq!(resolver_name(&q), "www.example.com");
    let bare = Query { name: "www.example.com".to_string(), rtype: 1, class: 1 };
    assert_eq!(resolver_name(&bare), "www.example.com");
    let root = Query { name: ".".to_string(), rtype: 1, class: 1 };
    assert_eq!(resolver_name(&root), "");
}

#[test]
fn unknown_answer_class_is_not_encoded() {
    let mut x = Exchange::begin(&request(&["a.example"])).unwrap();
    let mut odd = a_record("a.example.", 60_000, "10.0.0.1");
    odd.class = 77;
    x.answer(vec![odd], false);
    assert!(x.finish().is_none());
}
