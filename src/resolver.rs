//! What the response resolver hands back, and how it becomes answers.
//!
//! The resolver returns a JSON array of descriptors. Each is either a record
//! to answer with, or a "special" descriptor asking for an upstream lookup of
//! a sub-query whose answers are spliced in at its place. A malformed
//! descriptor is skipped; it never stops the others from being read.
use crate::dns::{Answer, Payload, Query};
use vstd::prelude::*;
use vstd::string::{StrSliceExecFns, StringExecFns};

verus! {

/// The elements of the JSON array that `s` holds, each written back as JSON
/// text; `None` where `s` is not JSON or not an array.
pub uninterp spec fn json_elements_of(s: Seq<char>) -> Option<Seq<Seq<char>>>;

/// The value under `field` of the JSON object that `e` holds, written back as
/// JSON text; `None` where `e` is no object or lacks the field.
pub uninterp spec fn json_field_of(e: Seq<char>, field: Seq<char>) -> Option<Seq<char>>;

/// The string that the JSON text `t` holds, where it holds one.
pub uninterp spec fn json_string_of(t: Seq<char>) -> Option<Seq<char>>;

/// The unsigned integer that the JSON text `t` holds, where it holds one in
/// range.
pub uninterp spec fn json_u64_of(t: Seq<char>) -> Option<u64>;

/// The signed integer that the JSON text `t` holds, where it holds one in
/// range.
pub uninterp spec fn json_i64_of(t: Seq<char>) -> Option<i64>;

/// The boolean that the JSON text `t` holds, where it holds one.
pub uninterp spec fn json_bool_of(t: Seq<char>) -> Option<bool>;

/// Relies on serde_json::from_str into a Value, Value::as_array and the
/// Value's Display, which writes a value back as JSON text and depends on the
/// value alone.
#[verifier::external_body]
fn json_elements(s: &str) -> (r: Option<Vec<String>>)
    ensures
        r is Some <==> json_elements_of(s@) is Some,
        r matches Some(v) ==> v@.len() == json_elements_of(s@)->Some_0.len(),
        r matches Some(v) ==> forall|i: int|
            0 <= i < v@.len() ==> (#[trigger] v@[i])@ == json_elements_of(s@)->Some_0[i],
{
    let v: serde_json::Value = serde_json::from_str(s).ok()?;
    Some(v.as_array()?.iter().map(|e| e.to_string()).collect())
}

/// Relies on serde_json::from_str into a Value, Value::get and the Value's
/// Display.
#[verifier::external_body]
fn json_field(e: &str, field: &str) -> (r: Option<String>)
    ensures
        r is Some <==> json_field_of(e@, field@) is Some,
        r matches Some(t) ==> json_field_of(e@, field@) == Some(t@),
{
    let v: serde_json::Value = serde_json::from_str(e).ok()?;
    v.get(field).map(|f| f.to_string())
}

/// Relies on serde_json::from_str into a String.
#[verifier::external_body]
fn json_string(t: &str) -> (r: Option<String>)
    ensures
        r is Some <==> json_string_of(t@) is Some,
        r matches Some(x) ==> json_string_of(t@) == Some(x@),
{
    serde_json::from_str::<String>(t).ok()
}

/// Relies on serde_json::from_str into a u64.
#[verifier::external_body]
fn json_u64(t: &str) -> (r: Option<u64>)
    ensures
        r == json_u64_of(t@),
{
    serde_json::from_str::<u64>(t).ok()
}

/// Relies on serde_json::from_str into an i64.
#[verifier::external_body]
fn json_i64(t: &str) -> (r: Option<i64>)
    ensures
        r == json_i64_of(t@),
{
    serde_json::from_str::<i64>(t).ok()
}

/// Relies on serde_json::from_str into a bool.
#[verifier::external_body]
fn json_bool(t: &str) -> (r: Option<bool>)
    ensures
        r == json_bool_of(t@),
{
    serde_json::from_str::<bool>(t).ok()
}

/// The four bytes of the IPv4 address literal `s`, as std reads one.
pub uninterp spec fn ipv4_of(s: Seq<char>) -> Option<Seq<u8>>;

/// The sixteen bytes of the IPv6 address literal `s`, as std reads one.
pub uninterp spec fn ipv6_of(s: Seq<char>) -> Option<Seq<u8>>;

/// Relies on std's FromStr for Ipv4Addr, which depends on the text alone,
/// and Ipv4Addr::octets; `None` where `ip` is no IPv4 literal.
#[verifier::external_body]
fn ipv4_octets(ip: &str) -> (r: Option<[u8; 4]>)
    ensures
        r is Some <==> ipv4_of(ip@) is Some,
        r matches Some(o) ==> ipv4_of(ip@) == Some(o@),
{
    ip.parse::<rustdns::A>().ok().map(|a| a.octets())
}

/// Relies on std's FromStr for Ipv6Addr, which depends on the text alone,
/// and Ipv6Addr::octets; `None` where `ip` is no IPv6 literal.
#[verifier::external_body]
fn ipv6_octets(ip: &str) -> (r: Option<[u8; 16]>)
    ensures
        r is Some <==> ipv6_of(ip@) is Some,
        r matches Some(o) ==> ipv6_of(ip@) == Some(o@),
{
    ip.parse::<rustdns::AAAA>().ok().map(|a| a.octets())
}

/// The fields of one descriptor, each `None` where it is missing or of
/// another JSON type.
pub struct Descriptor {
    pub special: Option<bool>,
    pub special_type: Option<String>,
    pub name: Option<String>,
    pub rrtype: Option<i64>,
    pub rrclass: Option<i64>,
    pub ttl: Option<u64>,
    pub kind: Option<String>,
    pub ip: Option<String>,
    pub target: Option<String>,
    pub authoritative: Option<bool>,
}

/// One descriptor, read.
pub enum Item {
    /// A record to answer with.
    Record(Answer),
    /// A sub-query whose upstream answers go here.
    Upstream(Query),
    /// Nothing: the descriptor was malformed or of an unknown kind.
    Skip,
}

/// A descriptor read, and whether it marks the answer authoritative.
pub struct Reading {
    pub item: Item,
    pub authoritative: bool,
}

/// Whether the optional text `o` is `w`.
pub open spec fn text_is(o: Option<String>, w: Seq<char>) -> bool {
    o is Some && o->Some_0@ == w
}

/// A type or class code given as an integer, where it fits in 16 bits.
pub open spec fn code_of(o: Option<i64>) -> Option<u16> {
    if o is Some && 0 <= o->Some_0 <= 65535 {
        Some(o->Some_0 as u16)
    } else {
        None
    }
}

/// A lifetime in whole seconds as milliseconds, saturating.
pub open spec fn seconds_to_millis(s: u64) -> u64 {
    if s * 1000 > u64::MAX {
        u64::MAX
    } else {
        (s * 1000) as u64
    }
}

/// Whether `d` is a well-formed request for an upstream lookup.
pub open spec fn asks_upstream(d: Descriptor) -> bool {
    &&& d.special == Some(true)
    &&& text_is(d.special_type, "queryUpstream"@)
    &&& d.name is Some
    &&& code_of(d.rrtype) is Some
    &&& code_of(d.rrclass) is Some
}

/// Whether the payload that `d` names can be built.
pub open spec fn payload_ok(d: Descriptor) -> bool {
    if text_is(d.kind, "A"@) {
        d.ip is Some && ipv4_of(d.ip->Some_0@) is Some
    } else if text_is(d.kind, "AAAA"@) {
        d.ip is Some && ipv6_of(d.ip->Some_0@) is Some
    } else if text_is(d.kind, "CNAME"@) {
        d.target is Some
    } else {
        true
    }
}

/// Whether `d` names a record kind this resolver builds.
pub open spec fn known_kind(d: Descriptor) -> bool {
    text_is(d.kind, "A"@) || text_is(d.kind, "AAAA"@) || text_is(d.kind, "CNAME"@)
}

/// Whether `d` is a plain descriptor with its required fields and a payload
/// that can be built; only such a descriptor counts.
pub open spec fn well_formed(d: Descriptor) -> bool {
    d.special != Some(true) && d.ttl is Some && d.kind is Some && payload_ok(d)
}

/// Whether `d` yields a record.
pub open spec fn makes_record(d: Descriptor) -> bool {
    well_formed(d) && known_kind(d)
}

/// Whether `d` marks the answer authoritative.
pub open spec fn marks_authoritative(d: Descriptor) -> bool {
    well_formed(d) && d.authoritative == Some(true)
}

/// Whether `p` is the data that `d` gives: the address read from its `ip`,
/// or its `target` as the canonical name.
pub open spec fn payload_of(p: Payload, d: Descriptor) -> bool {
    if text_is(d.kind, "A"@) {
        p matches Payload::A(o) && Some(o@) == ipv4_of(d.ip->Some_0@)
    } else if text_is(d.kind, "AAAA"@) {
        p matches Payload::AAAA(o) && Some(o@) == ipv6_of(d.ip->Some_0@)
    } else {
        p matches Payload::Cname(t) && t@ == d.target->Some_0@
    }
}

/// Whether `item` is what reading `d` for question `q` yields.
pub open spec fn item_of(item: Item, d: Descriptor, q: Query) -> bool {
    if asks_upstream(d) {
        item matches Item::Upstream(u) && u.name@ == d.name->Some_0@ && u.rtype == code_of(
            d.rrtype,
        )->Some_0 && u.class == code_of(d.rrclass)->Some_0
    } else if makes_record(d) {
        item matches Item::Record(a) && a.name@ == (if d.name is Some {
            d.name->Some_0@
        } else {
            q.name@
        }) && a.class == q.class && a.ttl == seconds_to_millis(d.ttl->Some_0) && payload_of(
            a.resource,
            d,
        )
    } else {
        item is Skip
    }
}

/// Whether `s` and `w` hold the same characters.
fn same_text(s: &str, w: &str) -> (r: bool)
    ensures
        r == (s@ == w@),
{
    let n = s.unicode_len();
    if n != w.unicode_len() {
        return false;
    }
    let mut i: usize = 0;
    while i < n
        invariant
            n == s@.len() == w@.len(),
            0 <= i <= n,
            forall|j: int| 0 <= j < i ==> s@[j] == w@[j],
        decreases n - i,
    {
        if s.get_char(i) != w.get_char(i) {
            return false;
        }
        i = i + 1;
    }
    assert(s@ =~= w@);
    true
}

/// Whether the optional text `o` is `w`.
fn has_text(o: &Option<String>, w: &str) -> (r: bool)
    ensures
        r == text_is(*o, w@),
{
    match o {
        Some(s) => same_text(s.as_str(), w),
        None => false,
    }
}

/// A type or class code given as an integer, where it fits in 16 bits.
fn code_from(o: Option<i64>) -> (r: Option<u16>)
    ensures
        r == code_of(o),
{
    match o {
        Some(x) => {
            if 0 <= x && x <= 65535 {
                Some(x as u16)
            } else {
                None
            }
        },
        None => None,
    }
}

/// Reads one descriptor for question `q`.
pub fn interpret(d: &Descriptor, q: &Query) -> (r: Reading)
    ensures
        item_of(r.item, *d, *q),
        r.authoritative == marks_authoritative(*d),
{
    if d.special == Some(true) {
        let upstream = has_text(&d.special_type, "queryUpstream");
        let rtype = code_from(d.rrtype);
        let class = code_from(d.rrclass);
        if upstream {
            match (&d.name, rtype, class) {
                (Some(name), Some(rtype), Some(class)) => {
                    return Reading {
                        item: Item::Upstream(Query { name: name.clone(), rtype, class }),
                        authoritative: false,
                    };
                },
                _ => {},
            }
        }
        return Reading { item: Item::Skip, authoritative: false };
    }
    let ttl = match d.ttl {
        Some(t) => {
            if t <= u64::MAX / 1000 {
                t * 1000
            } else {
                u64::MAX
            }
        },
        None => {
            return Reading { item: Item::Skip, authoritative: false };
        },
    };
    let kind = match &d.kind {
        Some(k) => k,
        None => {
            return Reading { item: Item::Skip, authoritative: false };
        },
    };
    let resource = if same_text(kind.as_str(), "A") {
        match &d.ip {
            Some(ip) => match ipv4_octets(ip.as_str()) {
                Some(o) => Some(Payload::A(o)),
                None => None,
            },
            None => None,
        }
    } else if same_text(kind.as_str(), "AAAA") {
        match &d.ip {
            Some(ip) => match ipv6_octets(ip.as_str()) {
                Some(o) => Some(Payload::AAAA(o)),
                None => None,
            },
            None => None,
        }
    } else if same_text(kind.as_str(), "CNAME") {
        match &d.target {
            Some(t) => Some(Payload::Cname(t.clone())),
            None => None,
        }
    } else {
        return Reading { item: Item::Skip, authoritative: d.authoritative == Some(true) };
    };
    match resource {
        Some(resource) => {
            let name = match &d.name {
                Some(n) => n.clone(),
                None => q.name.clone(),
            };
            Reading {
                item: Item::Record(Answer { name, class: q.class, ttl, resource }),
                authoritative: d.authoritative == Some(true),
            }
        },
        None => Reading { item: Item::Skip, authoritative: false },
    }
}

/// The string under `field` of the JSON object `e`.
pub open spec fn text_field(e: Seq<char>, field: Seq<char>) -> Option<Seq<char>> {
    match json_field_of(e, field) {
        Some(t) => json_string_of(t),
        None => None,
    }
}

/// The unsigned integer under `field` of the JSON object `e`.
pub open spec fn u64_field(e: Seq<char>, field: Seq<char>) -> Option<u64> {
    match json_field_of(e, field) {
        Some(t) => json_u64_of(t),
        None => None,
    }
}

/// The signed integer under `field` of the JSON object `e`.
pub open spec fn i64_field(e: Seq<char>, field: Seq<char>) -> Option<i64> {
    match json_field_of(e, field) {
        Some(t) => json_i64_of(t),
        None => None,
    }
}

/// The boolean under `field` of the JSON object `e`.
pub open spec fn bool_field(e: Seq<char>, field: Seq<char>) -> Option<bool> {
    match json_field_of(e, field) {
        Some(t) => json_bool_of(t),
        None => None,
    }
}

/// Whether the optional text `o` holds what `t` gives.
pub open spec fn holds_text(o: Option<String>, t: Option<Seq<char>>) -> bool {
    match o {
        Some(x) => t == Some(x@),
        None => t is None,
    }
}

/// Whether `d` holds the fields of the JSON object `e`.
pub open spec fn descriptor_read(d: Descriptor, e: Seq<char>) -> bool {
    &&& d.special == bool_field(e, "special"@)
    &&& holds_text(d.special_type, text_field(e, "specialType"@))
    &&& holds_text(d.name, text_field(e, "name"@))
    &&& d.rrtype == i64_field(e, "rrtype"@)
    &&& d.rrclass == i64_field(e, "rrclass"@)
    &&& d.ttl == u64_field(e, "ttl"@)
    &&& holds_text(d.kind, text_field(e, "type"@))
    &&& holds_text(d.ip, text_field(e, "ip"@))
    &&& holds_text(d.target, text_field(e, "target"@))
    &&& d.authoritative == bool_field(e, "authoritative"@)
}

/// The string under `field`.
fn field_text(e: &str, field: &str) -> (r: Option<String>)
    ensures
        holds_text(r, text_field(e@, field@)),
{
    match json_field(e, field) {
        Some(t) => json_string(t.as_str()),
        None => None,
    }
}

/// The unsigned integer under `field`.
fn field_u64(e: &str, field: &str) -> (r: Option<u64>)
    ensures
        r == u64_field(e@, field@),
{
    match json_field(e, field) {
        Some(t) => json_u64(t.as_str()),
        None => None,
    }
}

/// The signed integer under `field`.
fn field_i64(e: &str, field: &str) -> (r: Option<i64>)
    ensures
        r == i64_field(e@, field@),
{
    match json_field(e, field) {
        Some(t) => json_i64(t.as_str()),
        None => None,
    }
}

/// The boolean under `field`.
fn field_bool(e: &str, field: &str) -> (r: Option<bool>)
    ensures
        r == bool_field(e@, field@),
{
    match json_field(e, field) {
        Some(t) => json_bool(t.as_str()),
        None => None,
    }
}

/// The fields of one descriptor, from its JSON text.
pub fn read_descriptor(e: &str) -> (r: Descriptor)
    ensures
        descriptor_read(r, e@),
{
    Descriptor {
        special: field_bool(e, "special"),
        special_type: field_text(e, "specialType"),
        name: field_text(e, "name"),
        rrtype: field_i64(e, "rrtype"),
        rrclass: field_i64(e, "rrclass"),
        ttl: field_u64(e, "ttl"),
        kind: field_text(e, "type"),
        ip: field_text(e, "ip"),
        target: field_text(e, "target"),
        authoritative: field_bool(e, "authoritative"),
    }
}

/// The descriptors of the resolver's output, or `None` where the output is
/// not JSON or not an array: then the resolver gave no answer.
pub fn read_output(output: &str) -> (r: Option<Vec<Descriptor>>)
    ensures
        r is Some <==> json_elements_of(output@) is Some,
        r matches Some(ds) ==> ds@.len() == json_elements_of(output@)->Some_0.len(),
        r matches Some(ds) ==> forall|i: int|
            0 <= i < ds@.len() ==> descriptor_read(
                #[trigger] ds@[i],
                json_elements_of(output@)->Some_0[i],
            ),
{
    let items = match json_elements(output) {
        Some(items) => items,
        None => {
            return None;
        },
    };
    let ghost elems = json_elements_of(output@)->Some_0;
    let mut r: Vec<Descriptor> = Vec::new();
    let mut i: usize = 0;
    while i < items.len()
        invariant
            0 <= i <= items.len(),
            items@.len() == elems.len(),
            forall|j: int| 0 <= j < items@.len() ==> (#[trigger] items@[j])@ == elems[j],
            r@.len() == i,
            forall|j: int| 0 <= j < i ==> descriptor_read(#[trigger] r@[j], elems[j]),
        decreases items.len() - i,
    {
        r.push(read_descriptor(items[i].as_str()));
        i = i + 1;
    }
    Some(r)
}

/// The descriptors of one resolver call, read in order.
pub struct Resolution {
    pub items: Vec<Item>,
    pub authoritative: bool,
}

/// Whether some descriptor among `ds` marks the answer authoritative.
pub open spec fn any_authoritative(ds: Seq<Descriptor>) -> bool {
    exists|i: int| 0 <= i < ds.len() && marks_authoritative(#[trigger] ds[i])
}

/// Reads every descriptor for question `q`, in order; the answer is
/// authoritative where any descriptor says so.
pub fn resolve_descriptors(ds: &Vec<Descriptor>, q: &Query) -> (r: Resolution)
    ensures
        r.items@.len() == ds@.len(),
        forall|i: int| 0 <= i < ds@.len() ==> item_of(#[trigger] r.items@[i], ds@[i], *q),
        r.authoritative == any_authoritative(ds@),
{
    let mut items: Vec<Item> = Vec::new();
    let mut authoritative = false;
    let mut i: usize = 0;
    while i < ds.len()
        invariant
            0 <= i <= ds.len(),
            items@.len() == i,
            forall|j: int| 0 <= j < i ==> item_of(#[trigger] items@[j], ds@[j], *q),
            authoritative == exists|j: int| 0 <= j < i && marks_authoritative(#[trigger] ds@[j]),
        decreases ds.len() - i,
    {
        let reading = interpret(&ds[i], q);
        if reading.authoritative {
            authoritative = true;
        }
        items.push(reading.item);
        i = i + 1;
    }
    Resolution { items, authoritative }
}

/// The answers that `item` contributes, where `fetched` is what the upstream
/// lookup at its place returned.
pub open spec fn contribution(item: Item, fetched: Seq<Answer>) -> Seq<Answer> {
    match item {
        Item::Record(a) => seq![a],
        Item::Upstream(_) => fetched,
        Item::Skip => Seq::empty(),
    }
}

/// The answers of `items` in order, with `fetched[i]` spliced in for an
/// upstream lookup at position `i`.
pub open spec fn spliced(items: Seq<Item>, fetched: Seq<Vec<Answer>>) -> Seq<Answer>
    decreases items.len(),
{
    if items.len() == 0 {
        Seq::empty()
    } else {
        spliced(items.drop_last(), fetched) + contribution(
            items.last(),
            fetched[items.len() - 1]@,
        )
    }
}

/// The answer records of one resolver call: each record in order, and for
/// each sub-query the answers its upstream lookup returned, at its place.
pub fn splice(items: Vec<Item>, fetched: &Vec<Vec<Answer>>) -> (r: Vec<Answer>)
    requires
        fetched@.len() == items@.len(),
    ensures
        r@ == spliced(items@, fetched@),
{
    let mut r: Vec<Answer> = Vec::new();
    let mut i: usize = 0;
    while i < items.len()
        invariant
            0 <= i <= items.len(),
            fetched@.len() == items@.len(),
            r@ == spliced(items@.subrange(0, i as int), fetched@),
        decreases items.len() - i,
    {
        let ghost before = r@;
        match &items[i] {
            Item::Record(a) => {
                r.push(a.copy());
            },
            Item::Upstream(_) => {
                let more = crate::dns::copy_answers(&fetched[i]);
                let mut j: usize = 0;
                while j < more.len()
                    invariant
                        0 <= j <= more.len(),
                        r@ == before + more@.subrange(0, j as int),
                    decreases more.len() - j,
                {
                    r.push(more[j].copy());
                    assert(more@.subrange(0, j + 1) =~= more@.subrange(0, j as int).push(more@[j as int]));
                    j = j + 1;
                }
                assert(more@.subrange(0, more@.len() as int) =~= more@);
            },
            Item::Skip => {},
        }
        assert(items@.subrange(0, i + 1).drop_last() =~= items@.subrange(0, i as int));
        assert(r@ =~= spliced(items@.subrange(0, i + 1), fetched@));
        i = i + 1;
    }
    assert(items@.subrange(0, items@.len() as int) =~= items@);
    r
}

/// The query name as the resolver takes it: without its trailing dot.
pub fn resolver_name(q: &Query) -> (r: String)
    ensures
        q.name@.len() > 0 && q.name@.last() == '.' ==> r@ == q.name@.drop_last(),
        !(q.name@.len() > 0 && q.name@.last() == '.') ==> r@ == q.name@,
{
    let s = q.name.as_str();
    let n = s.unicode_len();
    if n > 0 && s.get_char(n - 1) == '.' {
        String::from_str(s.substring_char(0, n - 1))
    } else {
        String::from_str(s)
    }
}

} // verus!
