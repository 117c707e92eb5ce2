//! The library's view of DNS messages: questions and answer records as plain
//! values, and the calls into the wire-format codec.
use num_traits::FromPrimitive;
use vstd::prelude::*;

verus! {

#[verifier::external_type_specification]
#[verifier::external_body]
pub struct ExResource(rustdns::Resource);

/// Relies on the derived `Clone` of rustdns::Resource: the copy equals the
/// value it was made from.
pub assume_specification[ <rustdns::Resource as core::clone::Clone>::clone ](
    r: &rustdns::Resource,
) -> (c: rustdns::Resource)
    ensures
        c == *r,
;

/// One question of a request, the cache's unit: a domain name, a record type code and a class
/// code.
pub struct Query {
    pub name: String,
    pub rtype: u16,
    pub class: u16,
}

/// The data of an answer record.
pub enum Payload {
    /// An IPv4 address.
    A([u8; 4]),
    /// An IPv6 address.
    AAAA([u8; 16]),
    /// The canonical name of an alias.
    Cname(String),
    /// Any other record data, as the codec holds it.
    Codec(rustdns::Resource),
}

/// One answer record. `ttl` is the remaining lifetime in milliseconds.
pub struct Answer {
    pub name: String,
    pub class: u16,
    pub ttl: u64,
    pub resource: Payload,
}

impl Payload {
    pub fn copy(&self) -> (r: Payload)
        ensures
            r == *self,
    {
        match self {
            Payload::A(o) => Payload::A(*o),
            Payload::AAAA(o) => Payload::AAAA(*o),
            Payload::Cname(t) => Payload::Cname(t.clone()),
            Payload::Codec(c) => Payload::Codec(c.clone()),
        }
    }
}

impl Query {
    pub fn copy(&self) -> (r: Query)
        ensures
            r == *self,
    {
        Query { name: self.name.clone(), rtype: self.rtype, class: self.class }
    }
}

impl Answer {
    pub fn copy(&self) -> (r: Answer)
        ensures
            r == *self,
    {
        Answer {
            name: self.name.clone(),
            class: self.class,
            ttl: self.ttl,
            resource: self.resource.copy(),
        }
    }
}

/// A copy of every answer of `v`, in order.
pub fn copy_answers(v: &Vec<Answer>) -> (r: Vec<Answer>)
    ensures
        r@ == v@,
{
    let mut r: Vec<Answer> = Vec::new();
    let mut i: usize = 0;
    while i < v.len()
        invariant
            0 <= i <= v.len(),
            r@ == v@.subrange(0, i as int),
        decreases v.len() - i,
    {
        r.push(v[i].copy());
        i = i + 1;
    }
    assert(r@ =~= v@);
    r
}

/// A decoded message: each question as its name and its wire form, and the
/// answer section as plain values.
pub struct Decoded {
    pub questions: Vec<(String, Vec<u8>)>,
    pub answers: Vec<Answer>,
}

/// Whether the codec accepts `b` as a DNS message and writes each of its
/// questions back.
pub uninterp spec fn decodes(b: Seq<u8>) -> bool;

/// The questions of the message `b`: each one's name as the codec holds it,
/// and its wire form.
pub uninterp spec fn questions_in(b: Seq<u8>) -> Seq<(Seq<char>, Seq<u8>)>;

/// The answer section of the message `b`.
pub uninterp spec fn answers_in(b: Seq<u8>) -> Seq<Answer>;

/// Relies on rustdns::Message::from_slice, which fails on bytes that are not
/// a well-formed DNS message and depends on the bytes alone, and on
/// rustdns::Question::append_to_vec, which writes a question's name and then
/// its type and class codes, two bytes each. The answer section is copied out
/// field for field.
#[verifier::external_body]
pub(crate) fn decode_message(b: &[u8]) -> (r: Option<Decoded>)
    ensures
        r is Some <==> decodes(b@),
        r matches Some(d) ==> d.answers@ == answers_in(b@),
        r matches Some(d) ==> d.questions@.len() == questions_in(b@).len(),
        r matches Some(d) ==> forall|i: int|
            0 <= i < d.questions@.len() ==> (#[trigger] d.questions@[i]).0@ == questions_in(
                b@,
            )[i].0 && d.questions@[i].1@ == questions_in(b@)[i].1 && d.questions@[i].1@.len() >= 4,
{
    let m = rustdns::Message::from_slice(b).ok()?;
    let mut questions = Vec::new();
    for q in &m.questions {
        let mut w = Vec::new();
        q.append_to_vec(&mut w).ok()?;
        questions.push((q.name.clone(), w));
    }
    let answers = m.answers.iter().map(|a| Answer {
        name: a.name.clone(), class: a.class as u16,
        ttl: a.ttl.as_millis() as u64, resource: Payload::Codec(a.resource.clone()),
    }).collect();
    Some(Decoded { questions, answers })
}

/// The code held in `w[i]` and `w[i + 1]`, most significant byte first.
pub open spec fn code_at(w: Seq<u8>, i: int) -> u16 {
    (w[i] as int * 256 + w[i + 1] as int) as u16
}

/// Whether `q` is the question with name `part.0` and wire form `part.1`,
/// which ends with the type code and then the class code.
pub open spec fn query_matches(q: Query, part: (Seq<char>, Seq<u8>)) -> bool {
    &&& q.name@ == part.0
    &&& q.rtype == code_at(part.1, part.1.len() - 4)
    &&& q.class == code_at(part.1, part.1.len() - 2)
}

/// A question as plain values, from its name and its wire form.
pub(crate) fn question_of(name: String, w: &Vec<u8>) -> (r: Query)
    requires
        w@.len() >= 4,
    ensures
        query_matches(r, (name@, w@)),
{
    let n = w.len();
    let rtype = (w[n - 4] as u16) * 256 + (w[n - 3] as u16);
    let class = (w[n - 2] as u16) * 256 + (w[n - 1] as u16);
    Query { name, rtype, class }
}

/// The record type codes that the codec knows.
pub open spec fn known_type(code: u16) -> bool {
    code == 0 || code == 1 || code == 2 || code == 5 || code == 6 || code == 12 || code == 15
        || code == 16 || code == 28 || code == 33 || code == 41 || code == 99 || code == 255
}

/// The class codes that the codec knows.
pub open spec fn known_class(code: u16) -> bool {
    code == 0 || code == 1 || code == 2 || code == 3 || code == 4 || code == 254 || code == 255
}

/// The wire form of a query message with id `id` holding the one question
/// (`name`, `rtype`, `class`), where the codec can write it.
pub uninterp spec fn query_wire(name: Seq<char>, rtype: u16, class: u16, id: u16) -> Option<Seq<u8>>;

/// Relies on the FromPrimitive impls of rustdns's Type and Class
/// (num_traits), on Message::default, whose fields are fixed but for the id
/// set here, on Message::try_add_question and on Message::to_vec: the wire
/// form of a query holding `q` alone. It fails where a code is not one the
/// codec knows, where the name is not a valid domain, or where encoding fails.
#[verifier::external_body]
pub(crate) fn encode_query(q: &Query, id: u16) -> (r: Option<Vec<u8>>)
    ensures
        r is Some <==> query_wire(q.name@, q.rtype, q.class, id) is Some,
        r matches Some(w) ==> query_wire(q.name@, q.rtype, q.class, id) == Some(w@),
        r is Some ==> known_type(q.rtype) && known_class(q.class),
{
    let rtype = rustdns::Type::from_u16(q.rtype)?;
    let class = rustdns::Class::from_u16(q.class)?;
    let mut m = rustdns::Message::default();
    m.id = id;
    m.try_add_question(&q.name, rtype, class).ok()?;
    m.to_vec().ok()
}

/// Relies on rustdns::Resource's A, AAAA and CNAME variants and std's
/// From<[u8; 4]> and From<[u8; 16]> for its address types: the codec's form of
/// a payload, variant for variant.
#[verifier::external_body]
fn codec_resource(p: &Payload) -> (r: rustdns::Resource) {
    match p {
        Payload::A(o) => rustdns::Resource::A(rustdns::A::from(*o)),
        Payload::AAAA(o) => rustdns::Resource::AAAA(rustdns::AAAA::from(*o)),
        Payload::Cname(t) => rustdns::Resource::CNAME(t.clone()),
        Payload::Codec(c) => c.clone(),
    }
}

/// The wire form of the response to the request `request`: the request with
/// its header marked as a response to a standard query, its authoritative
/// bit set to `authoritative`, and its answer section replaced by `answers`;
/// `None` where the request does not decode, an answer's class code is not
/// one the codec knows, or encoding fails.
pub uninterp spec fn response_wire(request: Seq<u8>, authoritative: bool, answers: Seq<Answer>) -> Option<Seq<u8>>;

/// Relies on rustdns::Message::from_slice, on its Message fields (the id,
/// the questions and the other sections of the request are kept), on the
/// FromPrimitive impl of Class (num_traits) and on Message::to_vec.
#[verifier::external_body]
pub(crate) fn encode_response(request: &[u8], authoritative: bool, answers: &Vec<Answer>) -> (r:
    Option<Vec<u8>>)
    ensures
        r is Some <==> response_wire(request@, authoritative, answers@) is Some,
        r matches Some(w) ==> response_wire(request@, authoritative, answers@) == Some(w@),
{
    let mut m = rustdns::Message::from_slice(request).ok()?;
    m.qr = rustdns::QR::Response;
    m.opcode = rustdns::Opcode::Query;
    m.aa = authoritative;
    m.answers = answers.iter().map(|a| Some(rustdns::Record {
        name: a.name.clone(), class: rustdns::Class::from_u16(a.class)?,
        ttl: std::time::Duration::from_millis(a.ttl), resource: codec_resource(&a.resource),
    })).collect::<Option<Vec<_>>>()?;
    m.to_vec().ok()
}

} // verus!
