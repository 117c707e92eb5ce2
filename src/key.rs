//! The cache key of a question: a 64-bit hash of its name, type and class.
use crate::dns::Query;
use std::collections::hash_map::DefaultHasher;
use std::hash::Hasher;
use vstd::prelude::*;
use vstd::std_specs::hash::DefaultHasherAdditionalSpecFns;

verus! {

/// A 16-bit code as two bytes, most significant first.
pub open spec fn code_bytes(x: u16) -> Seq<u8> {
    seq![(x / 256) as u8, (x % 256) as u8]
}

/// The key of a question: the default hasher fed the name's UTF-8 bytes,
/// then the type code, then the class code.
pub open spec fn query_key(q: Query) -> u64 {
    DefaultHasher::spec_finish(
        seq![vstd::utf8::encode_utf8(q.name@), code_bytes(q.rtype), code_bytes(q.class)],
    )
}

/// Hashes the (name, type, class) triple of a question.
pub fn hash_question(q: &Query) -> (r: u64)
    ensures
        r == query_key(*q),
{
    let mut hasher = DefaultHasher::new();
    hasher.write(q.name.as_str().as_bytes());
    let t: [u8; 2] = [(q.rtype / 256) as u8, (q.rtype % 256) as u8];
    hasher.write(&t);
    let c: [u8; 2] = [(q.class / 256) as u8, (q.class % 256) as u8];
    hasher.write(&c);
    let r = hasher.finish();
    assert(t@ =~= code_bytes(q.rtype));
    assert(c@ =~= code_bytes(q.class));
    assert(hasher@ =~= seq![vstd::utf8::encode_utf8(q.name@), code_bytes(q.rtype), code_bytes(q.class)]);
    r
}

/// Hashing the same question twice gives the same key: the key is a
/// function of the name, type and class alone.
pub proof fn law_key_stable(a: Query, b: Query)
    requires
        a.name@ == b.name@,
        a.rtype == b.rtype,
        a.class == b.class,
    ensures
        query_key(a) == query_key(b),
{
}

} // verus!
