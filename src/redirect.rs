//! The HTTP redirect table's key: the host that a request names.
use vstd::prelude::*;
use vstd::string::{StrSliceExecFns, StringExecFns};

verus! {

/// Whether `r` is `s` up to its first colon, or all of `s` when it has none.
pub open spec fn is_host_part(s: Seq<char>, r: Seq<char>) -> bool {
    &&& r.len() <= s.len()
    &&& r == s.subrange(0, r.len() as int)
    &&& forall|j: int| 0 <= j < r.len() ==> r[j] != ':'
    &&& (r.len() == s.len() || s[r.len() as int] == ':')
}

/// The host of a `Host` header value: the text before its first colon, which
/// drops a port.
pub fn host_of(header: &str) -> (r: String)
    ensures
        is_host_part(header@, r@),
{
    let n = header.unicode_len();
    let mut i: usize = 0;
    while i < n
        invariant
            n == header@.len(),
            0 <= i <= n,
            forall|j: int| 0 <= j < i ==> header@[j] != ':',
        ensures
            0 <= i <= n,
            forall|j: int| 0 <= j < i ==> header@[j] != ':',
            i == n || header@[i as int] == ':',
        decreases n - i,
    {
        if header.get_char(i) == ':' {
            break;
        }
        i = i + 1;
    }
    let r = String::from_str(header.substring_char(0, i));
    assert(r@ =~= header@.subrange(0, r@.len() as int));
    r
}

} // verus!
