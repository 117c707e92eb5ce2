//! The wall clock, in whole milliseconds since the Unix epoch.
use vstd::prelude::*;

verus! {

/// Relies on std::time::SystemTime::elapsed, measured from the Unix epoch:
/// the current wall-clock instant. Nothing is promised of its value; a clock
/// set before the epoch reads as zero.
#[verifier::external_body]
pub(crate) fn now_millis() -> (r: u64) {
    std::time::UNIX_EPOCH.elapsed().map(|d| d.as_millis() as u64).unwrap_or(0)
}

} // verus!
