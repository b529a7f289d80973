//! Spans of time of the standard library.
use std::time::Duration;
use vstd::prelude::*;

verus! {

/// The nanoseconds that a span of time lasts.
pub uninterp spec fn duration_nanos(dur: Duration) -> nat;

/// Calls `Duration::new`: whole seconds, and nanoseconds that do not make up
/// another second.
#[verifier::external_body]
pub(crate) fn duration(secs: u64, nanos: u32) -> (dur: Duration)
    requires
        nanos < 1_000_000_000,
    ensures
        duration_nanos(dur) == secs * 1_000_000_000 + nanos,
{
    Duration::new(secs, nanos)
}

} // verus!
