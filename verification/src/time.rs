//! What the engine knows of `std::time::Duration`.
//!
//! The engine counts time in whole milliseconds and lifetimes in whole
//! seconds. It hands both out as `Duration` values, whose inside the verifier
//! does not see: the two constructors below are believed, not proved.

use std::time::Duration;
use vstd::prelude::*;

verus! {

/// Nanoseconds in one second.
pub const NANOS_PER_SEC: u64 = 1_000_000_000;

/// Nanoseconds in one millisecond.
pub const NANOS_PER_MILLI: u64 = 1_000_000;

/// The length of a `Duration` in nanoseconds: the number that
/// `Duration::as_nanos` returns for it.
pub uninterp spec fn duration_nanos(d: Duration) -> nat;

/// The length in nanoseconds of `secs` whole seconds.
pub open spec fn whole_seconds(secs: nat) -> nat {
    secs * (NANOS_PER_SEC as nat)
}

/// The length in nanoseconds of `millis` whole milliseconds.
pub open spec fn whole_millis(millis: nat) -> nat {
    millis * (NANOS_PER_MILLI as nat)
}

/// A length of whole seconds gives its seconds back: it holds that many
/// seconds and no nanosecond more.
pub proof fn lemma_whole_seconds_convert_back(secs: nat)
    ensures
        whole_seconds(secs) / (NANOS_PER_SEC as nat) == secs,
        whole_seconds(secs) % (NANOS_PER_SEC as nat) == 0,
{
}

/// `Duration::from_secs` builds the duration that lasts `secs` seconds and
/// not a nanosecond more. It never fails.
pub assume_specification[ Duration::from_secs ](secs: u64) -> (d: Duration)
    ensures
        duration_nanos(d) == whole_seconds(secs as nat),
;

/// `Duration::from_millis` builds the duration that lasts `millis`
/// milliseconds and not a nanosecond more. It never fails.
pub assume_specification[ Duration::from_millis ](millis: u64) -> (d: Duration)
    ensures
        duration_nanos(d) == whole_millis(millis as nat),
;

} // verus!
