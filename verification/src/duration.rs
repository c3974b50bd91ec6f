//! Durations of the standard library, as the library's contracts see them.
//!
//! Nothing in this file is proved: it states what the standard library says of the
//! length of a duration.

use std::time::Duration;
use vstd::prelude::*;

verus! {

/// The length of a duration in nanoseconds.
pub uninterp spec fn nanos_of(d: Duration) -> nat;

/// The nanoseconds of a second.
pub const NANOS_PER_SEC: u64 = 1_000_000_000;

/// The nanoseconds of a millisecond.
pub const NANOS_PER_MILLI: u64 = 1_000_000;

/// `Duration::from_secs`: so many seconds.
pub assume_specification[ Duration::from_secs ](secs: u64) -> (d: Duration)
    ensures
        nanos_of(d) == secs * NANOS_PER_SEC,
;

/// `Duration::from_millis`: so many milliseconds.
pub assume_specification[ Duration::from_millis ](millis: u64) -> (d: Duration)
    ensures
        nanos_of(d) == millis * NANOS_PER_MILLI,
;

/// `Duration::from_nanos`: so many nanoseconds.
pub assume_specification[ Duration::from_nanos ](nanos: u64) -> (d: Duration)
    ensures
        nanos_of(d) == nanos,
;

/// `Duration::as_nanos`: the whole length in nanoseconds.
pub assume_specification[ Duration::as_nanos ](d: &Duration) -> (n: u128)
    ensures
        n == nanos_of(*d),
;

/// `Duration::as_secs`: the whole seconds of the length, the rest dropped.
pub assume_specification[ Duration::as_secs ](d: &Duration) -> (n: u64)
    ensures
        n == nanos_of(*d) / (NANOS_PER_SEC as nat),
;

} // verus!
