//! The mathematical model of `core::time::Duration`, and the contracts under
//! which its methods are called.
//!
//! A `Duration` is opaque to the verifier. Everything the library states of one
//! is stated of its length in nanoseconds, `duration_nanos`.

use core::time::Duration;
use vstd::prelude::*;

verus! {

/// The length of a `Duration` in whole nanoseconds: its seconds times
/// 1 000 000 000 plus its sub-second nanoseconds.
pub uninterp spec fn duration_nanos(d: Duration) -> nat;

/// The length of the longest `Duration`: `u64::MAX` seconds and 999 999 999
/// nanoseconds.
pub const MAX_DURATION_NANOS: u128 = 18_446_744_073_709_551_615_999_999_999;

/// `Duration::new` builds a duration from whole seconds and additional
/// nanoseconds. It panics when carrying the nanoseconds into the seconds
/// overflows the seconds counter; that input is left out.
pub assume_specification[ Duration::new ](secs: u64, nanos: u32) -> (d: Duration)
    requires
        secs + nanos / 1_000_000_000 <= u64::MAX,
    ensures
        duration_nanos(d) == secs * 1_000_000_000 + nanos,
;

/// `Duration::as_secs` returns the number of whole seconds in the duration.
pub assume_specification[ Duration::as_secs ](d: &Duration) -> (secs: u64)
    ensures
        secs == duration_nanos(*d) / 1_000_000_000,
;

/// `Duration::subsec_nanos` returns the part of the duration beyond its whole
/// seconds, in nanoseconds: always less than one billion.
pub assume_specification[ Duration::subsec_nanos ](d: &Duration) -> (nanos: u32)
    ensures
        nanos == duration_nanos(*d) % 1_000_000_000,
;

/// `Duration::as_nanos` returns the total number of nanoseconds.
pub assume_specification[ Duration::as_nanos ](d: &Duration) -> (n: u128)
    ensures
        n == duration_nanos(*d),
;

/// `Duration::from_secs` builds a duration of that many whole seconds.
pub assume_specification[ Duration::from_secs ](secs: u64) -> (d: Duration)
    ensures
        duration_nanos(d) == secs * 1_000_000_000,
;

/// `Duration::from_millis` builds a duration of that many milliseconds.
pub assume_specification[ Duration::from_millis ](millis: u64) -> (d: Duration)
    ensures
        duration_nanos(d) == millis * 1_000_000,
;

/// `Duration::from_micros` builds a duration of that many microseconds.
pub assume_specification[ Duration::from_micros ](micros: u64) -> (d: Duration)
    ensures
        duration_nanos(d) == micros * 1_000,
;

/// `Duration::checked_mul` multiplies a duration by a scalar and returns
/// `None` exactly when the product exceeds the longest duration.
pub assume_specification[ Duration::checked_mul ](d: Duration, rhs: u32) -> (r: Option<Duration>)
    ensures
        r is Some <==> duration_nanos(d) * rhs <= MAX_DURATION_NANOS,
        r matches Some(p) ==> duration_nanos(p) == duration_nanos(d) * rhs,
;

} // verus!
