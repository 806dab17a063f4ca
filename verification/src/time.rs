//! Spans of time, measured in nanoseconds.

use std::time::Duration;
use vstd::prelude::*;

verus! {

/// What [`std::time::Duration::as_nanos`] returns: how long a span is, in
/// nanoseconds.
pub uninterp spec fn nanos(span: Duration) -> nat;

/// The longest span a [`Duration`] can hold, in nanoseconds: one nanosecond
/// short of 2^64 seconds.
pub const MAX_NANOS: u128 = 18_446_744_073_709_551_615_999_999_999;

/// [`Duration::as_nanos`] depends on the span alone and is never more than
/// that of `Duration::MAX`.
pub assume_specification[ Duration::as_nanos ](span: &Duration) -> (n: u128)
    ensures
        n == nanos(*span),
        n <= MAX_NANOS,
;

/// [`Duration::from_secs`] makes a span of that many seconds.
pub assume_specification[ Duration::from_secs ](secs: u64) -> (span: Duration)
    ensures
        nanos(span) == secs * 1_000_000_000,
;

/// [`Duration::from_millis`] makes a span of that many milliseconds.
pub assume_specification[ Duration::from_millis ](millis: u64) -> (span: Duration)
    ensures
        nanos(span) == millis * 1_000_000,
;

/// [`Duration::saturating_sub`] makes the span by which the first exceeds the
/// second, or an empty one.
pub assume_specification[ Duration::saturating_sub ](span: Duration, other: Duration) -> (rest:
    Duration)
    ensures
        nanos(rest) == (if nanos(span) >= nanos(other) {
            (nanos(span) - nanos(other)) as nat
        } else {
            0
        }),
;

/// Multiplication of a [`Duration`] by an integer, which panics where the
/// product is longer than `Duration::MAX`.
#[verifier::external_body]
pub(crate) fn times(span: Duration, factor: u32) -> (product: Duration)
    requires
        nanos(span) * factor <= MAX_NANOS,
    ensures
        nanos(product) == nanos(span) * factor,
{
    span * factor
}

} // verus!
