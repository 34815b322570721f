//! `std::time::Duration` as a number of nanoseconds.
//!
//! Verus knows `Duration` only as an opaque type. The items here give the
//! length of a duration a name and state, without proof, what three functions
//! of the standard library do to it.

use std::time::Duration;
use vstd::prelude::*;

verus! {

/// Nanoseconds in one second.
pub const NANOS_PER_SEC: u64 = 1_000_000_000;

/// The length of a duration in whole nanoseconds: what `Duration::as_nanos`
/// returns for it.
pub uninterp spec fn span_nanos(d: Duration) -> nat;

/// `Duration::as_nanos` returns the total number of nanoseconds that the
/// duration holds.
pub assume_specification[ Duration::as_nanos ](d: &Duration) -> (n: u128)
    ensures
        n == span_nanos(*d),
;

/// `Duration::from_secs` builds the duration of that many whole seconds.
pub assume_specification[ Duration::from_secs ](secs: u64) -> (d: Duration)
    ensures
        span_nanos(d) == secs * NANOS_PER_SEC,
;

/// `Duration::saturating_sub` subtracts, and gives the zero duration where the
/// difference would be negative.
pub assume_specification[ Duration::saturating_sub ](d: Duration, rhs: Duration) -> (r: Duration)
    ensures
        span_nanos(r) == if span_nanos(d) >= span_nanos(rhs) {
            span_nanos(d) - span_nanos(rhs)
        } else {
            0
        },
;

} // verus!
