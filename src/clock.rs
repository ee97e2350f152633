//! The monotonic clock.

use vstd::prelude::*;

verus! {

/// Relies on time's `precise_time_ns`: a reading of a monotonic clock in
/// nanoseconds. Nothing is known of its value.
#[verifier::external_body]
pub(crate) fn precise_time_ns() -> (r: u64) {
    time::precise_time_ns()
}

/// The clock in microseconds.
pub(crate) fn now_micros() -> (r: u64) {
    precise_time_ns() / 1000
}

} // verus!
