//! Monotonic time as the flush policies read it: opaque instants, and spans
//! measured in whole nanoseconds.

use vstd::prelude::*;

verus! {

#[verifier::external_type_specification]
#[verifier::external_body]
pub struct ExInstant(std::time::Instant);

/// The length of a span of time, in nanoseconds.
pub uninterp spec fn nanos_of(d: std::time::Duration) -> u128;

/// Relies on `Instant::now`: reads the monotonic clock. Nothing is known of
/// the value it returns.
#[verifier::external_body]
pub(crate) fn now() -> (r: std::time::Instant) {
    std::time::Instant::now()
}

/// Relies on `Instant::duration_since`, which saturates at zero when
/// `earlier` is the later of the two. Both instants come from the clock, so
/// nothing is stated of the span.
#[verifier::external_body]
pub(crate) fn duration_between(earlier: &std::time::Instant, later: &std::time::Instant) -> (r: std::time::Duration) {
    later.duration_since(*earlier)
}

/// The span from `earlier` to `later`, in nanoseconds.
pub(crate) fn nanos_between(earlier: &std::time::Instant, later: &std::time::Instant) -> (r: u128) {
    duration_nanos(&duration_between(earlier, later))
}

/// Relies on `Duration::as_nanos`: the whole span in nanoseconds.
#[verifier::external_body]
pub(crate) fn duration_nanos(d: &std::time::Duration) -> (r: u128)
    ensures
        r == nanos_of(*d),
{
    d.as_nanos()
}

} // verus!
