//! Readings of the monotonic clock, as instants and nanosecond spans.
use std::time::Instant;
use vstd::prelude::*;

verus! {

#[verifier::external_type_specification]
#[verifier::external_body]
pub struct ExInstant(Instant);

/// Relies on `Clone` of `std::time::Instant`, a `Copy` type: the clone is
/// the same instant.
pub assume_specification[ <Instant as Clone>::clone ](t: &Instant) -> (r: Instant)
    ensures
        r == *t,
;

/// Relies on `std::time::Instant::now`: a reading of the monotonic clock.
/// Nothing is promised of the value.
#[verifier::external_body]
pub(crate) fn now() -> Instant {
    Instant::now()
}

/// Relies on `std::time::Instant::elapsed`: the time since `t`, in
/// nanoseconds. It depends on the clock, so nothing is promised of it.
#[verifier::external_body]
pub(crate) fn nanos_since(t: &Instant) -> u64 {
    t.elapsed().as_nanos() as u64
}

/// Relies on `std::time::Instant::saturating_duration_since`: the time from
/// `earlier` to `later` in nanoseconds, zero when `later` comes first.
#[verifier::external_body]
pub(crate) fn nanos_between(earlier: &Instant, later: &Instant) -> u64 {
    later.saturating_duration_since(*earlier).as_nanos() as u64
}

/// Relies on `std::time::Instant::checked_add`: the instant `nanos`
/// nanoseconds after `t`, or `None` where the clock cannot represent it.
#[verifier::external_body]
pub(crate) fn add_nanos(t: &Instant, nanos: u64) -> Option<Instant> {
    t.checked_add(std::time::Duration::from_nanos(nanos))
}

} // verus!
