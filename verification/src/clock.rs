// The monotonic clock of the standard library, as far as the engine uses it.

use std::time::Instant;
use vstd::prelude::*;

verus! {

/// `std::time::Instant`, a reading of the monotonic clock. The verifier sees
/// nothing inside it: a reading is only kept and handed back.
#[verifier::external_type_specification]
#[verifier::external_body]
pub struct ExInstant(std::time::Instant);

/// `Instant::now` reads the clock. What it returns depends on the moment of
/// the call, so nothing is claimed of it.
pub assume_specification[ std::time::Instant::now ]() -> (now: Instant);

/// `Instant::saturating_duration_since` gives the time from `earlier` to
/// `later`, and a duration of zero where `earlier` is in fact the later one;
/// it does not panic. Both readings are opaque, so nothing is claimed of the
/// duration.
pub assume_specification[ std::time::Instant::saturating_duration_since ](
    later: &Instant,
    earlier: Instant,
) -> (elapsed: core::time::Duration);

/// `Duration::as_nanos` gives the length of a duration in nanoseconds. The
/// duration is opaque, so nothing is claimed of the number.
pub assume_specification[ core::time::Duration::as_nanos ](duration: &core::time::Duration) -> (nanos: u128);

/// The nanoseconds that have passed since `start` was read.
pub fn nanos_since(start: Instant) -> (nanos: u128) {
    let now = Instant::now();
    let elapsed = now.saturating_duration_since(start);
    elapsed.as_nanos()
}

/// The nanoseconds from the reading `earlier` to the reading `later`, and
/// zero where `earlier` is the later of the two.
pub fn nanos_between(earlier: Instant, later: Instant) -> (nanos: u128) {
    let elapsed = later.saturating_duration_since(earlier);
    elapsed.as_nanos()
}

} // verus!
