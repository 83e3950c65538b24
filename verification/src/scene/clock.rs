//! The clock that paces the ticks.

use std::time::{Duration, Instant};
use vstd::prelude::*;

verus! {

/// A reading of the monotonic clock. Nothing is known of what it holds.
#[verifier::external_type_specification]
#[verifier::external_body]
pub struct ExInstant(Instant);

/// Trusted, not proved: `Instant::now` reads the clock. What it returns
/// depends on when it is called, so nothing is claimed of it.
pub assume_specification[ Instant::now ]() -> (now: Instant)
;

/// Trusted, not proved: `Instant::elapsed` is the time from the reading to
/// now. It depends on when it is called, so nothing is claimed of it.
pub assume_specification[ Instant::elapsed ](since: &Instant) -> (passed: Duration)
;

/// Whether `passed` is strictly longer than `limit`.
///
/// Trusted, not proved: this is `>` of `Duration`. A `Duration` is opaque
/// here, so nothing is claimed of the answer.
#[verifier::external_body]
pub(crate) fn longer_than(passed: &Duration, limit: &Duration) -> (longer: bool) {
    passed > limit
}

} // verus!
