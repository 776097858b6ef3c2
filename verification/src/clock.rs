//! The monotonic clock the timer reads.
//!
//! A running interval is measured against `std::time::Instant`, which never
//! goes backwards, so the countdown is immune to wall-clock adjustments
//! (NTP skew, DST, manual changes) happening mid-interval. The readings are
//! handed to the verified state machine as plain seconds; nothing is assumed
//! about their values beyond what the standard library documents.

use vstd::prelude::*;

verus! {

#[verifier::external_type_specification]
#[verifier::external_body]
pub struct ExInstant(std::time::Instant);

/// Relies on `std::time::Instant::now`: a reading of the monotonic clock.
/// Nothing is stated of the value; the timer's contracts hold of every
/// reading.
#[verifier::external_body]
pub(crate) fn instant_now() -> (r: std::time::Instant) {
    std::time::Instant::now()
}

/// Relies on `std::time::Instant::saturating_duration_since`: the time from
/// `earlier` to `later`, in whole seconds, or zero if `earlier` is in fact
/// the later reading. Nothing is stated of the value; the timer's contracts
/// hold of every reading.
#[verifier::external_body]
pub(crate) fn seconds_between(earlier: &std::time::Instant, later: &std::time::Instant) -> (r: u64) {
    later.saturating_duration_since(*earlier).as_secs()
}

} // verus!
