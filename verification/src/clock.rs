//! The system clock, read as whole seconds since the Unix epoch.

use vstd::prelude::*;

verus! {

/// `SystemTime` of std: an instant of the system clock. Its inside is not
/// looked at.
#[verifier::external_type_specification]
#[verifier::external_body]
pub struct ExSystemTime(std::time::SystemTime);

/// `SystemTime::now` of std: the clock's present reading. Nothing is claimed
/// of the instant that comes back.
pub assume_specification[ std::time::SystemTime::now ]() -> std::time::SystemTime;

/// `Duration::as_secs` of std: the whole seconds of a duration. Nothing is
/// claimed of the number.
pub assume_specification[ std::time::Duration::as_secs ](d: &std::time::Duration) -> u64;

/// Calls `SystemTime::duration_since` of std with `UNIX_EPOCH`. The distance
/// from the epoch to `instant`, or `None` where `instant` lies before the
/// epoch. Nothing is claimed of the outcome.
#[verifier::external_body]
pub(crate) fn since_epoch(instant: &std::time::SystemTime) -> Option<std::time::Duration> {
    instant.duration_since(std::time::UNIX_EPOCH).ok()
}

/// Reads the clock: the whole seconds that have passed since the Unix epoch,
/// or `None` where the clock stands before the epoch. The reading is the
/// clock's alone, so nothing is promised of it: what is made of each reading
/// is stated where the reading is taken as an argument, as `claims_at` does.
pub(crate) fn unix_seconds_now() -> Option<u64> {
    let instant = std::time::SystemTime::now();
    match since_epoch(&instant) {
        Some(elapsed) => Some(elapsed.as_secs()),
        None => None,
    }
}

} // verus!
