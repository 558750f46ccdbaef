//! The wall clock, read once per block.

use std::time::{Duration, SystemTime, UNIX_EPOCH};
use vstd::prelude::*;

verus! {

/// `std::time::SystemTime`, a point on the system clock. Opaque here.
#[verifier::external_type_specification]
#[verifier::external_body]
pub struct ExSystemTime(SystemTime);

/// `SystemTime::now` reads the system clock. Nothing is claimed of the
/// value: it depends on the moment of the call.
pub assume_specification[ std::time::SystemTime::now ]() -> (instant: SystemTime)
;

/// `Duration::as_secs` gives the whole seconds that a duration holds.
/// Nothing is claimed of the value.
pub assume_specification[ std::time::Duration::as_secs ](elapsed: &Duration) -> (seconds: u64)
;

/// Calls `SystemTime::duration_since` with `UNIX_EPOCH` as the earlier
/// point: the time from the epoch to `instant`, and `None` where the call
/// fails because `instant` lies before the epoch. Nothing is claimed of the
/// value.
#[verifier::external_body]
fn since_epoch(instant: &SystemTime) -> (elapsed: Option<Duration>) {
    instant.duration_since(UNIX_EPOCH).ok()
}

/// The current time in whole seconds since the Unix epoch, or `None` where
/// the system clock stands before the epoch: such a reading has no
/// timestamp, and the failure is the caller's to act on.
///
/// Two calls may differ, so callers learn nothing of the value.
pub fn now() -> Option<u64> {
    let instant = SystemTime::now();
    match since_epoch(&instant) {
        Some(elapsed) => Some(elapsed.as_secs()),
        None => None,
    }
}

} // verus!
