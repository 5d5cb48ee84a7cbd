//! Wall-clock time, in whole seconds since the Unix epoch.

use std::time::{Duration, SystemTime, SystemTimeError, UNIX_EPOCH};
use vstd::prelude::*;

verus! {

/// `std::time::SystemTime`, a reading of the system clock. Nothing inside
/// it is visible here.
#[verifier::external_type_specification]
#[verifier::external_body]
pub struct ExSystemTime(SystemTime);

/// `std::time::SystemTimeError`, the error of a time difference that would
/// be negative. Nothing inside it is visible here.
#[verifier::external_type_specification]
#[verifier::external_body]
pub struct ExSystemTimeError(SystemTimeError);

/// `SystemTime::now` of the standard library. Two calls may differ, and
/// nothing is claimed of what it returns.
pub assume_specification[ SystemTime::now ]() -> (t: SystemTime);

/// `SystemTime::duration_since` of the standard library, asked for the
/// time that has passed since `UNIX_EPOCH`. It fails when `t` lies before
/// the epoch; nothing else is claimed.
#[verifier::external_body]
fn since_unix_epoch(t: &SystemTime) -> (r: Result<Duration, SystemTimeError>) {
    t.duration_since(UNIX_EPOCH)
}

/// `Duration::as_secs` of the standard library: the whole seconds of a
/// duration. Nothing is claimed of the number.
pub assume_specification[ Duration::as_secs ](d: &Duration) -> (s: u64);

/// The current time in whole seconds since the Unix epoch, or `None` when
/// the system clock is set to a time before the epoch.
pub(crate) fn unix_time() -> Option<u64> {
    let now = SystemTime::now();
    match since_unix_epoch(&now) {
        Ok(elapsed) => Some(elapsed.as_secs()),
        Err(_) => None,
    }
}

} // verus!
