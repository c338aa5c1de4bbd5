//! The wall clock, read as whole seconds since the Unix epoch.

use vstd::prelude::*;
use std::time::{Duration, SystemTime, SystemTimeError, UNIX_EPOCH};

verus! {

/// `std::time::SystemTime`, a reading of the clock; nothing is known of it.
#[verifier::external_type_specification]
#[verifier::external_body]
pub struct ExSystemTime(SystemTime);

/// `std::time::SystemTimeError`, read only for the text it displays as.
#[verifier::external_type_specification]
#[verifier::external_body]
pub struct ExSystemTimeError(SystemTimeError);

/// `SystemTime::now` reads the clock: nothing is known of what it returns.
pub assume_specification[ SystemTime::now ]() -> (now: SystemTime);

/// Calls `SystemTime::duration_since` with the Unix epoch, which fails where
/// the given time lies before the epoch; nothing more is claimed.
#[verifier::external_body]
fn since_epoch(time: &SystemTime) -> (elapsed: Result<Duration, SystemTimeError>) {
    time.duration_since(UNIX_EPOCH)
}

/// `Duration::as_secs` gives the whole seconds of a duration; nothing is
/// claimed of the number.
pub assume_specification[ Duration::as_secs ](duration: &Duration) -> (seconds: u64);

/// The clock could not be read as a time since the epoch.
#[derive(Debug)]
pub struct ClockError {
    pub detail: String,
}

/// The current time in whole seconds since the Unix epoch, or an error where
/// the clock stands before the epoch.
pub fn unix_now() -> (now: Result<u64, ClockError>) {
    let time = SystemTime::now();
    match since_epoch(&time) {
        Ok(elapsed) => Ok(elapsed.as_secs()),
        Err(error) => Err(ClockError { detail: error.to_string() }),
    }
}

} // verus!
