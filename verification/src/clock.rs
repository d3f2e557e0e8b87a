//! The wall clock, in whole seconds since the Unix epoch.
use vstd::prelude::*;

use std::time::{Duration, SystemTime, SystemTimeError, UNIX_EPOCH};

verus! {

#[verifier::external_type_specification]
#[verifier::external_body]
pub struct ExSystemTime(SystemTime);

#[verifier::external_type_specification]
#[verifier::external_body]
pub struct ExSystemTimeError(SystemTimeError);

/// The clock cannot be read as a Unix time.
#[derive(Debug, PartialEq, Eq, Clone, Copy)]
pub enum ClockError {
    /// The system clock is set before the Unix epoch.
    BeforeEpoch,
    /// The clock reads a time so late that a deadline after it cannot be
    /// represented.
    TooLate,
}

/// `SystemTime::now`. What time it reads is not stated.
#[verifier::external_body]
fn system_now() -> SystemTime {
    SystemTime::now()
}

/// `SystemTime::duration_since` the Unix epoch; it fails for a time before
/// the epoch. Since the time itself is opaque, nothing more is stated.
#[verifier::external_body]
fn since_unix_epoch(time: SystemTime) -> Result<Duration, SystemTimeError> {
    time.duration_since(UNIX_EPOCH)
}

/// `Duration::as_secs`: the whole seconds of a duration, which is opaque
/// here, so nothing is stated of them.
#[verifier::external_body]
fn whole_seconds(duration: Duration) -> u64 {
    duration.as_secs()
}

/// The current Unix time in seconds. The reading depends on the machine's
/// clock, so no value is promised; it fails only with `BeforeEpoch`.
pub fn current_timestamp() -> (r: Result<u64, ClockError>)
    ensures
        r matches Err(e) ==> e == ClockError::BeforeEpoch,
{
    match since_unix_epoch(system_now()) {
        Ok(duration) => Ok(whole_seconds(duration)),
        Err(_) => Err(ClockError::BeforeEpoch),
    }
}

} // verus!
