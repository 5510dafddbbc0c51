//! The time of day, as the logs record it.

use vstd::prelude::*;
use std::time::{Duration, SystemTime, SystemTimeError, UNIX_EPOCH};

verus! {

/// A point in time as the system clock gives it (`std::time::SystemTime`).
#[verifier::external_type_specification]
#[verifier::external_body]
pub struct ExSystemTime(SystemTime);

/// The error of a time that lies before the one it is measured from
/// (`std::time::SystemTimeError`).
#[verifier::external_type_specification]
#[verifier::external_body]
pub struct ExSystemTimeError(SystemTimeError);

/// The whole seconds that `Duration::as_secs` reads from a duration.
pub uninterp spec fn duration_seconds(elapsed: Duration) -> u64;

/// Reads the system clock with `SystemTime::now`. Nothing is claimed of the
/// time that it gives.
#[verifier::external_body]
fn system_now() -> SystemTime {
    SystemTime::now()
}

/// Measures with `SystemTime::duration_since` how long after the epoch `time`
/// lies; the call fails where it lies before. Nothing is claimed of the
/// outcome.
#[verifier::external_body]
fn since_epoch(time: &SystemTime) -> Result<Duration, SystemTimeError> {
    time.duration_since(UNIX_EPOCH)
}

/// Reads the whole seconds of a duration with `Duration::as_secs`. Trusted:
/// their number depends on the duration alone.
#[verifier::external_body]
fn whole_seconds(elapsed: &Duration) -> (seconds: u64)
    ensures
        seconds == duration_seconds(*elapsed),
{
    elapsed.as_secs()
}

/// The timestamp that a measurement of the time since the epoch stands for:
/// its whole seconds, or none where the measurement failed because the clock
/// stands before the epoch.
pub open spec fn timestamp_of(elapsed: Result<Duration, SystemTimeError>) -> Option<u64> {
    match elapsed {
        Ok(passed) => Some(duration_seconds(passed)),
        Err(_) => None::<u64>,
    }
}

/// Turns the time that has passed since the epoch into a timestamp: its
/// whole seconds, or `None` where the measurement failed because the clock
/// stands before the epoch.
pub fn timestamp_from(elapsed: Result<Duration, SystemTimeError>) -> (timestamp: Option<u64>)
    ensures
        timestamp == timestamp_of(elapsed),
{
    match elapsed {
        Ok(passed) => Some(whole_seconds(&passed)),
        Err(_) => None,
    }
}

/// The whole seconds that have passed since the epoch, by the system clock;
/// `None` where the clock stands before the epoch. Which time the clock
/// gives is open; the result is the timestamp of the one measurement that
/// was made.
pub fn current_timestamp() -> (timestamp: Option<u64>)
    ensures
        exists|elapsed: Result<Duration, SystemTimeError>|
            timestamp == #[trigger] timestamp_of(elapsed),
{
    let now = system_now();
    let elapsed = since_epoch(&now);
    let ghost measured = elapsed;
    let timestamp = timestamp_from(elapsed);
    assert(timestamp == timestamp_of(measured));
    timestamp
}

} // verus!
