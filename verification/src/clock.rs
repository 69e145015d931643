use vstd::prelude::*;
use std::time::Duration;
use std::time::SystemTime;
use std::time::SystemTimeError;

verus! {

/// A reading of the system clock.
#[verifier::external_type_specification]
#[verifier::external_body]
pub struct ExSystemTime(std::time::SystemTime);

/// The error of a clock reading that lies before the instant it is measured
/// from.
#[verifier::external_type_specification]
#[verifier::external_body]
pub struct ExSystemTimeError(std::time::SystemTimeError);

/// `SystemTime::now`: reads the system clock. Nothing is claimed of the
/// reading.
#[verifier::external_body]
fn system_now() -> SystemTime {
    SystemTime::now()
}

/// `SystemTime::duration_since` with the unix epoch as the earlier instant:
/// the time elapsed since the epoch, or an error for a reading before it.
/// Nothing is claimed of which of the two comes back.
#[verifier::external_body]
fn since_unix_epoch(reading: &SystemTime) -> Result<Duration, SystemTimeError> {
    reading.duration_since(std::time::UNIX_EPOCH)
}

/// `Duration::as_secs`: the whole seconds of a duration.
#[verifier::external_body]
fn whole_seconds(elapsed: &Duration) -> u64 {
    elapsed.as_secs()
}

/// The unix timestamp for a number of seconds since the epoch, where it
/// fits a signed 64-bit integer.
pub fn unix_time_from_seconds(seconds: u64) -> (t: Option<i64>)
    ensures
        seconds <= i64::MAX ==> t == Some(seconds as i64),
        seconds > i64::MAX ==> t is None,
{
    if seconds <= 0x7fff_ffff_ffff_ffff {
        Some(seconds as i64)
    } else {
        None
    }
}

/// The current unix time in seconds. `None` where the system clock reads
/// before the unix epoch or beyond what a signed 64-bit integer holds.
pub fn get_current_unix_time() -> (now: Option<i64>)
    ensures
        now matches Some(t) ==> t >= 0,
{
    let reading = system_now();
    match since_unix_epoch(&reading) {
        Ok(elapsed) => unix_time_from_seconds(whole_seconds(&elapsed)),
        Err(_) => None,
    }
}

} // verus!
