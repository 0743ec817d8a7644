use std::time::{Duration, SystemTime, SystemTimeError, UNIX_EPOCH};
use vstd::prelude::*;

verus! {

/// `std::time::SystemTime`, a reading of the wall clock, carried as an
/// opaque value.
#[verifier::external_type_specification]
#[verifier::external_body]
pub struct ExSystemTime(SystemTime);

/// `std::time::SystemTimeError`, the error of a clock that shows a time
/// before the one it is compared with, carried as an opaque value.
#[verifier::external_type_specification]
#[verifier::external_body]
pub struct ExSystemTimeError(SystemTimeError);

/// `SystemTime::now`: the wall clock. Nothing is known of what it shows.
#[verifier::external_body]
fn system_now() -> SystemTime {
    SystemTime::now()
}

/// `SystemTime::duration_since` with the epoch as the earlier time: the time
/// that has passed since the epoch, or an error where the clock shows a time
/// before it.
#[verifier::external_body]
fn since_epoch(now: &SystemTime) -> Result<Duration, SystemTimeError> {
    now.duration_since(UNIX_EPOCH)
}

/// `Duration::as_secs`: the whole seconds in a span of time.
#[verifier::external_body]
fn whole_secs(elapsed: &Duration) -> u64 {
    elapsed.as_secs()
}

/// `Duration::subsec_millis`: the whole milliseconds in the second that a
/// span of time has begun, always fewer than a thousand.
#[verifier::external_body]
fn subsec_millis(elapsed: &Duration) -> (millis: u32)
    ensures
        millis < 1000,
{
    elapsed.subsec_millis()
}

/// The time that has passed since the epoch: whole seconds, and the whole
/// milliseconds of the second begun.
#[derive(Clone, Copy, Debug, PartialEq, Eq, Structural)]
pub struct SinceEpoch {
    pub secs: u64,
    pub subsec_millis: u32,
}

/// Whether a reading is one that a clock can show: nothing, for a clock that
/// shows a time before the epoch, or a span of time whose milliseconds stay
/// within the second.
pub open spec fn clock_reading(reading: Option<SinceEpoch>) -> bool {
    reading matches Some(elapsed) ==> elapsed.subsec_millis < 1000
}

/// The timestamp of a reading of the clock: the time since the epoch in
/// whole milliseconds, a thousand for each second and the milliseconds of
/// the second begun. A clock that shows a time before the epoch has none.
pub open spec fn spec_timestamp_millis(reading: Option<SinceEpoch>) -> Option<u128> {
    match reading {
        Some(elapsed) => Some((elapsed.secs * 1000 + elapsed.subsec_millis) as u128),
        None => None,
    }
}

/// The timestamp of a reading of the clock.
pub fn timestamp_millis(reading: Option<SinceEpoch>) -> (stamp: Option<u128>)
    ensures
        stamp == spec_timestamp_millis(reading),
{
    match reading {
        Some(elapsed) => {
            let secs: u128 = elapsed.secs as u128;
            let millis: u128 = elapsed.subsec_millis as u128;
            Some(secs * 1000 + millis)
        },
        None => None,
    }
}

/// The wall-clock time in milliseconds since the epoch, or `None` where the
/// clock shows a time before the epoch. What the clock shows is not known
/// beforehand; the result is the timestamp of what it showed.
pub fn get_timestamp_millis() -> (stamp: Option<u128>)
    ensures
        exists|reading: Option<SinceEpoch>|
            clock_reading(reading) && stamp == #[trigger] spec_timestamp_millis(reading),
{
    let current_time = system_now();
    let reading = match since_epoch(&current_time) {
        Ok(duration_since_epoch) => Some(
            SinceEpoch {
                secs: whole_secs(&duration_since_epoch),
                subsec_millis: subsec_millis(&duration_since_epoch),
            },
        ),
        Err(_) => None,
    };
    assert(clock_reading(reading));
    timestamp_millis(reading)
}

} // verus!
