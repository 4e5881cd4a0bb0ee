//! The system clock.

use std::time::SystemTime;
use vstd::prelude::*;

verus! {

/// `std::time::SystemTime`, of which nothing is known.
#[verifier::external_type_specification]
#[verifier::external_body]
pub struct ExSystemTime(SystemTime);

/// Reads the system clock with `SystemTime::now`. Nothing is claimed of the
/// reading.
#[verifier::external_body]
pub(crate) fn system_now() -> (now: SystemTime) {
    SystemTime::now()
}

/// The whole seconds from the Unix epoch to `time`, which
/// `SystemTime::duration_since` gives; `None` where `time` lies before the
/// epoch. Nothing is claimed of the value.
#[verifier::external_body]
pub(crate) fn epoch_seconds(time: &SystemTime) -> (seconds: Option<u64>) {
    time.duration_since(std::time::UNIX_EPOCH).ok().map(|passed| passed.as_secs())
}

/// The nanoseconds beyond the whole seconds from the Unix epoch to `time`,
/// which `SystemTime::duration_since` and `Duration::subsec_nanos` give;
/// `None` where `time` lies before the epoch. Nothing is claimed of the
/// value.
#[verifier::external_body]
pub(crate) fn epoch_nanos(time: &SystemTime) -> (nanos: Option<u32>) {
    time.duration_since(std::time::UNIX_EPOCH).ok().map(|passed| passed.subsec_nanos())
}

/// The present time in whole seconds since the Unix epoch. A clock that is
/// set before the epoch reads as 0: see [`seconds_or_epoch`].
pub(crate) fn unix_seconds() -> (now: u64) {
    let now = system_now();
    seconds_or_epoch(epoch_seconds(&now))
}

/// The time that a reading of the clock stands for: the seconds that it
/// gives, and the epoch itself where it gives none.
pub open spec fn reading_seconds(reading: Option<u64>) -> u64 {
    match reading {
        Some(seconds) => seconds,
        None => 0,
    }
}

/// The time, in whole seconds since the Unix epoch, that a reading of the
/// clock stands for. A reading that lies before the epoch gives no seconds
/// and stands for the epoch.
pub fn seconds_or_epoch(reading: Option<u64>) -> (seconds: u64)
    ensures
        seconds == reading_seconds(reading),
{
    match reading {
        Some(seconds) => seconds,
        None => 0,
    }
}

} // verus!
