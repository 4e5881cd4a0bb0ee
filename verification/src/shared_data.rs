//! Events that an observer notes down for its users.

use crate::clock::{epoch_nanos, epoch_seconds, system_now};
use vstd::prelude::*;

verus! {

/// A message with the time at which it was noted, in milliseconds since
/// the Unix epoch.
#[derive(Debug)]
pub struct DataEvent {
    pub message: String,
    pub timestamp: u64,
}

/// The events noted so far.
#[derive(Debug)]
pub struct SharedData {
    pub events: Vec<String>,
}

/// A signed count of milliseconds as an unsigned one: a count below zero
/// wraps round.
pub open spec fn unsigned_millis(millis: i64) -> u64 {
    if millis >= 0 {
        millis as u64
    } else {
        (millis + 0x1_0000_0000_0000_0000) as u64
    }
}

/// Whether `chrono` has a date and time for the instant that lies
/// `seconds` and `nanos` nanoseconds after the Unix epoch: whether
/// `DateTime::from_timestamp` gives one.
pub uninterp spec fn dated(seconds: i64, nanos: u32) -> bool;

/// The milliseconds since the Unix epoch of the instant that lies `seconds`
/// and `nanos` nanoseconds after it, as `chrono` counts them: the instant is
/// made with `DateTime::from_timestamp`, which gives none where it has no
/// date for it, and counted with `DateTime::timestamp_millis`, which is a
/// thousand times the seconds and the whole milliseconds of the rest.
#[verifier::external_body]
fn millis_of(seconds: i64, nanos: u32) -> (millis: Option<i64>)
    ensures
        millis is Some <==> dated(seconds, nanos),
        millis matches Some(m) ==> m == seconds * 1000 + nanos / 1_000_000,
{
    chrono::DateTime::from_timestamp(seconds, nanos).map(|instant| instant.timestamp_millis())
}

/// The time of an event, in milliseconds since the Unix epoch, that a
/// reading of the clock in seconds and nanoseconds stands for. A reading
/// that lies before the epoch gives neither and stands for the epoch, and
/// so does one that lies beyond the dates that can be counted.
pub open spec fn reading_millis(seconds: Option<u64>, nanos: Option<u32>) -> int {
    match (seconds, nanos) {
        (Some(s), Some(n)) => if s <= i64::MAX && dated(s as i64, n) {
            s * 1000 + n / 1_000_000
        } else {
            0
        },
        _ => 0,
    }
}

impl DataEvent {
    /// The event that `message` was noted at the reading `millis` of the
    /// clock.
    pub fn at(message: String, millis: i64) -> (event: Self)
        ensures
            event.message@ == message@,
            event.timestamp == unsigned_millis(millis),
    {
        let timestamp: u64 = if millis >= 0 {
            millis as u64
        } else {
            (millis as i128 + 0x1_0000_0000_0000_0000) as u64
        };
        Self { message, timestamp }
    }

    /// The event that `message` was noted at a reading of the clock in
    /// seconds and nanoseconds since the Unix epoch.
    pub fn at_reading(message: String, seconds: Option<u64>, nanos: Option<u32>) -> (event: Self)
        ensures
            event.message@ == message@,
            event.timestamp == reading_millis(seconds, nanos),
    {
        let millis = match (seconds, nanos) {
            (Some(s), Some(n)) => if s <= i64::MAX as u64 {
                millis_of(s as i64, n)
            } else {
                None
            },
            _ => None,
        };
        match millis {
            Some(m) => DataEvent::at(message, m),
            None => DataEvent::at(message, 0),
        }
    }

    /// The event that `message` was noted now: what
    /// [`DataEvent::at_reading`] gives for some reading of the clock.
    pub fn new(message: String) -> (event: Self)
        ensures
            event.message@ == message@,
            exists|seconds: Option<u64>, nanos: Option<u32>|
                event.timestamp == reading_millis(seconds, nanos),
    {
        let now = system_now();
        let seconds = epoch_seconds(&now);
        let nanos = epoch_nanos(&now);
        DataEvent::at_reading(message, seconds, nanos)
    }
}

} // verus!
