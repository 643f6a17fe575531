use vstd::prelude::*;
use std::time::Duration;
use std::time::SystemTime;
use std::time::UNIX_EPOCH;

verus! {

/// `std::time::SystemTime`: a reading of the wall clock. It is carried from
/// one call to the next; nothing is read from it here.
#[verifier::external_type_specification]
#[verifier::external_body]
pub struct ExSystemTime(std::time::SystemTime);

/// `SystemTime::now`: the wall clock of this machine. Nothing is claimed of
/// the value it gives.
#[verifier::external_body]
fn system_now() -> (now: SystemTime) {
    SystemTime::now()
}

/// `SystemTime::duration_since` with `UNIX_EPOCH`: the time elapsed since the
/// epoch, or `None` where the clock stands before it. Nothing is claimed of
/// the value.
#[verifier::external_body]
fn since_unix_epoch(time: SystemTime) -> (elapsed: Option<Duration>) {
    match time.duration_since(UNIX_EPOCH) {
        Ok(elapsed) => Some(elapsed),
        Err(_) => None,
    }
}

/// `Duration::as_nanos`: a duration in whole nanoseconds. Nothing is claimed
/// of the value.
#[verifier::external_body]
fn nanos_of(elapsed: Duration) -> (nanos: u128) {
    elapsed.as_nanos()
}

/// Reads the wall clock: nanoseconds since the epoch, or `None` where the
/// clock cannot tell. Two readings may differ in any way: callers state what
/// holds of every reading.
pub fn now_ns() -> (reading: Option<u128>) {
    match since_unix_epoch(system_now()) {
        Some(elapsed) => Some(nanos_of(elapsed)),
        None => None,
    }
}

/// The timestamp for the next mutation, given the last one assigned and a
/// clock reading: the reading where it is later than the last timestamp, the
/// last timestamp plus one where the clock failed or did not move on.
pub open spec fn fresh_timestamp(last: u128, reading: Option<u128>) -> u128 {
    match reading {
        Some(now) if now > last => now,
        _ => if last < u128::MAX { (last + 1) as u128 } else { last },
    }
}

/// Computes `fresh_timestamp`. The result lies strictly after `last`, unless
/// `last` is the largest timestamp there is.
pub fn next_timestamp(last: u128, reading: Option<u128>) -> (ts: u128)
    ensures
        ts == fresh_timestamp(last, reading),
        ts >= last,
        last < u128::MAX ==> ts > last,
{
    match reading {
        Some(now) if now > last => now,
        _ => if last < u128::MAX { last + 1 } else { last },
    }
}

} // verus!
