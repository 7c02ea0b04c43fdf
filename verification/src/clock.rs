//! The wall clock, as far as the encoder needs it.
//!
//! Nothing can be promised of what a clock returns, so none of the functions
//! of std that are called here has a postcondition.

use vstd::prelude::*;

verus! {

/// A reading of the system clock. Opaque.
#[verifier::external_type_specification]
#[verifier::external_body]
pub struct ExSystemTime(std::time::SystemTime);

/// The error of a clock that stands before the epoch. Opaque.
#[verifier::external_type_specification]
#[verifier::external_body]
pub struct ExSystemTimeError(std::time::SystemTimeError);

/// `SystemTime::now`: the current time of the system clock.
#[verifier::external_body]
fn now() -> std::time::SystemTime {
    std::time::SystemTime::now()
}

/// `SystemTime::duration_since` with `UNIX_EPOCH`: the time that has passed
/// since the epoch, or an error where the clock stands before it.
#[verifier::external_body]
fn since_epoch(t: &std::time::SystemTime) -> Result<std::time::Duration, std::time::SystemTimeError> {
    t.duration_since(std::time::UNIX_EPOCH)
}

/// `Duration::as_millis`: the whole milliseconds in a duration.
#[verifier::external_body]
fn whole_millis(d: &std::time::Duration) -> u128 {
    d.as_millis()
}

/// The sixteen low bits of a count of milliseconds.
pub open spec fn truncated(millis: u128) -> u16 {
    (millis & 0xFFFF) as u16
}

/// Truncates a count of milliseconds to sixteen bits; the count wraps every
/// 65536 ms.
pub fn truncate_millis(millis: u128) -> (t: u16)
    ensures
        t == truncated(millis),
        t as int == millis as int % 65536,
{
    assert((millis & 0xFFFF) == millis % 65536 && (millis & 0xFFFF) <= 0xFFFF) by (bit_vector);
    (millis & 0xFFFF) as u16
}

/// The timestamp for a reading of the clock: the milliseconds since the
/// epoch, truncated to sixteen bits, and zero for a clock that stands before
/// the epoch and so has no such count.
pub open spec fn timestamp_of(elapsed_millis: Option<u128>) -> u16 {
    match elapsed_millis {
        Some(millis) => truncated(millis),
        None => 0,
    }
}

/// Turns a reading of the clock into a timestamp.
pub fn timestamp_from_reading(elapsed_millis: Option<u128>) -> (t: u16)
    ensures
        t == timestamp_of(elapsed_millis),
{
    match elapsed_millis {
        Some(millis) => truncate_millis(millis),
        None => 0,
    }
}

/// The current time in milliseconds since the epoch, truncated to sixteen
/// bits: [`timestamp_from_reading`] of what the system clock reads now. What
/// that is, only the clock decides, so nothing is promised of the result.
pub fn timestamp_ms_u16() -> u16 {
    let t = now();
    let elapsed_millis = match since_epoch(&t) {
        Ok(d) => Some(whole_millis(&d)),
        Err(_) => None,
    };
    timestamp_from_reading(elapsed_millis)
}

} // verus!
