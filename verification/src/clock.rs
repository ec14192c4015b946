//! The system clock, read through `std::time`.
use vstd::prelude::*;

verus! {

/// `std::time::SystemTime`.
#[verifier::external_type_specification]
#[verifier::external_body]
pub struct ExSystemTime(std::time::SystemTime);

/// Reads the system clock with `SystemTime::now`; nothing is stated of the
/// instant it returns.
#[verifier::external_body]
pub(crate) fn system_now() -> std::time::SystemTime {
    std::time::SystemTime::now()
}

/// `SystemTime::duration_since(UNIX_EPOCH)`: the time since the Unix epoch,
/// `None` for an instant before it. Nothing is stated of the duration.
#[verifier::external_body]
pub(crate) fn since_unix_epoch(t: &std::time::SystemTime) -> Option<std::time::Duration> {
    t.duration_since(std::time::UNIX_EPOCH).ok()
}

/// `Duration::as_secs`: the whole seconds of a duration. Nothing is stated of
/// the result, since the duration's value is not modelled.
#[verifier::external_body]
pub(crate) fn whole_seconds(d: &std::time::Duration) -> u64 {
    d.as_secs()
}

/// Whole seconds since the Unix epoch as a signed number, from what the clock
/// gave: `None` (an instant before 1970) is 0, and a count of seconds is cast
/// to `i64` as Rust's `as` does.
pub fn seconds_or_zero(secs: Option<u64>) -> (r: i64)
    ensures
        r == match secs {
            Some(s) => s as i64,
            None => 0i64,
        },
{
    match secs {
        Some(s) => s as i64,
        None => 0,
    }
}

/// Seconds since the Unix epoch by the system clock, as a signed number (0 for
/// a clock set before 1970). The reading itself rests on the clock, so nothing
/// is stated of it; `seconds_or_zero` states what is made of it.
pub fn unix_now_secs() -> i64 {
    let now = system_now();
    let secs = match since_unix_epoch(&now) {
        Some(d) => Some(whole_seconds(&d)),
        None => None,
    };
    seconds_or_zero(secs)
}

} // verus!
