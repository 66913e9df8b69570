//! The wall clock, as the device's 32-bit Unix timestamps.

use std::time::{Duration, SystemTime, UNIX_EPOCH};
use vstd::prelude::*;

verus! {

#[verifier::external_type_specification]
#[verifier::external_body]
pub struct ExSystemTime(SystemTime);

/// Relies on `SystemTime::now`: the current time; nothing is known of it.
#[verifier::external_body]
fn system_now() -> (r: SystemTime) {
    SystemTime::now()
}

/// Relies on `SystemTime::duration_since` from `UNIX_EPOCH`: the time since
/// the epoch, or `None` for a time before it; nothing is known of its value.
#[verifier::external_body]
fn since_epoch(t: SystemTime) -> (r: Option<Duration>) {
    t.duration_since(UNIX_EPOCH).ok()
}

/// Relies on `Duration::as_secs`: the whole seconds of a duration; nothing
/// is known of their number here.
#[verifier::external_body]
fn whole_secs(d: Duration) -> (r: u64) {
    d.as_secs()
}

/// A 32-bit timestamp from seconds since the epoch: zero when the clock is
/// before the epoch, the largest timestamp when the seconds do not fit.
pub fn timestamp_from_secs(secs: Option<u64>) -> (r: u32)
    ensures
        match secs {
            None => r == 0,
            Some(s) => r == if s <= u32::MAX {
                s as u32
            } else {
                u32::MAX
            },
        },
{
    match secs {
        None => 0,
        Some(s) => if s <= u32::MAX as u64 {
            s as u32
        } else {
            u32::MAX
        },
    }
}

/// The current time as a 32-bit Unix timestamp.
pub fn current_timestamp() -> (r: u32) {
    let secs = match since_epoch(system_now()) {
        Some(d) => Some(whole_secs(d)),
        None => None,
    };
    timestamp_from_secs(secs)
}

} // verus!
