//! The system clock, read in whole seconds since the Unix epoch.

use vstd::prelude::*;

use crate::text::concat2;

use std::time::{Duration, SystemTime, UNIX_EPOCH};

verus! {

/// A reading of the system clock.
#[verifier::external_type_specification]
#[verifier::external_body]
pub struct ExSystemTime(SystemTime);

/// Reads the system clock (`SystemTime::now`). Nothing is stated of the
/// reading: it is whatever the clock shows.
#[verifier::external_body]
fn system_now() -> (t: SystemTime) {
    SystemTime::now()
}

/// A clock error: the message `system clock error: ` followed by what the
/// clock reported.
pub open spec fn is_clock_error(m: Seq<char>) -> bool {
    exists|detail: Seq<char>| m == "system clock error: "@ + detail
}

/// The time from the Unix epoch to `t` (`SystemTime::duration_since`
/// with `UNIX_EPOCH`); where `t` lies before the epoch, the error that it
/// reports, as text. Nothing is stated of either, which depend on the
/// reading.
#[verifier::external_body]
fn since_unix_epoch(t: &SystemTime) -> (r: Result<Duration, String>) {
    match t.duration_since(UNIX_EPOCH) {
        Ok(d) => Ok(d),
        Err(e) => Err(e.to_string()),
    }
}

/// The whole seconds in `d` (`Duration::as_secs`). A duration is opaque
/// here, so nothing is stated of the count.
#[verifier::external_body]
fn whole_seconds(d: &Duration) -> (secs: u64) {
    d.as_secs()
}

/// The current Unix time in seconds, or the clock's error. Which reading
/// the clock gives is not stated.
pub fn current_unix_ts() -> (r: Result<u64, String>)
    ensures
        r matches Err(m) ==> is_clock_error(m@),
{
    let now = system_now();
    match since_unix_epoch(&now) {
        Ok(d) => Ok(whole_seconds(&d)),
        Err(detail) => {
            let m = concat2("system clock error: ", detail.as_str());
            assert(m@ == "system clock error: "@ + detail@);
            Err(m)
        },
    }
}

} // verus!
