//! The time of day, as the records hold it.

use vstd::prelude::*;

verus! {

/// The current time in microseconds since the Unix epoch:
/// `chrono::Utc::now`, as `DateTime::timestamp_micros` gives it. Trusted
/// to return; nothing is claimed of the value, and one call may give an
/// earlier time than the call before it. The call panics where the clock
/// of the system stands before the epoch.
#[verifier::external_body]
pub(crate) fn now_micros() -> (now: i64) {
    chrono::Utc::now().timestamp_micros()
}

} // verus!
