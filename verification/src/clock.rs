//! Wall-clock reading.  Invitation expiry and timestamps compare against a
//! caller-supplied time, so the clock is read once at each boundary.

use vstd::prelude::*;

verus! {

/// Read the wall clock.
///
/// Relies on `chrono::Utc::now` and `chrono::DateTime::timestamp`: seconds
/// since the Unix epoch; nothing is assumed of the value.
#[verifier::external_body]
fn now_timestamp() -> (r: i64) {
    chrono::Utc::now().timestamp()
}

/// The current time as seconds since the Unix epoch, clamped below at zero.
pub fn now_unix() -> (r: u64) {
    let t = now_timestamp();
    if t < 0 {
        0
    } else {
        t as u64
    }
}

} // verus!
