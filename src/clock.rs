use vstd::prelude::*;

verus! {

/// Milliseconds since the Unix epoch, in UTC.
pub type UtcMillis = i64;

/// Relies on `chrono::Utc::now` and `DateTime::timestamp_millis`: the current
/// wall-clock time in milliseconds since the epoch. It reads the system
/// clock, so nothing is promised of the value.
#[verifier::external_body]
pub(crate) fn utc_now_millis() -> (r: UtcMillis) {
    chrono::Utc::now().timestamp_millis()
}

} // verus!
