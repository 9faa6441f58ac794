use vstd::prelude::*;

verus! {

/// Relies on chrono::Utc::now and DateTime::timestamp_micros: the current
/// wall-clock time in microseconds since the Unix epoch. Nothing is promised
/// of the value, which depends on the moment of the call. `Utc::now` panics
/// only when the system clock reads a time before the Unix epoch.
#[verifier::external_body]
pub(crate) fn now_micros() -> (r: i64) {
    chrono::Utc::now().timestamp_micros()
}

} // verus!
