//! The wall clock, read through chrono.
use vstd::prelude::*;

verus! {

/// Calls `chrono::Utc::now().timestamp_millis()`: the current UTC time in
/// milliseconds since the Unix epoch. chrono reads it as the system time's
/// distance from the epoch (it panics on a clock set before 1970), so the
/// value is never negative; nothing else is claimed of it.
#[verifier::external_body]
pub fn now_millis() -> (ms: i64)
    ensures
        ms >= 0,
{
    chrono::Utc::now().timestamp_millis()
}

} // verus!
