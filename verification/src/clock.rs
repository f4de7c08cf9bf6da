//! Wall-clock access for timestamp seeding.
//!
//! Timestamps in this crate are signed epoch milliseconds. The clock is only
//! used to seed the `start_timestamp` of freshly initialised drawdown
//! trackers; every state transition afterwards works on caller-supplied
//! timestamps.

use vstd::prelude::*;

verus! {

/// Relies on chrono's `Utc::now` and `DateTime::timestamp_millis`: the
/// current wall-clock time as milliseconds since the Unix epoch. Nothing is
/// assumed of the value; callers clamp it to the nonnegative range.
#[verifier::external_body]
fn now_epoch_ms_raw() -> i64 {
    chrono::Utc::now().timestamp_millis()
}

/// The current wall-clock time as epoch milliseconds, clamped to be
/// nonnegative so that it is a well-formed timestamp.
pub fn now_epoch_ms() -> (r: i64)
    ensures
        r >= 0,
{
    let t = now_epoch_ms_raw();
    if t < 0 {
        0
    } else {
        t
    }
}

} // verus!
