//! Clock offset calibration against the exchange's server time.

use vstd::prelude::*;

verus! {

/// Milliseconds added to the measured clock difference, so that signed
/// timestamps sit a little in the past of the server's clock.
pub const SAFETY_MARGIN_MS: i64 = 1000;

/// The offset that a calibration yields: the local time at the start of the
/// time call, less the server time estimated at that moment (the reported time
/// less half the round trip), plus the safety margin.
pub open spec fn offset_of(local_start_ms: int, server_time_ms: int, round_trip_ms: int) -> int {
    (local_start_ms - (server_time_ms - round_trip_ms / 2)) + SAFETY_MARGIN_MS
}

/// Whether an integer fits in an `i64`.
pub open spec fn fits_i64(v: int) -> bool {
    i64::MIN <= v <= i64::MAX
}

/// Computes the timestamp offset from one server-time call: `local_start_ms`
/// is the local clock read just before the call, `server_time_ms` the time the
/// server reported, and `round_trip_ms` how long the call took. `None` when the
/// offset does not fit in an `i64`.
pub fn calibrate(local_start_ms: i64, server_time_ms: i64, round_trip_ms: u64) -> (r: Option<i64>)
    ensures
        r is Some <==> fits_i64(offset_of(local_start_ms as int, server_time_ms as int, round_trip_ms as int)),
        r is Some ==> r->0 == offset_of(local_start_ms as int, server_time_ms as int, round_trip_ms as int),
{
    let half: i128 = (round_trip_ms / 2) as i128;
    let server_estimate: i128 = server_time_ms as i128 - half;
    let offset: i128 = (local_start_ms as i128 - server_estimate) + SAFETY_MARGIN_MS as i128;
    if i64::MIN as i128 <= offset && offset <= i64::MAX as i128 {
        Some(offset as i64)
    } else {
        None
    }
}

/// The timestamp to sign for a request declared at `timestamp_ms`: the
/// declared time less the offset. `None` when that does not fit in an `i64`.
pub fn apply_offset(timestamp_ms: i64, offset_ms: i64) -> (r: Option<i64>)
    ensures
        r is Some <==> fits_i64(timestamp_ms - offset_ms),
        r is Some ==> r->0 == timestamp_ms - offset_ms,
{
    timestamp_ms.checked_sub(offset_ms)
}

} // verus!
