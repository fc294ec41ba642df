//! Instants as milliseconds since the Unix epoch, with chrono's checked arithmetic.

use vstd::prelude::*;

verus! {

/// Earliest instant chrono's `DateTime<Utc>` represents, in milliseconds since
/// the Unix epoch: -262143-01-01T00:00:00Z.
pub const UTC_MIN_MILLIS: i64 = -8_334_601_228_800_000;

/// Latest whole-millisecond instant chrono's `DateTime<Utc>` represents:
/// +262142-12-31T23:59:59.999Z.
pub const UTC_MAX_MILLIS: i64 = 8_210_266_876_799_999;

/// Whether both `time` and `time + millis` lie in chrono's UTC range.
pub open spec fn utc_sum_in_range(time: int, millis: int) -> bool {
    UTC_MIN_MILLIS <= time && time + millis <= UTC_MAX_MILLIS
}

/// The instant `millis` after `time` as chrono's `DateTime<Utc>` computes it:
/// the sum while both instants lie in chrono's range, absent otherwise.
pub open spec fn utc_add_millis(time: i64, millis: u64) -> Option<i64> {
    if utc_sum_in_range(time as int, millis as int) {
        Some((time + millis) as i64)
    } else {
        None
    }
}

/// Adds `millis` milliseconds to the UTC instant `time` through
/// `chrono::DateTime::checked_add_signed`. chrono builds `time` with
/// `from_timestamp_millis` (absent outside its range) and reports overflow when
/// the sum leaves its range, so the result is the sum exactly when both
/// instants lie in the range.
#[verifier::external_body]
pub fn add_millis(time: i64, millis: u64) -> (r: Option<i64>)
    ensures
        r == utc_add_millis(time, millis),
{
    let at = chrono::DateTime::from_timestamp_millis(time)?;
    let delta = chrono::TimeDelta::try_milliseconds(i64::try_from(millis).ok()?)?;
    at.checked_add_signed(delta).map(|t| t.timestamp_millis())
}

} // verus!
