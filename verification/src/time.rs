//! Absolute UTC instants, held as non-leap milliseconds since the Unix
//! epoch, and the checked conversion from a venue-supplied millisecond
//! timestamp.

use vstd::prelude::*;
use crate::error::DataError;

verus! {

/// The largest millisecond Unix-epoch offset that converts to a calendar
/// instant (23:59:59.999 on the last representable day of year 262142);
/// anything above it is unrepresentable.
pub const MAX_UTC_MS: i64 = 8_210_266_876_799_999;

/// An absolute UTC instant.
#[derive(Clone, Copy, Debug, PartialEq, Eq, Structural)]
pub struct UtcTime {
    /// Non-leap milliseconds since 1970-01-01 00:00:00 UTC.
    pub ms: i64,
}

/// A millisecond offset that an absolute instant can represent.
pub open spec fn valid_epoch_ms(ms: int) -> bool {
    0 <= ms <= MAX_UTC_MS
}

/// What converting a venue millisecond timestamp yields: the instant at
/// exactly that offset from the epoch, or a classified rejection.
pub open spec fn spec_ms_to_utc(ms: i64) -> Result<UtcTime, DataError> {
    if valid_epoch_ms(ms as int) {
        Ok(UtcTime { ms })
    } else {
        Err(DataError::InvalidTimestamp { raw_value: ms })
    }
}

/// Converts a millisecond Unix-epoch timestamp to an absolute UTC instant.
/// A negative value is rejected explicitly; a value beyond the calendar
/// range is rejected by the generic out-of-range check.
pub fn ms_epoch_to_datetime_utc(ms: i64) -> (r: Result<UtcTime, DataError>)
    ensures
        r == spec_ms_to_utc(ms),
{
    if ms < 0 {
        return Err(DataError::InvalidTimestamp { raw_value: ms });
    }
    if ms > MAX_UTC_MS {
        return Err(DataError::InvalidTimestamp { raw_value: ms });
    }
    Ok(UtcTime { ms })
}

/// Timestamp conversion is total and two-sided: every negative value is
/// rejected as `InvalidTimestamp`, and every representable non-negative
/// value yields the instant at exactly that millisecond offset from the
/// epoch.
pub proof fn lemma_timestamp_conversion(ms: i64)
    ensures
        ms < 0 ==> spec_ms_to_utc(ms) == Err::<UtcTime, DataError>(
            DataError::InvalidTimestamp { raw_value: ms },
        ),
        0 <= ms <= MAX_UTC_MS ==> spec_ms_to_utc(ms) == Ok::<UtcTime, DataError>(UtcTime { ms }),
        ms > MAX_UTC_MS ==> spec_ms_to_utc(ms) == Err::<UtcTime, DataError>(
            DataError::InvalidTimestamp { raw_value: ms },
        ),
{
}

/// Relies on `chrono::Utc::now` and `chrono::DateTime::timestamp_millis`:
/// reads the wall clock and converts it to milliseconds since the Unix
/// epoch. Nothing is assumed of the reading; callers hold for every value.
#[verifier::external_body]
pub fn now_utc() -> UtcTime {
    UtcTime { ms: chrono::Utc::now().timestamp_millis() }
}

} // verus!
