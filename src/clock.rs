//! The wall clock and the source of fresh identifiers.

use vstd::prelude::*;

use crate::movie::Timestamp;

verus! {

/// Relies on chrono::Utc::now and DateTime::timestamp_micros: the current UTC
/// time in microseconds since the Unix epoch. `Utc::now` measures the time
/// since the epoch and so never yields an instant before it (it panics when the
/// system clock is set before 1970).
#[verifier::external_body]
pub(crate) fn now() -> (r: Timestamp)
    ensures
        r.micros >= 0,
{
    Timestamp { micros: chrono::Utc::now().timestamp_micros() }
}

/// Relies on uuid::Uuid::new_v4 and Uuid::as_u128: a random version-4 UUID as
/// a 128-bit integer. Its version field (bits 76..80) is 4 and its variant
/// field (bits 62..64) is binary 10; the other bits are random.
#[verifier::external_body]
pub(crate) fn fresh_id() -> (r: u128)
    ensures
        (r >> 76u128) & 0xfu128 == 4u128,
        (r >> 62u128) & 0x3u128 == 2u128,
{
    uuid::Uuid::new_v4().as_u128()
}

} // verus!
