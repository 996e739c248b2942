//! Instants are held as nanoseconds since the Unix epoch (UTC), the
//! resolution at which chrono compares them.

use vstd::prelude::*;

verus! {

pub const NANOS_PER_SECOND: i128 = 1_000_000_000;

pub const NANOS_PER_MINUTE: i128 = 60_000_000_000;

pub const NANOS_PER_DAY: i128 = 86_400_000_000_000;

/// A bound on the magnitude of every instant that `chrono::DateTime<Utc>`
/// can represent (years -262143 to 262142), in nanoseconds.
pub const INSTANT_LIMIT: i128 = 8_500_000_000_000_000_000_000;

/// Whether an instant lies within the range of `chrono::DateTime<Utc>`.
pub open spec fn is_representable_instant(t: int) -> bool {
    -INSTANT_LIMIT <= t <= INSTANT_LIMIT
}

/// `chrono::Utc::now()`, read as its whole seconds since the epoch
/// (`timestamp`) and the nanoseconds past them (`timestamp_subsec_nanos`).
/// chrono keeps the seconds within the years -262143 to 262142 (less than
/// 8.4 × 10^12 in magnitude) and the nanoseconds below 2 × 10^9 (values of a
/// second or more stand for a leap second). Nothing else is claimed of the
/// current time.
#[verifier::external_body]
fn clock_now() -> (r: (i64, u32))
    ensures
        -8_400_000_000_000 <= r.0 <= 8_400_000_000_000,
        r.1 < 2_000_000_000,
{
    let now = chrono::Utc::now();
    (now.timestamp(), now.timestamp_subsec_nanos())
}

/// The current time, in nanoseconds since the epoch.
pub(crate) fn now_nanos() -> (r: i128)
    ensures
        is_representable_instant(r as int),
{
    let (seconds, nanos) = clock_now();
    seconds as i128 * NANOS_PER_SECOND + nanos as i128
}

} // verus!
