//! The clock, and the arithmetic that turns hours into expiration times.
//!
//! Times are whole seconds since the Unix epoch. An expiration of `0` is not
//! a time: it says that a status never lapses.

use vstd::prelude::*;

verus! {

/// The greatest number of hours, in either direction, that a
/// `chrono::Duration` can hold: its range is that of `i64` milliseconds.
pub const MAX_HOURS: i64 = 2_562_047_788_015;

/// The expiration of a status applied at `now` that lapses after `hours`
/// hours: `now` plus that many hours in seconds, or `0` where it never
/// lapses.
pub open spec fn expiration_of(hours: Option<i64>, now: int) -> int {
    match hours {
        Some(h) => now + h * 3600,
        None => 0,
    }
}

/// Whether the expiration of a status applied at `now` can be computed: the
/// hours fit a duration, and the expiration fits an `i64`.
pub open spec fn expiration_fits(hours: Option<i64>, now: int) -> bool {
    hours matches Some(h) ==> {
        &&& -MAX_HOURS <= h <= MAX_HOURS
        &&& i64::MIN <= now + h * 3600 <= i64::MAX
    }
}

/// The seconds in `hours` hours, by `chrono::Duration::hours` and
/// `Duration::num_seconds`. The first multiplies by 3600 and aborts where
/// the product leaves the range of `i64` milliseconds, which `requires`
/// rules out; the second hands back the whole seconds, here all of them.
#[verifier::external_body]
fn seconds_in_hours(hours: i64) -> (seconds: i64)
    requires
        -MAX_HOURS <= hours <= MAX_HOURS,
    ensures
        seconds == hours * 3600,
{
    chrono::Duration::hours(hours).num_seconds()
}

/// The current time in whole seconds since the Unix epoch, by
/// `chrono::Utc::now` and `DateTime::timestamp`. Nothing is claimed of the
/// value: it is whatever the system clock says. `Utc::now` aborts on a
/// machine whose clock is set before 1970.
#[verifier::external_body]
pub(crate) fn current_timestamp() -> i64 {
    chrono::Utc::now().timestamp()
}

/// The expiration of a status applied at `now` that lapses after `hours`
/// hours.
pub fn expiration(hours: Option<i64>, now: i64) -> (expires_at: i64)
    requires
        expiration_fits(hours, now as int),
    ensures
        expires_at == expiration_of(hours, now as int),
{
    match hours {
        Some(h) => now + seconds_in_hours(h),
        None => 0,
    }
}

/// Whether the expiration of a status applied at `now` can be computed.
pub fn expiration_is_computable(hours: Option<i64>, now: i64) -> (fits: bool)
    ensures
        fits == expiration_fits(hours, now as int),
{
    checked_expiration(hours, now).is_some()
}

/// The expiration of a status applied at `now` that lapses after `hours`
/// hours, or `None` where it cannot be computed.
pub fn checked_expiration(hours: Option<i64>, now: i64) -> (expires_at: Option<i64>)
    ensures
        expiration_fits(hours, now as int) ==> expires_at == Some(
            expiration_of(hours, now as int) as i64,
        ),
        !expiration_fits(hours, now as int) ==> expires_at is None,
{
    match hours {
        Some(h) => {
            if h < -MAX_HOURS || h > MAX_HOURS {
                None
            } else {
                now.checked_add(seconds_in_hours(h))
            }
        },
        None => Some(0),
    }
}

} // verus!
