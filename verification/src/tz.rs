//! Timezone-database lookups, delegated to chrono-tz.
//!
//! The rest of the library works on plain minute counts; these two wrappers
//! are its only window onto the timezone database. Both results are named
//! rather than spelled out: for a fixed version of the database they are
//! functions of the timezone name and the minute count alone.

use core::str::FromStr;
use chrono::Offset;
use chrono::TimeZone;
use vstd::prelude::*;

verus! {

/// Minutes since the Unix epoch that the timezone database maps a local
/// civil time of timezone `tz` to, when `tz` is a known timezone name and
/// the mapping is unambiguous; the local civil time is given as minutes
/// since the epoch read as if it were UTC.
pub uninterp spec fn tz_local_single(tz: Seq<char>, local_minutes: int) -> Option<int>;

/// UTC offset, in whole minutes, that the timezone database gives timezone
/// `tz` at the UTC minute count `utc_minutes`; `None` when `tz` is not a
/// known timezone name.
pub uninterp spec fn tz_offset(tz: Seq<char>, utc_minutes: int) -> Option<int>;

/// Relies on chrono_tz's `Tz::from_str` and chrono's
/// `TimeZone::from_local_datetime(..).single()`: for a fixed version of the
/// timezone database the outcome depends only on the timezone name and the
/// local civil time, and any offset it applies comes from a
/// `chrono::FixedOffset`, which is bounded by a day.
#[verifier::external_body]
pub(crate) fn resolve_local_minutes(tz: &str, local_minutes: i64) -> (r: Option<i64>)
    ensures
        match r {
            Some(u) => tz_local_single(tz@, local_minutes as int) == Some(u as int)
                && local_minutes - 1440 <= u <= local_minutes + 1440,
            None => tz_local_single(tz@, local_minutes as int) is None,
        },
{
    let zone = chrono_tz::Tz::from_str(tz).ok()?;
    let secs = local_minutes.checked_mul(60)?;
    let naive = chrono::DateTime::from_timestamp(secs, 0)?.naive_utc();
    let resolved = zone.from_local_datetime(&naive).single()?;
    Some(resolved.timestamp().div_euclid(60))
}

/// Relies on chrono_tz's `Tz::from_str` and chrono's
/// `TimeZone::offset_from_utc_datetime`: for a fixed version of the
/// timezone database the offset depends only on the timezone name and the
/// instant, and a `chrono::FixedOffset` is bounded by a day.
#[verifier::external_body]
pub(crate) fn offset_minutes_at(tz: &str, utc_minutes: i64) -> (r: Option<i32>)
    ensures
        match r {
            Some(o) => tz_offset(tz@, utc_minutes as int) == Some(o as int) && -1440 <= o
                <= 1440,
            None => tz_offset(tz@, utc_minutes as int) is None,
        },
{
    let zone = chrono_tz::Tz::from_str(tz).ok()?;
    let secs = utc_minutes.checked_mul(60)?;
    let naive = chrono::DateTime::from_timestamp(secs, 0)?.naive_utc();
    let off = zone.offset_from_utc_datetime(&naive).fix().local_minus_utc();
    Some(off.div_euclid(60))
}

} // verus!
