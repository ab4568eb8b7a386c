//! The wall clock. The current time is read through one trusted call; the
//! conversion of what it returns into the calendar model is verified, and
//! every caller takes the resulting time as a plain value.

use vstd::prelude::*;

use crate::dates::CivilDateTime;
use crate::dates::civil_from_epoch;
use crate::dates::valid_date;

verus! {

/// Relies on chrono::Local::now: epoch seconds, sub-second nanoseconds and
/// the local offset from UTC in seconds, of some current moment. Nothing
/// can be promised of which moment; the seconds stay within chrono's
/// bounded date-time range (about 262000 years around the era), the
/// nanoseconds stay below two seconds (chrono represents a leap second
/// above 10^9) and the offset is less than a day in either direction.
#[verifier::external_body]
fn now_local() -> (r: (i64, u32, i32))
    ensures
        -10_000_000_000_000 <= r.0 <= 10_000_000_000_000,
        r.1 < 2_000_000_000,
        -86400 < r.2 < 86400,
{
    let now = chrono::Local::now();
    (now.timestamp(), now.timestamp_subsec_nanos(), now.offset().local_minus_utc())
}

/// The current local wall-clock time as a civil date-time, with the local
/// offset from UTC in seconds. Whatever moment the clock reports, the
/// returned date-time is a valid one; a clock outside the library's
/// calendar falls back to the epoch date.
pub fn current_civil() -> (r: (CivilDateTime, i32))
    ensures
        valid_date(r.0),
        -86400 < r.1 < 86400,
{
    let (secs, nanos, offset) = now_local();
    let nanosecond: u32 = if nanos >= 1_000_000_000 {
        999_999_999
    } else {
        nanos
    };
    let local = secs + offset as i64;
    if local >= 0 {
        if let Some(mut c) = civil_from_epoch(local) {
            c.nanosecond = nanosecond;
            return (c, offset);
        }
    }
    let epoch_day = CivilDateTime {
        year: 1970,
        month: 1,
        day: 1,
        hour: 0,
        minute: 0,
        second: 0,
        nanosecond,
    };
    (epoch_day, offset)
}

} // verus!
