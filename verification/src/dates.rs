//! Civil date-times and their correspondence with seconds since the Unix
//! epoch. Timestamps read from files are converted into this model, adjusted
//! for time zone offsets, and rendered into file names; the conversions in
//! both directions are exact against the specs below.

use vstd::prelude::*;

verus! {

/// A calendar date and wall-clock time, time-zone free.
#[derive(Clone, Copy, Debug, PartialEq, Eq, Structural)]
pub struct CivilDateTime {
    pub year: u32,
    pub month: u32,
    pub day: u32,
    pub hour: u32,
    pub minute: u32,
    pub second: u32,
    pub nanosecond: u32,
}

/// Whether a year has 366 days.
pub open spec fn is_leap_year(y: int) -> bool {
    (y % 4 == 0 && y % 100 != 0) || y % 400 == 0
}

/// Days in a year.
pub open spec fn days_in_year(y: int) -> int {
    if is_leap_year(y) {
        366
    } else {
        365
    }
}

/// Days that precede month `m` within year `y` (month 1 has none).
pub open spec fn days_before_month(y: int, m: int) -> int {
    let leap: int = if is_leap_year(y) {
        1
    } else {
        0
    };
    if m <= 1 {
        0
    } else if m == 2 {
        31
    } else if m == 3 {
        59 + leap
    } else if m == 4 {
        90 + leap
    } else if m == 5 {
        120 + leap
    } else if m == 6 {
        151 + leap
    } else if m == 7 {
        181 + leap
    } else if m == 8 {
        212 + leap
    } else if m == 9 {
        243 + leap
    } else if m == 10 {
        273 + leap
    } else if m == 11 {
        304 + leap
    } else if m == 12 {
        334 + leap
    } else {
        365 + leap
    }
}

/// Days in month `m` of year `y`.
pub open spec fn days_in_month(y: int, m: int) -> int {
    days_before_month(y, m + 1) - days_before_month(y, m)
}

/// Days between 1970-01-01 and the first day of year `y`.
pub open spec fn days_before_year(y: int) -> int
    decreases y,
{
    if y <= 1970 {
        0
    } else {
        days_before_year(y - 1) + days_in_year(y - 1)
    }
}

/// A date-time the calendar accepts, within the years this library renders.
pub open spec fn valid_date(c: CivilDateTime) -> bool {
    &&& 1970 <= c.year <= 9999
    &&& 1 <= c.month <= 12
    &&& 1 <= c.day <= days_in_month(c.year as int, c.month as int)
    &&& c.hour < 24
    &&& c.minute < 60
    &&& c.second < 60
    &&& c.nanosecond < 1_000_000_000
}

/// Days between 1970-01-01 and the date of `c`.
pub open spec fn day_number(c: CivilDateTime) -> int {
    days_before_year(c.year as int) + days_before_month(c.year as int, c.month as int) + c.day - 1
}

/// Seconds between the epoch and `c`, ignoring sub-second precision.
pub open spec fn epoch_secs(c: CivilDateTime) -> int {
    day_number(c) * 86400 + c.hour * 3600 + c.minute * 60 + c.second
}

/// Whether a civil time names a date the calendar accepts.
pub fn valid_date_check(c: &CivilDateTime) -> (r: bool)
    ensures
        r == valid_date(*c),
{
    if c.year < 1970 || c.year > 9999 || c.month < 1 || c.month > 12 || c.day < 1 || c.hour > 23
        || c.minute > 59 || c.second > 59 || c.nanosecond >= 1_000_000_000 {
        return false;
    }
    c.day <= month_len(c.year, c.month)
}

/// Whether a year has 366 days.
pub fn leap_year(y: u32) -> (r: bool)
    ensures
        r == is_leap_year(y as int),
{
    (y % 4 == 0 && y % 100 != 0) || y % 400 == 0
}

/// Days in month `m` of year `y`.
pub fn month_len(y: u32, m: u32) -> (r: u32)
    requires
        1 <= m <= 12,
    ensures
        r == days_in_month(y as int, m as int),
        1 <= r <= 31,
{
    if m == 2 {
        if leap_year(y) {
            29
        } else {
            28
        }
    } else if m == 4 || m == 6 || m == 9 || m == 11 {
        30
    } else {
        31
    }
}

/// Days before year `y`, counted from 1970; also bounded above, so that
/// callers can rule overflow out.
fn days_before_year_exec(y: u32) -> (r: u32)
    requires
        1970 <= y <= 10000,
    ensures
        r == days_before_year(y as int),
        r <= (y - 1970) * 366,
{
    let mut i: u32 = 1970;
    let mut acc: u32 = 0;
    while i < y
        invariant
            1970 <= i <= y <= 10000,
            acc == days_before_year(i as int),
            acc <= (i - 1970) * 366,
        decreases y - i,
    {
        if leap_year(i) {
            acc = acc + 366;
        } else {
            acc = acc + 365;
        }
        i = i + 1;
    }
    acc
}

/// Seconds between the epoch and `c`, ignoring sub-second precision.
pub fn epoch_seconds(c: &CivilDateTime) -> (r: i64)
    requires
        valid_date(*c),
    ensures
        r == epoch_secs(*c),
        0 <= r < 300_000_000_000,
{
    let days: u32 = days_before_year_exec(c.year) + month_offset(c.year, c.month) + (c.day - 1);
    days as i64 * 86400 + c.hour as i64 * 3600 + c.minute as i64 * 60 + c.second as i64
}

/// Days before month `m` within year `y`.
fn month_offset(y: u32, m: u32) -> (r: u32)
    requires
        1 <= m <= 13,
    ensures
        r == days_before_month(y as int, m as int),
        r <= 366,
{
    let leap: u32 = if leap_year(y) {
        1
    } else {
        0
    };
    match m {
        1 => 0,
        2 => 31,
        3 => 59 + leap,
        4 => 90 + leap,
        5 => 120 + leap,
        6 => 151 + leap,
        7 => 181 + leap,
        8 => 212 + leap,
        9 => 243 + leap,
        10 => 273 + leap,
        11 => 304 + leap,
        12 => 334 + leap,
        _ => 365 + leap,
    }
}

/// The civil date-time of a nonnegative epoch second count, when the year
/// stays within the calendar this library renders.
pub fn civil_from_epoch(secs: i64) -> (r: Option<CivilDateTime>)
    requires
        secs >= 0,
    ensures
        match r {
            Some(c) => valid_date(c) && c.nanosecond == 0 && epoch_secs(c) == secs
                && epoch_representable(secs as int) && c == spec_civil_of_epoch(secs as int),
            None => !epoch_representable(secs as int),
        },
{
    let day_count: i64 = secs / 86400;
    let rem: i64 = secs % 86400;
    assert(secs == day_count * 86400 + rem);
    let mut d: i64 = day_count;
    let mut y: u32 = 1970;
    let mut len: i64 = if leap_year(y) {
        366
    } else {
        365
    };
    while d >= len
        invariant
            1970 <= y <= 9999,
            len == days_in_year(y as int),
            0 <= d,
            days_before_year(y as int) + d == day_count,
            secs == day_count * 86400 + rem,
            0 <= rem < 86400,
            secs >= 0,
        decreases d,
    {
        if y == 9999 {
            proof {
                assert(days_before_year(10000) == days_before_year(9999) + days_in_year(9999));
                assert(day_count >= days_before_year(10000));
            }
            return None;
        }
        d = d - len;
        y = y + 1;
        len = if leap_year(y) {
            366
        } else {
            365
        };
    }
    let mut m: u32 = 1;
    let mut mlen: i64 = month_len(y, m) as i64;
    while d >= mlen
        invariant
            1 <= m <= 12,
            1970 <= y <= 9999,
            mlen == days_in_month(y as int, m as int),
            0 <= d,
            days_before_month(y as int, m as int) + d < days_in_year(y as int),
            days_before_year(y as int) + days_before_month(y as int, m as int) + d == day_count,
        decreases 12 - m,
    {
        d = d - mlen;
        m = m + 1;
        mlen = month_len(y, m) as i64;
    }
    let day: u32 = d as u32 + 1;
    let hour: u32 = (rem / 3600) as u32;
    let minute: u32 = (rem % 3600 / 60) as u32;
    let second: u32 = (rem % 60) as u32;
    let c = CivilDateTime { year: y, month: m, day, hour, minute, second, nanosecond: 0 };
    proof {
        assert(rem == (rem / 3600) * 3600 + (rem % 3600 / 60) * 60 + rem % 60);
        assert(epoch_secs(c) == secs);
        lemma_day_number_bounds(c);
        lemma_days_before_year_mono(c.year as int + 1, 10000);
        assert(day_number(c) < days_before_year(10000));
        assert(epoch_secs(c) < days_before_year(10000) * 86400);
        let w = spec_civil_of_epoch(secs as int);
        assert(valid_date(w) && w.nanosecond == 0 && epoch_secs(w) == secs);
        lemma_epoch_unique(c, w);
    }
    Some(c)
}

/// Whether an epoch second count falls inside the calendar this library
/// renders.
pub open spec fn epoch_representable(e: int) -> bool {
    0 <= e < days_before_year(10000) * 86400
}

/// The one whole-second civil time of an epoch second count.
pub open spec fn spec_civil_of_epoch(e: int) -> CivilDateTime {
    choose|c: CivilDateTime| valid_date(c) && c.nanosecond == 0 && epoch_secs(c) == e
}

/// The one civil time of an epoch second count with the given sub-second
/// part.
pub open spec fn spec_civil_at(e: int, ns: u32) -> CivilDateTime {
    choose|c: CivilDateTime| valid_date(c) && c.nanosecond == ns && epoch_secs(c) == e
}

/// Later years lie further from the epoch, by at least 365 days a year.
pub proof fn lemma_days_before_year_mono(y1: int, y2: int)
    requires
        1970 <= y1 <= y2,
    ensures
        days_before_year(y1) + 365 * (y2 - y1) <= days_before_year(y2),
    decreases y2 - y1,
{
    if y1 < y2 {
        lemma_days_before_year_mono(y1, y2 - 1);
    }
}

/// Earlier months lie earlier in the year.
proof fn lemma_days_before_month_mono(y: int, m1: int, m2: int)
    requires
        m1 <= m2,
    ensures
        days_before_month(y, m1) <= days_before_month(y, m2),
{
}

/// The day number of a valid date falls inside its year.
pub proof fn lemma_day_number_bounds(c: CivilDateTime)
    requires
        valid_date(c),
    ensures
        days_before_year(c.year as int) <= day_number(c) < days_before_year(c.year as int + 1),
{
    lemma_days_before_month_mono(c.year as int, c.month as int + 1, 13);
    assert(days_before_month(c.year as int, 13) == days_in_year(c.year as int));
    assert(days_before_year(c.year as int + 1) == days_before_year(c.year as int) + days_in_year(
        c.year as int,
    ));
}

/// Two valid civil times with the same epoch seconds and the same
/// sub-second part are the same time.
pub proof fn lemma_epoch_unique(c1: CivilDateTime, c2: CivilDateTime)
    requires
        valid_date(c1),
        valid_date(c2),
        epoch_secs(c1) == epoch_secs(c2),
        c1.nanosecond == c2.nanosecond,
    ensures
        c1 == c2,
{
    let d1 = day_number(c1);
    let d2 = day_number(c2);
    let t1 = c1.hour * 3600 + c1.minute * 60 + c1.second;
    let t2 = c2.hour * 3600 + c2.minute * 60 + c2.second;
    assert(0 <= t1 < 86400 && 0 <= t2 < 86400);
    assert(d1 * 86400 + t1 == d2 * 86400 + t2);
    assert(d1 == d2 && t1 == t2) by {
        assert((d1 - d2) * 86400 == t2 - t1) by (nonlinear_arith)
            requires
                d1 * 86400 + t1 == d2 * 86400 + t2,
        ;
        if d1 != d2 {
            assert((d1 - d2) * 86400 >= 86400 || (d1 - d2) * 86400 <= -86400) by (nonlinear_arith)
                requires
                    d1 != d2,
            ;
        }
    }
    lemma_day_number_bounds(c1);
    lemma_day_number_bounds(c2);
    if c1.year < c2.year {
        lemma_days_before_year_mono(c1.year as int + 1, c2.year as int);
        assert(false);
    }
    if c2.year < c1.year {
        lemma_days_before_year_mono(c2.year as int + 1, c1.year as int);
        assert(false);
    }
    let y = c1.year as int;
    if c1.month < c2.month {
        lemma_days_before_month_mono(y, c1.month as int + 1, c2.month as int);
        assert(false);
    }
    if c2.month < c1.month {
        lemma_days_before_month_mono(y, c2.month as int + 1, c1.month as int);
        assert(false);
    }
    assert(c1.day == c2.day);
    assert(c1.hour == c2.hour && c1.minute == c2.minute && c1.second == c2.second) by {
        assert(c1.hour == t1 / 3600 && c2.hour == t2 / 3600);
        assert(c1.minute == t1 % 3600 / 60 && c2.minute == t2 % 3600 / 60);
        assert(c1.second == t1 % 60 && c2.second == t2 % 60);
    }
}

/// Converting a whole-second civil time to epoch seconds and back yields
/// the same time: the two representations carry the same information.
pub proof fn lemma_civil_epoch_round_trip(c: CivilDateTime)
    requires
        valid_date(c),
        c.nanosecond == 0,
    ensures
        epoch_representable(epoch_secs(c)),
        spec_civil_of_epoch(epoch_secs(c)) == c,
{
    lemma_day_number_bounds(c);
    lemma_days_before_year_mono(1970, c.year as int);
    lemma_days_before_year_mono(c.year as int + 1, 10000);
    let w = spec_civil_of_epoch(epoch_secs(c));
    assert(valid_date(w) && w.nanosecond == 0 && epoch_secs(w) == epoch_secs(c));
    lemma_epoch_unique(w, c);
}

/// Shifts a civil time by a whole-second offset, staying in the calendar;
/// `None` when the shifted time falls outside it.
pub fn shift_civil(c: &CivilDateTime, offset: i64) -> (r: Option<CivilDateTime>)
    requires
        valid_date(*c),
        -400_000_000_000 <= offset <= 400_000_000_000,
    ensures
        match r {
            Some(s) => valid_date(s) && s.nanosecond == c.nanosecond && epoch_secs(s) == epoch_secs(
                *c,
            ) + offset && epoch_representable(epoch_secs(*c) + offset) && (c.nanosecond == 0
                ==> s == spec_civil_of_epoch(epoch_secs(*c) + offset)),
            None => !epoch_representable(epoch_secs(*c) + offset),
        },
{
    let base = epoch_seconds(c);
    let shifted = base + offset;
    if shifted < 0 {
        return None;
    }
    match civil_from_epoch(shifted) {
        Some(mut s) => {
            s.nanosecond = c.nanosecond;
            Some(s)
        },
        None => None,
    }
}

} // verus!
