//! Resolves the capture timestamp of a photo through the fallback chain:
//! the EXIF date (with a time-zone heuristic), a date embedded in the file
//! name, the file's creation time, and finally the current wall clock.
//! The result of every stage is stated exactly, so the chain's ordering
//! and its independence from the wall clock are proved, not assumed.

use vstd::prelude::*;

use crate::dates::CivilDateTime;
use crate::dates::epoch_representable;
use crate::dates::epoch_secs;
use crate::dates::month_len;
use crate::dates::shift_civil;
use crate::dates::civil_from_epoch;
use crate::dates::spec_civil_of_epoch;
use crate::dates::valid_date;
use crate::digits::digits_are;
use crate::digits::digits_value;
use crate::digits::lemma_digits_value_bound;
use crate::digits::parse_digits;
use crate::digits::pow10;
use crate::exifdata::exif_datetime_of;
use crate::exifdata::exif_offset_of;
use crate::exifdata::read_exif_datetime;
use crate::exifdata::read_exif_offset;

verus! {

/// Which fallback stage produced a resolved timestamp.
#[derive(Debug, Clone, Copy, PartialEq, Eq, Structural)]
pub enum DateSource {
    /// The EXIF DateTimeOriginal field.
    Exif,
    /// A date embedded in the file name.
    Filename,
    /// The file system's creation time.
    CreationTime,
    /// The wall clock at resolution time.
    CurrentTime,
}

/// Whether a character counts as trimmable whitespace.
pub open spec fn is_space(c: char) -> bool {
    c == ' ' || c == '\t' || c == '\n' || c == '\r'
}

/// How many whitespace characters open the sequence.
pub open spec fn leading_spaces(s: Seq<char>) -> int
    decreases s.len(),
{
    if s.len() == 0 {
        0
    } else if !is_space(s[0]) {
        0
    } else {
        1 + leading_spaces(s.drop_first())
    }
}

/// How many whitespace characters close the sequence.
pub open spec fn trailing_spaces(s: Seq<char>) -> int
    decreases s.len(),
{
    if s.len() == 0 {
        0
    } else if !is_space(s.last()) {
        0
    } else {
        1 + trailing_spaces(s.drop_last())
    }
}

/// The sequence without its surrounding whitespace.
pub open spec fn spec_trim(s: Seq<char>) -> Seq<char> {
    let a = leading_spaces(s);
    if a == s.len() {
        Seq::empty()
    } else {
        s.subrange(a, s.len() - trailing_spaces(s))
    }
}

/// Leading whitespace is the longest all-space prefix.
proof fn lemma_leading_spaces_at(s: Seq<char>, a: int)
    requires
        0 <= a <= s.len(),
        forall|j: int| 0 <= j < a ==> is_space(#[trigger] s[j]),
        a < s.len() ==> !is_space(s[a]),
    ensures
        leading_spaces(s) == a,
    decreases s.len(),
{
    if s.len() > 0 && is_space(s[0]) {
        let t = s.drop_first();
        assert(forall|j: int| 0 <= j < t.len() ==> t[j] == s[j + 1]);
        lemma_leading_spaces_at(t, a - 1);
    }
}

/// Trailing whitespace is the longest all-space suffix.
proof fn lemma_trailing_spaces_at(s: Seq<char>, b: int)
    requires
        0 <= b <= s.len(),
        forall|j: int| b <= j < s.len() ==> is_space(#[trigger] s[j]),
        b > 0 ==> !is_space(s[b - 1]),
    ensures
        trailing_spaces(s) == s.len() - b,
    decreases s.len(),
{
    if s.len() > 0 && is_space(s.last()) {
        let t = s.drop_last();
        assert(forall|j: int| 0 <= j < t.len() ==> t[j] == s[j]);
        lemma_trailing_spaces_at(t, b);
    }
}

/// The string without its surrounding whitespace.
pub fn trim_str(s: &str) -> (r: String)
    ensures
        r@ == spec_trim(s@),
{
    let n = s.unicode_len();
    let mut a: usize = 0;
    while a < n && is_space_char(s.get_char(a))
        invariant
            n == s@.len(),
            a <= n,
            forall|j: int| 0 <= j < a ==> is_space(#[trigger] s@[j]),
        decreases n - a,
    {
        a = a + 1;
    }
    proof {
        lemma_leading_spaces_at(s@, a as int);
    }
    if a == n {
        let r = String::new();
        proof {
            assert(r@ =~= spec_trim(s@));
        }
        return r;
    }
    let mut b: usize = n;
    while b > a && is_space_char(s.get_char(b - 1))
        invariant
            n == s@.len(),
            a <= b <= n,
            a < n,
            !is_space(s@[a as int]),
            forall|j: int| b <= j < n ==> is_space(#[trigger] s@[j]),
        decreases b,
    {
        b = b - 1;
    }
    proof {
        assert(b > a);
        assert(!is_space(s@[b - 1]));
        lemma_trailing_spaces_at(s@, b as int);
    }
    let r = s.substring_char(a, b).to_owned();
    proof {
        assert(r@ =~= spec_trim(s@));
    }
    r
}

/// Whether a character counts as trimmable whitespace.
fn is_space_char(c: char) -> (r: bool)
    ensures
        r == is_space(c),
{
    c == ' ' || c == '\t' || c == '\n' || c == '\r'
}

/// Whether a trimmed text has the shape `YYYY:MM:DD HH:MM:SS`.
pub open spec fn exif_dt_shape(t: Seq<char>) -> bool {
    &&& t.len() == 19
    &&& digits_are(t, 0, 4)
    &&& t[4] == ':'
    &&& digits_are(t, 5, 2)
    &&& t[7] == ':'
    &&& digits_are(t, 8, 2)
    &&& t[10] == ' '
    &&& digits_are(t, 11, 2)
    &&& t[13] == ':'
    &&& digits_are(t, 14, 2)
    &&& t[16] == ':'
    &&& digits_are(t, 17, 2)
}

/// The civil time a shaped EXIF text denotes.
pub open spec fn exif_dt_civil(t: Seq<char>) -> CivilDateTime {
    CivilDateTime {
        year: digits_value(t, 0, 4) as u32,
        month: digits_value(t, 5, 2) as u32,
        day: digits_value(t, 8, 2) as u32,
        hour: digits_value(t, 11, 2) as u32,
        minute: digits_value(t, 14, 2) as u32,
        second: digits_value(t, 17, 2) as u32,
        nanosecond: 0,
    }
}

/// The civil time an EXIF date text parses to: trimmed, shaped as
/// `YYYY:MM:DD HH:MM:SS`, and naming a date the calendar accepts.
pub open spec fn spec_parse_exif_dt(s: Seq<char>) -> Option<CivilDateTime> {
    let t = spec_trim(s);
    if exif_dt_shape(t) && valid_date(exif_dt_civil(t)) {
        Some(exif_dt_civil(t))
    } else {
        None
    }
}

/// Parses an EXIF `YYYY:MM:DD HH:MM:SS` date text.
pub fn parse_exif_datetime(s: &str) -> (r: Option<CivilDateTime>)
    ensures
        r == spec_parse_exif_dt(s@),
        r is Some ==> valid_date(r->0) && r->0.nanosecond == 0,
{
    let t = trim_str(s);
    let ts = t.as_str();
    let n = ts.unicode_len();
    if n != 19 {
        return None;
    }
    if !(ts.get_char(4) == ':' && ts.get_char(7) == ':' && ts.get_char(10) == ' ' && ts.get_char(
        13,
    ) == ':' && ts.get_char(16) == ':') {
        return None;
    }
    let year = match parse_digits(ts, 0, 4) {
        Some(v) => v,
        None => return None,
    };
    let month = match parse_digits(ts, 5, 2) {
        Some(v) => v,
        None => return None,
    };
    let day = match parse_digits(ts, 8, 2) {
        Some(v) => v,
        None => return None,
    };
    let hour = match parse_digits(ts, 11, 2) {
        Some(v) => v,
        None => return None,
    };
    let minute = match parse_digits(ts, 14, 2) {
        Some(v) => v,
        None => return None,
    };
    let second = match parse_digits(ts, 17, 2) {
        Some(v) => v,
        None => return None,
    };
    proof {
        lemma_digits_value_bound(t@, 0, 4);
        lemma_digits_value_bound(t@, 5, 2);
        lemma_digits_value_bound(t@, 8, 2);
        lemma_digits_value_bound(t@, 11, 2);
        lemma_digits_value_bound(t@, 14, 2);
        lemma_digits_value_bound(t@, 17, 2);
        reveal_with_fuel(pow10, 5);
    }
    let c = CivilDateTime { year, month, day, hour, minute, second, nanosecond: 0 };
    if year < 1970 || month < 1 || month > 12 || day < 1 || hour > 23 || minute > 59 || second > 59
    {
        return None;
    }
    if day > month_len(year, month) {
        return None;
    }
    Some(c)
}

/// The offset seconds a trimmed `+HH:MM` / `-HH:MM` text denotes, when it
/// is shaped so and in range.
pub open spec fn spec_parse_offset(s: Seq<char>) -> Option<int> {
    let t = spec_trim(s);
    if t.len() == 6 && (t[0] == '+' || t[0] == '-') && digits_are(t, 1, 2) && t[3] == ':'
        && digits_are(t, 4, 2) && digits_value(t, 1, 2) <= 23 && digits_value(t, 4, 2) <= 59 {
        if t[0] == '-' {
            Some(-(digits_value(t, 1, 2) * 3600 + digits_value(t, 4, 2) * 60))
        } else {
            Some(digits_value(t, 1, 2) * 3600 + digits_value(t, 4, 2) * 60)
        }
    } else {
        None
    }
}

/// Parses a `+HH:MM` / `-HH:MM` time-zone offset into seconds.
pub fn parse_offset(s: &str) -> (r: Option<i32>)
    ensures
        match r {
            Some(v) => spec_parse_offset(s@) == Some(v as int),
            None => spec_parse_offset(s@) is None,
        },
{
    let t = trim_str(s);
    let ts = t.as_str();
    let n = ts.unicode_len();
    if n != 6 {
        return None;
    }
    let sign = ts.get_char(0);
    if !(sign == '+' || sign == '-') {
        return None;
    }
    if ts.get_char(3) != ':' {
        return None;
    }
    let hh = match parse_digits(ts, 1, 2) {
        Some(v) => v,
        None => return None,
    };
    let mm = match parse_digits(ts, 4, 2) {
        Some(v) => v,
        None => return None,
    };
    if hh > 23 || mm > 59 {
        return None;
    }
    let secs = (hh * 3600 + mm * 60) as i32;
    if sign == '-' {
        Some(0 - secs)
    } else {
        Some(secs)
    }
}

/// The offset the EXIF heuristic settles on: a stored offset text when it
/// parses (else nine hours); otherwise, with a file-modified time at hand,
/// nine hours when the gap to the stored time is within an hour of nine
/// hours and zero when not; nine hours with nothing at hand.
pub open spec fn spec_exif_offset(off: Option<Seq<char>>, mtime: Option<i64>, e: int) -> int {
    match off {
        Some(o) => match spec_parse_offset(o) {
            Some(v) => v,
            None => 32400,
        },
        None => match mtime {
            Some(m) => {
                let diff = m - e - 32400;
                if -3600 < diff < 3600 {
                    32400
                } else {
                    0
                }
            },
            None => 32400,
        },
    }
}

/// The local civil time the EXIF data of an image resolves to: the stored
/// date, shifted by the offset the heuristic settles on; `None` when no
/// stored date parses or the shifted time leaves the calendar.
pub open spec fn spec_date_from_exif(
    dt: Option<Seq<char>>,
    off: Option<Seq<char>>,
    mtime: Option<i64>,
) -> Option<CivilDateTime> {
    match dt {
        None => None,
        Some(ds) => match spec_parse_exif_dt(ds) {
            None => None,
            Some(c) => {
                let e2 = epoch_secs(c) + spec_exif_offset(off, mtime, epoch_secs(c));
                if epoch_representable(e2) {
                    Some(spec_civil_of_epoch(e2))
                } else {
                    None
                }
            },
        },
    }
}

/// Resolves the local capture time from an image's bytes and its
/// file-modified time.
#[verifier::rlimit(60)]
pub fn date_from_exif(bytes: &Vec<u8>, mtime: Option<i64>) -> (r: Option<CivilDateTime>)
    requires
        mtime is Some ==> -1_000_000_000_000 <= mtime->0 <= 1_000_000_000_000,
    ensures
        r == spec_date_from_exif(exif_datetime_of(bytes@), exif_offset_of(bytes@), mtime),
        r is Some ==> valid_date(r->0) && r->0.nanosecond == 0,
{
    let ds = match read_exif_datetime(bytes) {
        Some(d) => d,
        None => return None,
    };
    let c = match parse_exif_datetime(ds.as_str()) {
        Some(c) => c,
        None => return None,
    };
    let ghost dtv = exif_datetime_of(bytes@);
    let ghost offv = exif_offset_of(bytes@);
    let e = crate::dates::epoch_seconds(&c);
    let off: i32 = match read_exif_offset(bytes) {
        Some(o) => match parse_offset(o.as_str()) {
            Some(v) => v,
            None => 32400,
        },
        None => match mtime {
            Some(m) => {
                let diff = m - e - 32400;
                if -3600 < diff && diff < 3600 {
                    32400
                } else {
                    0
                }
            },
            None => 32400,
        },
    };
    proof {
        assert(off as int == spec_exif_offset(offv, mtime, epoch_secs(c)));
    }
    let res = shift_civil(&c, off as i64);
    proof {
        let e2 = epoch_secs(c) + spec_exif_offset(offv, mtime, epoch_secs(c));
        match res {
            Some(s) => {
                assert(s == spec_civil_of_epoch(e2));
                assert(epoch_representable(e2));
            },
            None => {
                assert(!epoch_representable(e2));
            },
        }
        assert(res == spec_date_from_exif(dtv, offv, mtime));
    }
    res
}

/// Whether position `p` of `s` opens a `YYYYMMDD_HHMMSS` match.
pub open spec fn m1_at(s: Seq<char>, p: int) -> bool {
    &&& p + 15 <= s.len()
    &&& digits_are(s, p, 8)
    &&& s[p + 8] == '_'
    &&& digits_are(s, p + 9, 6)
}

/// Whether position `p` of `s` opens a `YYYY-MM-DD_HH-MM-SS` match.
pub open spec fn m2_at(s: Seq<char>, p: int) -> bool {
    &&& p + 19 <= s.len()
    &&& digits_are(s, p, 4)
    &&& s[p + 4] == '-'
    &&& digits_are(s, p + 5, 2)
    &&& s[p + 7] == '-'
    &&& digits_are(s, p + 8, 2)
    &&& s[p + 10] == '_'
    &&& digits_are(s, p + 11, 2)
    &&& s[p + 13] == '-'
    &&& digits_are(s, p + 14, 2)
    &&& s[p + 16] == '-'
    &&& digits_are(s, p + 17, 2)
}

/// Whether position `p` of `s` opens a `YYYYMMDD-HHMMSS` match.
pub open spec fn m3_at(s: Seq<char>, p: int) -> bool {
    &&& p + 15 <= s.len()
    &&& digits_are(s, p, 8)
    &&& s[p + 8] == '-'
    &&& digits_are(s, p + 9, 6)
}

/// The civil time of a compact match at `p` (shared by the `_` and `-`
/// separated shapes).
pub open spec fn m1_civil(s: Seq<char>, p: int) -> CivilDateTime {
    CivilDateTime {
        year: digits_value(s, p, 4) as u32,
        month: digits_value(s, p + 4, 2) as u32,
        day: digits_value(s, p + 6, 2) as u32,
        hour: digits_value(s, p + 9, 2) as u32,
        minute: digits_value(s, p + 11, 2) as u32,
        second: digits_value(s, p + 13, 2) as u32,
        nanosecond: 0,
    }
}

/// The civil time of a dashed match at `p`.
pub open spec fn m2_civil(s: Seq<char>, p: int) -> CivilDateTime {
    CivilDateTime {
        year: digits_value(s, p, 4) as u32,
        month: digits_value(s, p + 5, 2) as u32,
        day: digits_value(s, p + 8, 2) as u32,
        hour: digits_value(s, p + 11, 2) as u32,
        minute: digits_value(s, p + 14, 2) as u32,
        second: digits_value(s, p + 17, 2) as u32,
        nanosecond: 0,
    }
}

/// The leftmost `YYYYMMDD_HHMMSS` match at or after `p`, or -1.
pub open spec fn first_m1(s: Seq<char>, p: int) -> int
    decreases s.len() - p,
{
    if p < 0 || p + 15 > s.len() {
        -1
    } else if m1_at(s, p) {
        p
    } else {
        first_m1(s, p + 1)
    }
}

/// The leftmost `YYYY-MM-DD_HH-MM-SS` match at or after `p`, or -1.
pub open spec fn first_m2(s: Seq<char>, p: int) -> int
    decreases s.len() - p,
{
    if p < 0 || p + 19 > s.len() {
        -1
    } else if m2_at(s, p) {
        p
    } else {
        first_m2(s, p + 1)
    }
}

/// The leftmost `YYYYMMDD-HHMMSS` match at or after `p`, or -1.
pub open spec fn first_m3(s: Seq<char>, p: int) -> int
    decreases s.len() - p,
{
    if p < 0 || p + 15 > s.len() {
        -1
    } else if m3_at(s, p) {
        p
    } else {
        first_m3(s, p + 1)
    }
}

/// The date a file name embeds: the patterns are tried in a fixed order,
/// each on its leftmost match; a match naming an impossible date falls
/// through to the next pattern.
pub open spec fn spec_filename_date(s: Seq<char>) -> Option<CivilDateTime> {
    let p1 = first_m1(s, 0);
    let p2 = first_m2(s, 0);
    let p3 = first_m3(s, 0);
    if p1 != -1 && valid_date(m1_civil(s, p1)) {
        Some(m1_civil(s, p1))
    } else if p2 != -1 && valid_date(m2_civil(s, p2)) {
        Some(m2_civil(s, p2))
    } else if p3 != -1 && valid_date(m1_civil(s, p3)) {
        Some(m1_civil(s, p3))
    } else {
        None
    }
}

/// Whether the compact shape (with separator `sep`) matches at `p`, with
/// its civil value when it does.
fn compact_match_at(s: &str, n: usize, p: usize, sep: char) -> (r: Option<CivilDateTime>)
    requires
        n == s@.len(),
        p + 15 <= n,
        n < usize::MAX - 20,
    ensures
        (sep == '_' && r is Some) ==> m1_at(s@, p as int) && r->0 == m1_civil(s@, p as int),
        (sep == '_' && r is None) ==> !m1_at(s@, p as int),
        (sep == '-' && r is Some) ==> m3_at(s@, p as int) && r->0 == m1_civil(s@, p as int),
        (sep == '-' && r is None) ==> !m3_at(s@, p as int),
{
    if s.get_char(p + 8) != sep {
        return None;
    }
    let year = match parse_digits(s, p, 4) {
        Some(v) => v,
        None => return None,
    };
    let month = match parse_digits(s, p + 4, 2) {
        Some(v) => v,
        None => return None,
    };
    let day = match parse_digits(s, p + 6, 2) {
        Some(v) => v,
        None => return None,
    };
    let hour = match parse_digits(s, p + 9, 2) {
        Some(v) => v,
        None => return None,
    };
    let minute = match parse_digits(s, p + 11, 2) {
        Some(v) => v,
        None => return None,
    };
    let second = match parse_digits(s, p + 13, 2) {
        Some(v) => v,
        None => return None,
    };
    proof {
        assert(digits_are(s@, p as int, 8));
        assert(digits_are(s@, p as int + 9, 6));
    }
    Some(CivilDateTime { year, month, day, hour, minute, second, nanosecond: 0 })
}

/// Whether the dashed shape matches at `p`, with its civil value.
fn dashed_match_at(s: &str, n: usize, p: usize) -> (r: Option<CivilDateTime>)
    requires
        n == s@.len(),
        p + 19 <= n,
        n < usize::MAX - 20,
    ensures
        r is Some ==> m2_at(s@, p as int) && r->0 == m2_civil(s@, p as int),
        r is None ==> !m2_at(s@, p as int),
{
    if !(s.get_char(p + 4) == '-' && s.get_char(p + 7) == '-' && s.get_char(p + 10) == '_'
        && s.get_char(p + 13) == '-' && s.get_char(p + 16) == '-') {
        return None;
    }
    let year = match parse_digits(s, p, 4) {
        Some(v) => v,
        None => return None,
    };
    let month = match parse_digits(s, p + 5, 2) {
        Some(v) => v,
        None => return None,
    };
    let day = match parse_digits(s, p + 8, 2) {
        Some(v) => v,
        None => return None,
    };
    let hour = match parse_digits(s, p + 11, 2) {
        Some(v) => v,
        None => return None,
    };
    let minute = match parse_digits(s, p + 14, 2) {
        Some(v) => v,
        None => return None,
    };
    let second = match parse_digits(s, p + 17, 2) {
        Some(v) => v,
        None => return None,
    };
    Some(CivilDateTime { year, month, day, hour, minute, second, nanosecond: 0 })
}

/// The leftmost compact match (`sep` as separator) of the whole string,
/// with its civil value.
fn scan_compact(s: &str, sep: char) -> (r: Option<(usize, CivilDateTime)>)
    requires
        s@.len() < usize::MAX - 20,
    ensures
        sep == '_' ==> match r {
            Some((p, c)) => first_m1(s@, 0) == p && c == m1_civil(s@, p as int),
            None => first_m1(s@, 0) == -1,
        },
        sep == '-' ==> match r {
            Some((p, c)) => first_m3(s@, 0) == p && c == m1_civil(s@, p as int),
            None => first_m3(s@, 0) == -1,
        },
{
    let n = s.unicode_len();
    let mut p: usize = 0;
    if n < 15 {
        return None;
    }
    while p + 15 <= n
        invariant
            n == s@.len(),
            n < usize::MAX - 20,
            p <= n,
            sep == '_' ==> first_m1(s@, 0) == first_m1(s@, p as int),
            sep == '-' ==> first_m3(s@, 0) == first_m3(s@, p as int),
        decreases n - p,
    {
        match compact_match_at(s, n, p, sep) {
            Some(c) => {
                return Some((p, c));
            },
            None => {},
        }
        p = p + 1;
    }
    None
}

/// The leftmost dashed match of the whole string, with its civil value.
fn scan_dashed(s: &str) -> (r: Option<(usize, CivilDateTime)>)
    requires
        s@.len() < usize::MAX - 20,
    ensures
        match r {
            Some((p, c)) => first_m2(s@, 0) == p && c == m2_civil(s@, p as int),
            None => first_m2(s@, 0) == -1,
        },
{
    let n = s.unicode_len();
    let mut p: usize = 0;
    if n < 19 {
        return None;
    }
    while p + 19 <= n
        invariant
            n == s@.len(),
            n < usize::MAX - 20,
            p <= n,
            first_m2(s@, 0) == first_m2(s@, p as int),
        decreases n - p,
    {
        match dashed_match_at(s, n, p) {
            Some(c) => {
                return Some((p, c));
            },
            None => {},
        }
        p = p + 1;
    }
    None
}

/// Whether a civil time names a date the calendar accepts.
fn check_valid(c: &CivilDateTime) -> (r: bool)
    ensures
        r == valid_date(*c),
{
    if c.year < 1970 || c.year > 9999 || c.month < 1 || c.month > 12 || c.day < 1 || c.hour > 23
        || c.minute > 59 || c.second > 59 || c.nanosecond >= 1_000_000_000 {
        return false;
    }
    c.day <= month_len(c.year, c.month)
}

/// The date the file name embeds, by the fixed pattern order.
pub fn date_from_filename(name: &str) -> (r: Option<CivilDateTime>)
    requires
        name@.len() < usize::MAX - 20,
    ensures
        r == spec_filename_date(name@),
        r is Some ==> valid_date(r->0) && r->0.nanosecond == 0,
{
    match scan_compact(name, '_') {
        Some((_, c)) => {
            if check_valid(&c) {
                return Some(c);
            }
        },
        None => {},
    }
    match scan_dashed(name) {
        Some((_, c)) => {
            if check_valid(&c) {
                return Some(c);
            }
        },
        None => {},
    }
    match scan_compact(name, '-') {
        Some((_, c)) => {
            if check_valid(&c) {
                return Some(c);
            }
        },
        None => {},
    }
    None
}

/// The creation-time fallback: the file's creation stamp, read in the
/// caller's time zone, when it lies inside the calendar.
pub open spec fn spec_creation_date(created: Option<i64>, tz: int) -> Option<CivilDateTime> {
    match created {
        Some(e) => {
            if epoch_representable(e + tz) {
                Some(spec_civil_of_epoch(e + tz))
            } else {
                None
            }
        },
        None => None,
    }
}

/// What the whole fallback chain resolves to: the EXIF date first, then a
/// file-name date, then the creation time, and the wall clock last.
pub open spec fn spec_resolve(
    dt: Option<Seq<char>>,
    off: Option<Seq<char>>,
    name: Seq<char>,
    mtime: Option<i64>,
    created: Option<i64>,
    tz: int,
    now: CivilDateTime,
) -> (CivilDateTime, DateSource) {
    match spec_date_from_exif(dt, off, mtime) {
        Some(c) => (c, DateSource::Exif),
        None => match spec_filename_date(name) {
            Some(c) => (c, DateSource::Filename),
            None => match spec_creation_date(created, tz) {
                Some(c) => (c, DateSource::CreationTime),
                None => (now, DateSource::CurrentTime),
            },
        },
    }
}

/// Resolves capture timestamps for photos.
pub struct PhotoDate {
}

impl PhotoDate {
    /// A resolver.
    pub fn new() -> (r: PhotoDate) {
        PhotoDate {  }
    }

    /// Resolves the capture timestamp of a photo from its bytes, its name
    /// and its file times, falling back to the given wall-clock time.
    pub fn get_photo_date(
        &self,
        exif_bytes: Option<&Vec<u8>>,
        name: &str,
        mtime: Option<i64>,
        created: Option<i64>,
        tz_offset_secs: i32,
        now: &CivilDateTime,
    ) -> (r: (CivilDateTime, DateSource))
        requires
            valid_date(*now),
            mtime is Some ==> -1_000_000_000_000 <= mtime->0 <= 1_000_000_000_000,
            created is Some ==> -1_000_000_000_000 <= created->0 <= 1_000_000_000_000,
            name@.len() < usize::MAX - 20,
        ensures
            r == spec_resolve(
                match exif_bytes {
                    Some(b) => exif_datetime_of(b@),
                    None => None,
                },
                match exif_bytes {
                    Some(b) => exif_offset_of(b@),
                    None => None,
                },
                name@,
                mtime,
                created,
                tz_offset_secs as int,
                *now,
            ),
            valid_date(r.0),
    {
        if let Some(bytes) = exif_bytes {
            if let Some(c) = date_from_exif(bytes, mtime) {
                return (c, DateSource::Exif);
            }
        }
        if let Some(c) = date_from_filename(name) {
            return (c, DateSource::Filename);
        }
        if let Some(e) = created {
            let shifted = e + tz_offset_secs as i64;
            if shifted >= 0 {
                if let Some(c) = civil_from_epoch(shifted) {
                    return (c, DateSource::CreationTime);
                }
            }
        }
        (*now, DateSource::CurrentTime)
    }
}

/// Resolution is a function of the file's bytes, name and stored times
/// alone, wherever any stored source answers: only the last-resort wall
/// clock can differ between two runs over an unmodified file.
pub proof fn lemma_resolution_idempotent(
    dt: Option<Seq<char>>,
    off: Option<Seq<char>>,
    name: Seq<char>,
    mtime: Option<i64>,
    created: Option<i64>,
    tz: int,
    now1: CivilDateTime,
    now2: CivilDateTime,
)
    ensures
        ({
            let r1 = spec_resolve(dt, off, name, mtime, created, tz, now1);
            let r2 = spec_resolve(dt, off, name, mtime, created, tz, now2);
            &&& r1.1 == r2.1
            &&& (r1.1 != DateSource::CurrentTime ==> r1 == r2)
        }),
{
}

/// Fallback ordering: whenever the EXIF data yields a date, that date wins,
/// whatever the file name embeds.
pub proof fn lemma_exif_wins(
    dt: Option<Seq<char>>,
    off: Option<Seq<char>>,
    name: Seq<char>,
    mtime: Option<i64>,
    created: Option<i64>,
    tz: int,
    now: CivilDateTime,
)
    requires
        spec_date_from_exif(dt, off, mtime) is Some,
    ensures
        spec_resolve(dt, off, name, mtime, created, tz, now) == (
            spec_date_from_exif(dt, off, mtime)->0,
            DateSource::Exif,
        ),
{
}

} // verus!
