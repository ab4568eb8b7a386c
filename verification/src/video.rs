//! Resolves the capture timestamp of a video from its container metadata:
//! a fixed list of metadata keys is probed in order, each value is tried
//! against a fixed list of date shapes, and the stored time is shifted by
//! the configured time-zone offset. Reading the container happens outside
//! the library; the probing, parsing and shifting are verified here.

use vstd::prelude::*;

use crate::dates::CivilDateTime;
use crate::dates::epoch_representable;
use crate::dates::epoch_secs;
use crate::dates::lemma_epoch_unique;
use crate::dates::month_len;
use crate::dates::shift_civil;
use crate::dates::civil_from_epoch;
use crate::dates::spec_civil_at;
use crate::dates::valid_date;
use crate::digits::digits_are;
use crate::digits::digits_value;
use crate::digits::lemma_digits_value_bound;
use crate::digits::parse_digits;
use crate::digits::pow10;
use crate::logic::lemma_meta_idx_first;
use crate::logic::lemma_meta_idx_of;
use crate::logic::meta_idx_of;
use crate::photo_date::spec_trim;
use crate::photo_date::trim_str;

verus! {

/// Whether a trimmed text has a video date shape: a date with separator
/// `dsep`, a divider `mid`, and a time; exactly 19 characters.
pub open spec fn video_shape(t: Seq<char>, dsep: char, mid: char) -> bool {
    &&& t.len() == 19
    &&& digits_are(t, 0, 4)
    &&& t[4] == dsep
    &&& digits_are(t, 5, 2)
    &&& t[7] == dsep
    &&& digits_are(t, 8, 2)
    &&& t[10] == mid
    &&& digits_are(t, 11, 2)
    &&& t[13] == ':'
    &&& digits_are(t, 14, 2)
    &&& t[16] == ':'
    &&& digits_are(t, 17, 2)
}

/// Whether a trimmed text has a video date shape followed by `.` and one
/// to nine fraction digits.
pub open spec fn video_shape_frac(t: Seq<char>, dsep: char, mid: char) -> bool {
    &&& 21 <= t.len() <= 28
    &&& video_shape(t.subrange(0, 19), dsep, mid)
    &&& t[19] == '.'
    &&& digits_are(t, 20, t.len() - 20)
}

/// The nanoseconds a fraction of `len` digits with value `v` denotes.
pub open spec fn frac_nanos(v: int, len: int) -> int {
    v * pow10(9 - len)
}

/// The civil time a shaped video text denotes, with the given nanoseconds.
pub open spec fn video_civil(t: Seq<char>, ns: int) -> CivilDateTime {
    CivilDateTime {
        year: digits_value(t, 0, 4) as u32,
        month: digits_value(t, 5, 2) as u32,
        day: digits_value(t, 8, 2) as u32,
        hour: digits_value(t, 11, 2) as u32,
        minute: digits_value(t, 14, 2) as u32,
        second: digits_value(t, 17, 2) as u32,
        nanosecond: ns as u32,
    }
}

/// The civil time a metadata date text parses to, trying the shapes in the
/// fixed order: dashed date with a space, dashed with `T`, dashed with `T`
/// and a fraction, colon date with a space, colon with a space and a
/// fraction. A shape naming an impossible date falls through.
pub open spec fn spec_parse_video_dt(s: Seq<char>) -> Option<CivilDateTime> {
    let t = spec_trim(s);
    let f = frac_nanos(digits_value(t, 20, t.len() - 20), t.len() - 20);
    if video_shape(t, '-', ' ') && valid_date(video_civil(t, 0)) {
        Some(video_civil(t, 0))
    } else if video_shape(t, '-', 'T') && valid_date(video_civil(t, 0)) {
        Some(video_civil(t, 0))
    } else if video_shape_frac(t, '-', 'T') && valid_date(video_civil(t.subrange(0, 19), f)) {
        Some(video_civil(t.subrange(0, 19), f))
    } else if video_shape(t, ':', ' ') && valid_date(video_civil(t, 0)) {
        Some(video_civil(t, 0))
    } else if video_shape_frac(t, ':', ' ') && valid_date(video_civil(t.subrange(0, 19), f)) {
        Some(video_civil(t.subrange(0, 19), f))
    } else {
        None
    }
}

/// Reads the six digit runs of a 19-character shaped prefix.
fn read_fields(ts: &str, dsep: char, mid: char) -> (r: Option<CivilDateTime>)
    requires
        19 <= ts@.len() < usize::MAX - 20,
    ensures
        match r {
            Some(c) => video_shape(ts@.subrange(0, 19), dsep, mid) && c == video_civil(
                ts@.subrange(0, 19),
                0,
            ) && valid_date(c),
            None => !(video_shape(ts@.subrange(0, 19), dsep, mid) && valid_date(
                video_civil(ts@.subrange(0, 19), 0),
            )),
        },
{
    let ghost t = ts@.subrange(0, 19);
    proof {
        assert(forall|i: int| 0 <= i < 19 ==> t[i] == ts@[i]);
        lemma_digits_values_agree(ts@, t, 0, 4);
        lemma_digits_values_agree(ts@, t, 5, 2);
        lemma_digits_values_agree(ts@, t, 8, 2);
        lemma_digits_values_agree(ts@, t, 11, 2);
        lemma_digits_values_agree(ts@, t, 14, 2);
        lemma_digits_values_agree(ts@, t, 17, 2);
    }
    if !(ts.get_char(4) == dsep && ts.get_char(7) == dsep && ts.get_char(10) == mid && ts.get_char(
        13,
    ) == ':' && ts.get_char(16) == ':') {
        return None;
    }
    let year = match parse_digits(ts, 0, 4) {
        Some(v) => v,
        None => return None,
    };
    let month = match parse_digits(ts, 5, 2) {
        Some(v) => v,
        None => return None,
    };
    let day = match parse_digits(ts, 8, 2) {
        Some(v) => v,
        None => return None,
    };
    let hour = match parse_digits(ts, 11, 2) {
        Some(v) => v,
        None => return None,
    };
    let minute = match parse_digits(ts, 14, 2) {
        Some(v) => v,
        None => return None,
    };
    let second = match parse_digits(ts, 17, 2) {
        Some(v) => v,
        None => return None,
    };
    proof {
        lemma_digits_value_bound(t, 0, 4);
        reveal_with_fuel(pow10, 5);
    }
    let c = CivilDateTime { year, month, day, hour, minute, second, nanosecond: 0 };
    if year < 1970 || month < 1 || month > 12 || day < 1 || hour > 23 || minute > 59 || second > 59
    {
        return None;
    }
    if day > month_len(year, month) {
        return None;
    }
    Some(c)
}

/// Two sequences equal on a range carry the same digit runs there.
proof fn lemma_digits_values_agree(a: Seq<char>, b: Seq<char>, start: int, len: int)
    requires
        0 <= start,
        len >= 0,
        start + len <= a.len(),
        start + len <= b.len(),
        forall|i: int| start <= i < start + len ==> a[i] == b[i],
    ensures
        digits_are(a, start, len) == digits_are(b, start, len),
        digits_value(a, start, len) == digits_value(b, start, len),
    decreases len,
{
    if len > 0 {
        lemma_digits_values_agree(a, b, start, len - 1);
    }
}

/// Parses a metadata date text against the fixed shapes.
pub fn parse_video_datetime(s: &str) -> (r: Option<CivilDateTime>)
    ensures
        r == spec_parse_video_dt(s@),
        r is Some ==> valid_date(r->0),
{
    let t = trim_str(s);
    let ts = t.as_str();
    let n = ts.unicode_len();
    if n == 19 {
        if let Some(c) = read_fields(ts, '-', ' ') {
            proof {
                assert(ts@.subrange(0, 19) =~= ts@);
            }
            return Some(c);
        }
        if let Some(c) = read_fields(ts, '-', 'T') {
            proof {
                assert(ts@.subrange(0, 19) =~= ts@);
            }
            return Some(c);
        }
        if let Some(c) = read_fields(ts, ':', ' ') {
            proof {
                assert(ts@.subrange(0, 19) =~= ts@);
            }
            return Some(c);
        }
        proof {
            assert(ts@.subrange(0, 19) =~= ts@);
        }
        return None;
    }
    if n >= 21 && n <= 28 {
        if ts.get_char(19) == '.' {
            let flen = n - 20;
            if let Some(fv) = parse_digits(ts, 20, flen) {
                proof {
                    lemma_digits_value_bound(ts@, 20, flen as int);
                    lemma_frac_nanos_bound(fv as int, flen as int);
                }
                let mult = frac_multiplier(flen);
                let ns = fv * mult;
                if let Some(mut c) = read_fields(ts, '-', 'T') {
                    c.nanosecond = ns;
                    proof {
                        assert(c == video_civil(
                            ts@.subrange(0, 19),
                            frac_nanos(
                                digits_value(ts@, 20, ts@.len() - 20),
                                ts@.len() - 20,
                            ),
                        ));
                    }
                    return Some(c);
                }
                if let Some(mut c) = read_fields(ts, ':', ' ') {
                    c.nanosecond = ns;
                    return Some(c);
                }
                return None;
            }
            return None;
        }
        return None;
    }
    None
}

/// Ten to the number of digits a fraction lacks to nine.
fn frac_multiplier(flen: usize) -> (r: u32)
    requires
        1 <= flen <= 8,
    ensures
        r == pow10(9 - flen),
    decreases 9 - flen,
{
    proof {
        reveal_with_fuel(pow10, 10);
    }
    match flen {
        1 => 100_000_000,
        2 => 10_000_000,
        3 => 1_000_000,
        4 => 100_000,
        5 => 10_000,
        6 => 1_000,
        7 => 100,
        _ => 10,
    }
}

/// A fraction scaled to nanoseconds stays below one second.
proof fn lemma_frac_nanos_bound(v: int, len: int)
    requires
        1 <= len <= 9,
        0 <= v < pow10(len),
    ensures
        0 <= frac_nanos(v, len) < 1_000_000_000,
{
    reveal_with_fuel(pow10, 10);
    crate::digits::lemma_pow10_pos(9 - len);
    assert((v + 1) * pow10(9 - len) <= pow10(len) * pow10(9 - len)) by (nonlinear_arith)
        requires
            0 <= v < pow10(len),
            pow10(9 - len) >= 1,
    ;
    assert((v + 1) * pow10(9 - len) == v * pow10(9 - len) + pow10(9 - len)) by (nonlinear_arith);
    crate::digits::lemma_pow10_add(len, 9 - len);
    assert(pow10(9) == 1_000_000_000);
    assert(v * pow10(9 - len) >= 0) by (nonlinear_arith)
        requires
            v >= 0,
            pow10(9 - len) >= 0,
    ;
}

/// The resolved video date: a probed metadata value shifted into the
/// configured zone, when one parses and stays inside the calendar.
pub open spec fn spec_video_shifted(v: Seq<char>, off: int) -> Option<CivilDateTime> {
    match spec_parse_video_dt(v) {
        Some(c) => {
            if epoch_representable(epoch_secs(c) + off) {
                Some(spec_civil_at(epoch_secs(c) + off, c.nanosecond))
            } else {
                None
            }
        },
        None => None,
    }
}

/// The fixed metadata keys, probed in order.
pub open spec fn spec_video_keys() -> Seq<Seq<char>> {
    seq![
        "creation_time"@,
        "date"@,
        "date_created"@,
        "date_modified"@,
        "com.apple.quicktime.creationdate"@,
        "com.apple.quicktime.content.create"@,
    ]
}

/// What probing the metadata yields: the first key, in the fixed order,
/// whose stored value parses and shifts inside the calendar.
pub open spec fn spec_probe_metadata(
    md: Seq<(String, String)>,
    off: int,
    ki: int,
) -> Option<CivilDateTime>
    decreases spec_video_keys().len() - ki,
{
    if ki < 0 || ki >= spec_video_keys().len() {
        None
    } else {
        let j = meta_idx_of(md, spec_video_keys()[ki]);
        if j != -1 && spec_video_shifted(md[j].1@, off) is Some {
            spec_video_shifted(md[j].1@, off)
        } else {
            spec_probe_metadata(md, off, ki + 1)
        }
    }
}

/// Resolves capture timestamps for videos.
pub struct VideoDate {
    /// The time-zone offset applied to stored times, in hours.
    pub timezone_offset: i32,
}

impl VideoDate {
    /// A resolver with the nine-hour default offset.
    pub fn new() -> (r: VideoDate)
        ensures
            r.timezone_offset == 9,
    {
        VideoDate { timezone_offset: 9 }
    }

    /// Sets the time-zone offset, in hours.
    pub fn set_timezone_offset(&mut self, offset: i32)
        ensures
            final(self).timezone_offset == offset,
    {
        self.timezone_offset = offset;
    }

    /// The date shapes accepted in container metadata, in the order tried.
    pub fn get_date_formats(&self) -> (r: Vec<&'static str>)
        ensures
            r@.len() == 5,
            r@[0]@ == "%Y-%m-%d %H:%M:%S"@,
            r@[1]@ == "%Y-%m-%dT%H:%M:%S"@,
            r@[2]@ == "%Y-%m-%dT%H:%M:%S.%f"@,
            r@[3]@ == "%Y:%m:%d %H:%M:%S"@,
            r@[4]@ == "%Y:%m:%d %H:%M:%S.%f"@,
    {
        let mut r: Vec<&'static str> = Vec::new();
        r.push("%Y-%m-%d %H:%M:%S");
        r.push("%Y-%m-%dT%H:%M:%S");
        r.push("%Y-%m-%dT%H:%M:%S.%f");
        r.push("%Y:%m:%d %H:%M:%S");
        r.push("%Y:%m:%d %H:%M:%S.%f");
        r
    }

    /// Parses one metadata date text and shifts it by the configured
    /// offset.
    pub fn parse_date_time(&self, s: &str) -> (r: Option<CivilDateTime>)
        requires
            -100_000 <= self.timezone_offset <= 100_000,
        ensures
            r == spec_video_shifted(s@, self.timezone_offset as int * 3600),
            r is Some ==> valid_date(r->0),
    {
        let c = match parse_video_datetime(s) {
            Some(c) => c,
            None => return None,
        };
        let off = self.timezone_offset as i64 * 3600;
        let r = shift_civil(&c, off);
        proof {
            let e2 = epoch_secs(c) + off;
            match r {
                Some(s2) => {
                    let w = spec_civil_at(e2, c.nanosecond);
                    assert(valid_date(s2) && s2.nanosecond == c.nanosecond && epoch_secs(s2)
                        == e2);
                    assert(valid_date(w) && w.nanosecond == c.nanosecond && epoch_secs(w) == e2);
                    lemma_epoch_unique(s2, w);
                },
                None => {},
            }
        }
        r
    }

    /// Resolves the capture timestamp of a video from its container
    /// metadata, falling back to the file's creation time and then to the
    /// given wall-clock time.
    pub fn get_video_date(
        &self,
        metadata: &Vec<(String, String)>,
        created: Option<i64>,
        tz_offset_secs: i32,
        now: &CivilDateTime,
    ) -> (r: CivilDateTime)
        requires
            valid_date(*now),
            -100_000 <= self.timezone_offset <= 100_000,
            created is Some ==> -1_000_000_000_000 <= created->0 <= 1_000_000_000_000,
        ensures
            r == (match spec_probe_metadata(metadata@, self.timezone_offset as int * 3600, 0) {
                Some(c) => c,
                None => match crate::photo_date::spec_creation_date(
                    created,
                    tz_offset_secs as int,
                ) {
                    Some(c) => c,
                    None => *now,
                },
            }),
            valid_date(r),
    {
        if let Some(c) = self.probe_from(metadata, 0) {
            return c;
        }
        if let Some(e) = created {
            let shifted = e + tz_offset_secs as i64;
            if shifted >= 0 {
                if let Some(c) = civil_from_epoch(shifted) {
                    return c;
                }
            }
        }
        *now
    }

    /// Probes the metadata keys from position `ki` on.
    fn probe_from(&self, metadata: &Vec<(String, String)>, ki: usize) -> (r: Option<
        CivilDateTime,
    >)
        requires
            -100_000 <= self.timezone_offset <= 100_000,
            ki <= 6,
        ensures
            r == spec_probe_metadata(metadata@, self.timezone_offset as int * 3600, ki as int),
            r is Some ==> valid_date(r->0),
        decreases 6 - ki,
    {
        if ki >= 6 {
            return None;
        }
        let key: &'static str = match ki {
            0 => "creation_time",
            1 => "date",
            2 => "date_created",
            3 => "date_modified",
            4 => "com.apple.quicktime.creationdate",
            _ => "com.apple.quicktime.content.create",
        };
        proof {
            assert(key@ == spec_video_keys()[ki as int]);
        }
        match lookup_value(metadata, key) {
            Some(i) => {
                let parsed = self.parse_date_time(self.value_at(metadata, i));
                match parsed {
                    Some(c) => Some(c),
                    None => self.probe_from(metadata, ki + 1),
                }
            },
            None => self.probe_from(metadata, ki + 1),
        }
    }

    /// The stored value at a metadata position.
    fn value_at<'a>(&self, metadata: &'a Vec<(String, String)>, i: usize) -> (r: &'a str)
        requires
            i < metadata@.len(),
        ensures
            r@ == metadata@[i as int].1@,
    {
        metadata[i].1.as_str()
    }
}

/// The first metadata entry carrying this key, as an index.
fn lookup_value(metadata: &Vec<(String, String)>, key: &str) -> (r: Option<usize>)
    ensures
        match r {
            Some(i) => meta_idx_of(metadata@, key@) == i && i < metadata@.len(),
            None => meta_idx_of(metadata@, key@) == -1,
        },
{
    proof {
        lemma_meta_idx_of(metadata@, key@);
    }
    let k = key.to_owned();
    let n = metadata.len();
    let mut i: usize = 0;
    while i < n
        invariant
            n == metadata@.len(),
            i <= n,
            k@ == key@,
            forall|j: int| 0 <= j < i ==> metadata@[j].0@ != key@,
        decreases n - i,
    {
        if metadata[i].0 == k {
            proof {
                lemma_meta_idx_first(metadata@, key@, i as int);
            }
            return Some(i);
        }
        i = i + 1;
    }
    None
}

} // verus!
