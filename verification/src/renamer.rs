//! The rename front end for photos: target names from resolved dates with
//! the per-photo orientation suffix, burst ordinals in the name, and the
//! collision-free path against the names already present in the output
//! directory.

use vstd::prelude::*;

use crate::classify::spec_ext_start;
use crate::classify::spec_extension_lower;
use crate::classify::extension_lower;
use crate::classify::extension_raw;
use crate::dates::CivilDateTime;
use crate::dates::valid_date;
use crate::digits::dec_digits;
use crate::digits::three_digits;
use crate::digits::append_three_digits;
use crate::digits::append_u64;
use crate::fsutil::FileSystem;
use crate::namegen::candidate;
use crate::namegen::compact_timestamp;
use crate::namegen::dashed_timestamp;
use crate::namegen::date_directory;
use crate::namegen::spec_date_directory;
use crate::namegen::spec_compact_timestamp;
use crate::namegen::spec_dashed_timestamp;
use crate::namegen::taken;
use crate::namegen::unique_name;
use crate::photo_date::PhotoDate;
use crate::photo_orientation::OrientationDecision;
use crate::photo_orientation::OrientationDetector;
use crate::photo_orientation::orientation_suffix;
use crate::photo_orientation::spec_suffix;
use crate::video::VideoDate;

verus! {

/// The burst part of a name: `_burst` and the ordinal, zero-padded to
/// three digits.
pub open spec fn spec_burst_part(ordinal: int) -> Seq<char> {
    "_burst"@ + (if ordinal < 1000 {
        three_digits(ordinal)
    } else {
        dec_digits(ordinal)
    })
}

/// The preview name of one file: the dashed timestamp, the burst part for
/// a burst member, and the extension.
pub open spec fn spec_preview_name(
    date: CivilDateTime,
    ordinal: Option<u32>,
    ext: Seq<char>,
) -> Seq<char> {
    spec_dashed_timestamp(date) + (match ordinal {
        Some(o) => spec_burst_part(o as int),
        None => Seq::empty(),
    }) + "."@ + ext
}

/// The readable form of a duration in seconds: hours, minutes and seconds
/// spelled out, dropping the leading units that are zero.
pub open spec fn spec_duration_text(seconds: int) -> Seq<char> {
    let h = seconds / 3600;
    let m = seconds % 3600 / 60;
    let s = seconds % 60;
    if h > 0 {
        dec_digits(h) + "時間"@ + dec_digits(m) + "分"@ + dec_digits(s) + "秒"@
    } else if m > 0 {
        dec_digits(m) + "分"@ + dec_digits(s) + "秒"@
    } else {
        dec_digits(s) + "秒"@
    }
}

/// Renders a duration in seconds as hours, minutes and seconds.
pub fn format_duration(seconds: u64) -> (r: String)
    ensures
        r@ == spec_duration_text(seconds as int),
{
    let h = seconds / 3600;
    let m = seconds % 3600 / 60;
    let s = seconds % 60;
    let mut out = String::new();
    if h > 0 {
        append_u64(&mut out, h);
        out.append("時間");
        append_u64(&mut out, m);
        out.append("分");
        append_u64(&mut out, s);
        out.append("秒");
    } else if m > 0 {
        append_u64(&mut out, m);
        out.append("分");
        append_u64(&mut out, s);
        out.append("秒");
    } else {
        append_u64(&mut out, s);
        out.append("秒");
    }
    proof {
        assert(out@ =~= spec_duration_text(seconds as int));
    }
    out
}

/// Renames photos and videos after their resolved timestamps.
pub struct PhotoRenamer {
    pub fs: FileSystem,
    pub photo_date: PhotoDate,
    pub video_date: VideoDate,
    pub orientation_detector: OrientationDetector,
}

impl PhotoRenamer {
    /// A renamer with fresh components.
    pub fn new() -> (r: PhotoRenamer)
        ensures
            r.fs.buffer_size == 8192,
            r.video_date.timezone_offset == 9,
            r.orientation_detector.last_decision is None,
            r.orientation_detector.cache_duration == 300,
    {
        PhotoRenamer {
            fs: FileSystem::new(),
            photo_date: PhotoDate::new(),
            video_date: VideoDate::new(),
            orientation_detector: OrientationDetector::new(),
        }
    }

    /// The readable timestamp of a resolved date, with milliseconds when
    /// the date carries a sub-second part.
    pub fn format_datetime(&self, date: &CivilDateTime) -> (r: String)
        requires
            valid_date(*date),
        ensures
            r@ == spec_dashed_timestamp(*date),
    {
        dashed_timestamp(date)
    }

    /// The target file name of one photo: its resolved timestamp, the
    /// orientation suffix, and its own extension folded to lower case.
    pub fn generate_filename(
        &self,
        file: &str,
        date: &CivilDateTime,
        orientation: OrientationDecision,
    ) -> (r: String)
        requires
            valid_date(*date),
        ensures
            r@ == spec_compact_timestamp(*date) + spec_suffix(orientation) + "."@ + (
            if spec_ext_start(file@) == -1 {
                Seq::<char>::empty()
            } else {
                spec_extension_lower(file@)
            }),
    {
        let mut s = compact_timestamp(date);
        s.append(orientation_suffix(orientation));
        s.append(".");
        match extension_lower(file) {
            Some(e) => {
                s.append(e.as_str());
            },
            None => {},
        }
        proof {
            assert(s@ =~= spec_compact_timestamp(*date) + spec_suffix(orientation) + "."@ + (
            if spec_ext_start(file@) == -1 {
                Seq::<char>::empty()
            } else {
                spec_extension_lower(file@)
            }));
        }
        s
    }

    /// The preview name of one file, with the burst ordinal in the name
    /// for a burst member.
    pub fn preview_name(&self, date: &CivilDateTime, ordinal: Option<u32>, ext: &str) -> (r:
        String)
        requires
            valid_date(*date),
        ensures
            r@ == spec_preview_name(*date, ordinal, ext@),
    {
        let mut s = dashed_timestamp(date);
        match ordinal {
            Some(o) => {
                s.append("_burst");
                if o < 1000 {
                    append_three_digits(&mut s, o);
                } else {
                    append_u64(&mut s, o as u64);
                }
            },
            None => {},
        }
        s.append(".");
        s.append(ext);
        proof {
            assert(s@ =~= spec_preview_name(*date, ordinal, ext@));
        }
        s
    }

    /// The full preview of one file: the planned target under the output
    /// directory, nested by date, with the burst ordinal in the name for a
    /// burst member. The date and source come resolved from the caller.
    pub fn preview_file(
        &self,
        path: &str,
        output_dir: &str,
        date: &CivilDateTime,
        source: crate::preview::DateSource,
        ordinal: Option<u32>,
    ) -> (r: crate::preview::RenamePreview)
        requires
            valid_date(*date),
            spec_ext_start(path@) != -1,
        ensures
            r.original_path@ == path@,
            r.new_path@ == output_dir@ + "/"@ + spec_date_directory(*date) + "/"@
                + spec_preview_name(
                *date,
                ordinal,
                path@.subrange(spec_ext_start(path@), path@.len() as int),
            ),
            r.date == Some(*date),
            r.date_source == source,
            r.error is None,
    {
        let ext = match extension_raw(path) {
            Some(e) => e,
            None => String::new(),
        };
        let name = self.preview_name(date, ordinal, ext.as_str());
        let mut new_path = output_dir.to_owned();
        new_path.append("/");
        let dir = date_directory(date);
        new_path.append(dir.as_str());
        new_path.append("/");
        new_path.append(name.as_str());
        proof {
            assert(new_path@ =~= output_dir@ + "/"@ + spec_date_directory(*date) + "/"@
                + spec_preview_name(
                *date,
                ordinal,
                path@.subrange(spec_ext_start(path@), path@.len() as int),
            ));
        }
        crate::preview::RenamePreview::new(path.to_owned(), new_path, Some(*date), source)
    }

    /// The first free target path under the output directory for a name
    /// stem and extension: the plain name when no existing name collides,
    /// else the first free numbered variant.
    pub fn generate_new_path(
        &self,
        output_dir: &str,
        stem: &str,
        ext: &str,
        existing: &Vec<String>,
    ) -> (r: String)
        requires
            existing@.len() < usize::MAX,
        ensures
            exists|k: int|
                {
                    &&& 0 <= k
                    &&& r@ == output_dir@ + "/"@ + candidate(stem@, ext@, k)
                    &&& !taken(candidate(stem@, ext@, k), existing@)
                    &&& forall|j: int|
                        0 <= j < k ==> taken(#[trigger] candidate(stem@, ext@, j), existing@)
                },
    {
        let name = unique_name(stem, ext, existing);
        let mut s = output_dir.to_owned();
        s.append("/");
        s.append(name.as_str());
        proof {
            let k = choose|k: int|
                {
                    &&& 0 <= k
                    &&& name@ == candidate(stem@, ext@, k)
                    &&& forall|j: int|
                        0 <= j < k ==> taken(#[trigger] candidate(stem@, ext@, j), existing@)
                };
            assert(s@ =~= output_dir@ + "/"@ + candidate(stem@, ext@, k));
        }
        s
    }
}

} // verus!
