//! Drives one run over a set of discovered media files: partitions them
//! into the interactive and the parallel set, resolves dates and
//! orientations through the other modules, renders target names, and
//! accounts for the per-file outcomes. The caller performs the file I/O
//! between these steps; every decision here is verified.

use vstd::prelude::*;

use crate::args::OrientationMode;
use crate::classify::spec_ext_start;
use crate::classify::spec_extension_lower;
use crate::classify::spec_is_image;
use crate::classify::spec_last_index_of;
use crate::classify::extension_lower;
use crate::classify::last_index_of;
use crate::dates::CivilDateTime;
use crate::dates::valid_date;
use crate::fsutil::FileSystem;
use crate::media_orientation::OrientationDecision;
use crate::media_orientation::OrientationDetector;
use crate::media_orientation::decision_of_tag;
use crate::namegen::compact_timestamp;
use crate::namegen::spec_compact_timestamp;
use crate::photo_date::PhotoDate;
use crate::video::VideoDate;

verus! {

/// The file-name suffix a run-wide decision adds: flips carry no suffix,
/// as mirroring is out of the renaming's scope.
pub open spec fn spec_media_suffix(d: OrientationDecision) -> Seq<char> {
    match d {
        OrientationDecision::Keep => ""@,
        OrientationDecision::Rotate90 => "_r90"@,
        OrientationDecision::Rotate180 => "_r180"@,
        OrientationDecision::Rotate270 => "_r270"@,
        OrientationDecision::FlipHorizontal => ""@,
        OrientationDecision::FlipVertical => ""@,
    }
}

/// The target file name of one file: compact timestamp, orientation
/// suffix, and the lower-cased extension after a dot.
pub open spec fn spec_generated_name(
    file: Seq<char>,
    date: CivilDateTime,
    d: OrientationDecision,
) -> Seq<char> {
    spec_compact_timestamp(date) + spec_media_suffix(d) + "."@ + (if spec_ext_start(file) == -1 {
        Seq::empty()
    } else {
        spec_extension_lower(file)
    })
}

/// How many of the outcomes report success.
pub open spec fn ok_count(s: Seq<Result<(String, String), (String, String)>>) -> int
    decreases s.len(),
{
    if s.len() == 0 {
        0
    } else {
        ok_count(s.drop_last()) + (if s.last() is Ok {
            1int
        } else {
            0int
        })
    }
}

/// How many of the outcomes report a per-file error.
pub open spec fn err_count(s: Seq<Result<(String, String), (String, String)>>) -> int
    decreases s.len(),
{
    if s.len() == 0 {
        0
    } else {
        err_count(s.drop_last()) + (if s.last() is Err {
            1int
        } else {
            0int
        })
    }
}

/// Every file lands in exactly one bucket: the success and failure counts
/// of a run add up to the number of files processed, so a failing file
/// takes nothing away from the others.
pub proof fn lemma_outcomes_partition(s: Seq<Result<(String, String), (String, String)>>)
    ensures
        ok_count(s) + err_count(s) == s.len(),
        0 <= ok_count(s),
        0 <= err_count(s),
    decreases s.len(),
{
    if s.len() > 0 {
        lemma_outcomes_partition(s.drop_last());
    }
}

/// Outcome counts add over concatenation: what one slice of the run
/// reports is independent of what the rest reports, so one file's failure
/// is isolated to its own entry.
pub proof fn lemma_outcomes_additive(
    a: Seq<Result<(String, String), (String, String)>>,
    b: Seq<Result<(String, String), (String, String)>>,
)
    ensures
        ok_count(a + b) == ok_count(a) + ok_count(b),
        err_count(a + b) == err_count(a) + err_count(b),
    decreases b.len(),
{
    if b.len() == 0 {
        assert(a + b =~= a);
    } else {
        lemma_outcomes_additive(a, b.drop_last());
        assert((a + b).drop_last() =~= a + b.drop_last());
        assert((a + b).last() == b.last());
    }
}

/// The counts a finished run reports.
#[derive(Debug, Clone, Copy, PartialEq, Eq, Structural)]
pub struct RunSummary {
    pub renamed: usize,
    pub failed: usize,
}

/// Counts the successes and failures of a run's outcome stream.
pub fn summarize(outcomes: &Vec<Result<(String, String), (String, String)>>) -> (r: RunSummary)
    ensures
        r.renamed == ok_count(outcomes@),
        r.failed == err_count(outcomes@),
        r.renamed + r.failed == outcomes@.len(),
{
    let n = outcomes.len();
    let mut renamed: usize = 0;
    let mut failed: usize = 0;
    let mut i: usize = 0;
    proof {
        assert(outcomes@.subrange(0, 0) =~= Seq::<
            Result<(String, String), (String, String)>,
        >::empty());
    }
    while i < n
        invariant
            n == outcomes@.len(),
            i <= n,
            renamed == ok_count(outcomes@.subrange(0, i as int)),
            failed == err_count(outcomes@.subrange(0, i as int)),
            renamed + failed == i,
        decreases n - i,
    {
        proof {
            assert(outcomes@.subrange(0, i + 1).drop_last() =~= outcomes@.subrange(0, i as int));
            assert(outcomes@.subrange(0, i + 1).last() == outcomes@[i as int]);
        }
        match &outcomes[i] {
            Ok(_) => {
                renamed = renamed + 1;
            },
            Err(_) => {
                failed = failed + 1;
            },
        }
        i = i + 1;
    }
    proof {
        assert(outcomes@.subrange(0, n as int) =~= outcomes@);
    }
    RunSummary { renamed, failed }
}

/// Runs the rename pipeline's decisions for a batch of files.
pub struct MediaProcessor {
    pub fs: FileSystem,
    pub photo_date: PhotoDate,
    pub video_date: VideoDate,
    pub orientation_detector: OrientationDetector,
    /// The run-wide orientation decision, once one is known.
    pub orientation_cache: Option<OrientationDecision>,
}

impl MediaProcessor {
    /// A processor for one run in the given orientation mode.
    pub fn new(orientation_mode: OrientationMode) -> (r: MediaProcessor)
        ensures
            r.orientation_detector.mode == orientation_mode,
            r.orientation_detector.global_decision is None,
            r.orientation_cache is None,
            r.fs.buffer_size == 8192,
            r.video_date.timezone_offset == 9,
    {
        MediaProcessor {
            fs: FileSystem::new(),
            photo_date: PhotoDate::new(),
            video_date: VideoDate::new(),
            orientation_detector: OrientationDetector::new(orientation_mode),
            orientation_cache: None,
        }
    }

    /// Whether this file must be handled in the sequential interactive
    /// phase: it is an image and the run asks the user.
    pub fn needs_interaction(&self, file: &str) -> (r: bool)
        ensures
            r == (spec_is_image(file@) && self.orientation_detector.mode is Interactive),
    {
        self.fs.is_image_file(file) && self.orientation_detector.needs_interaction()
    }

    /// Splits the discovered files into the interactive set and the
    /// parallel set, each keeping discovery order.
    pub fn separate_files_by_processing_type(&self, files: &Vec<String>) -> (r: (
        Vec<String>,
        Vec<String>,
    ))
        ensures
            ({
                let interactive = self.orientation_detector.mode is Interactive;
                &&& r.0@ == files@.filter(|s: String| spec_is_image(s@) && interactive)
                &&& r.1@ == files@.filter(|s: String| !(spec_is_image(s@) && interactive))
            }),
    {
        let ghost interactive = self.orientation_detector.mode is Interactive;
        let n = files.len();
        let mut yes: Vec<String> = Vec::new();
        let mut no: Vec<String> = Vec::new();
        let mut i: usize = 0;
        proof {
            assert(files@.subrange(0, 0).filter(|s: String| spec_is_image(s@) && interactive)
                =~= Seq::<String>::empty());
            assert(files@.subrange(0, 0).filter(
                |s: String| !(spec_is_image(s@) && interactive),
            ) =~= Seq::<String>::empty());
        }
        while i < n
            invariant
                n == files@.len(),
                i <= n,
                interactive == (self.orientation_detector.mode is Interactive),
                yes@ == files@.subrange(0, i as int).filter(
                    |s: String| spec_is_image(s@) && interactive,
                ),
                no@ == files@.subrange(0, i as int).filter(
                    |s: String| !(spec_is_image(s@) && interactive),
                ),
            decreases n - i,
        {
            let f = files[i].clone();
            proof {
                assert(f@ == files@[i as int]@);
                assert(files@.subrange(0, i + 1) =~= files@.subrange(0, i as int).push(
                    files@[i as int],
                ));
                reveal(Seq::filter);
                assert(files@.subrange(0, i as int).push(files@[i as int]).drop_last()
                    =~= files@.subrange(0, i as int));
            }
            if self.needs_interaction(f.as_str()) {
                yes.push(f);
            } else {
                no.push(f);
            }
            i = i + 1;
        }
        proof {
            assert(files@.subrange(0, n as int) =~= files@);
        }
        (yes, no)
    }

    /// The run-wide orientation for a file whose EXIF tag was read, using
    /// the cached decision when one is known; the first decision of the
    /// run fills the cache.
    pub fn get_cached_orientation(&mut self, tag: Option<u32>) -> (r: OrientationDecision)
        requires
            !(old(self).orientation_detector.mode is Interactive),
        ensures
            match old(self).orientation_cache {
                Some(d) => r == d && *final(self) == *old(self),
                None => {
                    &&& r == (match old(self).orientation_detector.mode {
                        OrientationMode::Auto => decision_of_tag(tag),
                        _ => OrientationDecision::Keep,
                    })
                    &&& final(self).orientation_cache == Some(r)
                    &&& final(self).orientation_detector == old(self).orientation_detector
                    &&& final(self).fs == old(self).fs
                },
            },
    {
        if let Some(d) = self.orientation_cache {
            return d;
        }
        let d = match self.orientation_detector.detect_orientation(tag, None) {
            Some(d) => d,
            None => OrientationDecision::Keep,
        };
        self.orientation_cache = Some(d);
        d
    }

    /// The orientation suffix this run appends to target names.
    pub fn get_orientation_suffix(&self, orientation: OrientationDecision) -> (r: &'static str)
        ensures
            r@ == spec_media_suffix(orientation),
    {
        match orientation {
            OrientationDecision::Keep => "",
            OrientationDecision::Rotate90 => "_r90",
            OrientationDecision::Rotate180 => "_r180",
            OrientationDecision::Rotate270 => "_r270",
            OrientationDecision::FlipHorizontal => "",
            OrientationDecision::FlipVertical => "",
        }
    }

    /// The target file name of one file: its resolved timestamp, the
    /// orientation suffix, and its own extension folded to lower case.
    pub fn generate_filename(
        &self,
        file: &str,
        date: &CivilDateTime,
        orientation: OrientationDecision,
    ) -> (r: String)
        requires
            valid_date(*date),
        ensures
            r@ == spec_generated_name(file@, *date, orientation),
    {
        let mut s = compact_timestamp(date);
        s.append(self.get_orientation_suffix(orientation));
        s.append(".");
        match extension_lower(file) {
            Some(e) => {
                s.append(e.as_str());
            },
            None => {},
        }
        proof {
            assert(s@ =~= spec_generated_name(file@, *date, orientation));
        }
        s
    }

    /// The full target path: the output directory when one is set, else
    /// the file's own directory, then the new name.
    pub fn get_target_path(&self, file: &str, output_dir: Option<&str>, new_name: &str) -> (r:
        String)
        requires
            output_dir is Some || spec_last_index_of(file@, '/') >= 1,
        ensures
            r@ == (match output_dir {
                Some(d) => d@,
                None => file@.subrange(0, spec_last_index_of(file@, '/')),
            }) + "/"@ + new_name@,
    {
        let mut dir: String = match output_dir {
            Some(d) => d.to_owned(),
            None => {
                let sl = match last_index_of(file, '/') {
                    Some(i) => i,
                    None => 0,
                };
                file.substring_char(0, sl).to_owned()
            },
        };
        dir.append("/");
        dir.append(new_name);
        proof {
            assert(dir@ =~= (match output_dir {
                Some(d) => d@,
                None => file@.subrange(0, spec_last_index_of(file@, '/')),
            }) + "/"@ + new_name@);
        }
        dir
    }
}

} // verus!
