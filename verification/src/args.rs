//! Run configuration: which directories to work on, how to treat image
//! orientation, and the flags a caller resolves before the run starts.
//! Reading the command line happens outside the library; the checks on the
//! resolved values are verified here.

use vstd::prelude::*;

verus! {

/// How image orientation is decided for a run.
#[derive(Debug, Clone, Copy, PartialEq, Eq, Structural)]
pub enum OrientationMode {
    /// Follow the EXIF orientation tag.
    Auto,
    /// Keep every image as it is.
    Keep,
    /// Ask once, then reuse the answer for the rest of the run.
    Interactive,
    /// Skip orientation handling.
    Skip,
}

/// The resolved settings of one run. The time zone is carried as a plain
/// offset from UTC in seconds.
#[derive(Debug, Clone)]
pub struct Args {
    pub input_dir: Option<String>,
    pub output_dir: Option<String>,
    pub backup_dir: Option<String>,
    pub orientation_mode: OrientationMode,
    pub cleanup: bool,
    pub parallel: bool,
    pub timezone_offset_secs: i32,
    pub language: String,
}

impl Args {
    /// Checks that the directories a mode needs are present: cleanup needs
    /// only the output directory, a normal run needs input and output.
    pub fn validate(&self) -> (r: Result<(), String>)
        ensures
            match r {
                Ok(_) => {
                    if self.cleanup {
                        self.output_dir is Some
                    } else {
                        self.input_dir is Some && self.output_dir is Some
                    }
                },
                Err(e) => {
                    if self.cleanup {
                        self.output_dir is None && e@
                            == "Output directory is required for cleanup mode"@
                    } else if self.input_dir is None {
                        e@ == "Input directory is required"@
                    } else {
                        self.output_dir is None && e@ == "Output directory is required"@
                    }
                },
            },
    {
        if self.cleanup {
            if self.output_dir.is_none() {
                return Err(String::from_str("Output directory is required for cleanup mode"));
            }
            return Ok(());
        }
        if self.input_dir.is_none() {
            return Err(String::from_str("Input directory is required"));
        }
        if self.output_dir.is_none() {
            return Err(String::from_str("Output directory is required"));
        }
        Ok(())
    }
}

/// The orientation mode a token selects; anything unrecognized falls back
/// to asking the user.
pub fn parse_orientation_mode(token: &str) -> (m: OrientationMode)
    ensures
        m == (if token@ == "auto"@ {
            OrientationMode::Auto
        } else if token@ == "skip"@ {
            OrientationMode::Skip
        } else {
            OrientationMode::Interactive
        }),
{
    let t = String::from_str(token);
    if t == String::from_str("auto") {
        OrientationMode::Auto
    } else if t == String::from_str("skip") {
        OrientationMode::Skip
    } else {
        OrientationMode::Interactive
    }
}

} // verus!
