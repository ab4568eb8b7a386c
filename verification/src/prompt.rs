//! The orientation prompt: what each answer the user can type means. The
//! terminal reading and drawing happen outside the library; the mapping
//! from the typed line to a decision is exact.

use vstd::prelude::*;

use crate::display::Display;
use crate::media_orientation::OrientationDecision;

verus! {

/// What one typed answer to the orientation prompt asks for.
#[derive(Debug, Clone, Copy, PartialEq, Eq, Structural)]
pub enum PromptChoice {
    /// One of the four rotations, for this photo.
    Decision(OrientationDecision),
    /// Ask once more and apply that answer to every photo.
    ApplyToAll,
}

/// The decision a typed line selects: the digits choose a rotation, `a`
/// asks to apply one answer to all photos, and anything else keeps the
/// photo as it is.
pub open spec fn spec_choice_of(line: Seq<char>) -> PromptChoice {
    if line == "1"@ {
        PromptChoice::Decision(OrientationDecision::Keep)
    } else if line == "2"@ {
        PromptChoice::Decision(OrientationDecision::Rotate90)
    } else if line == "3"@ {
        PromptChoice::Decision(OrientationDecision::Rotate180)
    } else if line == "4"@ {
        PromptChoice::Decision(OrientationDecision::Rotate270)
    } else if line == "a"@ {
        PromptChoice::ApplyToAll
    } else {
        PromptChoice::Decision(OrientationDecision::Keep)
    }
}

/// Asks the user about photo orientation.
pub struct Prompt {
    /// The display the prompt draws around.
    pub display: Display,
}

impl Prompt {
    /// A prompt over the given display.
    pub fn new(display: Display) -> (r: Prompt)
        ensures
            r.display.total_files == display.total_files,
            r.display.processed_files == display.processed_files,
            r.display.current_file == display.current_file,
            r.display.fixed_area_height == display.fixed_area_height,
    {
        Prompt { display }
    }

    /// The meaning of one typed line (already trimmed by the caller).
    pub fn parse_choice(&self, line: &str) -> (r: PromptChoice)
        ensures
            r == spec_choice_of(line@),
    {
        let l = String::from_str(line);
        if l == String::from_str("1") {
            PromptChoice::Decision(OrientationDecision::Keep)
        } else if l == String::from_str("2") {
            PromptChoice::Decision(OrientationDecision::Rotate90)
        } else if l == String::from_str("3") {
            PromptChoice::Decision(OrientationDecision::Rotate180)
        } else if l == String::from_str("4") {
            PromptChoice::Decision(OrientationDecision::Rotate270)
        } else if l == String::from_str("a") {
            PromptChoice::ApplyToAll
        } else {
            PromptChoice::Decision(OrientationDecision::Keep)
        }
    }

    /// The meaning of the follow-up line after `a`: a rotation, with
    /// anything else keeping the photo.
    pub fn parse_final_choice(&self, line: &str) -> (r: OrientationDecision)
        ensures
            r == (match spec_choice_of(line@) {
                PromptChoice::Decision(d) => d,
                PromptChoice::ApplyToAll => OrientationDecision::Keep,
            }),
    {
        match self.parse_choice(line) {
            PromptChoice::Decision(d) => d,
            PromptChoice::ApplyToAll => OrientationDecision::Keep,
        }
    }
}

} // verus!
