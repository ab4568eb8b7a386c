//! The run-wide orientation decision process: a mode chosen at construction,
//! a fixed mapping from the EXIF orientation tag, and a cache that holds the
//! first interactive answer for the rest of the run.

use vstd::prelude::*;

use crate::args::OrientationMode;

verus! {

/// A rotation or flip correction for an image.
#[derive(Debug, Clone, Copy, PartialEq, Eq, Structural)]
pub enum OrientationDecision {
    /// Leave the image as it is.
    Keep,
    /// Rotate by 90 degrees.
    Rotate90,
    /// Rotate by 180 degrees.
    Rotate180,
    /// Rotate by 270 degrees.
    Rotate270,
    /// Mirror along the vertical axis.
    FlipHorizontal,
    /// Mirror along the horizontal axis.
    FlipVertical,
}

impl OrientationDecision {
    /// The name of the decision.
    pub fn to_string(&self) -> (r: String)
        ensures
            r@ == (match self {
                OrientationDecision::Keep => "Keep"@,
                OrientationDecision::Rotate90 => "Rotate90"@,
                OrientationDecision::Rotate180 => "Rotate180"@,
                OrientationDecision::Rotate270 => "Rotate270"@,
                OrientationDecision::FlipHorizontal => "FlipHorizontal"@,
                OrientationDecision::FlipVertical => "FlipVertical"@,
            }),
    {
        match self {
            OrientationDecision::Keep => String::from_str("Keep"),
            OrientationDecision::Rotate90 => String::from_str("Rotate90"),
            OrientationDecision::Rotate180 => String::from_str("Rotate180"),
            OrientationDecision::Rotate270 => String::from_str("Rotate270"),
            OrientationDecision::FlipHorizontal => String::from_str("FlipHorizontal"),
            OrientationDecision::FlipVertical => String::from_str("FlipVertical"),
        }
    }
}

/// The decision a stored EXIF orientation tag calls for. Mirrored tags map
/// to the nearest plain rotation; a missing or foreign tag keeps the image.
pub open spec fn decision_of_tag(tag: Option<u32>) -> OrientationDecision {
    match tag {
        Some(1u32) => OrientationDecision::Keep,
        Some(2u32) => OrientationDecision::Rotate180,
        Some(3u32) => OrientationDecision::Rotate180,
        Some(4u32) => OrientationDecision::Rotate180,
        Some(5u32) => OrientationDecision::Rotate90,
        Some(6u32) => OrientationDecision::Rotate90,
        Some(7u32) => OrientationDecision::Rotate270,
        Some(8u32) => OrientationDecision::Rotate270,
        _ => OrientationDecision::Keep,
    }
}

/// Decides image orientation for a whole run.
pub struct OrientationDetector {
    pub mode: OrientationMode,
    /// The one interactive answer of the run, once given.
    pub global_decision: Option<OrientationDecision>,
}

impl OrientationDetector {
    /// A detector in the given mode, with no interactive answer yet.
    pub fn new(mode: OrientationMode) -> (d: OrientationDetector)
        ensures
            d.mode == mode,
            d.global_decision is None,
    {
        OrientationDetector { mode, global_decision: None }
    }

    /// Whether this run will have to ask the user.
    pub fn needs_interaction(&self) -> (r: bool)
        ensures
            r == (self.mode is Interactive),
    {
        match self.mode {
            OrientationMode::Interactive => true,
            _ => false,
        }
    }

    /// The decision the EXIF tag calls for, by the fixed table.
    pub fn get_orientation_from_exif(&self, orientation: Option<u32>) -> (r: OrientationDecision)
        ensures
            r == decision_of_tag(orientation),
    {
        match orientation {
            Some(1u32) => OrientationDecision::Keep,
            Some(2u32) => OrientationDecision::Rotate180,
            Some(3u32) => OrientationDecision::Rotate180,
            Some(4u32) => OrientationDecision::Rotate180,
            Some(5u32) => OrientationDecision::Rotate90,
            Some(6u32) => OrientationDecision::Rotate90,
            Some(7u32) => OrientationDecision::Rotate270,
            Some(8u32) => OrientationDecision::Rotate270,
            _ => OrientationDecision::Keep,
        }
    }

    /// One step of the decision process. In Auto mode the tag decides; in
    /// Keep and Skip modes nothing changes; in Interactive mode the cached
    /// answer is reused, a fresh answer is cached, and without either the
    /// caller must prompt and come back (`None`).
    pub fn detect_orientation(&mut self, tag: Option<u32>, asked: Option<OrientationDecision>) -> (r:
        Option<OrientationDecision>)
        ensures
            final(self).mode == old(self).mode,
            match old(self).mode {
                OrientationMode::Auto => r == Some(decision_of_tag(tag)) && final(self).global_decision == old(self).global_decision,
                OrientationMode::Keep => r == Some(OrientationDecision::Keep) && final(self).global_decision == old(self).global_decision,
                OrientationMode::Skip => r == Some(OrientationDecision::Keep) && final(self).global_decision == old(self).global_decision,
                OrientationMode::Interactive => match old(self).global_decision {
                    Some(d) => r == Some(d) && final(self).global_decision == Some(d),
                    None => match asked {
                        Some(u) => r == Some(u) && final(self).global_decision == Some(u),
                        None => r is None && final(self).global_decision is None,
                    },
                },
            },
    {
        match self.mode {
            OrientationMode::Auto => Some(self.get_orientation_from_exif(tag)),
            OrientationMode::Keep => Some(OrientationDecision::Keep),
            OrientationMode::Skip => Some(OrientationDecision::Keep),
            OrientationMode::Interactive => {
                match self.global_decision {
                    Some(d) => Some(d),
                    None => {
                        match asked {
                            Some(u) => {
                                self.global_decision = Some(u);
                                Some(u)
                            },
                            None => None,
                        }
                    },
                }
            },
        }
    }
}

} // verus!
