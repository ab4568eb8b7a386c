//! Per-photo orientation: the rotation correction applied before renaming,
//! its file-name suffix, and a detector that caches its last answer for a
//! bounded time so that a burst of photos is handled consistently.

use vstd::prelude::*;

verus! {

/// The rotation correction chosen for a photo.
#[derive(Debug, Clone, Copy, PartialEq, Eq, Structural)]
pub enum OrientationDecision {
    /// Leave the photo as it is.
    KeepOriginal,
    /// Rotate by 90 degrees.
    Rotate90,
    /// Rotate by 180 degrees.
    Rotate180,
    /// Rotate by 270 degrees.
    Rotate270,
}

/// The file-name suffix of a decision: nothing for an untouched photo.
pub open spec fn spec_suffix(d: OrientationDecision) -> Seq<char> {
    match d {
        OrientationDecision::KeepOriginal => ""@,
        OrientationDecision::Rotate90 => "_r90"@,
        OrientationDecision::Rotate180 => "_r180"@,
        OrientationDecision::Rotate270 => "_r270"@,
    }
}

/// The file-name suffix of a decision.
pub fn orientation_suffix(d: OrientationDecision) -> (r: &'static str)
    ensures
        r@ == spec_suffix(d),
{
    match d {
        OrientationDecision::KeepOriginal => "",
        OrientationDecision::Rotate90 => "_r90",
        OrientationDecision::Rotate180 => "_r180",
        OrientationDecision::Rotate270 => "_r270",
    }
}

/// The decision an EXIF orientation tag settles on its own: the four
/// unmirrored values. Any other tag needs the user.
pub open spec fn settled_by_tag(tag: Option<u32>) -> Option<OrientationDecision> {
    match tag {
        Some(1u32) => Some(OrientationDecision::KeepOriginal),
        Some(3u32) => Some(OrientationDecision::Rotate180),
        Some(6u32) => Some(OrientationDecision::Rotate90),
        Some(8u32) => Some(OrientationDecision::Rotate270),
        _ => None,
    }
}

/// Detects photo orientation, remembering its last answer for a while.
pub struct OrientationDetector {
    /// The last decision given, if any.
    pub last_decision: Option<OrientationDecision>,
    /// When the last decision was given, in epoch seconds.
    pub last_decision_time: Option<i64>,
    /// How long a cached decision stays valid, in seconds.
    pub cache_duration: i64,
}

/// Whether the cache of a detector answers at time `now`.
pub open spec fn cache_hit(d: OrientationDetector, now: int) -> bool {
    &&& d.last_decision is Some
    &&& d.last_decision_time is Some
    &&& now - d.last_decision_time->0 < d.cache_duration
}

impl OrientationDetector {
    /// A detector with an empty cache that holds answers for five minutes.
    pub fn new() -> (d: OrientationDetector)
        ensures
            d.last_decision is None,
            d.last_decision_time is None,
            d.cache_duration == 300,
    {
        OrientationDetector { last_decision: None, last_decision_time: None, cache_duration: 300 }
    }

    /// Sets how long a cached decision stays valid.
    pub fn set_cache_duration(&mut self, seconds: i64)
        ensures
            final(self).cache_duration == seconds,
            final(self).last_decision == old(self).last_decision,
            final(self).last_decision_time == old(self).last_decision_time,
    {
        self.cache_duration = seconds;
    }

    /// The cached decision, when it is still valid at time `now`.
    pub fn check_cache(&self, now: i64) -> (r: Option<OrientationDecision>)
        requires
            -100_000_000_000 <= now <= 100_000_000_000,
            -100_000_000_000 <= self.cache_duration <= 100_000_000_000,
            self.last_decision_time is Some ==> -100_000_000_000 <= self.last_decision_time->0
                <= 100_000_000_000,
        ensures
            match r {
                Some(d) => cache_hit(*self, now as int) && self.last_decision == Some(d),
                None => !cache_hit(*self, now as int),
            },
    {
        match (self.last_decision, self.last_decision_time) {
            (Some(d), Some(t)) => {
                if now - t < self.cache_duration {
                    Some(d)
                } else {
                    None
                }
            },
            _ => None,
        }
    }

    /// Caches a decision given at time `now`.
    pub fn update_cache(&mut self, decision: OrientationDecision, now: i64)
        ensures
            final(self).last_decision == Some(decision),
            final(self).last_decision_time == Some(now),
            final(self).cache_duration == old(self).cache_duration,
    {
        self.last_decision = Some(decision);
        self.last_decision_time = Some(now);
    }

    /// One step of detection at time `now`. A valid cached answer wins; else
    /// a settling EXIF tag decides and is cached; else the caller must ask
    /// the user and come back with `asked`, which is then cached. `None`
    /// only when the user still has to be asked.
    pub fn detect_orientation(
        &mut self,
        now: i64,
        tag: Option<u32>,
        asked: Option<OrientationDecision>,
    ) -> (r: Option<OrientationDecision>)
        requires
            -100_000_000_000 <= now <= 100_000_000_000,
            -100_000_000_000 <= old(self).cache_duration <= 100_000_000_000,
            old(self).last_decision_time is Some ==> -100_000_000_000 <= old(self).last_decision_time->0 <= 100_000_000_000,
        ensures
            final(self).cache_duration == old(self).cache_duration,
            if cache_hit(*old(self), now as int) {
                r == old(self).last_decision && *final(self) == *old(self)
            } else {
                match settled_by_tag(tag) {
                    Some(d) => r == Some(d) && final(self).last_decision == Some(d) && final(self).last_decision_time == Some(now),
                    None => match asked {
                        Some(u) => r == Some(u) && final(self).last_decision == Some(u) && final(self).last_decision_time == Some(now),
                        None => r is None && *final(self) == *old(self),
                    },
                }
            },
    {
        if let Some(cached) = self.check_cache(now) {
            return Some(cached);
        }
        let decision = match tag {
            Some(1u32) => Some(OrientationDecision::KeepOriginal),
            Some(3u32) => Some(OrientationDecision::Rotate180),
            Some(6u32) => Some(OrientationDecision::Rotate90),
            Some(8u32) => Some(OrientationDecision::Rotate270),
            _ => asked,
        };
        match decision {
            Some(d) => {
                self.update_cache(d, now);
                Some(d)
            },
            None => None,
        }
    }
}

} // verus!
