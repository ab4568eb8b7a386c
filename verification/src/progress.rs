//! Progress counter for a batch run: how many files are done out of how many
//! in total. Rendering is left to the caller; the counter itself is exact.

use vstd::prelude::*;

verus! {

/// Tracks completed work against a fixed total.
pub struct ProgressBar {
    /// Width of the rendered bar, in character cells.
    pub width: usize,
    /// Files completed so far.
    pub current: usize,
    /// Files in the whole run.
    pub total: usize,
}

impl ProgressBar {
    /// Fresh counter: nothing done yet.
    pub fn new(total: usize) -> (bar: ProgressBar)
        ensures
            bar.current == 0,
            bar.total == total,
    {
        ProgressBar { width: 50, current: 0, total }
    }

    /// Jump to an absolute completion count.
    pub fn update(&mut self, current: usize)
        ensures
            final(self).current == current,
            final(self).total == old(self).total,
            final(self).width == old(self).width,
    {
        self.current = current;
    }

    /// One more file is done.
    pub fn increment(&mut self)
        requires
            old(self).current < usize::MAX,
        ensures
            final(self).current == old(self).current + 1,
            final(self).total == old(self).total,
            final(self).width == old(self).width,
    {
        self.current = self.current + 1;
    }

    /// How many files are done.
    pub fn current(&self) -> (n: usize)
        ensures
            n == self.current,
    {
        self.current
    }

    /// How many files the run holds in total.
    pub fn total(&self) -> (n: usize)
        ensures
            n == self.total,
    {
        self.total
    }
}

} // verus!
