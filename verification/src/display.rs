//! The run display's state: which file is being worked on and how far the
//! run has come. Drawing to the terminal happens outside the library; the
//! counters driving it are exact.

use vstd::prelude::*;

verus! {

/// The state behind the progress display of one run.
pub struct Display {
    /// The file being worked on.
    pub current_file: String,
    /// Files in the whole run.
    pub total_files: usize,
    /// Files finished so far.
    pub processed_files: usize,
    /// Rows the fixed header occupies on screen.
    pub fixed_area_height: usize,
}

impl Display {
    /// A display before the run has started.
    pub fn new() -> (r: Display)
        ensures
            r.current_file@ == Seq::<char>::empty(),
            r.total_files == 0,
            r.processed_files == 0,
            r.fixed_area_height == 6,
    {
        Display {
            current_file: String::new(),
            total_files: 0,
            processed_files: 0,
            fixed_area_height: 6,
        }
    }

    /// Opens a run over `total` files: nothing processed yet.
    pub fn set_total_files(&mut self, total: usize)
        ensures
            final(self).total_files == total,
            final(self).processed_files == 0,
            final(self).current_file == old(self).current_file,
            final(self).fixed_area_height == old(self).fixed_area_height,
    {
        self.total_files = total;
        self.processed_files = 0;
    }

    /// One more file is done; remembers which one.
    pub fn update_progress(&mut self, file_path: &str)
        requires
            old(self).processed_files < usize::MAX,
        ensures
            final(self).processed_files == old(self).processed_files + 1,
            final(self).current_file@ == file_path@,
            final(self).total_files == old(self).total_files,
            final(self).fixed_area_height == old(self).fixed_area_height,
    {
        self.processed_files = self.processed_files + 1;
        self.current_file = file_path.to_owned();
    }
}

} // verus!
