use vstd::prelude::*;

verus! {

/// The per-operation progress counters: files discovered by the pre-scan and
/// files copied so far.  Created fresh for each copy operation; both counters
/// only ever grow.
pub struct ProgressTracker {
    /// Files discovered during the pre-scan.
    pub total_files: usize,
    /// Files copied so far.
    pub processed_files: usize,
}

impl ProgressTracker {
    /// Fresh counters, both zero.
    pub fn new() -> (r: ProgressTracker)
        ensures
            r.total_files == 0,
            r.processed_files == 0,
    {
        ProgressTracker { total_files: 0, processed_files: 0 }
    }

    /// Records one more discovered file.
    pub fn increment_total_files(&mut self)
        requires
            old(self).total_files < usize::MAX,
        ensures
            final(self).total_files == old(self).total_files + 1,
            final(self).processed_files == old(self).processed_files,
    {
        self.total_files = self.total_files + 1;
    }

    /// Records one more copied file.
    pub fn increment_processed_files(&mut self)
        requires
            old(self).processed_files < usize::MAX,
        ensures
            final(self).processed_files == old(self).processed_files + 1,
            final(self).total_files == old(self).total_files,
    {
        self.processed_files = self.processed_files + 1;
    }

    /// A snapshot of the counters: copied first, discovered second.
    pub fn get_progress(&self) -> (r: (usize, usize))
        ensures
            r.0 == self.processed_files,
            r.1 == self.total_files,
    {
        (self.processed_files, self.total_files)
    }
}

} // verus!
