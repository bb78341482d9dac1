//! Per-operation progress accounting. Every long-running byte-oriented
//! operation (a transfer, a hash computation) owns one tracker and advances
//! it as bytes pass; trackers are independent values, so no operation can
//! touch another operation's counter. The shared presentation surface
//! (console bars) lives outside the library; a sink here only hands out
//! fresh trackers for it.

use vstd::prelude::*;

verus! {

/// Mutable progress state of one running operation: the expected total
/// (0 when unknown), the bytes counted so far, and whether the operation
/// has been marked terminal.
pub struct ProgressTracker {
    pub total_bytes: u64,
    pub transferred_bytes: u64,
    pub finished: bool,
}

impl ProgressTracker {
    /// A fresh tracker expecting `total_bytes` bytes, nothing counted yet.
    pub fn new(total_bytes: u64) -> (r: ProgressTracker)
        ensures
            r.total_bytes == total_bytes,
            r.transferred_bytes == 0,
            !r.finished,
    {
        ProgressTracker { total_bytes, transferred_bytes: 0, finished: false }
    }

    /// Counts `n` more bytes. The counter never decreases, and a terminal
    /// tracker accepts no further increments.
    pub fn advance(&mut self, n: u64)
        requires
            !old(self).finished,
            old(self).transferred_bytes + n <= u64::MAX,
        ensures
            final(self).transferred_bytes == old(self).transferred_bytes + n,
            final(self).total_bytes == old(self).total_bytes,
            !final(self).finished,
    {
        self.transferred_bytes = self.transferred_bytes + n;
    }

    /// Marks the tracker terminal; the counters stay as they stand.
    pub fn finish(&mut self)
        ensures
            final(self).finished,
            final(self).transferred_bytes == old(self).transferred_bytes,
            final(self).total_bytes == old(self).total_bytes,
    {
        self.finished = true;
    }
}

/// The capability that long-running operations register their progress
/// against. It hands out independent trackers and counts how many it has
/// registered; the display surface bound to those trackers is the
/// application's concern.
pub struct ProgressSink {
    pub registered: u64,
}

impl ProgressSink {
    /// A sink with no trackers registered yet.
    pub fn new() -> (r: ProgressSink)
        ensures
            r.registered == 0,
    {
        ProgressSink { registered: 0 }
    }

    /// Allocates a fresh tracker bound to this sink's display surface.
    pub fn register(&mut self, total_bytes: u64) -> (r: ProgressTracker)
        requires
            old(self).registered < u64::MAX,
        ensures
            final(self).registered == old(self).registered + 1,
            r.total_bytes == total_bytes,
            r.transferred_bytes == 0,
            !r.finished,
    {
        self.registered = self.registered + 1;
        ProgressTracker::new(total_bytes)
    }
}

} // verus!
