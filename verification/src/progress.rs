//! The progress aggregator shared by the part-copy tasks of a window.

use std::sync::atomic::AtomicU64;
use std::sync::atomic::AtomicUsize;
use std::sync::atomic::Ordering;
use std::sync::Arc;
use vstd::prelude::*;

verus! {

/// Bytes and parts copied so far, counted by every task that holds a clone
/// of the handle. The two counters only grow; `total_parts` is fixed when the
/// handle is made.
#[derive(Clone)]
pub struct CopyProgress {
    pub copied_bytes: Arc<AtomicU64>,
    pub completed_parts: Arc<AtomicUsize>,
    pub total_parts: usize,
}

/// The counters as one reader saw them.
#[derive(Copy, Clone, Debug)]
pub struct ProgressSnapshot {
    pub copied_bytes: u64,
    pub completed_parts: usize,
    pub total_parts: usize,
}

impl CopyProgress {
    /// A handle for a copy of `total_parts` parts, with both counters at zero.
    pub fn new(total_parts: usize) -> (progress: Self)
        ensures
            progress.total_parts == total_parts,
    {
        CopyProgress {
            copied_bytes: Arc::new(AtomicU64::new(0)),
            completed_parts: Arc::new(AtomicUsize::new(0)),
            total_parts,
        }
    }

    /// Counts one more completed part of `bytes` bytes. Each counter is
    /// advanced by one atomic addition, so concurrent callers lose no update.
    pub fn add_completed(&self, bytes: u64) {
        self.copied_bytes.fetch_add(bytes, Ordering::SeqCst);
        self.completed_parts.fetch_add(1, Ordering::SeqCst);
    }

    /// The counters as they stand; other tasks may advance them meanwhile.
    pub fn snapshot(&self) -> (seen: ProgressSnapshot)
        ensures
            seen.total_parts == self.total_parts,
    {
        ProgressSnapshot {
            copied_bytes: self.copied_bytes.load(Ordering::SeqCst),
            completed_parts: self.completed_parts.load(Ordering::SeqCst),
            total_parts: self.total_parts,
        }
    }
}

} // verus!
