//! The feed cache: one snapshot, readable by many tasks at once and
//! replaceable by one writer at a time. Readers are excluded only for the
//! duration of a swap, never for the duration of rendering, which happens
//! before the swap. Every snapshot the cache ever holds is well formed:
//! readers never observe a partially written document.

use vstd::prelude::*;
use vstd::rwlock::{RwLock, RwLockPredicate};

use crate::feed::FeedSnapshot;

verus! {

/// The invariant every cached snapshot satisfies.
pub struct SnapshotInv;

impl RwLockPredicate<FeedSnapshot> for SnapshotInv {
    open spec fn inv(self, v: FeedSnapshot) -> bool {
        v.wf()
    }
}

/// Process-wide holder of the most recently rendered feed snapshot.
pub struct FeedCache {
    lock: RwLock<FeedSnapshot, SnapshotInv>,
}

impl FeedCache {
    /// The cache was built by [`FeedCache::new`], so its lock enforces the
    /// snapshot invariant.
    pub closed spec fn wf(&self) -> bool {
        self.lock.pred() == SnapshotInv
    }

    /// Builds the cache around an initial snapshot (on a cold start, the
    /// persisted feed record or the empty default).
    pub fn new(initial: FeedSnapshot) -> (c: Self)
        requires
            initial.wf(),
        ensures
            c.wf(),
    {
        FeedCache { lock: RwLock::new(initial, Ghost(SnapshotInv)) }
    }

    /// Reads the current snapshot. Many readers may proceed simultaneously;
    /// a reader waits only while a writer is inside its swap.
    pub fn read(&self) -> (s: FeedSnapshot)
        requires
            self.wf(),
        ensures
            s.wf(),
    {
        let handle = self.lock.acquire_read();
        let snapshot = handle.borrow().clone();
        handle.release_read();
        snapshot
    }

    /// Atomically swaps the snapshot. Two writers never interleave partial
    /// writes: the lock serializes them.
    pub fn replace(&self, snapshot: FeedSnapshot)
        requires
            self.wf(),
            snapshot.wf(),
    {
        let (_previous, handle) = self.lock.acquire_write();
        handle.release_write(snapshot);
    }
}

} // verus!
