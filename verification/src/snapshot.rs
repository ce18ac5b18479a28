//! Snapshot store: the save / restore side of the rollback registry.
//!
//! The closed set of state that participates in rollback is exactly the
//! fields of `SimState` — per-player position and velocity.  A snapshot is a
//! complete, independent copy of that state (value semantics, no aliasing
//! with the live state), keyed by frame: entry `i` is the state at the start
//! of frame `start + i`.  Restoring yields the stored copy unchanged;
//! nothing outside the registered state is touched, because nothing outside
//! it is stored.  The store retains one snapshot more than the rollback
//! window of frames — the snapshot at the window's oldest frame plus one per
//! frame simulated since — so every rollback point the input history can
//! report has its snapshot present.

use vstd::prelude::*;
use crate::sim::SimState;

verus! {

/// Snapshots of the rollback-registered state, one per frame, oldest first.
pub struct SnapshotStore {
    /// The rollback window this store serves.
    pub window: usize,
    /// Frame of the oldest retained snapshot.
    pub start: u32,
    /// `snaps[i]` is the state at the start of frame `start + i`.
    pub snaps: Vec<SimState>,
}

impl SnapshotStore {
    /// Well-formedness: at least one snapshot is always retained, at most
    /// one more than the window, and frame numbers stay in range.
    pub open spec fn wf(self) -> bool {
        &&& self.window >= 1
        &&& 1 <= self.snaps@.len() <= self.window + 1
        &&& self.start + self.snaps@.len() <= u32::MAX
    }

    /// One past the newest retained frame.
    pub open spec fn spec_end(self) -> int {
        self.start + self.snaps@.len()
    }

    /// Whether a snapshot for frame `f` is retained.
    pub open spec fn contains_frame(self, f: int) -> bool {
        self.start <= f < self.spec_end()
    }

    /// The snapshot of retained frame `f`.
    pub open spec fn snap_at(self, f: int) -> SimState {
        self.snaps@[f - self.start]
    }

    /// The newest retained snapshot.
    pub open spec fn spec_last(self) -> SimState {
        self.snaps@[self.snaps@.len() - 1]
    }

    /// A store holding the single snapshot of frame 0.
    pub fn new(window: usize, initial: SimState) -> (s: SnapshotStore)
        requires
            window >= 1,
        ensures
            s.wf(),
            s.window == window,
            s.start == 0,
            s.snaps@ == seq![initial],
    {
        let mut snaps: Vec<SimState> = Vec::new();
        snaps.push(initial);
        assert(snaps@ =~= seq![initial]);
        SnapshotStore { window, start: 0, snaps }
    }

    /// Number of retained snapshots.
    pub fn len(&self) -> (n: usize)
        ensures
            n == self.snaps@.len(),
    {
        self.snaps.len()
    }

    /// Whether a snapshot for frame `f` is retained.
    pub fn contains(&self, f: u32) -> (b: bool)
        requires
            self.wf(),
        ensures
            b == self.contains_frame(f as int),
    {
        self.start <= f && ((f - self.start) as usize) < self.snaps.len()
    }

    /// Restores the snapshot of frame `f`: hands back the stored copy,
    /// bit-identical to what was saved, leaving the store unchanged.
    pub fn restore(&self, f: u32) -> (s: SimState)
        requires
            self.wf(),
            self.contains_frame(f as int),
        ensures
            s == self.snap_at(f as int),
    {
        self.snaps[(f - self.start) as usize]
    }

    /// The newest retained snapshot.
    pub fn last(&self) -> (s: SimState)
        requires
            self.wf(),
        ensures
            s == self.spec_last(),
    {
        self.snaps[self.snaps.len() - 1]
    }

    /// Saves the snapshot of the next frame: a complete, independent copy of
    /// `state` that later simulation steps cannot corrupt.
    pub fn push(&mut self, state: SimState)
        requires
            old(self).wf(),
            old(self).snaps@.len() <= old(self).window,
            old(self).spec_end() < u32::MAX,
        ensures
            final(self).wf(),
            final(self).window == old(self).window,
            final(self).start == old(self).start,
            final(self).snaps@ == old(self).snaps@.push(state),
    {
        self.snaps.push(state);
    }

    /// Overwrites the stale snapshot of retained frame `f` with the state
    /// just recomputed by resimulation.
    pub fn overwrite(&mut self, f: u32, state: SimState)
        requires
            old(self).wf(),
            old(self).contains_frame(f as int),
        ensures
            final(self).wf(),
            final(self).window == old(self).window,
            final(self).start == old(self).start,
            final(self).snaps@ == old(self).snaps@.update(f - old(self).start, state),
    {
        let idx = (f - self.start) as usize;
        self.snaps[idx] = state;
    }

    /// Drops the oldest retained snapshot.
    pub fn evict_front(&mut self)
        requires
            old(self).wf(),
            old(self).snaps@.len() >= 2,
        ensures
            final(self).wf(),
            final(self).window == old(self).window,
            final(self).start == old(self).start + 1,
            final(self).snaps@ == old(self).snaps@.skip(1),
    {
        self.snaps.remove(0);
        self.start = self.start + 1;
        assert(self.snaps@ =~= old(self).snaps@.skip(1));
    }
}

} // verus!
