//! The state model: the one place that holds the current snapshot.

use crate::model::{Snapshot, SnapshotView};
use vstd::prelude::*;

verus! {

/// Holds the snapshot committed last. The snapshot is only ever replaced as
/// a whole.
pub struct StateModel {
    current: Snapshot,
}

impl StateModel {
    /// The snapshot that the model holds.
    pub closed spec fn snapshot(&self) -> Snapshot {
        self.current
    }

    /// A model before the first refresh: it holds the empty snapshot.
    pub fn new() -> (r: StateModel)
        ensures
            r.snapshot()@ == SnapshotView::empty(),
    {
        StateModel { current: Snapshot::empty() }
    }

    /// The snapshot committed last, or the empty one before the first commit.
    pub fn current(&self) -> (r: &Snapshot)
        ensures
            *r == self.snapshot(),
    {
        &self.current
    }

    /// Replaces the current snapshot by `new`, all of it at once, and returns
    /// the snapshot that was current until now.
    pub fn commit(&mut self, new: Snapshot) -> (previous: Snapshot)
        ensures
            final(self).snapshot() == new,
            previous == old(self).snapshot(),
    {
        let mut taken = new;
        core::mem::swap(&mut self.current, &mut taken);
        taken
    }
}

} // verus!
