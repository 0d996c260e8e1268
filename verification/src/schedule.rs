//! The scheduler's decisions: what to do with each filesystem entry the
//! walker produces, and the bounded worker-pool discipline that caps how many
//! file tasks run at once.  The walking and the threads themselves live
//! outside this crate; the decisions and the bound's bookkeeping are here.

use vstd::prelude::*;

verus! {

/// One filesystem node, as the walker classifies it.
#[derive(Clone, Copy, PartialEq, Eq, Structural, Debug)]
pub enum EntryKind {
    File,
    Directory,
    Symlink,
}

/// What the scheduler does with one walker entry.
#[derive(Clone, Copy, PartialEq, Eq, Structural, Debug)]
pub enum EntryAction {
    ScanFile,
    CountDirectory,
    Ignore,
}

/// The dispatch rule: every regular file gets a scan task, a directory is
/// only counted, and a symlink is discarded before dispatch exactly when
/// `skip_symlinks` is set — otherwise it is scanned like a file.
pub fn classify_entry(kind: EntryKind, skip_symlinks: bool) -> (a: EntryAction)
    ensures
        kind is File ==> a is ScanFile,
        kind is Directory ==> a is CountDirectory,
        kind is Symlink && skip_symlinks ==> a is Ignore,
        kind is Symlink && !skip_symlinks ==> a is ScanFile,
{
    match kind {
        EntryKind::File => EntryAction::ScanFile,
        EntryKind::Directory => EntryAction::CountDirectory,
        EntryKind::Symlink => if skip_symlinks {
            EntryAction::Ignore
        } else {
            EntryAction::ScanFile
        },
    }
}

/// The bounded pool's bookkeeping: how many tasks are in flight against the
/// configured limit.  The fields are private, so in-flight tasks only come
/// and go through `begin_task` and `finish_task`, and `begin_task` demands a
/// free slot: a well-formed pool can never exceed its limit.
pub struct PoolState {
    limit: usize,
    active: usize,
}

impl PoolState {
    pub closed spec fn spec_limit(&self) -> usize {
        self.limit
    }

    pub closed spec fn spec_active(&self) -> usize {
        self.active
    }

    /// A pool is well formed when its in-flight count is within its (nonzero)
    /// limit.  Every transition below preserves this.
    pub closed spec fn wf(&self) -> bool {
        self.active <= self.limit && self.limit >= 1
    }

    /// Bounded concurrency: a well-formed pool never has more tasks in flight
    /// than its configured limit.
    pub proof fn lemma_pool_bounded(&self)
        requires
            self.wf(),
        ensures
            self.spec_active() <= self.spec_limit(),
            self.spec_limit() >= 1,
    {
    }

    pub fn new(limit: usize) -> (s: PoolState)
        requires
            limit >= 1,
        ensures
            s.wf(),
            s.spec_limit() == limit,
            s.spec_active() == 0,
    {
        PoolState { limit, active: 0 }
    }

    /// Whether one more task may be submitted without exceeding the limit.
    /// When this is false the scheduler must wait for a completion first.
    pub fn has_capacity(&self) -> (b: bool)
        ensures
            b <==> self.spec_active() < self.spec_limit(),
    {
        self.active < self.limit
    }

    /// Whether every dispatched task has completed.  The scheduler finalizes
    /// only once this holds after the walker is exhausted.
    pub fn all_idle(&self) -> (b: bool)
        ensures
            b <==> self.spec_active() == 0,
    {
        self.active == 0
    }

    /// Submits one task.  Only possible while a slot is free, so the bound is
    /// never exceeded.
    pub fn begin_task(&mut self)
        requires
            old(self).wf(),
            old(self).spec_active() < old(self).spec_limit(),
        ensures
            final(self).wf(),
            final(self).spec_active() == old(self).spec_active() + 1,
            final(self).spec_limit() == old(self).spec_limit(),
    {
        self.active = self.active + 1;
    }

    /// Retires one completed task, freeing its slot.
    pub fn finish_task(&mut self)
        requires
            old(self).wf(),
            old(self).spec_active() >= 1,
        ensures
            final(self).wf(),
            final(self).spec_active() == old(self).spec_active() - 1,
            final(self).spec_limit() == old(self).spec_limit(),
    {
        self.active = self.active - 1;
    }
}

} // verus!
