//! The life of a writable mapping wrapper: what backs it, what it was asked
//! to remove, and what its drop must still clean up.
//!
//! A wrapper is backed by a file on disk, by memory, or by nothing once it
//! was closed or removed. Removing it runs a [`DeletePhase`] removal; a
//! removal that fails is remembered and retried by the next `remove` or at
//! drop time, whether or not removal on drop was asked for. Drop-time
//! cleanup never unlinks a path whose identity it could not check.
use vstd::prelude::*;
use crate::error::Error;
use crate::identity::FileIdentity;
use crate::removal::{
    spec_retry, DeletePhase, DeleteResult, DeleteStep, PendingDelete, StepReport,
};

verus! {

/// What backs a writable mapping wrapper.
pub enum Backing<D, M> {
    /// Nothing: the wrapper was closed, frozen or removed.
    Empty,
    /// Bytes in memory; the path is only a label.
    Memory(M),
    /// A mapped file on disk.
    Disk(D),
}

/// The state of a wrapper, abstractly.
pub struct LifecycleView<P, D, M> {
    pub backing: Backing<D, M>,
    pub remove_on_drop: bool,
    pub deleted: bool,
    pub pending_drop_remove: Option<(P, PendingDelete)>,
    pub pending_remove_path: Option<P>,
}

/// The bookkeeping of a writable mapping wrapper over paths `P`, disk
/// mappings `D` and memory buffers `M`.
pub struct Lifecycle<P, D, M> {
    backing: Backing<D, M>,
    remove_on_drop: bool,
    deleted: bool,
    pending_drop_remove: Option<(P, PendingDelete)>,
    pending_remove_path: Option<P>,
}

impl<P, D, M> View for Lifecycle<P, D, M> {
    type V = LifecycleView<P, D, M>;

    closed spec fn view(&self) -> LifecycleView<P, D, M> {
        LifecycleView {
            backing: self.backing,
            remove_on_drop: self.remove_on_drop,
            deleted: self.deleted,
            pending_drop_remove: self.pending_drop_remove,
            pending_remove_path: self.pending_remove_path,
        }
    }
}

/// How a `remove` call starts.
pub enum RemoveStart<P, D> {
    /// Retry the removal that failed before, on its path, from this state.
    Retry(P, DeletePhase),
    /// First removal of this disk mapping: the caller drops its mapping and
    /// handle and runs [`DeletePhase::initial`] on its path and identity.
    Initial(D),
    /// Nothing on disk to remove; the wrapper counts as deleted.
    Done,
}

/// What a `close` must do before the wrapper lets go of its backing.
#[derive(Clone, Copy, Debug, PartialEq, Eq, Structural)]
pub enum CloseStep {
    /// Flush, truncate the file to this length and sync it, in place on the disk mapping.
    TruncateInPlace(u64),
    /// Flush the mapping.
    Flush,
    /// Nothing (a memory or empty backing asked to truncate).
    Nothing,
}

/// What dropping the wrapper must still do.
pub enum DropPlan<P, D> {
    /// Nothing.
    Nothing,
    /// Finish the removal that failed before (an explicit request).
    CompletePending(P, PendingDelete),
    /// Sync the parent directory of this path; its file is not checked, so it is not unlinked.
    SyncParentOf(P),
    /// Remove this disk mapping's file, checking its identity first.
    UnlinkDisk(D),
}

/// How a `remove` starts from state `s`, and the state it leaves.
pub open spec fn spec_begin_remove<P, D, M>(s: LifecycleView<P, D, M>) -> (
    RemoveStart<P, D>,
    LifecycleView<P, D, M>,
) {
    match s.pending_drop_remove {
        Some((path, pending)) => (
            RemoveStart::Retry(path, spec_retry(pending)),
            LifecycleView { pending_drop_remove: None, ..s },
        ),
        None => match s.backing {
            Backing::Disk(d) => (
                RemoveStart::Initial(d),
                LifecycleView { backing: Backing::Empty, ..s },
            ),
            _ => (RemoveStart::Done, LifecycleView { backing: Backing::Empty, deleted: true, ..s }),
        },
    }
}

/// The state after a removal on `path` ended with `result`.
pub open spec fn spec_finish_remove<P, D, M>(
    s: LifecycleView<P, D, M>,
    path: P,
    result: DeleteResult,
) -> LifecycleView<P, D, M> {
    match result {
        Ok(()) => LifecycleView { deleted: true, ..s },
        Err((pending, _)) => LifecycleView { pending_drop_remove: Some((path, pending)), ..s },
    }
}

/// What dropping in state `s` must do, and the state it leaves.
pub open spec fn spec_plan_drop<P, D, M>(s: LifecycleView<P, D, M>) -> (
    DropPlan<P, D>,
    LifecycleView<P, D, M>,
) {
    if s.deleted {
        (DropPlan::Nothing, s)
    } else if let Some((path, pending)) = s.pending_drop_remove {
        (DropPlan::CompletePending(path, pending), LifecycleView { pending_drop_remove: None, ..s })
    } else if s.remove_on_drop {
        if s.pending_remove_path is Some {
            (
                DropPlan::SyncParentOf(s.pending_remove_path->0),
                LifecycleView { pending_remove_path: None, ..s },
            )
        } else if s.backing is Disk {
            (DropPlan::UnlinkDisk(s.backing->Disk_0), LifecycleView { backing: Backing::Empty, ..s })
        } else {
            (DropPlan::Nothing, s)
        }
    } else {
        (DropPlan::Nothing, s)
    }
}

/// What a `close` with final length `max_sz` (negative: keep it) comes to
/// for a mapping that is copy-on-write when `cow`.
pub open spec fn spec_plan_close<D, M>(backing: Backing<D, M>, max_sz: i64, cow: bool) -> Result<
    CloseStep,
    Error,
> {
    if max_sz >= 0 && cow {
        Err(Error::CopyOnWrite)
    } else if max_sz >= 0 {
        if backing is Disk {
            Ok(CloseStep::TruncateInPlace(max_sz as u64))
        } else {
            Ok(CloseStep::Nothing)
        }
    } else {
        Ok(CloseStep::Flush)
    }
}

impl<P, D, M> Lifecycle<P, D, M> {
    /// A wrapper over `backing`, with nothing pending and no removal on drop.
    pub fn new(backing: Backing<D, M>) -> (l: Lifecycle<P, D, M>)
        ensures
            l@ == (LifecycleView::<P, D, M> {
                backing,
                remove_on_drop: false,
                deleted: false,
                pending_drop_remove: None,
                pending_remove_path: None,
            }),
    {
        Lifecycle {
            backing,
            remove_on_drop: false,
            deleted: false,
            pending_drop_remove: None,
            pending_remove_path: None,
        }
    }

    /// What backs the wrapper.
    pub fn backing(&self) -> (b: &Backing<D, M>)
        ensures
            *b == self@.backing,
    {
        &self.backing
    }

    /// What backs the wrapper, for changes in place.
    pub fn backing_mut(&mut self) -> (b: &mut Backing<D, M>)
        ensures
            *b == old(self)@.backing,
            final(self)@ == (LifecycleView { backing: *final(b), ..old(self)@ }),
    {
        &mut self.backing
    }

    /// Lets go of the backing, leaving the wrapper empty, and hands it over.
    pub fn take_backing(&mut self) -> (b: Backing<D, M>)
        ensures
            b == old(self)@.backing,
            final(self)@ == (LifecycleView { backing: Backing::Empty, ..old(self)@ }),
    {
        let mut b = Backing::Empty;
        core::mem::swap(&mut b, &mut self.backing);
        b
    }

    /// Whether the file is removed when the wrapper is dropped.
    pub fn get_remove_on_drop(&self) -> (b: bool)
        ensures
            b == self@.remove_on_drop,
    {
        self.remove_on_drop
    }

    /// Sets whether the file is removed when the wrapper is dropped.
    pub fn set_remove_on_drop(&mut self, val: bool)
        ensures
            final(self)@ == (LifecycleView { remove_on_drop: val, ..old(self)@ }),
    {
        self.remove_on_drop = val;
    }

    /// Whether a removal went through.
    pub fn is_deleted(&self) -> (b: bool)
        ensures
            b == self@.deleted,
    {
        self.deleted
    }

    /// The removal that failed and is still to be finished, if any.
    pub fn pending(&self) -> (p: Option<&(P, PendingDelete)>)
        ensures
            p == (match self@.pending_drop_remove {
                Some(x) => Some(&x),
                None => None,
            }),
    {
        match &self.pending_drop_remove {
            Some(x) => Some(x),
            None => None,
        }
    }

    /// Starts a `remove`: retries a pending removal, else lets go of a disk
    /// backing for a first removal, else counts the wrapper as deleted.
    pub fn begin_remove(&mut self) -> (r: RemoveStart<P, D>)
        ensures
            (r, final(self)@) == spec_begin_remove(old(self)@),
    {
        match self.pending_drop_remove.take() {
            Some((path, pending)) => RemoveStart::Retry(path, DeletePhase::retry(pending)),
            None => match self.take_backing() {
                Backing::Disk(d) => RemoveStart::Initial(d),
                _ => {
                    self.deleted = true;
                    RemoveStart::Done
                },
            },
        }
    }

    /// Starts a consuming `drop_remove`: lets go of the backing and hands
    /// over a disk mapping for a first removal; any other backing counts
    /// as deleted at once.
    pub fn begin_drop_remove(&mut self) -> (r: Option<D>)
        ensures
            match old(self)@.backing {
                Backing::Disk(d) => r == Some(d) && final(self)@ == (LifecycleView {
                    backing: Backing::Empty,
                    ..old(self)@
                }),
                _ => r is None && final(self)@ == (LifecycleView {
                    backing: Backing::Empty,
                    deleted: true,
                    ..old(self)@
                }),
            },
    {
        match self.take_backing() {
            Backing::Disk(d) => Some(d),
            _ => {
                self.deleted = true;
                None
            },
        }
    }

    /// Records how a removal of `path` ended: success marks the wrapper
    /// deleted; failure keeps the pending removal for a retry or for drop,
    /// and gives back the error.
    pub fn finish_remove(&mut self, path: P, result: DeleteResult) -> (r: Result<(), Error>)
        ensures
            final(self)@ == spec_finish_remove(old(self)@, path, result),
            match result {
                Ok(()) => r is Ok,
                Err((_, e)) => r == Err::<(), Error>(e),
            },
    {
        match result {
            Ok(()) => {
                self.deleted = true;
                Ok(())
            },
            Err((pending, e)) => {
                self.pending_drop_remove = Some((path, pending));
                Err(e)
            },
        }
    }

    /// Decides what a `close` with final length `max_sz` (negative: keep
    /// the length) must do first; `cow` says whether the mapping is copy-on-write.
    pub fn plan_close(&self, max_sz: i64, cow: bool) -> (r: Result<CloseStep, Error>)
        ensures
            r == spec_plan_close(self@.backing, max_sz, cow),
    {
        if max_sz >= 0 && cow {
            Err(Error::CopyOnWrite)
        } else if max_sz >= 0 {
            match self.backing {
                Backing::Disk(_) => Ok(CloseStep::TruncateInPlace(max_sz as u64)),
                _ => Ok(CloseStep::Nothing),
            }
        } else {
            Ok(CloseStep::Flush)
        }
    }

    /// Keeps `path` so that an opted-in removal on drop still syncs its
    /// parent after the backing is gone; an empty path (`None`) is not kept.
    pub fn keep_path_for_drop(&mut self, path: Option<P>)
        ensures
            final(self)@ == (match path {
                Some(p) => LifecycleView { pending_remove_path: Some(p), ..old(self)@ },
                None => old(self)@,
            }),
    {
        if let Some(p) = path {
            self.pending_remove_path = Some(p);
        }
    }

    /// Decides what dropping the wrapper must still do.
    pub fn plan_drop(&mut self) -> (plan: DropPlan<P, D>)
        ensures
            (plan, final(self)@) == spec_plan_drop(old(self)@),
    {
        if self.deleted {
            return DropPlan::Nothing;
        }
        if let Some((path, pending)) = self.pending_drop_remove.take() {
            return DropPlan::CompletePending(path, pending);
        }
        if self.remove_on_drop {
            if let Some(path) = self.pending_remove_path.take() {
                return DropPlan::SyncParentOf(path);
            }
            if let Backing::Disk(_) = self.backing {
                if let Backing::Disk(d) = self.take_backing() {
                    return DropPlan::UnlinkDisk(d);
                }
            }
        }
        DropPlan::Nothing
    }
}

/// Once a removal went through, dropping the wrapper does nothing more.
pub proof fn law_drop_after_delete_is_noop<P, D, M>(s: LifecycleView<P, D, M>)
    requires
        s.deleted,
    ensures
        spec_plan_drop(s).0 is Nothing,
{
}

/// A removal that failed is finished at drop time, whether or not removal
/// on drop was asked for.
pub proof fn law_failed_remove_is_retried_on_drop<P, D, M>(
    s: LifecycleView<P, D, M>,
    path: P,
    pending: PendingDelete,
    e: Error,
)
    requires
        !s.deleted,
    ensures
        spec_plan_drop(spec_finish_remove(s, path, Err((pending, e)))).0 == DropPlan::<
            P,
            D,
        >::CompletePending(path, pending),
{
}

/// Dropping a wrapper backed by memory (or by nothing) never removes a
/// file: its path is only a label.
pub proof fn law_memory_label_never_removed<P, D, M>(s: LifecycleView<P, D, M>)
    requires
        !(s.backing is Disk),
        s.pending_drop_remove is None,
    ensures
        !(spec_plan_drop(s).0 is UnlinkDisk),
        !(spec_plan_drop(s).0 is CompletePending),
{
}

/// A path kept after the backing was lost is only synced at drop time,
/// never unlinked.
pub proof fn law_kept_path_is_only_synced<P, D, M>(s: LifecycleView<P, D, M>)
    requires
        !s.deleted,
        s.pending_drop_remove is None,
        s.remove_on_drop,
        s.pending_remove_path is Some,
    ensures
        spec_plan_drop(s).0 == DropPlan::<P, D>::SyncParentOf(s.pending_remove_path->0),
{
}

/// Dropping removes or syncs nothing unless asked to: without removal on
/// drop and without a failed removal pending, the plan is to do nothing
/// and the wrapper is left as it was, whatever backs it (a file on disk
/// included). A file is unlinked at drop only when removal on drop was set.
pub proof fn law_drop_removes_only_when_asked<P, D, M>(s: LifecycleView<P, D, M>)
    ensures
        !s.remove_on_drop && s.pending_drop_remove is None ==> spec_plan_drop(s).0 is Nothing
            && spec_plan_drop(s).1 == s,
        spec_plan_drop(s).0 is UnlinkDisk ==> s.remove_on_drop && !s.deleted && s.backing is Disk
            && s.pending_drop_remove is None && s.pending_remove_path is None,
        spec_plan_drop(s).0 is SyncParentOf ==> s.remove_on_drop && !s.deleted,
{
}

/// A copy-on-write mapping is never truncated on close.
pub proof fn law_cow_close_refused<D, M>(backing: Backing<D, M>, max_sz: i64)
    requires
        max_sz >= 0,
    ensures
        spec_plan_close(backing, max_sz, true) == Err::<CloseStep, Error>(Error::CopyOnWrite),
{
}

/// The state of a drop-time cleanup. Every error is swallowed: a drop
/// cannot report one.
#[derive(Clone, Copy, Debug, PartialEq, Eq, Structural)]
pub enum CleanupPhase {
    /// Open the parent directory of the file with this identity.
    OpenParent(FileIdentity),
    /// Probe the path for the file with this identity.
    Probe(FileIdentity),
    /// Unlink the path (its identity matched).
    Unlink,
    /// Sync the parent through the handle opened before, or kept from the
    /// removal that left a pending parent sync.
    SyncHandle,
    /// Sync the parent directory (or the current one) by path.
    SyncPath,
}

/// The first state of the cleanup that finishes `pending`: a pending unlink
/// is checked and unlinked only while a handle pins the file's number
/// (`pinned`), else only the parent is synced; a pending parent sync syncs
/// the parent handle kept from the removal.
pub open spec fn spec_cleanup_for_pending(pending: PendingDelete, pinned: bool) -> CleanupPhase {
    match pending {
        PendingDelete::NeedsUnlink(id) => if pinned {
            CleanupPhase::OpenParent(id)
        } else {
            CleanupPhase::SyncPath
        },
        PendingDelete::NeedsParentSync => CleanupPhase::SyncHandle,
    }
}

/// The first state of the cleanup that removes a file of identity `id` on
/// drop: identity-checked while `pinned`, else only a parent sync.
pub open spec fn spec_cleanup_for_unlink(id: FileIdentity, pinned: bool) -> CleanupPhase {
    if pinned {
        CleanupPhase::OpenParent(id)
    } else {
        CleanupPhase::SyncPath
    }
}

/// The step a cleanup state asks for.
pub open spec fn spec_cleanup_step(p: CleanupPhase) -> DeleteStep {
    match p {
        CleanupPhase::OpenParent(_) => DeleteStep::OpenParent,
        CleanupPhase::Probe(_) => DeleteStep::ProbePath,
        CleanupPhase::Unlink => DeleteStep::Unlink,
        CleanupPhase::SyncHandle => DeleteStep::SyncParentHandle,
        CleanupPhase::SyncPath => DeleteStep::SyncParentPath,
    }
}

/// The transition of a cleanup; `None` when it is over.
pub open spec fn spec_cleanup_advance(p: CleanupPhase, report: StepReport) -> Option<CleanupPhase> {
    match p {
        CleanupPhase::OpenParent(id) => match report {
            StepReport::Failed(_) => Some(CleanupPhase::SyncPath),
            _ => Some(CleanupPhase::Probe(id)),
        },
        CleanupPhase::Probe(id) => match report {
            StepReport::Identity(found) => if found == id {
                Some(CleanupPhase::Unlink)
            } else {
                Some(CleanupPhase::SyncHandle)
            },
            _ => Some(CleanupPhase::SyncHandle),
        },
        CleanupPhase::Unlink => Some(CleanupPhase::SyncHandle),
        CleanupPhase::SyncHandle => None,
        CleanupPhase::SyncPath => None,
    }
}

impl CleanupPhase {
    /// The cleanup that finishes a removal left `pending`; `pinned` says
    /// whether a handle on the file still keeps its number from being reused.
    pub fn for_pending(pending: PendingDelete, pinned: bool) -> (p: CleanupPhase)
        ensures
            p == spec_cleanup_for_pending(pending, pinned),
    {
        match pending {
            PendingDelete::NeedsUnlink(id) => if pinned {
                CleanupPhase::OpenParent(id)
            } else {
                CleanupPhase::SyncPath
            },
            PendingDelete::NeedsParentSync => CleanupPhase::SyncHandle,
        }
    }

    /// The cleanup that removes a file of identity `id` on drop. Without a
    /// handle that keeps the file's number from being reused
    /// (`pinned == false`), the identity check proves nothing, so the
    /// cleanup only syncs the parent.
    pub fn for_unlink(id: FileIdentity, pinned: bool) -> (p: CleanupPhase)
        ensures
            p == spec_cleanup_for_unlink(id, pinned),
    {
        if pinned {
            CleanupPhase::OpenParent(id)
        } else {
            CleanupPhase::SyncPath
        }
    }

    /// The step this state asks the caller to perform.
    pub fn step(&self) -> (s: DeleteStep)
        ensures
            s == spec_cleanup_step(*self),
    {
        match self {
            CleanupPhase::OpenParent(_) => DeleteStep::OpenParent,
            CleanupPhase::Probe(_) => DeleteStep::ProbePath,
            CleanupPhase::Unlink => DeleteStep::Unlink,
            CleanupPhase::SyncHandle => DeleteStep::SyncParentHandle,
            CleanupPhase::SyncPath => DeleteStep::SyncParentPath,
        }
    }

    /// Takes the report of this state's step and gives the next state, or
    /// `None` when the cleanup is over.
    pub fn advance(&self, report: StepReport) -> (next: Option<CleanupPhase>)
        ensures
            next == spec_cleanup_advance(*self, report),
    {
        match *self {
            CleanupPhase::OpenParent(id) => match report {
                StepReport::Failed(_) => Some(CleanupPhase::SyncPath),
                _ => Some(CleanupPhase::Probe(id)),
            },
            CleanupPhase::Probe(id) => match report {
                StepReport::Identity(found) => if found.is_known_equal(&id) {
                    Some(CleanupPhase::Unlink)
                } else {
                    Some(CleanupPhase::SyncHandle)
                },
                _ => Some(CleanupPhase::SyncHandle),
            },
            CleanupPhase::Unlink => Some(CleanupPhase::SyncHandle),
            CleanupPhase::SyncHandle => None,
            CleanupPhase::SyncPath => None,
        }
    }
}

/// The steps a cleanup started in state `p` performs while `reports` answer them.
pub open spec fn cleanup_steps(p: CleanupPhase, reports: Seq<StepReport>) -> Seq<DeleteStep>
    decreases reports.len(),
{
    if reports.len() == 0 {
        Seq::empty()
    } else {
        seq![spec_cleanup_step(p)] + match spec_cleanup_advance(p, reports[0]) {
            Some(q) => cleanup_steps(q, reports.drop_first()),
            None => Seq::empty(),
        }
    }
}

proof fn lemma_cleanup_steps_len(p: CleanupPhase, reports: Seq<StepReport>)
    ensures
        cleanup_steps(p, reports).len() <= reports.len(),
    decreases reports.len(),
{
    if reports.len() > 0 {
        match spec_cleanup_advance(p, reports[0]) {
            Some(q) => lemma_cleanup_steps_len(q, reports.drop_first()),
            None => {},
        }
    }
}

proof fn lemma_cleanup_gated(p: CleanupPhase, id: FileIdentity, reports: Seq<StepReport>, k: int)
    requires
        p == CleanupPhase::OpenParent(id) || p == CleanupPhase::Probe(id),
        0 <= k < cleanup_steps(p, reports).len(),
        cleanup_steps(p, reports)[k] == DeleteStep::Unlink,
    ensures
        exists|j: int| 0 <= j < k && reports[j] == StepReport::Identity(id),
    decreases reports.len(),
{
    lemma_cleanup_steps_len(p, reports);
    let rest = reports.drop_first();
    match spec_cleanup_advance(p, reports[0]) {
        Some(q) => {
            let tail = cleanup_steps(q, rest);
            assert(cleanup_steps(p, reports) == seq![spec_cleanup_step(p)] + tail);
            assert(k >= 1);
            assert(tail[k - 1] == DeleteStep::Unlink);
            if q == CleanupPhase::Probe(id) {
                lemma_cleanup_gated(q, id, rest, k - 1);
                let j = choose|j: int| 0 <= j < k - 1 && rest[j] == StepReport::Identity(id);
                assert(reports[j + 1] == rest[j]);
            } else if q == CleanupPhase::Unlink {
                assert(reports[0] == StepReport::Identity(id));
            } else {
                // From a sync state the cleanup only syncs once more.
                assert(spec_cleanup_advance(q, rest[0]) is None);
                assert(tail =~= seq![spec_cleanup_step(q)]);
            }
        },
        None => {},
    }
}

/// Drop-time cleanup unlinks only after a probe found the very file the
/// wrapper was opened on at the path.
pub proof fn law_cleanup_unlinks_only_after_match(
    id: FileIdentity,
    reports: Seq<StepReport>,
    k: int,
)
    requires
        0 <= k < cleanup_steps(CleanupPhase::OpenParent(id), reports).len(),
        cleanup_steps(CleanupPhase::OpenParent(id), reports)[k] == DeleteStep::Unlink,
    ensures
        exists|j: int| 0 <= j < k && reports[j] == StepReport::Identity(id),
{
    lemma_cleanup_gated(CleanupPhase::OpenParent(id), id, reports, k);
}

/// A cleanup that starts by syncing by path does only that.
pub proof fn law_path_sync_cleanup_never_unlinks(reports: Seq<StepReport>)
    requires
        reports.len() > 0,
    ensures
        cleanup_steps(CleanupPhase::SyncPath, reports) == seq![DeleteStep::SyncParentPath],
{
    assert(cleanup_steps(CleanupPhase::SyncPath, reports) =~= seq![DeleteStep::SyncParentPath]);
}

/// Drop-time cleanup of a pending parent sync syncs the parent handle kept
/// from the removal, and does nothing else: no sync by path, no unlink.
pub proof fn law_pending_parent_sync_uses_kept_handle(pinned: bool, reports: Seq<StepReport>)
    requires
        reports.len() > 0,
    ensures
        cleanup_steps(spec_cleanup_for_pending(PendingDelete::NeedsParentSync, pinned), reports)
            == seq![DeleteStep::SyncParentHandle],
{
    assert(cleanup_steps(CleanupPhase::SyncHandle, reports) =~= seq![
        DeleteStep::SyncParentHandle,
    ]);
}

/// Without a handle pinning the file's number, drop-time cleanup of a
/// pending unlink never unlinks: an identity check could match a reused
/// number, so only the parent is synced.
pub proof fn law_unpinned_cleanup_never_unlinks(id: FileIdentity, reports: Seq<StepReport>)
    requires
        reports.len() > 0,
    ensures
        cleanup_steps(spec_cleanup_for_pending(PendingDelete::NeedsUnlink(id), false), reports)
            == seq![DeleteStep::SyncParentPath],
        cleanup_steps(spec_cleanup_for_unlink(id, false), reports) == seq![
            DeleteStep::SyncParentPath,
        ],
{
    assert(cleanup_steps(CleanupPhase::SyncPath, reports) =~= seq![DeleteStep::SyncParentPath]);
}

} // verus!
