//! The durable, path-reuse-safe removal of a mapped file.
//!
//! Removing a file is a sequence of filesystem steps: open the parent
//! directory, probe the identity of the entry the path names in it
//! (without following a symlink), unlink that entry, and sync the parent
//! through the handle opened first, so the unlink survives a crash even if
//! the parent was renamed meanwhile. The decisions between the steps are
//! made here; the caller performs each [`DeleteStep`] and reports how it went.
//!
//! A removal that fails leaves a [`PendingDelete`] behind that says what a
//! retry must do: `NeedsUnlink` while the unlink has not been seen to go
//! through in the parent that is then synced (a missing file included: the
//! retry runs the whole sequence again), `NeedsParentSync` once it has, so
//! that a retry only syncs the kept parent handle and never unlinks again a
//! path that another file may have taken since.
use vstd::prelude::*;
use crate::error::{Error, ErrorKind};
use crate::identity::FileIdentity;

verus! {

/// A filesystem step of a removal, performed by the caller.
#[derive(Clone, Copy, Debug, PartialEq, Eq, Structural)]
pub enum DeleteStep {
    /// Open a handle on the path's parent directory.
    OpenParent,
    /// Probe, through the parent handle and without following a symlink,
    /// the identity of the entry the path names.
    ProbePath,
    /// Unlink the entry through the parent handle.
    Unlink,
    /// Sync the parent directory through the handle opened for this
    /// removal (kept by the caller across retries).
    SyncParentHandle,
    /// Sync the parent directory by its path (drop-time fallback only).
    SyncParentPath,
}

/// How a step went.
#[derive(Clone, Copy, Debug, PartialEq, Eq, Structural)]
pub enum StepReport {
    /// The step succeeded.
    Done,
    /// A probe succeeded and found a file with this identity.
    Identity(FileIdentity),
    /// A probe found a symlink at the path.
    Symlink,
    /// The step failed with an error of this kind.
    Failed(ErrorKind),
}

/// What a failed removal leaves for a retry.
#[derive(Clone, Copy, Debug, PartialEq, Eq, Structural)]
pub enum PendingDelete {
    /// The unlink was not seen to go through: a retry opens the parent,
    /// checks the identity, unlinks and syncs the parent.
    NeedsUnlink(FileIdentity),
    /// The unlink went through but the sync of the parent did not: a retry
    /// only syncs the parent handle opened before the unlink, which the
    /// caller keeps, and never unlinks again.
    NeedsParentSync,
}

/// The state of a removal between two steps.
#[derive(Clone, Copy, Debug, PartialEq, Eq, Structural)]
pub enum DeletePhase {
    /// Open the parent directory.
    OpenParent(FileIdentity),
    /// Probe the path through the parent handle.
    Probe(FileIdentity),
    /// Unlink (the identity matched).
    Unlink(FileIdentity),
    /// Sync the parent handle after the unlink.
    SyncParent(FileIdentity),
    /// Retry of `NeedsParentSync`: sync the kept parent handle.
    SyncKeptParent,
}

/// The result of a whole removal: success, or what is left to do and the error.
pub type DeleteResult = Result<(), (PendingDelete, Error)>;

/// Where a removal stands after a report: the next state, or the end.
#[derive(Clone, Copy, Debug, PartialEq, Eq)]
pub enum DeleteProgress {
    /// Perform the step of this state next.
    Continue(DeletePhase),
    /// The removal is over.
    Finished(DeleteResult),
}

/// The step that a state asks for.
pub open spec fn spec_step(p: DeletePhase) -> DeleteStep {
    match p {
        DeletePhase::OpenParent(_) => DeleteStep::OpenParent,
        DeletePhase::Probe(_) => DeleteStep::ProbePath,
        DeletePhase::Unlink(_) => DeleteStep::Unlink,
        DeletePhase::SyncParent(_) => DeleteStep::SyncParentHandle,
        DeletePhase::SyncKeptParent => DeleteStep::SyncParentHandle,
    }
}

/// The first state of a retry of `pending`: a retry of `NeedsUnlink` runs
/// the whole sequence again.
pub open spec fn spec_retry(pending: PendingDelete) -> DeletePhase {
    match pending {
        PendingDelete::NeedsUnlink(id) => DeletePhase::OpenParent(id),
        PendingDelete::NeedsParentSync => DeletePhase::SyncKeptParent,
    }
}

/// A failure that leaves the file for a retry to unlink.
pub open spec fn needs_unlink(id: FileIdentity, e: Error) -> DeleteProgress {
    DeleteProgress::Finished(Err((PendingDelete::NeedsUnlink(id), e)))
}

/// A failure that leaves only the parent sync for a retry.
pub open spec fn needs_parent_sync(e: Error) -> DeleteProgress {
    DeleteProgress::Finished(Err((PendingDelete::NeedsParentSync, e)))
}

/// The transition of the removal: from a state and the report of its step
/// to the next state or the result. Every failure before the unlink went
/// through, a missing file included, keeps the unlink pending. A probe that
/// finds a symlink, or another file, refuses the unlink. A report of the
/// wrong shape counts as what is safe: a probe without an identity does
/// not match, any other step with an identity or a symlink succeeded.
pub open spec fn spec_advance(p: DeletePhase, report: StepReport) -> DeleteProgress {
    match p {
        DeletePhase::OpenParent(id) => match report {
            StepReport::Failed(k) => needs_unlink(id, Error::Io(k)),
            _ => DeleteProgress::Continue(DeletePhase::Probe(id)),
        },
        DeletePhase::Probe(id) => match report {
            StepReport::Identity(found) => if found == id {
                DeleteProgress::Continue(DeletePhase::Unlink(id))
            } else {
                needs_unlink(id, Error::PathReused)
            },
            StepReport::Symlink => needs_unlink(id, Error::SymlinkRefused),
            StepReport::Failed(k) => needs_unlink(id, Error::Io(k)),
            StepReport::Done => needs_unlink(id, Error::PathReused),
        },
        DeletePhase::Unlink(id) => match report {
            StepReport::Failed(k) => needs_unlink(id, Error::Io(k)),
            _ => DeleteProgress::Continue(DeletePhase::SyncParent(id)),
        },
        DeletePhase::SyncParent(_) => match report {
            StepReport::Failed(k) => needs_parent_sync(Error::Io(k)),
            _ => DeleteProgress::Finished(Ok(())),
        },
        DeletePhase::SyncKeptParent => match report {
            StepReport::Failed(k) => needs_parent_sync(Error::Io(k)),
            _ => DeleteProgress::Finished(Ok(())),
        },
    }
}

impl DeletePhase {
    /// The first state of a first removal attempt of the file with identity `id`.
    pub fn initial(id: FileIdentity) -> (p: DeletePhase)
        ensures
            p == DeletePhase::OpenParent(id),
    {
        DeletePhase::OpenParent(id)
    }

    /// The first state of a retry of `pending`.
    pub fn retry(pending: PendingDelete) -> (p: DeletePhase)
        ensures
            p == spec_retry(pending),
    {
        match pending {
            PendingDelete::NeedsUnlink(id) => DeletePhase::OpenParent(id),
            PendingDelete::NeedsParentSync => DeletePhase::SyncKeptParent,
        }
    }

    /// The step this state asks the caller to perform.
    pub fn step(&self) -> (s: DeleteStep)
        ensures
            s == spec_step(*self),
    {
        match self {
            DeletePhase::OpenParent(_) => DeleteStep::OpenParent,
            DeletePhase::Probe(_) => DeleteStep::ProbePath,
            DeletePhase::Unlink(_) => DeleteStep::Unlink,
            DeletePhase::SyncParent(_) => DeleteStep::SyncParentHandle,
            DeletePhase::SyncKeptParent => DeleteStep::SyncParentHandle,
        }
    }

    /// Takes the report of this state's step and gives the next state or
    /// the result of the removal.
    pub fn advance(&self, report: StepReport) -> (next: DeleteProgress)
        ensures
            next == spec_advance(*self, report),
    {
        match *self {
            DeletePhase::OpenParent(id) => match report {
                StepReport::Failed(k) => DeleteProgress::Finished(
                    Err((PendingDelete::NeedsUnlink(id), Error::Io(k))),
                ),
                _ => DeleteProgress::Continue(DeletePhase::Probe(id)),
            },
            DeletePhase::Probe(id) => match report {
                StepReport::Identity(found) => if found.is_known_equal(&id) {
                    DeleteProgress::Continue(DeletePhase::Unlink(id))
                } else {
                    DeleteProgress::Finished(
                        Err((PendingDelete::NeedsUnlink(id), Error::PathReused)),
                    )
                },
                StepReport::Symlink => DeleteProgress::Finished(
                    Err((PendingDelete::NeedsUnlink(id), Error::SymlinkRefused)),
                ),
                StepReport::Failed(k) => DeleteProgress::Finished(
                    Err((PendingDelete::NeedsUnlink(id), Error::Io(k))),
                ),
                StepReport::Done => DeleteProgress::Finished(
                    Err((PendingDelete::NeedsUnlink(id), Error::PathReused)),
                ),
            },
            DeletePhase::Unlink(id) => match report {
                StepReport::Failed(k) => DeleteProgress::Finished(
                    Err((PendingDelete::NeedsUnlink(id), Error::Io(k))),
                ),
                _ => DeleteProgress::Continue(DeletePhase::SyncParent(id)),
            },
            DeletePhase::SyncParent(_) => match report {
                StepReport::Failed(k) => DeleteProgress::Finished(
                    Err((PendingDelete::NeedsParentSync, Error::Io(k))),
                ),
                _ => DeleteProgress::Finished(Ok(())),
            },
            DeletePhase::SyncKeptParent => match report {
                StepReport::Failed(k) => DeleteProgress::Finished(
                    Err((PendingDelete::NeedsParentSync, Error::Io(k))),
                ),
                _ => DeleteProgress::Finished(Ok(())),
            },
        }
    }
}

/// Where a removal started in state `p` stands after the steps answered by `reports`.
pub open spec fn run(p: DeletePhase, reports: Seq<StepReport>) -> DeleteProgress
    decreases reports.len(),
{
    if reports.len() == 0 {
        DeleteProgress::Continue(p)
    } else {
        match spec_advance(p, reports[0]) {
            DeleteProgress::Continue(q) => run(q, reports.drop_first()),
            done => done,
        }
    }
}

/// The steps performed by a removal started in state `p` while `reports`
/// answer them, one report per step.
pub open spec fn steps_taken(p: DeletePhase, reports: Seq<StepReport>) -> Seq<DeleteStep>
    decreases reports.len(),
{
    if reports.len() == 0 {
        Seq::empty()
    } else {
        seq![spec_step(p)] + match spec_advance(p, reports[0]) {
            DeleteProgress::Continue(q) => steps_taken(q, reports.drop_first()),
            _ => Seq::empty(),
        }
    }
}

/// The states in which the identity has not been checked yet.
pub open spec fn unchecked(p: DeletePhase) -> bool {
    p is OpenParent || p is Probe
}

/// The identity a state works for.
pub open spec fn identity_of(p: DeletePhase) -> FileIdentity {
    match p {
        DeletePhase::OpenParent(id) => id,
        DeletePhase::Probe(id) => id,
        DeletePhase::Unlink(id) => id,
        DeletePhase::SyncParent(id) => id,
        DeletePhase::SyncKeptParent => FileIdentity { dev: 0, ino: 0 },
    }
}

proof fn lemma_steps_len(p: DeletePhase, reports: Seq<StepReport>)
    ensures
        steps_taken(p, reports).len() <= reports.len(),
        reports.len() > 0 ==> steps_taken(p, reports).len() >= 1 && steps_taken(p, reports)[0]
            == spec_step(p),
    decreases reports.len(),
{
    if reports.len() > 0 {
        match spec_advance(p, reports[0]) {
            DeleteProgress::Continue(q) => lemma_steps_len(q, reports.drop_first()),
            _ => {},
        }
    }
}

proof fn lemma_unlink_gated(p: DeletePhase, reports: Seq<StepReport>, k: int)
    requires
        unchecked(p),
        0 <= k < steps_taken(p, reports).len(),
        steps_taken(p, reports)[k] == DeleteStep::Unlink,
    ensures
        exists|j: int| 0 <= j < k && reports[j] == StepReport::Identity(identity_of(p)),
    decreases reports.len(),
{
    lemma_steps_len(p, reports);
    let rest = reports.drop_first();
    match spec_advance(p, reports[0]) {
        DeleteProgress::Continue(q) => {
            let tail = steps_taken(q, rest);
            assert(steps_taken(p, reports) == seq![spec_step(p)] + tail);
            assert(k >= 1);
            assert(tail[k - 1] == DeleteStep::Unlink);
            if unchecked(q) {
                lemma_unlink_gated(q, rest, k - 1);
                let j = choose|j: int| 0 <= j < k - 1 && rest[j] == StepReport::Identity(identity_of(q));
                assert(reports[j + 1] == rest[j]);
            } else {
                assert(reports[0] == StepReport::Identity(identity_of(p)));
            }
        },
        _ => {},
    }
}

proof fn lemma_no_path_sync(p: DeletePhase, reports: Seq<StepReport>)
    ensures
        forall|k: int|
            0 <= k < steps_taken(p, reports).len() ==> steps_taken(p, reports)[k]
                != DeleteStep::SyncParentPath,
    decreases reports.len(),
{
    if reports.len() > 0 {
        match spec_advance(p, reports[0]) {
            DeleteProgress::Continue(q) => {
                lemma_no_path_sync(q, reports.drop_first());
                let tail = steps_taken(q, reports.drop_first());
                assert(steps_taken(p, reports) == seq![spec_step(p)] + tail);
                assert forall|k: int| 0 <= k < steps_taken(p, reports).len() implies steps_taken(
                    p,
                    reports,
                )[k] != DeleteStep::SyncParentPath by {
                    if k > 0 {
                        assert(steps_taken(p, reports)[k] == tail[k - 1]);
                    }
                };
            },
            _ => {
                assert(steps_taken(p, reports) =~= seq![spec_step(p)]);
            },
        }
    }
}

/// Path-reuse safety: a removal, first attempt or retry, unlinks only after
/// a probe found the very file it was opened on at the path.
pub proof fn law_unlink_only_after_identity_match(
    pending: PendingDelete,
    reports: Seq<StepReport>,
    k: int,
)
    requires
        0 <= k < steps_taken(spec_retry(pending), reports).len(),
        steps_taken(spec_retry(pending), reports)[k] == DeleteStep::Unlink,
    ensures
        pending matches PendingDelete::NeedsUnlink(id) && exists|j: int|
            0 <= j < k && reports[j] == StepReport::Identity(id),
{
    match pending {
        PendingDelete::NeedsUnlink(id) => {
            lemma_unlink_gated(DeletePhase::OpenParent(id), reports, k);
        },
        PendingDelete::NeedsParentSync => {
            assert(reports.len() > 0);
            assert(steps_taken(DeletePhase::SyncKeptParent, reports) =~= seq![
                DeleteStep::SyncParentHandle,
            ]);
        },
    }
}

/// The parent is only ever synced through the handle opened for the
/// removal, never by a path lookup that a rename could redirect: no
/// removal, first attempt or retry, asks for a sync by path.
pub proof fn law_removal_never_syncs_by_path(p: DeletePhase, reports: Seq<StepReport>)
    ensures
        forall|k: int|
            0 <= k < steps_taken(p, reports).len() ==> steps_taken(p, reports)[k]
                != DeleteStep::SyncParentPath,
{
    lemma_no_path_sync(p, reports);
}

/// A retry of `NeedsParentSync` only syncs the kept parent handle: it
/// never unlinks, so it cannot remove a file that took the path after the
/// first unlink.
pub proof fn law_parent_sync_retry_never_unlinks(reports: Seq<StepReport>)
    requires
        reports.len() > 0,
    ensures
        steps_taken(spec_retry(PendingDelete::NeedsParentSync), reports) == seq![
            DeleteStep::SyncParentHandle,
        ],
{
    assert(steps_taken(DeletePhase::SyncKeptParent, reports) =~= seq![
        DeleteStep::SyncParentHandle,
    ]);
}

/// A removal of `NeedsUnlink` (a first attempt is one) reports success only
/// after the full sequence: open the parent, probe and find the very file,
/// see the unlink go through, sync the parent.
pub proof fn law_success_is_complete(id: FileIdentity, reports: Seq<StepReport>)
    requires
        run(spec_retry(PendingDelete::NeedsUnlink(id)), reports) == DeleteProgress::Finished(
            Ok(()),
        ),
    ensures
        reports.len() >= 4,
        steps_taken(spec_retry(PendingDelete::NeedsUnlink(id)), reports) == seq![
            DeleteStep::OpenParent,
            DeleteStep::ProbePath,
            DeleteStep::Unlink,
            DeleteStep::SyncParentHandle,
        ],
        !(reports[0] is Failed),
        reports[1] == StepReport::Identity(id),
        !(reports[2] is Failed),
        !(reports[3] is Failed),
{
    let p0 = DeletePhase::OpenParent(id);
    let p1 = DeletePhase::Probe(id);
    let p2 = DeletePhase::Unlink(id);
    let p3 = DeletePhase::SyncParent(id);
    assert(reports.len() > 0);
    let r1 = reports.drop_first();
    assert(spec_advance(p0, reports[0]) == DeleteProgress::Continue(p1));
    assert(run(p0, reports) == run(p1, r1));
    assert(r1.len() > 0);
    let r2 = r1.drop_first();
    assert(r1[0] == reports[1]);
    assert(spec_advance(p1, r1[0]) == DeleteProgress::Continue(p2));
    assert(run(p1, r1) == run(p2, r2));
    assert(r2.len() > 0);
    let r3 = r2.drop_first();
    assert(r2[0] == reports[2]);
    assert(spec_advance(p2, r2[0]) == DeleteProgress::Continue(p3));
    assert(run(p2, r2) == run(p3, r3));
    assert(r3.len() > 0);
    assert(r3[0] == reports[3]);
    assert(steps_taken(p3, r3) =~= seq![DeleteStep::SyncParentHandle]);
    assert(steps_taken(p2, r2) =~= seq![DeleteStep::Unlink, DeleteStep::SyncParentHandle]);
    assert(steps_taken(p1, r1) =~= seq![
        DeleteStep::ProbePath,
        DeleteStep::Unlink,
        DeleteStep::SyncParentHandle,
    ]);
    assert(steps_taken(p0, reports) =~= seq![
        DeleteStep::OpenParent,
        DeleteStep::ProbePath,
        DeleteStep::Unlink,
        DeleteStep::SyncParentHandle,
    ]);
}

/// A missing file is never taken for a removed one: when the probe or the
/// unlink reports `NotFound`, the removal fails with that error and keeps
/// the unlink pending, so a second removal fails again unless it sees the
/// unlink go through itself.
pub proof fn law_missing_file_keeps_unlink_pending(id: FileIdentity, unlink_step: bool)
    ensures
        spec_advance(
            if unlink_step {
                DeletePhase::Unlink(id)
            } else {
                DeletePhase::Probe(id)
            },
            StepReport::Failed(ErrorKind::NotFound),
        ) == needs_unlink(id, Error::Io(ErrorKind::NotFound)),
{
}

/// A symlink at the path is refused: when the probe finds one, the removal
/// stops at once with the refusal, keeps the unlink pending, and performs
/// no unlink, whatever the following reports.
pub proof fn law_symlink_never_unlinked(id: FileIdentity, reports: Seq<StepReport>)
    requires
        reports.len() >= 2,
        reports[1] == StepReport::Symlink,
    ensures
        run(DeletePhase::OpenParent(id), reports) == (if reports[0] is Failed {
            needs_unlink(id, Error::Io(reports[0]->Failed_0))
        } else {
            needs_unlink(id, Error::SymlinkRefused)
        }),
        forall|k: int|
            0 <= k < steps_taken(DeletePhase::OpenParent(id), reports).len() ==> steps_taken(
                DeletePhase::OpenParent(id),
                reports,
            )[k] != DeleteStep::Unlink,
{
    let p0 = DeletePhase::OpenParent(id);
    let p1 = DeletePhase::Probe(id);
    let r1 = reports.drop_first();
    assert(r1[0] == reports[1]);
    if reports[0] is Failed {
        assert(steps_taken(p0, reports) =~= seq![DeleteStep::OpenParent]);
    } else {
        assert(spec_advance(p0, reports[0]) == DeleteProgress::Continue(p1));
        assert(run(p0, reports) == run(p1, r1));
        assert(steps_taken(p1, r1) =~= seq![DeleteStep::ProbePath]);
        assert(steps_taken(p0, reports) =~= seq![DeleteStep::OpenParent, DeleteStep::ProbePath]);
    }
}

/// Once the unlink went through, no outcome asks a retry to unlink again:
/// after the unlink step the only pending state left is `NeedsParentSync`.
pub proof fn law_no_second_unlink(p: DeletePhase, report: StepReport)
    requires
        p is SyncParent || p is SyncKeptParent,
    ensures
        spec_advance(p, report) is Finished,
        spec_advance(p, report) matches DeleteProgress::Finished(Err((pending, _))) ==> pending
            == PendingDelete::NeedsParentSync,
{
}

/// Every failure before the unlink went through leaves the unlink pending
/// for the file the removal works for, never a mere parent sync: from
/// opening the parent, probing or unlinking, whatever the report, a
/// removal that ends in an error ends in `NeedsUnlink` of that file. A
/// failed step hands its own error on, whatever its kind.
pub proof fn law_failure_before_unlink_keeps_unlink_pending(
    id: FileIdentity,
    step: DeleteStep,
    report: StepReport,
)
    requires
        step == DeleteStep::OpenParent || step == DeleteStep::ProbePath || step
            == DeleteStep::Unlink,
    ensures
        ({
            let p = if step == DeleteStep::OpenParent {
                DeletePhase::OpenParent(id)
            } else if step == DeleteStep::ProbePath {
                DeletePhase::Probe(id)
            } else {
                DeletePhase::Unlink(id)
            };
            &&& spec_advance(p, report) matches DeleteProgress::Finished(r) ==> r matches Err(
                (pending, _),
            ) && pending == PendingDelete::NeedsUnlink(id)
            &&& report matches StepReport::Failed(k) ==> spec_advance(p, report)
                == DeleteProgress::Finished(
                Err((PendingDelete::NeedsUnlink(id), Error::Io(k))),
            )
        }),
{
}

} // verus!
