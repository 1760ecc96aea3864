use fmmap::error::{Error, ErrorKind};
use fmmap::identity::FileIdentity;
use fmmap::removal::{
    DeletePhase, DeleteProgress, DeleteResult, DeleteStep, PendingDelete, StepReport,
};

/// Runs a removal from `start`, answering its steps with `reports` in turn,
/// and gives the steps it asked for and how it ended.
fn drive(start: DeletePhase, reports: &[StepReport]) -> (Vec<DeleteStep>, Option<DeleteResult>) {
    let mut steps = Vec::new();
    let mut phase = start;
    for report in reports {
        steps.push(phase.step());
        match phase.advance(*report) {
            DeleteProgress::Continue(next) => phase = next,
            DeleteProgress::Finished(result) => return (steps, Some(result)),
        }
    }
    (steps, None)
}

const ID: FileIdentity = FileIdentity { dev: 7, ino: 42 };
const OTHER: FileIdentity = FileIdentity { dev: 7, ino: 43 };

#[test]
fn raw_drop_remove_success_path_no_spurious_warning() {
    let (steps, result) = drive(
        DeletePhase::initial(ID),
        &[StepReport::Done, StepReport::Identity(ID), StepReport::Done, StepReport::Done],
    );
    assert_eq!(
        steps,
        vec![
            DeleteStep::OpenParent,
            DeleteStep::ProbePath,
            DeleteStep::Unlink,
            DeleteStep::SyncParentHandle
        ]
    );
    assert_eq!(result, Some(Ok(())));
}

#[test]
fn initial_remove_refuses_path_reused_file() {
    let (steps, result) = drive(
        DeletePhase::initial(ID),
        &[StepReport::Done, StepReport::Identity(OTHER), StepReport::Done],
    );
    assert!(!steps.contains(&DeleteStep::Unlink));
    assert_eq!(result, Some(Err((PendingDelete::NeedsUnlink(ID), Error::PathReused))));
    assert_eq!(Error::PathReused.kind(), ErrorKind::Other);
}

#[test]
fn initial_probe_not_found_keeps_unlink_pending() {
    let (steps, result) = drive(
        DeletePhase::initial(ID),
        &[StepReport::Done, StepReport::Failed(ErrorKind::NotFound)],
    );
    assert_eq!(steps, vec![DeleteStep::OpenParent, DeleteStep::ProbePath]);
    assert_eq!(
        result,
        Some(Err((PendingDelete::NeedsUnlink(ID), Error::Io(ErrorKind::NotFound))))
    );
}

#[test]
fn symlink_at_path_is_refused() {
    let (steps, result) = drive(
        DeletePhase::initial(ID),
        &[StepReport::Done, StepReport::Symlink, StepReport::Done, StepReport::Done],
    );
    assert_eq!(steps, vec![DeleteStep::OpenParent, DeleteStep::ProbePath]);
    assert_eq!(result, Some(Err((PendingDelete::NeedsUnlink(ID), Error::SymlinkRefused))));
    assert_eq!(Error::SymlinkRefused.kind(), ErrorKind::Other);
    let (steps, result) = drive(
        DeletePhase::retry(PendingDelete::NeedsUnlink(ID)),
        &[StepReport::Done, StepReport::Symlink],
    );
    assert!(!steps.contains(&DeleteStep::Unlink));
    assert_eq!(result, Some(Err((PendingDelete::NeedsUnlink(ID), Error::SymlinkRefused))));
}

#[test]
fn initial_open_parent_failure_keeps_the_unlink_pending() {
    let (steps, result) =
        drive(DeletePhase::initial(ID), &[StepReport::Failed(ErrorKind::PermissionDenied)]);
    assert_eq!(steps, vec![DeleteStep::OpenParent]);
    assert_eq!(
        result,
        Some(Err((PendingDelete::NeedsUnlink(ID), Error::Io(ErrorKind::PermissionDenied))))
    );
}

#[test]
fn initial_unlink_failure_keeps_the_unlink_pending() {
    let (_, result) = drive(
        DeletePhase::initial(ID),
        &[StepReport::Done, StepReport::Identity(ID), StepReport::Failed(ErrorKind::Other)],
    );
    assert_eq!(result, Some(Err((PendingDelete::NeedsUnlink(ID), Error::Io(ErrorKind::Other)))));
    let (_, result) = drive(
        DeletePhase::initial(ID),
        &[StepReport::Done, StepReport::Identity(ID), StepReport::Failed(ErrorKind::NotFound)],
    );
    assert_eq!(
        result,
        Some(Err((PendingDelete::NeedsUnlink(ID), Error::Io(ErrorKind::NotFound))))
    );
}

#[test]
fn parent_sync_failure_after_unlink_never_unlinks_again() {
    let (steps, result) = drive(
        DeletePhase::initial(ID),
        &[
            StepReport::Done,
            StepReport::Identity(ID),
            StepReport::Done,
            StepReport::Failed(ErrorKind::Other),
        ],
    );
    assert_eq!(steps.len(), 4);
    let (pending, err) = result.unwrap().unwrap_err();
    assert_eq!(pending, PendingDelete::NeedsParentSync);
    assert_eq!(err, Error::Io(ErrorKind::Other));
    // the retry of what is left only syncs the kept parent handle
    let (steps, result) = drive(DeletePhase::retry(pending), &[StepReport::Done]);
    assert_eq!(steps, vec![DeleteStep::SyncParentHandle]);
    assert_eq!(result, Some(Ok(())));
}

#[test]
fn explicit_retry_with_identity_check_refuses_path_reused_file() {
    let (steps, result) = drive(
        DeletePhase::retry(PendingDelete::NeedsUnlink(ID)),
        &[StepReport::Done, StepReport::Identity(OTHER)],
    );
    assert_eq!(steps, vec![DeleteStep::OpenParent, DeleteStep::ProbePath]);
    assert_eq!(result, Some(Err((PendingDelete::NeedsUnlink(ID), Error::PathReused))));
}

#[test]
fn explicit_retry_with_matching_identity_unlinks() {
    let (steps, result) = drive(
        DeletePhase::retry(PendingDelete::NeedsUnlink(ID)),
        &[StepReport::Done, StepReport::Identity(ID), StepReport::Done, StepReport::Done],
    );
    assert_eq!(
        steps,
        vec![
            DeleteStep::OpenParent,
            DeleteStep::ProbePath,
            DeleteStep::Unlink,
            DeleteStep::SyncParentHandle
        ]
    );
    assert_eq!(result, Some(Ok(())));
}

#[test]
fn retry_of_vanished_file_keeps_failing() {
    // the file was removed by someone else: every attempt fails with
    // NotFound and keeps the unlink pending
    let mut pending = PendingDelete::NeedsUnlink(ID);
    for _ in 0..2 {
        let (steps, result) = drive(
            DeletePhase::retry(pending),
            &[StepReport::Done, StepReport::Failed(ErrorKind::NotFound)],
        );
        assert_eq!(steps, vec![DeleteStep::OpenParent, DeleteStep::ProbePath]);
        let (left, err) = result.unwrap().unwrap_err();
        assert_eq!(left, PendingDelete::NeedsUnlink(ID));
        assert_eq!(err.kind(), ErrorKind::NotFound);
        pending = left;
    }
}

#[test]
fn parent_sync_retry_failure_stays_parent_sync() {
    let (steps, result) = drive(
        DeletePhase::retry(PendingDelete::NeedsParentSync),
        &[StepReport::Failed(ErrorKind::PermissionDenied)],
    );
    assert_eq!(steps, vec![DeleteStep::SyncParentHandle]);
    assert_eq!(
        result,
        Some(Err((PendingDelete::NeedsParentSync, Error::Io(ErrorKind::PermissionDenied))))
    );
}

#[test]
fn identity_matching() {
    assert!(ID.is_known_equal(&FileIdentity::new(7, 42)));
    assert!(!ID.is_known_equal(&OTHER));
    assert!(ID.matches_probe(Some(ID)));
    assert!(!ID.matches_probe(Some(OTHER)));
    assert!(!ID.matches_probe(None));
}
