use fmmap::error::{Error, ErrorKind};
use fmmap::identity::FileIdentity;
use fmmap::lifecycle::{Backing, CleanupPhase, CloseStep, DropPlan, Lifecycle, RemoveStart};
use fmmap::removal::{DeletePhase, DeleteStep, PendingDelete, StepReport};

/// A disk mapping as the tests see it: its path and identity.
#[derive(Debug, Clone, PartialEq)]
struct Disk {
    path: String,
    id: FileIdentity,
}

type Wrapper = Lifecycle<String, Disk, Vec<u8>>;

const ID: FileIdentity = FileIdentity { dev: 1, ino: 10 };
const OTHER: FileIdentity = FileIdentity { dev: 1, ino: 11 };

fn disk_wrapper() -> Wrapper {
    Lifecycle::new(Backing::Disk(Disk { path: "dummy.mem".to_string(), id: ID }))
}

fn cleanup(start: CleanupPhase, reports: &[StepReport]) -> Vec<DeleteStep> {
    let mut steps = Vec::new();
    let mut phase = Some(start);
    let mut i = 0;
    while let Some(p) = phase {
        steps.push(p.step());
        phase = p.advance(reports[i]);
        i += 1;
    }
    steps
}

#[test]
fn memory_variant_freeze_and_close_and_remove() {
    // freeze: the memory buffer is handed over and the wrapper is empty
    let mut w: Wrapper = Lifecycle::new(Backing::Memory(b"freeze".to_vec()));
    match w.take_backing() {
        Backing::Memory(bytes) => assert_eq!(bytes, b"freeze".to_vec()),
        _ => panic!("expected the memory backing"),
    }
    assert!(matches!(w.backing(), Backing::Empty));

    // close: truncation of a memory backing does nothing, no truncation flushes
    let w: Wrapper = Lifecycle::new(Backing::Memory(b"close".to_vec()));
    assert_eq!(w.plan_close(3, false), Ok(CloseStep::Nothing));
    assert_eq!(w.plan_close(-1, false), Ok(CloseStep::Flush));

    // remove: nothing on disk, the wrapper counts as deleted
    let mut w: Wrapper = Lifecycle::new(Backing::Memory(b"rm".to_vec()));
    assert!(matches!(w.begin_remove(), RemoveStart::Done));
    assert!(w.is_deleted());
    assert!(matches!(w.plan_drop(), DropPlan::Nothing));
}

#[test]
fn drop_on_memory_variant_does_not_unlink_label_path() {
    let mut w: Wrapper = Lifecycle::new(Backing::Memory(b"do not delete me".to_vec()));
    w.set_remove_on_drop(true);
    assert!(w.get_remove_on_drop());
    assert!(matches!(w.plan_drop(), DropPlan::Nothing));
}

#[test]
fn remove_failure_retains_path_for_drop_retry() {
    let mut w = disk_wrapper();
    let d = match w.begin_remove() {
        RemoveStart::Initial(d) => d,
        _ => panic!("expected a first removal"),
    };
    assert!(matches!(w.backing(), Backing::Empty));
    assert_eq!(DeletePhase::initial(d.id), DeletePhase::OpenParent(ID));
    let r = w.finish_remove(
        d.path.clone(),
        Err((PendingDelete::NeedsUnlink(ID), Error::Io(ErrorKind::PermissionDenied))),
    );
    assert_eq!(r, Err(Error::Io(ErrorKind::PermissionDenied)));
    assert!(!w.is_deleted());
    assert_eq!(
        w.pending(),
        Some(&("dummy.mem".to_string(), PendingDelete::NeedsUnlink(ID)))
    );
}

#[test]
fn remove_retry_attempts_pending_path() {
    let mut w = disk_wrapper();
    let _ = w.begin_remove();
    // the file vanished before the first removal: the unlink stays pending
    let r = w.finish_remove(
        "dummy.mem".to_string(),
        Err((PendingDelete::NeedsUnlink(ID), Error::Io(ErrorKind::NotFound))),
    );
    assert_eq!(r, Err(Error::Io(ErrorKind::NotFound)));
    match w.begin_remove() {
        RemoveStart::Retry(path, phase) => {
            assert_eq!(path, "dummy.mem");
            // the retry runs the whole identity-checked sequence again
            assert_eq!(phase, DeletePhase::OpenParent(ID));
        }
        _ => panic!("expected a retry"),
    }
    assert!(w.pending().is_none());
    assert_eq!(w.finish_remove("dummy.mem".to_string(), Ok(())), Ok(()));
    assert!(w.is_deleted());
    assert!(matches!(w.plan_drop(), DropPlan::Nothing));
}

#[test]
fn explicit_remove_failure_drop_retries_unconditionally() {
    let mut w = disk_wrapper();
    assert!(!w.get_remove_on_drop());
    let _ = w.begin_remove();
    let _ = w.finish_remove(
        "dummy.mem".to_string(),
        Err((PendingDelete::NeedsParentSync, Error::Io(ErrorKind::Other))),
    );
    match w.plan_drop() {
        DropPlan::CompletePending(path, pending) => {
            assert_eq!(path, "dummy.mem");
            assert_eq!(pending, PendingDelete::NeedsParentSync);
        }
        _ => panic!("a failed removal must be finished at drop"),
    }
    // the cleanup of a parent-sync only syncs the kept parent handle
    let pending = PendingDelete::NeedsParentSync;
    assert_eq!(
        cleanup(CleanupPhase::for_pending(pending, true), &[StepReport::Done]),
        vec![DeleteStep::SyncParentHandle]
    );
}

#[test]
fn remove_on_drop_unlinks_when_identity_matches() {
    let mut w = disk_wrapper();
    w.set_remove_on_drop(true);
    let d = match w.plan_drop() {
        DropPlan::UnlinkDisk(d) => d,
        _ => panic!("expected the disk file to be removed"),
    };
    assert_eq!(d.id, ID);
    let steps = cleanup(
        CleanupPhase::for_unlink(d.id, true),
        &[StepReport::Done, StepReport::Identity(ID), StepReport::Done, StepReport::Done],
    );
    assert_eq!(
        steps,
        vec![
            DeleteStep::OpenParent,
            DeleteStep::ProbePath,
            DeleteStep::Unlink,
            DeleteStep::SyncParentHandle
        ]
    );
}

#[test]
fn drop_does_not_unlink_path_reused_file_for_needs_unlink() {
    let steps = cleanup(
        CleanupPhase::for_pending(PendingDelete::NeedsUnlink(ID), true),
        &[StepReport::Done, StepReport::Identity(OTHER), StepReport::Done],
    );
    assert_eq!(
        steps,
        vec![DeleteStep::OpenParent, DeleteStep::ProbePath, DeleteStep::SyncParentHandle]
    );
    // a symlink at the path is not unlinked either
    let steps = cleanup(
        CleanupPhase::for_pending(PendingDelete::NeedsUnlink(ID), true),
        &[StepReport::Done, StepReport::Symlink, StepReport::Done],
    );
    assert!(!steps.contains(&DeleteStep::Unlink));
    // without a pin, a pending unlink is never attempted at drop
    let steps = cleanup(
        CleanupPhase::for_pending(PendingDelete::NeedsUnlink(ID), false),
        &[StepReport::Done],
    );
    assert_eq!(steps, vec![DeleteStep::SyncParentPath]);
    // an unpinned identity proves nothing: only the parent is synced
    let steps = cleanup(CleanupPhase::for_unlink(ID, false), &[StepReport::Done]);
    assert_eq!(steps, vec![DeleteStep::SyncParentPath]);
    // a parent that cannot be opened falls back to syncing by path
    let steps = cleanup(
        CleanupPhase::for_unlink(ID, true),
        &[StepReport::Failed(ErrorKind::PermissionDenied), StepReport::Done],
    );
    assert_eq!(steps, vec![DeleteStep::OpenParent, DeleteStep::SyncParentPath]);
}

#[test]
fn pending_remove_path_drop_does_not_unlink() {
    let mut w = disk_wrapper();
    w.set_remove_on_drop(true);
    // the disk mapping is gone (a failed reopen), its path is kept
    let _ = w.take_backing();
    w.keep_path_for_drop(Some("dummy.mem".to_string()));
    match w.plan_drop() {
        DropPlan::SyncParentOf(path) => assert_eq!(path, "dummy.mem"),
        _ => panic!("a kept path is only synced"),
    }
    // an empty path is not kept
    let mut w = disk_wrapper();
    w.keep_path_for_drop(None);
    w.set_remove_on_drop(true);
    assert!(matches!(w.plan_drop(), DropPlan::UnlinkDisk(_)));
}

#[test]
fn close_plans() {
    let w = disk_wrapper();
    assert_eq!(w.plan_close(4, false), Ok(CloseStep::TruncateInPlace(4)));
    assert_eq!(w.plan_close(0, false), Ok(CloseStep::TruncateInPlace(0)));
    assert_eq!(w.plan_close(-1, false), Ok(CloseStep::Flush));
    assert_eq!(w.plan_close(-1, true), Ok(CloseStep::Flush));
    assert_eq!(w.plan_close(0, true), Err(Error::CopyOnWrite));
    assert_eq!(Error::CopyOnWrite.kind(), ErrorKind::Unsupported);
}

#[test]
fn drop_remove_consuming_start() {
    let mut w = disk_wrapper();
    assert_eq!(w.begin_drop_remove().map(|d| d.id), Some(ID));
    assert!(!w.is_deleted());
    let mut w: Wrapper = Lifecycle::new(Backing::Memory(vec![]));
    assert!(w.begin_drop_remove().is_none());
    assert!(w.is_deleted());
    let mut w: Wrapper = Lifecycle::new(Backing::Empty);
    if let Backing::Empty = w.backing_mut() {
    } else {
        panic!("expected an empty backing");
    }
    *w.backing_mut() = Backing::Memory(vec![1]);
    assert!(matches!(w.backing(), Backing::Memory(_)));
}
