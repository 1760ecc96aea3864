use fmmap::error::{Error, ErrorKind};
use fmmap::lock::{LockMode, LockState};

#[test]
fn reentrant_lock_requests_follow_the_held_lock() {
    // a writable mapping starts with an exclusive lock
    let mut s = LockState::after_open(true);
    assert_eq!(s.request(LockMode::Exclusive), Ok(false));
    assert_eq!(s.request(LockMode::Shared), Err(Error::ExclusiveLockHeld));
    assert_eq!(Error::ExclusiveLockHeld.kind(), ErrorKind::WouldBlock);

    // a read-only mapping starts with a shared lock
    s = LockState::after_open(false);
    assert_eq!(s.request(LockMode::Shared), Ok(false));
    assert_eq!(s.request(LockMode::Exclusive), Err(Error::SharedLockHeld));
    assert_eq!(Error::SharedLockHeld.kind(), ErrorKind::WouldBlock);

    // after an explicit unlock, lock goes to the operating system
    assert!(s.needs_unlock());
    s.released();
    assert_eq!(s, LockState::Unlocked);
    assert!(!s.needs_unlock());
    assert_eq!(s.request(LockMode::Exclusive), Ok(true));
    s.acquired(LockMode::Exclusive);
    assert_eq!(s, LockState::Exclusive);
    assert_eq!(s.request(LockMode::Exclusive), Ok(false));
}
