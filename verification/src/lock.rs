//! Tracking of the advisory file lock that a mapping holds.
//!
//! Constructors acquire a lock (exclusive for writable mappings, shared for
//! read-only and copy-on-write ones). The lock methods consult the tracked
//! state first: asking for the lock already held is a no-op, asking for the
//! other kind while one is held fails with `WouldBlock`, and only a request
//! from the unlocked state goes to the operating system. This keeps the
//! methods reentrant where the platform lock call is not.
use vstd::prelude::*;
use crate::error::Error;
use crate::mapping::OpenKind;

verus! {

/// The lock a mapping's file handle holds.
#[derive(Clone, Copy, Debug, PartialEq, Eq, Structural)]
pub enum LockState {
    /// No lock is held.
    Unlocked,
    /// A shared lock is held.
    Shared,
    /// An exclusive lock is held.
    Exclusive,
}

/// The kind of lock asked for.
#[derive(Clone, Copy, Debug, PartialEq, Eq, Structural)]
pub enum LockMode {
    /// A shared lock (`lock_shared`, `try_lock_shared`).
    Shared,
    /// An exclusive lock (`lock`, `try_lock`).
    Exclusive,
}

/// The state in which a lock of kind `mode` is held.
pub open spec fn held_state(mode: LockMode) -> LockState {
    match mode {
        LockMode::Shared => LockState::Shared,
        LockMode::Exclusive => LockState::Exclusive,
    }
}

/// What a lock request in state `s` comes to: `Ok(false)` when the lock is
/// already held, `Ok(true)` when the operating system must be asked, and
/// the error when the other kind of lock is held.
pub open spec fn spec_lock_request(s: LockState, mode: LockMode) -> Result<bool, Error> {
    match (s, mode) {
        (LockState::Exclusive, LockMode::Exclusive) => Ok(false),
        (LockState::Shared, LockMode::Shared) => Ok(false),
        (LockState::Shared, LockMode::Exclusive) => Err(Error::SharedLockHeld),
        (LockState::Exclusive, LockMode::Shared) => Err(Error::ExclusiveLockHeld),
        (LockState::Unlocked, _) => Ok(true),
    }
}

/// The lock a constructor of kind `kind` takes: shared for a read-only or
/// copy-on-write mapping (it never writes the file), exclusive for a
/// writable one, so that no other mapping of the file can alias its writes.
pub open spec fn spec_open_lock_mode(kind: OpenKind) -> LockMode {
    match kind {
        OpenKind::CopyOnWrite => LockMode::Shared,
        OpenKind::ReadOnly => LockMode::Shared,
        _ => LockMode::Exclusive,
    }
}

impl LockMode {
    /// The lock a constructor of kind `kind` takes.
    pub fn for_open(kind: OpenKind) -> (m: LockMode)
        ensures
            m == spec_open_lock_mode(kind),
    {
        match kind {
            OpenKind::CopyOnWrite => LockMode::Shared,
            OpenKind::ReadOnly => LockMode::Shared,
            _ => LockMode::Exclusive,
        }
    }
}

impl LockState {
    /// The state that a constructor leaves: exclusive for a writable
    /// mapping, shared for a read-only or copy-on-write one.
    pub fn after_open(writable: bool) -> (s: LockState)
        ensures
            s == (if writable {
                LockState::Exclusive
            } else {
                LockState::Shared
            }),
    {
        if writable {
            LockState::Exclusive
        } else {
            LockState::Shared
        }
    }

    /// Decides a request for a lock of kind `mode`: `Ok(false)` when it is
    /// already held (nothing to do), `Ok(true)` when the operating system
    /// must be asked, an error when the other kind is held.
    pub fn request(&self, mode: LockMode) -> (r: Result<bool, Error>)
        ensures
            r == spec_lock_request(*self, mode),
    {
        match (self, mode) {
            (LockState::Exclusive, LockMode::Exclusive) => Ok(false),
            (LockState::Shared, LockMode::Shared) => Ok(false),
            (LockState::Shared, LockMode::Exclusive) => Err(Error::SharedLockHeld),
            (LockState::Exclusive, LockMode::Shared) => Err(Error::ExclusiveLockHeld),
            (LockState::Unlocked, _) => Ok(true),
        }
    }

    /// Records that the operating system granted a lock of kind `mode`.
    pub fn acquired(&mut self, mode: LockMode)
        ensures
            *final(self) == held_state(mode),
    {
        *self = match mode {
            LockMode::Shared => LockState::Shared,
            LockMode::Exclusive => LockState::Exclusive,
        };
    }

    /// Whether an unlock must go to the operating system (a lock is held).
    pub fn needs_unlock(&self) -> (b: bool)
        ensures
            b == (*self != LockState::Unlocked),
    {
        match self {
            LockState::Unlocked => false,
            _ => true,
        }
    }

    /// Records that the lock was released.
    pub fn released(&mut self)
        ensures
            *final(self) == LockState::Unlocked,
    {
        *self = LockState::Unlocked;
    }
}

/// Once a lock of kind `mode` is held, asking for it again is a no-op, and
/// asking for the other kind fails with `WouldBlock` without touching the
/// operating system.
pub proof fn law_lock_reentrant(mode: LockMode, other: LockMode)
    requires
        other != mode,
    ensures
        spec_lock_request(held_state(mode), mode) == Ok::<bool, Error>(false),
        spec_lock_request(held_state(mode), other) is Err,
        crate::error::spec_kind(spec_lock_request(held_state(mode), other)->Err_0)
            == crate::error::ErrorKind::WouldBlock,
{
}

/// After an unlock, a request of either kind goes to the operating system.
pub proof fn law_unlock_then_lock(mode: LockMode)
    ensures
        spec_lock_request(LockState::Unlocked, mode) == Ok::<bool, Error>(true),
{
}

/// Read-only and copy-on-write constructors take a shared lock, so that
/// several of them can map the file at once while a writable mapping is
/// kept out; writable constructors take an exclusive lock. The lock a
/// constructor takes is the state it is then tracked in.
pub proof fn law_open_lock_modes(kind: OpenKind)
    ensures
        spec_open_lock_mode(OpenKind::ReadOnly) == LockMode::Shared,
        spec_open_lock_mode(OpenKind::CopyOnWrite) == LockMode::Shared,
        spec_open_lock_mode(OpenKind::Create) == LockMode::Exclusive,
        spec_open_lock_mode(OpenKind::OpenOrCreate) == LockMode::Exclusive,
        spec_open_lock_mode(OpenKind::OpenExist) == LockMode::Exclusive,
        held_state(spec_open_lock_mode(kind)) == (if kind == OpenKind::ReadOnly || kind
            == OpenKind::CopyOnWrite {
            LockState::Shared
        } else {
            LockState::Exclusive
        }),
        spec_lock_request(LockState::Unlocked, spec_open_lock_mode(kind)) == Ok::<bool, Error>(
            true,
        ),
{
}

} // verus!
