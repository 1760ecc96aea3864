//! Errors of this crate.
//!
//! Every failure the library decides on is a variant of [`Error`]; a failure
//! that the operating system reports is carried as [`Error::Io`] with its
//! [`ErrorKind`].
use vstd::prelude::*;

verus! {

/// The category of an error, mirroring the kinds of `std::io::ErrorKind`.
#[derive(Clone, Copy, Debug, PartialEq, Eq, Structural)]
pub enum ErrorKind {
    /// An entity was not found.
    NotFound,
    /// The operation lacked the necessary privileges.
    PermissionDenied,
    /// The connection was refused by the remote server.
    ConnectionRefused,
    /// The connection was reset by the remote server.
    ConnectionReset,
    /// The remote host is not reachable.
    HostUnreachable,
    /// The network containing the remote host is not reachable.
    NetworkUnreachable,
    /// The connection was aborted by the remote server.
    ConnectionAborted,
    /// The operation failed because the socket is not connected.
    NotConnected,
    /// The address is already in use.
    AddrInUse,
    /// The requested address is not available.
    AddrNotAvailable,
    /// The system's networking is down.
    NetworkDown,
    /// The operation failed because a pipe was closed.
    BrokenPipe,
    /// An entity already exists.
    AlreadyExists,
    /// The operation needs to block to complete.
    WouldBlock,
    /// A filesystem object is, unexpectedly, not a directory.
    NotADirectory,
    /// The filesystem object is, unexpectedly, a directory.
    IsADirectory,
    /// A non-empty directory was specified where an empty one was expected.
    DirectoryNotEmpty,
    /// The filesystem or storage medium is read-only.
    ReadOnlyFilesystem,
    /// Stale network file handle.
    StaleNetworkFileHandle,
    /// A parameter was incorrect.
    InvalidInput,
    /// Data not valid for the operation were encountered.
    InvalidData,
    /// The I/O operation's timeout expired.
    TimedOut,
    /// A write returned zero bytes written.
    WriteZero,
    /// The underlying storage is full.
    StorageFull,
    /// Seek on an unseekable file.
    NotSeekable,
    /// The quota was exceeded.
    QuotaExceeded,
    /// The file is larger than allowed or supported.
    FileTooLarge,
    /// The resource is busy.
    ResourceBusy,
    /// The executable file is busy.
    ExecutableFileBusy,
    /// A deadlock was detected.
    Deadlock,
    /// A cross-device or cross-filesystem link or rename.
    CrossesDevices,
    /// Too many (hard) links to the same filesystem object.
    TooManyLinks,
    /// A filename was invalid.
    InvalidFilename,
    /// The program argument list was too long.
    ArgumentListTooLong,
    /// The operation was interrupted.
    Interrupted,
    /// The operation is not supported.
    Unsupported,
    /// An operation could not be completed because an end was reached prematurely.
    UnexpectedEof,
    /// An operation could not be completed because it failed to allocate memory.
    OutOfMemory,
    /// Any other error, including one of a kind this enum does not name.
    Other,
}

/// An error of this crate.
#[derive(Clone, Copy, Debug, PartialEq, Eq, Structural)]
pub enum Error {
    /// The operating system reported a failure of the given kind.
    Io(ErrorKind),
    /// A read, write or window went past the end of the data.
    UnexpectedEof,
    /// A mapping offset lies past the end of the file.
    OffsetPastEof { offset: u64, file_len: u64 },
    /// `offset + len` of a mapping overflows `u64`.
    RangeOverflow,
    /// A mapping window ends past the end of the file.
    RangePastEof { offset: u64, len: usize, file_len: u64 },
    /// The mapped length does not fit a slice (`isize::MAX`).
    MappingTooLong { effective_len: u64 },
    /// A copy-on-write mapping cannot be truncated.
    CopyOnWrite,
    /// Truncating would leave the mapping offset past the end of the file.
    TruncatePastOffset,
    /// A previous failed truncate poisoned the mapping.
    Poisoned,
    /// A shared lock is held; it must be released before an exclusive one is taken.
    SharedLockHeld,
    /// An exclusive lock is held; it must be released before a shared one is taken.
    ExclusiveLockHeld,
    /// The path no longer names the file that was opened.
    PathReused,
    /// The path names a symlink; an identity-checked removal refuses it.
    SymlinkRefused,
    /// The path is not a directory.
    NotADirectory,
    /// The path has no parent directory.
    NoParent,
}

/// The kind of `e`, as `std::io::Error::kind` reports it.
pub open spec fn spec_kind(e: Error) -> ErrorKind {
    match e {
        Error::Io(k) => k,
        Error::UnexpectedEof => ErrorKind::UnexpectedEof,
        Error::OffsetPastEof { .. } => ErrorKind::InvalidInput,
        Error::RangeOverflow => ErrorKind::InvalidInput,
        Error::RangePastEof { .. } => ErrorKind::InvalidInput,
        Error::MappingTooLong { .. } => ErrorKind::InvalidInput,
        Error::CopyOnWrite => ErrorKind::Unsupported,
        Error::TruncatePastOffset => ErrorKind::InvalidInput,
        Error::Poisoned => ErrorKind::Other,
        Error::SharedLockHeld => ErrorKind::WouldBlock,
        Error::ExclusiveLockHeld => ErrorKind::WouldBlock,
        Error::PathReused => ErrorKind::Other,
        Error::SymlinkRefused => ErrorKind::Other,
        Error::NotADirectory => ErrorKind::Other,
        Error::NoParent => ErrorKind::InvalidInput,
    }
}

impl Error {
    /// The kind of this error.
    pub fn kind(&self) -> (k: ErrorKind)
        ensures
            k == spec_kind(*self),
    {
        match self {
            Error::Io(k) => *k,
            Error::UnexpectedEof => ErrorKind::UnexpectedEof,
            Error::OffsetPastEof { .. } => ErrorKind::InvalidInput,
            Error::RangeOverflow => ErrorKind::InvalidInput,
            Error::RangePastEof { .. } => ErrorKind::InvalidInput,
            Error::MappingTooLong { .. } => ErrorKind::InvalidInput,
            Error::CopyOnWrite => ErrorKind::Unsupported,
            Error::TruncatePastOffset => ErrorKind::InvalidInput,
            Error::Poisoned => ErrorKind::Other,
            Error::SharedLockHeld => ErrorKind::WouldBlock,
            Error::ExclusiveLockHeld => ErrorKind::WouldBlock,
            Error::PathReused => ErrorKind::Other,
            Error::SymlinkRefused => ErrorKind::Other,
            Error::NotADirectory => ErrorKind::Other,
            Error::NoParent => ErrorKind::InvalidInput,
        }
    }
}

/// The error for a directory sync on a path that is not a directory.
pub fn not_a_directory_error() -> (e: Error)
    ensures
        e == Error::NotADirectory,
        spec_kind(e) == ErrorKind::Other,
{
    Error::NotADirectory
}

/// The error for a path that has no parent directory.
pub fn no_parent_error() -> (e: Error)
    ensures
        e == Error::NoParent,
        spec_kind(e) == ErrorKind::InvalidInput,
{
    Error::NoParent
}

/// Error of a consuming removal that can hand the value back.
///
/// The recoverable variant preserves ownership of the wrapped value so the
/// caller can retry; the terminal variant signals that the operation got
/// past the point of no return and carries just the error. The error is of
/// type `E`: this crate's [`Error`] by default, or the operating system's
/// own error (`std::io::Error`) where the caller surfaces that one.
#[derive(Debug)]
pub enum DropRemoveError<T, E = Error> {
    /// Failed before any destructive operation; the value is handed back.
    Recoverable(T, E),
    /// Failed after destructive operations began; the value is gone.
    Terminal(E),
}

/// The error that a `DropRemoveError` carries, whichever its variant.
pub open spec fn spec_drop_remove_error<T, E>(e: DropRemoveError<T, E>) -> E {
    match e {
        DropRemoveError::Recoverable(_, err) => err,
        DropRemoveError::Terminal(err) => err,
    }
}

impl<T, E> DropRemoveError<T, E> {
    /// Discards the recovered value (if any) and returns just the error.
    pub fn into_error(self) -> (e: E)
        ensures
            e == spec_drop_remove_error(self),
    {
        match self {
            DropRemoveError::Recoverable(_, e) => e,
            DropRemoveError::Terminal(e) => e,
        }
    }
}

impl<T> From<DropRemoveError<T, Error>> for Error {
    fn from(e: DropRemoveError<T, Error>) -> (r: Error) {
        e.into_error()
    }
}

impl<T> vstd::std_specs::convert::FromSpecImpl<DropRemoveError<T, Error>> for Error {
    open spec fn obeys_from_spec() -> bool {
        true
    }

    open spec fn from_spec(v: DropRemoveError<T, Error>) -> Error {
        spec_drop_remove_error(v)
    }
}

} // verus!
