//! Platform identity of a file, captured when the file is opened and
//! compared before every deletion so that a file another actor put at the
//! same path is never removed in its place.
use vstd::prelude::*;

verus! {

/// The identity of a file: `(st_dev, st_ino)` on POSIX, `(volume serial
/// number, file index)` on Windows. A pair identifies a file while it exists.
#[derive(Clone, Copy, Debug, PartialEq, Eq, Structural)]
pub struct FileIdentity {
    /// The device (volume) the file lives on.
    pub dev: u64,
    /// The file's number on that device.
    pub ino: u64,
}

impl FileIdentity {
    /// The identity made of a device and a file number.
    pub fn new(dev: u64, ino: u64) -> (id: FileIdentity)
        ensures
            id == (FileIdentity { dev, ino }),
    {
        FileIdentity { dev, ino }
    }

    /// Strict equality for delete-safety checks: both the device and the
    /// file number agree.
    pub fn is_known_equal(&self, other: &FileIdentity) -> (b: bool)
        ensures
            b == (self.dev == other.dev && self.ino == other.ino),
            b == (*self == *other),
    {
        self.dev == other.dev && self.ino == other.ino
    }

    /// Whether a probe of the path names this same file. A failed probe
    /// (`None`: path missing, permission denied, a symlink) never matches:
    /// the conservative answer is "do not delete".
    pub fn matches_probe(&self, probe: Option<FileIdentity>) -> (b: bool)
        ensures
            b == (probe == Some(*self)),
    {
        match probe {
            Some(p) => self.is_known_equal(&p),
            None => false,
        }
    }
}

} // verus!
