//! Metadata of a mapping's backing: none, memory, or a file on disk.
//!
//! Times are [`Timestamp`]s: durations since the UNIX epoch.
use vstd::prelude::*;
use crate::error::Error;

verus! {

/// A point in time as the signed duration since the UNIX epoch: `secs`
/// whole seconds (negative before the epoch) plus `nanos` nanoseconds
/// (below one second), so that the time is `secs + nanos / 10^9` seconds.
#[derive(Clone, Copy, Debug, PartialEq, Eq, Structural)]
pub struct Timestamp {
    /// Whole seconds since the epoch, rounded down (negative before it).
    pub secs: i64,
    /// Nanoseconds past those seconds.
    pub nanos: u32,
}

impl Timestamp {
    /// The UNIX epoch itself.
    pub fn unix_epoch() -> (t: Timestamp)
        ensures
            t == (Timestamp { secs: 0, nanos: 0 }),
    {
        Timestamp { secs: 0, nanos: 0 }
    }

    /// The whole seconds since the epoch, rounded down.
    pub fn as_secs(&self) -> (s: i64)
        ensures
            s == self.secs,
    {
        self.secs
    }
}

/// Utility methods to metadata.
pub trait MetaDataExt {
    /// Returns the last access time of this metadata.
    fn accessed(&self) -> Result<Timestamp, Error>;

    /// Returns the creation time listed in this metadata.
    fn created(&self) -> Result<Timestamp, Error>;

    /// Returns true if this metadata is for a regular file.
    fn is_file(&self) -> bool;

    /// Returns `true` if this metadata is for a symbolic link.
    fn is_symlink(&self) -> bool;

    /// Returns the size of the file, in bytes, this metadata is for.
    fn len(&self) -> u64;

    /// Returns the last modification time listed in this metadata.
    fn modified(&self) -> Result<Timestamp, Error>;

    /// Returns the value of the `dwFileAttributes` field of this metadata.
    fn file_attributes(&self) -> u32;

    /// Returns the value of the `ftCreationTime` field of this metadata.
    fn creation_time(&self) -> u64;

    /// Returns the value of the `ftLastAccessTime` field of this metadata.
    fn last_access_time(&self) -> u64;

    /// Returns the value of the `ftLastWriteTime` field of this metadata.
    fn last_write_time(&self) -> u64;

    /// Returns the value of the `nFileSize{High,Low}` fields of this metadata.
    fn file_size(&self) -> u64;
}

/// The metadata of an empty mapping: nothing, created at the epoch.
#[derive(Clone, Copy, Debug)]
pub struct EmptyMetaData;

impl Default for EmptyMetaData {
    fn default() -> (m: EmptyMetaData) {
        EmptyMetaData
    }
}

impl MetaDataExt for EmptyMetaData {
    fn accessed(&self) -> (r: Result<Timestamp, Error>)
        ensures
            r == Ok::<Timestamp, Error>(Timestamp { secs: 0, nanos: 0 }),
    {
        Ok(Timestamp::unix_epoch())
    }

    fn created(&self) -> (r: Result<Timestamp, Error>)
        ensures
            r == Ok::<Timestamp, Error>(Timestamp { secs: 0, nanos: 0 }),
    {
        Ok(Timestamp::unix_epoch())
    }

    fn is_file(&self) -> (b: bool)
        ensures
            !b,
    {
        false
    }

    fn is_symlink(&self) -> (b: bool)
        ensures
            !b,
    {
        false
    }

    fn len(&self) -> (n: u64)
        ensures
            n == 0,
    {
        0
    }

    fn modified(&self) -> (r: Result<Timestamp, Error>)
        ensures
            r == Ok::<Timestamp, Error>(Timestamp { secs: 0, nanos: 0 }),
    {
        Ok(Timestamp::unix_epoch())
    }

    fn file_attributes(&self) -> (a: u32)
        ensures
            a == 0,
    {
        0
    }

    fn creation_time(&self) -> (t: u64)
        ensures
            t == 0,
    {
        0
    }

    fn last_access_time(&self) -> (t: u64)
        ensures
            t == 0,
    {
        0
    }

    fn last_write_time(&self) -> (t: u64)
        ensures
            t == 0,
    {
        0
    }

    fn file_size(&self) -> (n: u64)
        ensures
            n == 0,
    {
        0
    }
}

/// The metadata of a memory-backed mapping: its size and when it was made.
#[derive(Clone, Copy, Debug)]
pub struct MemoryMetaData {
    size: u64,
    create_at: Timestamp,
}

impl MemoryMetaData {
    /// The metadata of `size` bytes made at `create_at`, which is not
    /// before the epoch: the seconds accessors count from the epoch unsigned.
    pub fn new(size: u64, create_at: Timestamp) -> (m: MemoryMetaData)
        requires
            create_at.secs >= 0,
        ensures
            m.spec_size() == size,
            m.spec_create_at() == create_at,
    {
        MemoryMetaData { size, create_at }
    }

    /// Memory is made at or after the epoch.
    #[verifier::type_invariant]
    closed spec fn made_after_epoch(self) -> bool {
        self.create_at.secs >= 0
    }

    /// The size in bytes.
    pub closed spec fn spec_size(&self) -> u64 {
        self.size
    }

    /// When the memory was made.
    pub closed spec fn spec_create_at(&self) -> Timestamp {
        self.create_at
    }
}

impl MetaDataExt for MemoryMetaData {
    fn accessed(&self) -> (r: Result<Timestamp, Error>)
        ensures
            r == Ok::<Timestamp, Error>(self.spec_create_at()),
    {
        Ok(self.create_at)
    }

    fn created(&self) -> (r: Result<Timestamp, Error>)
        ensures
            r == Ok::<Timestamp, Error>(self.spec_create_at()),
    {
        Ok(self.create_at)
    }

    fn is_file(&self) -> (b: bool)
        ensures
            !b,
    {
        false
    }

    fn is_symlink(&self) -> (b: bool)
        ensures
            !b,
    {
        false
    }

    fn len(&self) -> (n: u64)
        ensures
            n == self.spec_size(),
    {
        self.size
    }

    fn modified(&self) -> (r: Result<Timestamp, Error>)
        ensures
            r == Ok::<Timestamp, Error>(self.spec_create_at()),
    {
        Ok(self.create_at)
    }

    fn file_attributes(&self) -> (a: u32)
        ensures
            a == 0,
    {
        0
    }

    fn creation_time(&self) -> (t: u64)
        ensures
            t == self.spec_create_at().secs,
    {
        proof {
            use_type_invariant(self);
        }
        self.create_at.as_secs() as u64
    }

    fn last_access_time(&self) -> (t: u64)
        ensures
            t == self.spec_create_at().secs,
    {
        proof {
            use_type_invariant(self);
        }
        self.create_at.as_secs() as u64
    }

    fn last_write_time(&self) -> (t: u64)
        ensures
            t == self.spec_create_at().secs,
    {
        proof {
            use_type_invariant(self);
        }
        self.create_at.as_secs() as u64
    }

    fn file_size(&self) -> (n: u64)
        ensures
            n == self.spec_size(),
    {
        self.size
    }
}

/// The metadata of a file on disk, as the operating system reported it.
#[derive(Clone, Copy, Debug)]
pub struct DiskMetaData {
    /// The size of the file in bytes.
    pub len: u64,
    /// Whether it is a regular file.
    pub is_file: bool,
    /// Whether it is a symbolic link.
    pub is_symlink: bool,
    /// The last access time, or why the platform has none.
    pub accessed: Result<Timestamp, Error>,
    /// The creation time, or why the platform has none.
    pub created: Result<Timestamp, Error>,
    /// The last modification time, or why the platform has none.
    pub modified: Result<Timestamp, Error>,
    /// The platform's attribute bits.
    pub file_attributes: u32,
    /// The platform's creation time value.
    pub creation_time: u64,
    /// The platform's last access time value.
    pub last_access_time: u64,
    /// The platform's last write time value.
    pub last_write_time: u64,
    /// The platform's file size value.
    pub file_size: u64,
}

impl MetaDataExt for DiskMetaData {
    fn accessed(&self) -> (r: Result<Timestamp, Error>)
        ensures
            r == self.accessed,
    {
        self.accessed
    }

    fn created(&self) -> (r: Result<Timestamp, Error>)
        ensures
            r == self.created,
    {
        self.created
    }

    fn is_file(&self) -> (b: bool)
        ensures
            b == self.is_file,
    {
        self.is_file
    }

    fn is_symlink(&self) -> (b: bool)
        ensures
            b == self.is_symlink,
    {
        self.is_symlink
    }

    fn len(&self) -> (n: u64)
        ensures
            n == self.len,
    {
        self.len
    }

    fn modified(&self) -> (r: Result<Timestamp, Error>)
        ensures
            r == self.modified,
    {
        self.modified
    }

    fn file_attributes(&self) -> (a: u32)
        ensures
            a == self.file_attributes,
    {
        self.file_attributes
    }

    fn creation_time(&self) -> (t: u64)
        ensures
            t == self.creation_time,
    {
        self.creation_time
    }

    fn last_access_time(&self) -> (t: u64)
        ensures
            t == self.last_access_time,
    {
        self.last_access_time
    }

    fn last_write_time(&self) -> (t: u64)
        ensures
            t == self.last_write_time,
    {
        self.last_write_time
    }

    fn file_size(&self) -> (n: u64)
        ensures
            n == self.file_size,
    {
        self.file_size
    }
}

/// Metadata information about a mapping's backing, whichever it is.
#[derive(Clone, Copy, Debug)]
pub enum MetaData {
    /// An empty mapping.
    Empty(EmptyMetaData),
    /// A memory-backed mapping.
    Memory(MemoryMetaData),
    /// A file-backed mapping.
    Disk(DiskMetaData),
}

impl MetaData {
    /// The metadata of an empty mapping.
    pub fn empty(meta: EmptyMetaData) -> (m: MetaData)
        ensures
            m == MetaData::Empty(meta),
    {
        MetaData::Empty(meta)
    }

    /// The metadata of a memory-backed mapping.
    pub fn memory(meta: MemoryMetaData) -> (m: MetaData)
        ensures
            m == MetaData::Memory(meta),
    {
        MetaData::Memory(meta)
    }

    /// The metadata of a file-backed mapping.
    pub fn disk(meta: DiskMetaData) -> (m: MetaData)
        ensures
            m == MetaData::Disk(meta),
    {
        MetaData::Disk(meta)
    }
}

/// The length the metadata reports, whichever the backing.
pub open spec fn spec_meta_len(m: MetaData) -> u64 {
    match m {
        MetaData::Empty(_) => 0,
        MetaData::Memory(mm) => mm.spec_size(),
        MetaData::Disk(d) => d.len,
    }
}

/// The creation time the metadata reports, whichever the backing.
pub open spec fn spec_meta_created(m: MetaData) -> Result<Timestamp, Error> {
    match m {
        MetaData::Empty(_) => Ok(Timestamp { secs: 0, nanos: 0 }),
        MetaData::Memory(mm) => Ok(mm.spec_create_at()),
        MetaData::Disk(d) => d.created,
    }
}

/// The last access time the metadata reports, whichever the backing.
pub open spec fn spec_meta_accessed(m: MetaData) -> Result<Timestamp, Error> {
    match m {
        MetaData::Empty(_) => Ok(Timestamp { secs: 0, nanos: 0 }),
        MetaData::Memory(mm) => Ok(mm.spec_create_at()),
        MetaData::Disk(d) => d.accessed,
    }
}

/// The last modification time the metadata reports, whichever the backing.
pub open spec fn spec_meta_modified(m: MetaData) -> Result<Timestamp, Error> {
    match m {
        MetaData::Empty(_) => Ok(Timestamp { secs: 0, nanos: 0 }),
        MetaData::Memory(mm) => Ok(mm.spec_create_at()),
        MetaData::Disk(d) => d.modified,
    }
}

impl MetaDataExt for MetaData {
    fn accessed(&self) -> (r: Result<Timestamp, Error>)
        ensures
            r == spec_meta_accessed(*self),
    {
        match self {
            MetaData::Empty(m) => m.accessed(),
            MetaData::Memory(m) => m.accessed(),
            MetaData::Disk(m) => m.accessed(),
        }
    }

    fn created(&self) -> (r: Result<Timestamp, Error>)
        ensures
            r == spec_meta_created(*self),
    {
        match self {
            MetaData::Empty(m) => m.created(),
            MetaData::Memory(m) => m.created(),
            MetaData::Disk(m) => m.created(),
        }
    }

    fn is_file(&self) -> (b: bool)
        ensures
            b == (*self matches MetaData::Disk(d) && d.is_file),
    {
        match self {
            MetaData::Empty(m) => m.is_file(),
            MetaData::Memory(m) => m.is_file(),
            MetaData::Disk(m) => m.is_file(),
        }
    }

    fn is_symlink(&self) -> (b: bool)
        ensures
            b == (*self matches MetaData::Disk(d) && d.is_symlink),
    {
        match self {
            MetaData::Empty(m) => m.is_symlink(),
            MetaData::Memory(m) => m.is_symlink(),
            MetaData::Disk(m) => m.is_symlink(),
        }
    }

    fn len(&self) -> (n: u64)
        ensures
            n == spec_meta_len(*self),
    {
        match self {
            MetaData::Empty(m) => m.len(),
            MetaData::Memory(m) => m.len(),
            MetaData::Disk(m) => m.len(),
        }
    }

    fn modified(&self) -> (r: Result<Timestamp, Error>)
        ensures
            r == spec_meta_modified(*self),
    {
        match self {
            MetaData::Empty(m) => m.modified(),
            MetaData::Memory(m) => m.modified(),
            MetaData::Disk(m) => m.modified(),
        }
    }

    fn file_attributes(&self) -> (a: u32)
        ensures
            a == (match *self {
                MetaData::Disk(d) => d.file_attributes,
                _ => 0,
            }),
    {
        match self {
            MetaData::Empty(m) => m.file_attributes(),
            MetaData::Memory(m) => m.file_attributes(),
            MetaData::Disk(m) => m.file_attributes(),
        }
    }

    fn creation_time(&self) -> (t: u64)
        ensures
            t == (match *self {
                MetaData::Empty(_) => 0,
                MetaData::Memory(mm) => mm.spec_create_at().secs as u64,
                MetaData::Disk(d) => d.creation_time,
            }),
    {
        match self {
            MetaData::Empty(m) => m.creation_time(),
            MetaData::Memory(m) => m.creation_time(),
            MetaData::Disk(m) => m.creation_time(),
        }
    }

    fn last_access_time(&self) -> (t: u64)
        ensures
            t == (match *self {
                MetaData::Empty(_) => 0,
                MetaData::Memory(mm) => mm.spec_create_at().secs as u64,
                MetaData::Disk(d) => d.last_access_time,
            }),
    {
        match self {
            MetaData::Empty(m) => m.last_access_time(),
            MetaData::Memory(m) => m.last_access_time(),
            MetaData::Disk(m) => m.last_access_time(),
        }
    }

    fn last_write_time(&self) -> (t: u64)
        ensures
            t == (match *self {
                MetaData::Empty(_) => 0,
                MetaData::Memory(mm) => mm.spec_create_at().secs as u64,
                MetaData::Disk(d) => d.last_write_time,
            }),
    {
        match self {
            MetaData::Empty(m) => m.last_write_time(),
            MetaData::Memory(m) => m.last_write_time(),
            MetaData::Disk(m) => m.last_write_time(),
        }
    }

    fn file_size(&self) -> (n: u64)
        ensures
            n == (match *self {
                MetaData::Empty(_) => 0,
                MetaData::Memory(mm) => mm.spec_size(),
                MetaData::Disk(d) => d.file_size,
            }),
    {
        match self {
            MetaData::Empty(m) => m.file_size(),
            MetaData::Memory(m) => m.file_size(),
            MetaData::Disk(m) => m.file_size(),
        }
    }
}

/// A memory-backed mapping reports one time for creation, access and
/// modification, and its size as both its length and its file size.
pub proof fn law_memory_times_agree(m: MemoryMetaData)
    ensures
        spec_meta_created(MetaData::Memory(m)) == spec_meta_accessed(MetaData::Memory(m)),
        spec_meta_accessed(MetaData::Memory(m)) == spec_meta_modified(MetaData::Memory(m)),
        spec_meta_len(MetaData::Memory(m)) == m.spec_size(),
{
}

} // verus!
