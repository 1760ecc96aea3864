use fmmap::error::{Error, ErrorKind};
use fmmap::metadata::{DiskMetaData, EmptyMetaData, MemoryMetaData, MetaData, MetaDataExt, Timestamp};

#[test]
fn test_empty_metadata() {
    let meta = MetaData::empty(EmptyMetaData::default());
    let unix_epoch = Timestamp::unix_epoch();

    assert_eq!(meta.accessed().unwrap(), unix_epoch);
    assert_eq!(meta.created().unwrap(), unix_epoch);
    assert!(!meta.is_file());

    assert!(!meta.is_symlink());
    assert_eq!(meta.len(), 0);
    assert_eq!(meta.modified().unwrap(), unix_epoch);
    assert_eq!(meta.file_attributes(), 0);
    assert_eq!(meta.creation_time(), 0);
    assert_eq!(meta.last_access_time(), 0);
    assert_eq!(meta.last_write_time(), 0);
    assert_eq!(meta.file_size(), 0);
}

#[test]
fn test_memory_metadata() {
    let created = Timestamp { secs: 1_700_000_000, nanos: 5 };
    let meta = MetaData::memory(MemoryMetaData::new("Hello, fmmap!".len() as u64, created));

    assert!(!meta.is_file());

    assert!(!meta.is_symlink());
    assert_eq!(meta.len(), "Hello, fmmap!".len() as u64);
    assert_eq!(meta.file_size(), "Hello, fmmap!".len() as u64);
    assert_eq!(meta.file_attributes(), 0);
    assert!(
        meta.modified().unwrap() == meta.created().unwrap()
            && meta.created().unwrap() == meta.accessed().unwrap()
    );
    assert!(
        meta.creation_time() == meta.last_access_time()
            && meta.last_access_time() == meta.last_write_time()
    );
}

#[test]
fn memory_metadata_reports_creation_second() {
    let created = Timestamp { secs: 42, nanos: 999_999_999 };
    let meta = MetaData::memory(MemoryMetaData::new(7, created));
    assert_eq!(meta.creation_time(), 42);
    assert_eq!(meta.accessed().unwrap(), created);
    assert_eq!(meta.len(), 7);
}

#[test]
fn disk_metadata_keeps_times_before_the_epoch() {
    // 1969-12-31T23:59:58.75: two seconds back rounded down, plus 0.75 s
    let before = Timestamp { secs: -2, nanos: 750_000_000 };
    let meta = MetaData::disk(DiskMetaData {
        len: 3,
        is_file: true,
        is_symlink: false,
        accessed: Ok(before),
        created: Err(Error::Io(ErrorKind::Unsupported)),
        modified: Ok(before),
        file_attributes: 0o100644,
        creation_time: 0,
        last_access_time: 0,
        last_write_time: 0,
        file_size: 3,
    });
    assert_eq!(meta.accessed(), Ok(before));
    assert_eq!(meta.modified().unwrap().as_secs(), -2);
    assert_eq!(meta.created(), Err(Error::Io(ErrorKind::Unsupported)));
    assert!(meta.is_file());
    assert_eq!(meta.len(), 3);
}
