use fmmap::error::{Error, ErrorKind};
use fmmap::mapping::{
    plan_open, validate_mapping_range, MapOptions, OpenKind, ResizePlan, WritableMap,
};

fn opts(max_size: u64, offset: u64, len: Option<usize>, truncate: bool) -> Option<MapOptions> {
    Some(MapOptions { max_size, offset, len, truncate })
}

const NO_RESIZE: ResizePlan = ResizePlan { truncate_first: false, extend_to: None };

#[test]
fn mapping_range_accepts_in_bounds_windows() {
    assert_eq!(validate_mapping_range(4, 1, Some(2)), Ok(()));
    assert_eq!(validate_mapping_range(4, 4, None), Ok(()));
    assert_eq!(validate_mapping_range(4, 0, Some(4)), Ok(()));
}

#[test]
fn mapping_range_error_for_each_cause() {
    assert_eq!(
        validate_mapping_range(4, 64, None),
        Err(Error::OffsetPastEof { offset: 64, file_len: 4 })
    );
    assert_eq!(
        validate_mapping_range(u64::MAX, u64::MAX, Some(1)),
        Err(Error::RangeOverflow)
    );
    assert_eq!(
        validate_mapping_range(4, 0, Some(128)),
        Err(Error::RangePastEof { offset: 0, len: 128, file_len: 4 })
    );
    assert_eq!(
        validate_mapping_range(u64::MAX, 0, None),
        Err(Error::MappingTooLong { effective_len: u64::MAX })
    );
    assert_eq!(
        validate_mapping_range(4, 64, None).unwrap_err().kind(),
        ErrorKind::InvalidInput
    );
}

#[test]
fn map_range_validation_rejects_oversized_window_plan() {
    // a 4-byte file and a 128-byte window: every constructor refuses it
    let len128 = opts(0, 0, Some(128), false);
    assert!(plan_open(OpenKind::Create, 0, len128).is_err());
    assert!(plan_open(OpenKind::OpenOrCreate, 4, len128).is_err());
    assert!(plan_open(OpenKind::OpenExist, 4, len128).is_err());
    assert!(plan_open(OpenKind::CopyOnWrite, 4, len128).is_err());
    assert!(plan_open(OpenKind::ReadOnly, 4, len128).is_err());
    // offset past the end with no len
    assert!(plan_open(OpenKind::ReadOnly, 4, opts(0, 64, None, false)).is_err());
    // an in-bounds window is accepted and resizes nothing
    assert_eq!(
        plan_open(OpenKind::ReadOnly, 4, opts(0, 1, Some(2), false)),
        Ok(NO_RESIZE)
    );
}

#[test]
fn invalid_options_with_truncate_are_refused_before_resizing() {
    // truncate(true) + offset past the planned empty file
    assert_eq!(
        plan_open(OpenKind::OpenOrCreate, 11, opts(0, 1, Some(2), true)),
        Err(Error::OffsetPastEof { offset: 1, file_len: 0 })
    );
    // truncate(true) + max_size 4 + len 64
    assert_eq!(
        plan_open(OpenKind::OpenOrCreate, 11, opts(4, 0, Some(64), true)),
        Err(Error::RangePastEof { offset: 0, len: 64, file_len: 4 })
    );
}

#[test]
fn open_plans_resize_as_the_constructors_do() {
    // create with max_size extends the new file
    assert_eq!(
        plan_open(OpenKind::Create, 0, opts(100, 0, None, false)),
        Ok(ResizePlan { truncate_first: false, extend_to: Some(100) })
    );
    assert_eq!(plan_open(OpenKind::Create, 0, None), Ok(NO_RESIZE));
    // open with truncate and max_size truncates, then extends
    assert_eq!(
        plan_open(OpenKind::OpenOrCreate, 23, opts(100, 11, None, true)),
        Ok(ResizePlan { truncate_first: true, extend_to: Some(100) })
    );
    // open of a non-empty file with max_size leaves its length
    assert_eq!(
        plan_open(OpenKind::OpenOrCreate, 23, opts(100, 11, None, false)),
        Ok(NO_RESIZE)
    );
    // open_exist grows an empty file only
    assert_eq!(
        plan_open(OpenKind::OpenExist, 0, opts(100, 0, None, false)),
        Ok(ResizePlan { truncate_first: false, extend_to: Some(100) })
    );
    assert_eq!(
        plan_open(OpenKind::OpenExist, 23, opts(100, 11, None, false)),
        Ok(NO_RESIZE)
    );
    assert_eq!(plan_open(OpenKind::OpenExist, 0, None), Ok(NO_RESIZE));
    assert_eq!(plan_open(OpenKind::OpenOrCreate, 0, None), Ok(NO_RESIZE));
}

#[test]
fn truncate_clamps_oversized_len_plan() {
    let m = WritableMap::new(false, 0, Some(8192));
    assert_eq!(m.plan_truncate(1024), Ok(Some(1024)));
    assert_eq!(m.plan_truncate(10_000), Ok(Some(8192)));
    let m = WritableMap::new(false, 0, None);
    assert_eq!(m.plan_truncate(1024), Ok(None));
}

#[test]
fn truncate_below_offset_is_refused() {
    let m = WritableMap::new(false, 1024, None);
    assert_eq!(m.plan_truncate(500), Err(Error::TruncatePastOffset));
    assert_eq!(Error::TruncatePastOffset.kind(), ErrorKind::InvalidInput);
    // the mapping is untouched and can still be flushed
    assert_eq!(m.check_flush(), Ok(true));
}

#[test]
fn cow_mapping_refuses_truncation_and_skips_flush() {
    let m = WritableMap::new(true, 0, None);
    assert_eq!(m.plan_truncate(0), Err(Error::CopyOnWrite));
    assert_eq!(Error::CopyOnWrite.kind(), ErrorKind::Unsupported);
    assert_eq!(m.check_flush(), Ok(false));
    assert_eq!(m.plan_close_with_truncate(0), Err(Error::CopyOnWrite));
    assert_eq!(m.plan_close_with_truncate(-1), Ok(None));
    assert!(m.is_cow());
}

#[test]
fn failed_resize_poisons_for_good() {
    let mut m = WritableMap::new(false, 0, Some(64));
    m.finish_resize(true);
    assert!(!m.is_poisoned());
    m.finish_resize(false);
    assert!(m.is_poisoned());
    m.finish_resize(true);
    assert!(m.is_poisoned());
    assert_eq!(m.visible_len(64), 0);
    assert_eq!(m.check_flush(), Err(Error::Poisoned));
    assert_eq!(m.plan_truncate(64), Err(Error::Poisoned));
    assert_eq!(m.check_usable(), Err(Error::Poisoned));
    assert_eq!(Error::Poisoned.kind(), ErrorKind::Other);
}

#[test]
fn close_with_truncate_plans_the_final_length() {
    let m = WritableMap::new(false, 0, None);
    assert_eq!(m.plan_close_with_truncate(10), Ok(Some(10)));
    assert_eq!(m.plan_close_with_truncate(-1), Ok(None));
    assert_eq!(m.visible_len(10), 10);
    assert_eq!(m.check_usable(), Ok(()));
    assert_eq!(m.offset(), 0);
    assert_eq!(m.requested_len(), None);
}
