//! Validation and planning for file-backed mappings.
//!
//! Every constructor checks the mapping window against the length the file
//! will have *before* it resizes the file, so an invalid configuration never
//! zeroes or extends an existing file. A writable mapping tracks whether it
//! is copy-on-write and whether a failed resize poisoned it.
use vstd::prelude::*;
use crate::error::Error;

verus! {

/// The length a mapping covers: the explicit `len`, else up to the end of the file.
pub open spec fn effective_len(file_len: u64, offset: u64, len: Option<usize>) -> int {
    match len {
        Some(n) => n as int,
        None => file_len - offset,
    }
}

/// Whether mapping `len` bytes (or up to the end) from `offset` of a file of
/// `file_len` bytes stays inside the file and fits a slice.
pub open spec fn valid_mapping(file_len: u64, offset: u64, len: Option<usize>) -> bool {
    &&& offset <= file_len
    &&& offset + effective_len(file_len, offset, len) <= file_len
    &&& effective_len(file_len, offset, len) <= isize::MAX
}

/// The error that an invalid mapping window is rejected with, checked in
/// this order: offset past the end, `offset + len` overflowing `u64`, the
/// window ending past the end, the length not fitting a slice.
pub open spec fn mapping_error(file_len: u64, offset: u64, len: Option<usize>) -> Error {
    if offset > file_len {
        Error::OffsetPastEof { offset, file_len }
    } else if len is Some && offset + len->0 > u64::MAX {
        Error::RangeOverflow
    } else if len is Some && offset + len->0 > file_len {
        Error::RangePastEof { offset, len: len->0, file_len }
    } else {
        Error::MappingTooLong { effective_len: effective_len(file_len, offset, len) as u64 }
    }
}

/// Rejects mapping windows that exceed the backing file or a slice's length
/// limit, before anything resizes the file.
pub fn validate_mapping_range(file_len: u64, offset: u64, len: Option<usize>) -> (r: Result<
    (),
    Error,
>)
    ensures
        r is Ok <==> valid_mapping(file_len, offset, len),
        r is Err ==> r->Err_0 == mapping_error(file_len, offset, len),
{
    if offset > file_len {
        return Err(Error::OffsetPastEof { offset, file_len });
    }
    let effective_len: u64 = match len {
        Some(n) => n as u64,
        None => file_len - offset,
    };
    if let Some(n) = len {
        let end = match offset.checked_add(n as u64) {
            Some(end) => end,
            None => {
                return Err(Error::RangeOverflow);
            },
        };
        if end > file_len {
            return Err(Error::RangePastEof { offset, len: n, file_len });
        }
    }
    if effective_len > isize::MAX as u64 {
        return Err(Error::MappingTooLong { effective_len });
    }
    Ok(())
}

/// The mapping settings of the options a file-backed mapping is opened with.
#[derive(Clone, Copy, Debug, PartialEq, Eq, Structural)]
pub struct MapOptions {
    /// The length to give the file when it is empty (`0`: leave it).
    pub max_size: u64,
    /// The offset of the mapping in the file.
    pub offset: u64,
    /// The length of the mapping (`None`: up to the end of the file).
    pub len: Option<usize>,
    /// Whether opening truncates the file first.
    pub truncate: bool,
}

/// How a constructor opens the file.
#[derive(Clone, Copy, Debug, PartialEq, Eq, Structural)]
pub enum OpenKind {
    /// A new file (`create_new`); it starts empty.
    Create,
    /// An existing file, or a new one (`open`).
    OpenOrCreate,
    /// An existing file for writing (`open_exist`).
    OpenExist,
    /// An existing file mapped copy-on-write (`open_cow`).
    CopyOnWrite,
    /// An existing file mapped read-only (`open`, `open_exec` of the read-only types).
    ReadOnly,
}

/// The resizing a constructor performs before it maps the file.
#[derive(Clone, Copy, Debug, PartialEq, Eq, Structural)]
pub struct ResizePlan {
    /// Set the length to zero first (and sync).
    pub truncate_first: bool,
    /// Then set the length to this value (and sync).
    pub extend_to: Option<u64>,
}

/// The length the file has after a resize plan is carried out on a file of `current_len` bytes.
pub open spec fn len_after(current_len: u64, plan: ResizePlan) -> u64 {
    match plan.extend_to {
        Some(l) => l,
        None => if plan.truncate_first {
            0
        } else {
            current_len
        },
    }
}

/// The length the file will have once opened, before it is mapped.
pub open spec fn planned_len(kind: OpenKind, current_len: u64, opts: Option<MapOptions>) -> u64 {
    match opts {
        None => current_len,
        Some(o) => match kind {
            OpenKind::Create => o.max_size,
            OpenKind::OpenOrCreate => {
                let after_truncate: u64 = if o.truncate {
                    0
                } else {
                    current_len
                };
                if after_truncate == 0 && o.max_size > 0 {
                    o.max_size
                } else {
                    after_truncate
                }
            },
            OpenKind::OpenExist => if current_len == 0 && o.max_size > 0 {
                o.max_size
            } else {
                current_len
            },
            _ => current_len,
        },
    }
}

/// The resizing a constructor performs before it maps the file: `Create`
/// gives the new file its `max_size`; `open` truncates when asked and then
/// gives an empty file its `max_size`; `open_exist` gives an empty file its
/// `max_size`; copy-on-write and read-only mappings never resize.
pub open spec fn planned_resize(kind: OpenKind, current_len: u64, opts: Option<MapOptions>) -> ResizePlan {
    let none = ResizePlan { truncate_first: false, extend_to: None };
    match opts {
        None => none,
        Some(o) => match kind {
            OpenKind::Create => if o.max_size > 0 {
                ResizePlan { truncate_first: false, extend_to: Some(o.max_size) }
            } else {
                none
            },
            OpenKind::OpenOrCreate => ResizePlan {
                truncate_first: o.truncate,
                extend_to: if (o.truncate || current_len == 0) && o.max_size > 0 {
                    Some(o.max_size)
                } else {
                    None
                },
            },
            OpenKind::OpenExist => if current_len == 0 && o.max_size > 0 {
                ResizePlan { truncate_first: false, extend_to: Some(o.max_size) }
            } else {
                none
            },
            _ => none,
        },
    }
}

/// Whether a constructor checks the mapping window at all: always with
/// options, and without them only `open` of a writable mapping.
pub open spec fn validates(kind: OpenKind, opts: Option<MapOptions>) -> bool {
    opts is Some || kind == OpenKind::OpenOrCreate
}

/// Plans the resizing a constructor of kind `kind` performs on a file of
/// `current_len` bytes, after checking the mapping window against the
/// length the file will end up with. An invalid window yields the error
/// and no plan, so the file is never resized for a mapping that is then refused.
/// A file just made by `Create` is empty.
pub fn plan_open(kind: OpenKind, current_len: u64, opts: Option<MapOptions>) -> (r: Result<
    ResizePlan,
    Error,
>)
    requires
        kind == OpenKind::Create ==> current_len == 0,
    ensures
        match r {
            Ok(plan) => {
                &&& len_after(current_len, plan) == planned_len(kind, current_len, opts)
                &&& (validates(kind, opts) ==> valid_mapping(
                    planned_len(kind, current_len, opts),
                    if opts is Some {
                        opts->0.offset
                    } else {
                        0
                    },
                    if opts is Some {
                        opts->0.len
                    } else {
                        None
                    },
                ))
                &&& plan == planned_resize(kind, current_len, opts)
            },
            Err(e) => {
                let offset = if opts is Some {
                    opts->0.offset
                } else {
                    0
                };
                let len = if opts is Some {
                    opts->0.len
                } else {
                    None
                };
                &&& validates(kind, opts)
                &&& !valid_mapping(planned_len(kind, current_len, opts), offset, len)
                &&& e == mapping_error(planned_len(kind, current_len, opts), offset, len)
            },
        },
{
    let none = ResizePlan { truncate_first: false, extend_to: None };
    match opts {
        None => match kind {
            OpenKind::OpenOrCreate => {
                validate_mapping_range(current_len, 0, None)?;
                Ok(none)
            },
            _ => Ok(none),
        },
        Some(o) => match kind {
            OpenKind::Create => {
                validate_mapping_range(o.max_size, o.offset, o.len)?;
                if o.max_size > 0 {
                    Ok(ResizePlan { truncate_first: false, extend_to: Some(o.max_size) })
                } else {
                    Ok(none)
                }
            },
            OpenKind::OpenOrCreate => {
                let after_truncate: u64 = if o.truncate {
                    0
                } else {
                    current_len
                };
                let planned: u64 = if after_truncate == 0 && o.max_size > 0 {
                    o.max_size
                } else {
                    after_truncate
                };
                validate_mapping_range(planned, o.offset, o.len)?;
                let extend_to = if after_truncate == 0 && o.max_size > 0 {
                    Some(o.max_size)
                } else {
                    None
                };
                Ok(ResizePlan { truncate_first: o.truncate, extend_to })
            },
            OpenKind::OpenExist => {
                let grow = current_len == 0 && o.max_size > 0;
                let planned: u64 = if grow {
                    o.max_size
                } else {
                    current_len
                };
                validate_mapping_range(planned, o.offset, o.len)?;
                if grow {
                    Ok(ResizePlan { truncate_first: false, extend_to: Some(o.max_size) })
                } else {
                    Ok(none)
                }
            },
            _ => {
                validate_mapping_range(current_len, o.offset, o.len)?;
                Ok(none)
            },
        },
    }
}

/// The abstract state of a writable mapping's bookkeeping.
pub struct WritableMapView {
    /// The mapping is copy-on-write: its writes never reach the file.
    pub cow: bool,
    /// A failed resize left a placeholder mapping; the file's bytes are unreachable.
    pub poisoned: bool,
    /// The offset of the mapping in the file.
    pub offset: u64,
    /// The length asked for when opening (`None`: up to the end of the file).
    pub len: Option<usize>,
}

/// The bookkeeping of a writable file-backed mapping: whether it is
/// copy-on-write, whether a failed resize poisoned it, and the window it was
/// opened with.
pub struct WritableMap {
    cow: bool,
    poisoned: bool,
    offset: u64,
    len: Option<usize>,
}

impl View for WritableMap {
    type V = WritableMapView;

    closed spec fn view(&self) -> WritableMapView {
        WritableMapView { cow: self.cow, poisoned: self.poisoned, offset: self.offset, len: self.len }
    }
}

/// What a flush comes to: the poison error, nothing to do for a
/// copy-on-write mapping (`Ok(false)`), or an operating-system flush (`Ok(true)`).
pub open spec fn spec_flush(s: WritableMapView) -> Result<bool, Error> {
    if s.poisoned {
        Err(Error::Poisoned)
    } else if s.cow {
        Ok(false)
    } else {
        Ok(true)
    }
}

/// The mapping length after truncating the file to `max_sz` bytes: the
/// length asked for, clamped so that the mapping ends at the new end of the
/// file, or up to the end when none was asked for.
pub open spec fn clamped_len(s: WritableMapView, max_sz: u64) -> Option<usize> {
    match s.len {
        Some(l) => Some(
            if l <= ((max_sz - s.offset) as usize) {
                l
            } else {
                (max_sz - s.offset) as usize
            },
        ),
        None => None,
    }
}

/// What a truncate to `max_sz` bytes comes to before the file is touched.
pub open spec fn spec_truncate(s: WritableMapView, max_sz: u64) -> Result<Option<usize>, Error> {
    if s.poisoned {
        Err(Error::Poisoned)
    } else if s.cow {
        Err(Error::CopyOnWrite)
    } else if s.offset > max_sz {
        Err(Error::TruncatePastOffset)
    } else {
        Ok(clamped_len(s, max_sz))
    }
}

/// What closing with a final length comes to: a copy-on-write mapping may
/// not be truncated; a negative length means no truncation.
pub open spec fn spec_close_with_truncate(s: WritableMapView, max_sz: i64) -> Result<
    Option<u64>,
    Error,
> {
    if max_sz >= 0 && s.cow {
        Err(Error::CopyOnWrite)
    } else if max_sz >= 0 {
        Ok(Some(max_sz as u64))
    } else {
        Ok(None)
    }
}

impl WritableMap {
    /// The bookkeeping of a freshly opened writable mapping.
    pub fn new(cow: bool, offset: u64, len: Option<usize>) -> (m: WritableMap)
        ensures
            m@ == (WritableMapView { cow, poisoned: false, offset, len }),
    {
        WritableMap { cow, poisoned: false, offset, len }
    }

    /// Whether the mapping is copy-on-write.
    pub fn is_cow(&self) -> (b: bool)
        ensures
            b == self@.cow,
    {
        self.cow
    }

    /// Whether a failed resize poisoned the mapping.
    pub fn is_poisoned(&self) -> (b: bool)
        ensures
            b == self@.poisoned,
    {
        self.poisoned
    }

    /// The offset the mapping was opened at.
    pub fn offset(&self) -> (o: u64)
        ensures
            o == self@.offset,
    {
        self.offset
    }

    /// The length the mapping was opened with.
    pub fn requested_len(&self) -> (l: Option<usize>)
        ensures
            l == self@.len,
    {
        self.len
    }

    /// The length readers see of a mapping of `mapped_len` bytes: none once poisoned.
    pub fn visible_len(&self, mapped_len: usize) -> (n: usize)
        ensures
            n == (if self@.poisoned {
                0
            } else {
                mapped_len
            }),
    {
        if self.poisoned {
            0
        } else {
            mapped_len
        }
    }

    /// Decides a flush: the poison error, `Ok(false)` when there is nothing
    /// to do (copy-on-write), `Ok(true)` when the operating system must flush.
    pub fn check_flush(&self) -> (r: Result<bool, Error>)
        ensures
            r == spec_flush(self@),
    {
        if self.poisoned {
            Err(Error::Poisoned)
        } else if self.cow {
            Ok(false)
        } else {
            Ok(true)
        }
    }

    /// Fails with the poison error once a failed resize poisoned the
    /// mapping; used before freezing or closing in place.
    pub fn check_usable(&self) -> (r: Result<(), Error>)
        ensures
            r is Ok <==> !self@.poisoned,
            r is Err ==> r->Err_0 == Error::Poisoned,
    {
        if self.poisoned {
            Err(Error::Poisoned)
        } else {
            Ok(())
        }
    }

    /// Decides a truncate to `max_sz` bytes before the file is touched, and
    /// gives the length to map afterwards.
    pub fn plan_truncate(&self, max_sz: u64) -> (r: Result<Option<usize>, Error>)
        ensures
            r == spec_truncate(self@, max_sz),
    {
        if self.poisoned {
            return Err(Error::Poisoned);
        }
        if self.cow {
            return Err(Error::CopyOnWrite);
        }
        if self.offset > max_sz {
            return Err(Error::TruncatePastOffset);
        }
        match self.len {
            Some(user_len) => {
                let cap = (max_sz - self.offset) as usize;
                Ok(Some(if user_len <= cap { user_len } else { cap }))
            },
            None => Ok(None),
        }
    }

    /// Decides closing with final length `max_sz` (negative: keep the
    /// length) and gives the length to set.
    pub fn plan_close_with_truncate(&self, max_sz: i64) -> (r: Result<Option<u64>, Error>)
        ensures
            r == spec_close_with_truncate(self@, max_sz),
    {
        if max_sz >= 0 && self.cow {
            Err(Error::CopyOnWrite)
        } else if max_sz >= 0 {
            Ok(Some(max_sz as u64))
        } else {
            Ok(None)
        }
    }

    /// Records the end of a resize that began by dropping the mapping: a
    /// failure poisons it, a success leaves the state as it was.
    pub fn finish_resize(&mut self, succeeded: bool)
        ensures
            final(self)@ == (WritableMapView {
                poisoned: old(self)@.poisoned || !succeeded,
                ..old(self)@
            }),
    {
        if !succeeded {
            self.poisoned = true;
        }
    }
}

/// Poisoning is permanent: a poisoned mapping shows no bytes, refuses to
/// flush, truncate, freeze or close in place, and stays poisoned whatever
/// a later resize reports.
pub proof fn law_poison_is_sticky(s: WritableMapView, max_sz: u64, succeeded: bool)
    requires
        s.poisoned,
    ensures
        spec_flush(s) == Err::<bool, Error>(Error::Poisoned),
        spec_truncate(s, max_sz) == Err::<Option<usize>, Error>(Error::Poisoned),
        (WritableMapView { poisoned: s.poisoned || !succeeded, ..s }).poisoned,
{
}

/// A copy-on-write mapping never changes its file: flushing does nothing,
/// and truncating or closing with a length is refused.
pub proof fn law_cow_never_resizes(s: WritableMapView, max_sz: u64, close_len: i64)
    requires
        s.cow,
        !s.poisoned,
        close_len >= 0,
    ensures
        spec_flush(s) == Ok::<bool, Error>(false),
        spec_truncate(s, max_sz) == Err::<Option<usize>, Error>(Error::CopyOnWrite),
        spec_close_with_truncate(s, close_len) == Err::<Option<u64>, Error>(Error::CopyOnWrite),
{
}

/// After a truncate, the mapping window never reaches past the new end of
/// the file.
pub proof fn law_truncate_stays_in_file(s: WritableMapView, max_sz: u64)
    requires
        spec_truncate(s, max_sz) is Ok,
        max_sz - s.offset <= usize::MAX,
    ensures
        s.offset <= max_sz,
        spec_truncate(s, max_sz)->Ok_0 matches Some(l) ==> s.offset + l <= max_sz,
{
}

/// Opening with options grows a file that is (or is about to be) empty to
/// `max_size`: `Create` always, `open` when the file is empty or truncated
/// first (with or without `truncate`), `open_exist` when the file is empty.
/// A file that is neither empty nor truncated keeps its length, and a
/// copy-on-write or read-only open never resizes. The length planned for
/// validation is always the length the plan leaves.
pub proof fn law_open_grows_empty_files(kind: OpenKind, current_len: u64, o: MapOptions)
    ensures
        kind != OpenKind::Create || current_len == 0 ==> planned_len(kind, current_len, Some(o))
            == len_after(
            current_len,
            planned_resize(kind, current_len, Some(o)),
        ),
        o.max_size > 0 && kind == OpenKind::Create ==> planned_resize(kind, 0, Some(o))
            == (ResizePlan { truncate_first: false, extend_to: Some(o.max_size) }),
        o.max_size > 0 && kind == OpenKind::OpenOrCreate && (current_len == 0 || o.truncate)
            ==> planned_resize(kind, current_len, Some(o)) == (ResizePlan {
            truncate_first: o.truncate,
            extend_to: Some(o.max_size),
        }),
        o.max_size > 0 && kind == OpenKind::OpenExist && current_len == 0 ==> planned_resize(
            kind,
            current_len,
            Some(o),
        ) == (ResizePlan { truncate_first: false, extend_to: Some(o.max_size) }),
        current_len > 0 && !o.truncate && kind != OpenKind::Create ==> planned_resize(
            kind,
            current_len,
            Some(o),
        ) == (ResizePlan { truncate_first: false, extend_to: None }),
        (kind == OpenKind::CopyOnWrite || kind == OpenKind::ReadOnly) ==> planned_resize(
            kind,
            current_len,
            Some(o),
        ) == (ResizePlan { truncate_first: false, extend_to: None }),
        o.max_size > 0 && (kind == OpenKind::Create || kind == OpenKind::OpenOrCreate
            && (current_len == 0 || o.truncate) || kind == OpenKind::OpenExist && current_len
            == 0) ==> planned_len(kind, current_len, Some(o)) == o.max_size,
{
}

/// Truncation is refused only for a poisoned or copy-on-write mapping, or
/// for a length that would leave the mapping's offset past the end: every
/// other length is accepted, the offset itself included (for a mapping at
/// offset 0, emptying the file). The new window keeps the length asked for
/// when it still fits, is cut at the new end otherwise, and still reaches
/// to the end when none was asked for.
pub proof fn law_truncate_accepts_lengths_from_offset(s: WritableMapView, max_sz: u64)
    ensures
        spec_truncate(s, max_sz) is Ok <==> !s.poisoned && !s.cow && s.offset <= max_sz,
        s.poisoned ==> spec_truncate(s, max_sz) == Err::<Option<usize>, Error>(Error::Poisoned),
        !s.poisoned && s.cow ==> spec_truncate(s, max_sz) == Err::<Option<usize>, Error>(
            Error::CopyOnWrite,
        ),
        !s.poisoned && !s.cow && s.offset > max_sz ==> spec_truncate(s, max_sz) == Err::<
            Option<usize>,
            Error,
        >(Error::TruncatePastOffset),
        !s.poisoned && !s.cow && s.offset <= max_sz && s.len is None ==> spec_truncate(s, max_sz)
            == Ok::<Option<usize>, Error>(None),
        !s.poisoned && !s.cow && s.len is Some && s.offset + s.len->0 <= max_sz && max_sz
            - s.offset <= usize::MAX ==> spec_truncate(
            s,
            max_sz,
        ) == Ok::<Option<usize>, Error>(Some(s.len->0)),
        !s.poisoned && !s.cow && s.len is Some && s.offset <= max_sz && s.offset + s.len->0
            > max_sz && max_sz - s.offset <= usize::MAX ==> spec_truncate(s, max_sz) == Ok::<
            Option<usize>,
            Error,
        >(Some((max_sz - s.offset) as usize)),
{
}

} // verus!
