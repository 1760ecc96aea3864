//! Reads and writes at an offset in the bytes of a mapping.
//!
//! These are the operations that every mapping offers on top of its byte
//! slice: bounds-checked windows, partial and exact copies, and typed
//! integer reads and writes in big- and little-endian byte order.
use vstd::prelude::*;
use crate::codec::{
    bytes_of, decode_be, decode_le, encode_be, encode_le, lemma_pow256_16, lemma_pow256_small,
    lemma_bytes_len, lemma_bytes_of_value, lemma_signed_round_trip, lemma_value_bound,
    lemma_value_of_bytes, pow256, signed_fits, splice, to_signed, to_unsigned, value_of,
};
use crate::error::Error;
use core::ops::Range;

verus! {

/// The value of the `n` bytes of `buf` from `offset` on.
pub open spec fn field(buf: Seq<u8>, offset: int, n: nat, big_endian: bool) -> nat {
    value_of(buf.subrange(offset, offset + n), big_endian)
}

/// `buf` with `n` bytes from `offset` on holding the encoding of `v`.
pub open spec fn stored(buf: Seq<u8>, offset: int, v: nat, n: nat, big_endian: bool) -> Seq<u8> {
    splice(buf, offset, bytes_of(v, n, big_endian))
}

/// The number of bytes that a partial copy from `offset` moves: what is
/// left after `offset`, at most `want`, and nothing when `offset` is past the end.
pub open spec fn partial_count(len: nat, offset: nat, want: nat) -> nat {
    if len < offset {
        0
    } else if len - offset > want {
        want
    } else {
        (len - offset) as nat
    }
}

/// The window `offset..offset + len` of a buffer of `upper_bound` bytes, or
/// `UnexpectedEof` when it does not fit (including when the end overflows).
pub fn checked_range(offset: usize, len: usize, upper_bound: usize) -> (r: Result<Range<usize>, Error>)
    ensures
        match r {
            Ok(range) => offset + len <= upper_bound && range.start == offset && range.end == offset
                + len,
            Err(e) => offset + len > upper_bound && e == Error::UnexpectedEof,
        },
{
    match offset.checked_add(len) {
        Some(end) => {
            if end <= upper_bound {
                Ok(offset..end)
            } else {
                Err(Error::UnexpectedEof)
            }
        },
        None => Err(Error::UnexpectedEof),
    }
}

/// The start and length of the window from `offset` to the end of a buffer
/// of `len` bytes, as a reader or writer at `offset` sees it.
pub fn tail_window(len: usize, offset: usize) -> (r: Result<(usize, usize), Error>)
    ensures
        match r {
            Ok((start, n)) => offset <= len && start == offset && n == len - offset,
            Err(e) => len < offset && e == Error::UnexpectedEof,
        },
{
    if len < offset {
        Err(Error::UnexpectedEof)
    } else {
        Ok((offset, len - offset))
    }
}

/// The `sz` bytes from `offset` on; the caller guarantees they exist.
pub fn slice(buf: &[u8], offset: usize, sz: usize) -> (out: &[u8])
    requires
        offset + sz <= buf@.len(),
    ensures
        out@ == buf@.subrange(offset as int, offset + sz),
{
    let _len = buf.len();
    vstd::slice::slice_subrange(buf, offset, offset + sz)
}

/// The `sz` bytes from `offset` on, or `UnexpectedEof` when they run past the end.
pub fn bytes(buf: &[u8], offset: usize, sz: usize) -> (r: Result<&[u8], Error>)
    ensures
        match r {
            Ok(out) => offset + sz <= buf@.len() && out@ == buf@.subrange(
                offset as int,
                offset + sz,
            ),
            Err(e) => offset + sz > buf@.len() && e == Error::UnexpectedEof,
        },
{
    let range = checked_range(offset, sz, buf.len())?;
    Ok(vstd::slice::slice_subrange(buf, range.start, range.end))
}

/// A copy of all the bytes.
pub fn copy_all_to_vec(buf: &[u8]) -> (v: Vec<u8>)
    ensures
        v@ == buf@,
{
    vstd::slice::slice_to_vec(buf)
}

/// A copy of the `len` bytes from `offset` on; the caller guarantees they exist.
pub fn copy_range_to_vec(buf: &[u8], offset: usize, len: usize) -> (v: Vec<u8>)
    requires
        offset + len <= buf@.len(),
    ensures
        v@ == buf@.subrange(offset as int, offset + len),
{
    vstd::slice::slice_to_vec(slice(buf, offset, len))
}

/// Copies `n` bytes of `src` from `src_off` into `dst` at `dst_off`.
fn copy_within(dst: &mut [u8], dst_off: usize, src: &[u8], src_off: usize, n: usize)
    requires
        dst_off + n <= old(dst)@.len(),
        src_off + n <= src@.len(),
    ensures
        final(dst)@ == splice(old(dst)@, dst_off as int, src@.subrange(src_off as int, src_off + n)),
{
    let dlen = dst.len();
    let slen = src.len();
    let mut i: usize = 0;
    while i < n
        invariant
            dlen == dst@.len(),
            slen == src@.len(),
            dst@.len() == old(dst)@.len(),
            dst_off + n <= dlen,
            src_off + n <= slen,
            i <= n,
            forall|j: int| 0 <= j < dst_off ==> dst@[j] == old(dst)@[j],
            forall|j: int| dst_off + i <= j < dlen ==> dst@[j] == old(dst)@[j],
            forall|j: int| dst_off <= j < dst_off + i ==> dst@[j] == src@[j - dst_off + src_off],
        decreases n - i,
    {
        dst[dst_off + i] = src[src_off + i];
        i = i + 1;
    }
    assert(dst@ =~= splice(old(dst)@, dst_off as int, src@.subrange(src_off as int, src_off + n)));
}

/// Copies as many bytes as fit from `offset` on into `dst` and returns how
/// many were copied; nothing is copied when `offset` is past the end.
pub fn read(buf: &[u8], dst: &mut [u8], offset: usize) -> (n: usize)
    ensures
        n == partial_count(buf@.len(), offset as nat, old(dst)@.len()),
        final(dst)@.len() == old(dst)@.len(),
        forall|j: int| 0 <= j < n ==> final(dst)@[j] == buf@[offset + j],
        forall|j: int| n <= j < old(dst)@.len() ==> final(dst)@[j] == old(dst)@[j],
{
    let len = buf.len();
    if len < offset {
        0
    } else {
        let remaining = len - offset;
        let dst_len = dst.len();
        let n = if remaining > dst_len {
            dst_len
        } else {
            remaining
        };
        copy_within(dst, 0, buf, offset, n);
        n
    }
}

/// Fills all of `dst` with the bytes from `offset` on, or fails with
/// `UnexpectedEof` and leaves `dst` alone when there are not enough.
pub fn read_exact(buf: &[u8], dst: &mut [u8], offset: usize) -> (r: Result<(), Error>)
    ensures
        match r {
            Ok(()) => offset + old(dst)@.len() <= buf@.len() && final(dst)@ == buf@.subrange(
                offset as int,
                offset + old(dst)@.len(),
            ),
            Err(e) => offset + old(dst)@.len() > buf@.len() && e == Error::UnexpectedEof
                && final(dst)@ == old(dst)@,
        },
{
    let len = buf.len();
    match len.checked_sub(offset) {
        None => Err(Error::UnexpectedEof),
        Some(remaining) => {
            let dst_len = dst.len();
            if remaining < dst_len {
                Err(Error::UnexpectedEof)
            } else {
                copy_within(dst, 0, buf, offset, dst_len);
                assert(dst@ =~= buf@.subrange(offset as int, offset + dst_len));
                Ok(())
            }
        },
    }
}

/// Copies as much of `src` as fits from `offset` on and returns how many
/// bytes were written; nothing is written when `offset` is at or past the end.
pub fn write(buf: &mut [u8], src: &[u8], offset: usize) -> (n: usize)
    ensures
        n == (if old(buf)@.len() <= offset {
            0
        } else {
            partial_count(old(buf)@.len(), offset as nat, src@.len())
        }),
        final(buf)@.len() == old(buf)@.len(),
        forall|j: int| 0 <= j < n ==> final(buf)@[offset + j] == src@[j],
        forall|j: int|
            0 <= j < old(buf)@.len() && !(offset <= j < offset + n) ==> final(buf)@[j] == old(
                buf,
            )@[j],
{
    let len = buf.len();
    if len <= offset {
        0
    } else {
        let remaining = len - offset;
        let src_len = src.len();
        let n = if remaining > src_len {
            src_len
        } else {
            remaining
        };
        copy_within(buf, offset, src, 0, n);
        n
    }
}

/// Writes all of `src` from `offset` on, or fails with `UnexpectedEof` and
/// leaves the buffer alone when it does not fit.
pub fn write_all(buf: &mut [u8], src: &[u8], offset: usize) -> (r: Result<(), Error>)
    ensures
        match r {
            Ok(()) => offset + src@.len() <= old(buf)@.len() && final(buf)@ == splice(
                old(buf)@,
                offset as int,
                src@,
            ),
            Err(e) => offset + src@.len() > old(buf)@.len() && e == Error::UnexpectedEof
                && final(buf)@ == old(buf)@,
        },
{
    let len = buf.len();
    match len.checked_sub(offset) {
        None => Err(Error::UnexpectedEof),
        Some(remaining) => {
            let src_len = src.len();
            if remaining < src_len {
                Err(Error::UnexpectedEof)
            } else {
                copy_within(buf, offset, src, 0, src_len);
                assert(src@.subrange(0, src_len as int) =~= src@);
                Ok(())
            }
        },
    }
}

/// Sets the bytes from `start` up to `end` (or the end of the buffer,
/// whichever comes first) to zero.
pub fn zero_range(buf: &mut [u8], start: usize, end: usize)
    requires
        start <= end,
        start <= old(buf)@.len(),
    ensures
        final(buf)@.len() == old(buf)@.len(),
        forall|j: int|
            0 <= j < old(buf)@.len() ==> final(buf)@[j] == (if start <= j < end {
                0u8
            } else {
                old(buf)@[j]
            }),
{
    let len = buf.len();
    let stop = if end < len {
        end
    } else {
        len
    };
    let mut i: usize = start;
    while i < stop
        invariant
            len == buf@.len(),
            buf@.len() == old(buf)@.len(),
            start <= i,
            i <= stop,
            start <= stop,
            stop <= len,
            stop == (if end < len { end } else { len }),
            forall|j: int| 0 <= j < start ==> buf@[j] == old(buf)@[j],
            forall|j: int| i <= j < len ==> buf@[j] == old(buf)@[j],
            forall|j: int| start <= j < i ==> buf@[j] == 0u8,
        decreases stop - i,
    {
        buf[i] = 0;
        i = i + 1;
    }
}

/// The unsigned value of `n` bytes from `offset` on, in the given byte order.
pub fn read_unsigned(buf: &[u8], offset: usize, n: usize, big_endian: bool) -> (r: Result<
    u128,
    Error,
>)
    requires
        n <= 16,
    ensures
        match r {
            Ok(v) => offset + n <= buf@.len() && v == field(buf@, offset as int, n as nat, big_endian)
                && v < pow256(n as nat),
            Err(e) => offset + n > buf@.len() && e == Error::UnexpectedEof,
        },
{
    let len = buf.len();
    match len.checked_sub(offset) {
        None => Err(Error::UnexpectedEof),
        Some(remaining) => {
            if remaining < n {
                Err(Error::UnexpectedEof)
            } else {
                proof {
                    lemma_value_bound(buf@.subrange(offset as int, offset + n));
                }
                if big_endian {
                    Ok(decode_be(buf, offset, n))
                } else {
                    Ok(decode_le(buf, offset, n))
                }
            }
        },
    }
}

/// Stores the `n`-byte encoding of `v` from `offset` on, in the given byte
/// order, or fails with `UnexpectedEof` and leaves the buffer alone.
pub fn write_unsigned(buf: &mut [u8], v: u128, offset: usize, n: usize, big_endian: bool) -> (r:
    Result<(), Error>)
    requires
        n <= 16,
    ensures
        match r {
            Ok(()) => offset + n <= old(buf)@.len() && final(buf)@ == stored(
                old(buf)@,
                offset as int,
                v as nat,
                n as nat,
                big_endian,
            ),
            Err(e) => offset + n > old(buf)@.len() && e == Error::UnexpectedEof && final(buf)@ == old(
                buf,
            )@,
        },
{
    let len = buf.len();
    match len.checked_sub(offset) {
        None => Err(Error::UnexpectedEof),
        Some(remaining) => {
            if remaining < n {
                Err(Error::UnexpectedEof)
            } else {
                if big_endian {
                    encode_be(buf, offset, v, n);
                } else {
                    encode_le(buf, offset, v, n);
                }
                Ok(())
            }
        },
    }
}

/// The number of bytes in a `usize` or `isize`.
pub open spec fn word_bytes() -> nat {
    (usize::BITS / 8) as nat
}

/// The number of bytes in a `usize` or `isize`.
pub fn word_size() -> (n: usize)
    ensures
        n == word_bytes(),
        n == 4 || n == 8,
{
    (usize::BITS / 8) as usize
}

/// Reads the byte at `offset`.
pub fn read_u8(buf: &[u8], offset: usize) -> (r: Result<u8, Error>)
    ensures
        match r {
            Ok(v) => offset < buf@.len() && v == buf@[offset as int],
            Err(e) => offset >= buf@.len() && e == Error::UnexpectedEof,
        },
{
    let len = buf.len();
    match len.checked_sub(offset) {
        None => Err(Error::UnexpectedEof),
        Some(remaining) => {
            if remaining < 1 {
                Err(Error::UnexpectedEof)
            } else {
                Ok(buf[offset])
            }
        },
    }
}

/// Reads the byte at `offset` as a two's-complement `i8`.
pub fn read_i8(buf: &[u8], offset: usize) -> (r: Result<i8, Error>)
    ensures
        match r {
            Ok(v) => offset < buf@.len() && v == to_signed(buf@[offset as int] as nat, 1),
            Err(e) => offset >= buf@.len() && e == Error::UnexpectedEof,
        },
{
    proof {
        lemma_pow256_small();
    }
    let u = read_u8(buf, offset)?;
    if u < 0x80 {
        Ok(u as i8)
    } else {
        Ok(-((0xFF - u) as i8) - 1)
    }
}

/// Writes the byte `val` at `offset`.
pub fn write_u8(buf: &mut [u8], val: u8, offset: usize) -> (r: Result<(), Error>)
    ensures
        match r {
            Ok(()) => offset < old(buf)@.len() && final(buf)@ == old(buf)@.update(offset as int, val),
            Err(e) => offset >= old(buf)@.len() && e == Error::UnexpectedEof && final(buf)@ == old(
                buf,
            )@,
        },
{
    let len = buf.len();
    match len.checked_sub(offset) {
        None => Err(Error::UnexpectedEof),
        Some(remaining) => {
            if remaining < 1 {
                Err(Error::UnexpectedEof)
            } else {
                buf[offset] = val;
                Ok(())
            }
        },
    }
}

/// Writes the two's-complement byte of `val` at `offset`.
pub fn write_i8(buf: &mut [u8], val: i8, offset: usize) -> (r: Result<(), Error>)
    ensures
        match r {
            Ok(()) => offset < old(buf)@.len() && final(buf)@ == old(buf)@.update(
                offset as int,
                to_unsigned(val as int, 1) as u8,
            ),
            Err(e) => offset >= old(buf)@.len() && e == Error::UnexpectedEof && final(buf)@ == old(
                buf,
            )@,
        },
{
    proof {
        lemma_pow256_small();
    }
    let u: u8 = if val >= 0 {
        val as u8
    } else {
        0xFF - ((-(val + 1)) as u8)
    };
    write_u8(buf, u, offset)
}

/// Reads a big-endian `u16` at `offset`.
pub fn read_u16(buf: &[u8], offset: usize) -> (r: Result<u16, Error>)
    ensures
        match r {
            Ok(v) => offset + 2 <= buf@.len() && v == field(buf@, offset as int, 2, true),
            Err(e) => offset + 2 > buf@.len() && e == Error::UnexpectedEof,
        },
{
    proof {
        lemma_pow256_small();
    }
    let v = read_unsigned(buf, offset, 2, true)?;
    Ok(v as u16)
}

/// Reads a little-endian `u16` at `offset`.
pub fn read_u16_le(buf: &[u8], offset: usize) -> (r: Result<u16, Error>)
    ensures
        match r {
            Ok(v) => offset + 2 <= buf@.len() && v == field(buf@, offset as int, 2, false),
            Err(e) => offset + 2 > buf@.len() && e == Error::UnexpectedEof,
        },
{
    proof {
        lemma_pow256_small();
    }
    let v = read_unsigned(buf, offset, 2, false)?;
    Ok(v as u16)
}

/// Reads a big-endian `u32` at `offset`.
pub fn read_u32(buf: &[u8], offset: usize) -> (r: Result<u32, Error>)
    ensures
        match r {
            Ok(v) => offset + 4 <= buf@.len() && v == field(buf@, offset as int, 4, true),
            Err(e) => offset + 4 > buf@.len() && e == Error::UnexpectedEof,
        },
{
    proof {
        lemma_pow256_small();
    }
    let v = read_unsigned(buf, offset, 4, true)?;
    Ok(v as u32)
}

/// Reads a little-endian `u32` at `offset`.
pub fn read_u32_le(buf: &[u8], offset: usize) -> (r: Result<u32, Error>)
    ensures
        match r {
            Ok(v) => offset + 4 <= buf@.len() && v == field(buf@, offset as int, 4, false),
            Err(e) => offset + 4 > buf@.len() && e == Error::UnexpectedEof,
        },
{
    proof {
        lemma_pow256_small();
    }
    let v = read_unsigned(buf, offset, 4, false)?;
    Ok(v as u32)
}

/// Reads a big-endian `u64` at `offset`.
pub fn read_u64(buf: &[u8], offset: usize) -> (r: Result<u64, Error>)
    ensures
        match r {
            Ok(v) => offset + 8 <= buf@.len() && v == field(buf@, offset as int, 8, true),
            Err(e) => offset + 8 > buf@.len() && e == Error::UnexpectedEof,
        },
{
    proof {
        lemma_pow256_small();
    }
    let v = read_unsigned(buf, offset, 8, true)?;
    Ok(v as u64)
}

/// Reads a little-endian `u64` at `offset`.
pub fn read_u64_le(buf: &[u8], offset: usize) -> (r: Result<u64, Error>)
    ensures
        match r {
            Ok(v) => offset + 8 <= buf@.len() && v == field(buf@, offset as int, 8, false),
            Err(e) => offset + 8 > buf@.len() && e == Error::UnexpectedEof,
        },
{
    proof {
        lemma_pow256_small();
    }
    let v = read_unsigned(buf, offset, 8, false)?;
    Ok(v as u64)
}

/// Reads a big-endian `u128` at `offset`.
pub fn read_u128(buf: &[u8], offset: usize) -> (r: Result<u128, Error>)
    ensures
        match r {
            Ok(v) => offset + 16 <= buf@.len() && v == field(buf@, offset as int, 16, true),
            Err(e) => offset + 16 > buf@.len() && e == Error::UnexpectedEof,
        },
{
    proof {
        lemma_pow256_16();
    }
    let v = read_unsigned(buf, offset, 16, true)?;
    Ok(v)
}

/// Reads a little-endian `u128` at `offset`.
pub fn read_u128_le(buf: &[u8], offset: usize) -> (r: Result<u128, Error>)
    ensures
        match r {
            Ok(v) => offset + 16 <= buf@.len() && v == field(buf@, offset as int, 16, false),
            Err(e) => offset + 16 > buf@.len() && e == Error::UnexpectedEof,
        },
{
    proof {
        lemma_pow256_16();
    }
    let v = read_unsigned(buf, offset, 16, false)?;
    Ok(v)
}

/// Reads a big-endian two's-complement `i16` at `offset`.
pub fn read_i16(buf: &[u8], offset: usize) -> (r: Result<i16, Error>)
    ensures
        match r {
            Ok(v) => offset + 2 <= buf@.len() && v == to_signed(
                field(buf@, offset as int, 2, true),
                2,
            ),
            Err(e) => offset + 2 > buf@.len() && e == Error::UnexpectedEof,
        },
{
    proof {
        lemma_pow256_small();
    }
    let v = read_unsigned(buf, offset, 2, true)?;
    let u: u16 = v as u16;
    if u < 0x8000 {
        Ok(u as i16)
    } else {
        Ok(-((0xFFFF - u) as i16) - 1)
    }
}

/// Reads a little-endian two's-complement `i16` at `offset`.
pub fn read_i16_le(buf: &[u8], offset: usize) -> (r: Result<i16, Error>)
    ensures
        match r {
            Ok(v) => offset + 2 <= buf@.len() && v == to_signed(
                field(buf@, offset as int, 2, false),
                2,
            ),
            Err(e) => offset + 2 > buf@.len() && e == Error::UnexpectedEof,
        },
{
    proof {
        lemma_pow256_small();
    }
    let v = read_unsigned(buf, offset, 2, false)?;
    let u: u16 = v as u16;
    if u < 0x8000 {
        Ok(u as i16)
    } else {
        Ok(-((0xFFFF - u) as i16) - 1)
    }
}

/// Reads a big-endian two's-complement `i32` at `offset`.
pub fn read_i32(buf: &[u8], offset: usize) -> (r: Result<i32, Error>)
    ensures
        match r {
            Ok(v) => offset + 4 <= buf@.len() && v == to_signed(
                field(buf@, offset as int, 4, true),
                4,
            ),
            Err(e) => offset + 4 > buf@.len() && e == Error::UnexpectedEof,
        },
{
    proof {
        lemma_pow256_small();
    }
    let v = read_unsigned(buf, offset, 4, true)?;
    let u: u32 = v as u32;
    if u < 0x8000_0000 {
        Ok(u as i32)
    } else {
        Ok(-((0xFFFF_FFFF - u) as i32) - 1)
    }
}

/// Reads a little-endian two's-complement `i32` at `offset`.
pub fn read_i32_le(buf: &[u8], offset: usize) -> (r: Result<i32, Error>)
    ensures
        match r {
            Ok(v) => offset + 4 <= buf@.len() && v == to_signed(
                field(buf@, offset as int, 4, false),
                4,
            ),
            Err(e) => offset + 4 > buf@.len() && e == Error::UnexpectedEof,
        },
{
    proof {
        lemma_pow256_small();
    }
    let v = read_unsigned(buf, offset, 4, false)?;
    let u: u32 = v as u32;
    if u < 0x8000_0000 {
        Ok(u as i32)
    } else {
        Ok(-((0xFFFF_FFFF - u) as i32) - 1)
    }
}

/// Reads a big-endian two's-complement `i64` at `offset`.
pub fn read_i64(buf: &[u8], offset: usize) -> (r: Result<i64, Error>)
    ensures
        match r {
            Ok(v) => offset + 8 <= buf@.len() && v == to_signed(
                field(buf@, offset as int, 8, true),
                8,
            ),
            Err(e) => offset + 8 > buf@.len() && e == Error::UnexpectedEof,
        },
{
    proof {
        lemma_pow256_small();
    }
    let v = read_unsigned(buf, offset, 8, true)?;
    let u: u64 = v as u64;
    if u < 0x8000_0000_0000_0000 {
        Ok(u as i64)
    } else {
        Ok(-((0xFFFF_FFFF_FFFF_FFFF - u) as i64) - 1)
    }
}

/// Reads a little-endian two's-complement `i64` at `offset`.
pub fn read_i64_le(buf: &[u8], offset: usize) -> (r: Result<i64, Error>)
    ensures
        match r {
            Ok(v) => offset + 8 <= buf@.len() && v == to_signed(
                field(buf@, offset as int, 8, false),
                8,
            ),
            Err(e) => offset + 8 > buf@.len() && e == Error::UnexpectedEof,
        },
{
    proof {
        lemma_pow256_small();
    }
    let v = read_unsigned(buf, offset, 8, false)?;
    let u: u64 = v as u64;
    if u < 0x8000_0000_0000_0000 {
        Ok(u as i64)
    } else {
        Ok(-((0xFFFF_FFFF_FFFF_FFFF - u) as i64) - 1)
    }
}

/// Reads a big-endian two's-complement `i128` at `offset`.
pub fn read_i128(buf: &[u8], offset: usize) -> (r: Result<i128, Error>)
    ensures
        match r {
            Ok(v) => offset + 16 <= buf@.len() && v == to_signed(
                field(buf@, offset as int, 16, true),
                16,
            ),
            Err(e) => offset + 16 > buf@.len() && e == Error::UnexpectedEof,
        },
{
    proof {
        lemma_pow256_16();
    }
    let v = read_unsigned(buf, offset, 16, true)?;
    let u: u128 = v;
    if u < 0x8000_0000_0000_0000_0000_0000_0000_0000 {
        Ok(u as i128)
    } else {
        Ok(-((u128::MAX - u) as i128) - 1)
    }
}

/// Reads a little-endian two's-complement `i128` at `offset`.
pub fn read_i128_le(buf: &[u8], offset: usize) -> (r: Result<i128, Error>)
    ensures
        match r {
            Ok(v) => offset + 16 <= buf@.len() && v == to_signed(
                field(buf@, offset as int, 16, false),
                16,
            ),
            Err(e) => offset + 16 > buf@.len() && e == Error::UnexpectedEof,
        },
{
    proof {
        lemma_pow256_16();
    }
    let v = read_unsigned(buf, offset, 16, false)?;
    let u: u128 = v;
    if u < 0x8000_0000_0000_0000_0000_0000_0000_0000 {
        Ok(u as i128)
    } else {
        Ok(-((u128::MAX - u) as i128) - 1)
    }
}

/// Writes `val` at `offset` in big-endian order.
pub fn write_u16(buf: &mut [u8], val: u16, offset: usize) -> (r: Result<(), Error>)
    ensures
        match r {
            Ok(()) => offset + 2 <= old(buf)@.len() && final(buf)@ == stored(
                old(buf)@,
                offset as int,
                val as nat,
                2,
                true,
            ),
            Err(e) => offset + 2 > old(buf)@.len() && e == Error::UnexpectedEof && final(buf)@
                == old(buf)@,
        },
{
    write_unsigned(buf, val as u128, offset, 2, true)
}

/// Writes `val` at `offset` in little-endian order.
pub fn write_u16_le(buf: &mut [u8], val: u16, offset: usize) -> (r: Result<(), Error>)
    ensures
        match r {
            Ok(()) => offset + 2 <= old(buf)@.len() && final(buf)@ == stored(
                old(buf)@,
                offset as int,
                val as nat,
                2,
                false,
            ),
            Err(e) => offset + 2 > old(buf)@.len() && e == Error::UnexpectedEof && final(buf)@
                == old(buf)@,
        },
{
    write_unsigned(buf, val as u128, offset, 2, false)
}

/// Writes `val` at `offset` in big-endian order.
pub fn write_u32(buf: &mut [u8], val: u32, offset: usize) -> (r: Result<(), Error>)
    ensures
        match r {
            Ok(()) => offset + 4 <= old(buf)@.len() && final(buf)@ == stored(
                old(buf)@,
                offset as int,
                val as nat,
                4,
                true,
            ),
            Err(e) => offset + 4 > old(buf)@.len() && e == Error::UnexpectedEof && final(buf)@
                == old(buf)@,
        },
{
    write_unsigned(buf, val as u128, offset, 4, true)
}

/// Writes `val` at `offset` in little-endian order.
pub fn write_u32_le(buf: &mut [u8], val: u32, offset: usize) -> (r: Result<(), Error>)
    ensures
        match r {
            Ok(()) => offset + 4 <= old(buf)@.len() && final(buf)@ == stored(
                old(buf)@,
                offset as int,
                val as nat,
                4,
                false,
            ),
            Err(e) => offset + 4 > old(buf)@.len() && e == Error::UnexpectedEof && final(buf)@
                == old(buf)@,
        },
{
    write_unsigned(buf, val as u128, offset, 4, false)
}

/// Writes `val` at `offset` in big-endian order.
pub fn write_u64(buf: &mut [u8], val: u64, offset: usize) -> (r: Result<(), Error>)
    ensures
        match r {
            Ok(()) => offset + 8 <= old(buf)@.len() && final(buf)@ == stored(
                old(buf)@,
                offset as int,
                val as nat,
                8,
                true,
            ),
            Err(e) => offset + 8 > old(buf)@.len() && e == Error::UnexpectedEof && final(buf)@
                == old(buf)@,
        },
{
    write_unsigned(buf, val as u128, offset, 8, true)
}

/// Writes `val` at `offset` in little-endian order.
pub fn write_u64_le(buf: &mut [u8], val: u64, offset: usize) -> (r: Result<(), Error>)
    ensures
        match r {
            Ok(()) => offset + 8 <= old(buf)@.len() && final(buf)@ == stored(
                old(buf)@,
                offset as int,
                val as nat,
                8,
                false,
            ),
            Err(e) => offset + 8 > old(buf)@.len() && e == Error::UnexpectedEof && final(buf)@
                == old(buf)@,
        },
{
    write_unsigned(buf, val as u128, offset, 8, false)
}

/// Writes `val` at `offset` in big-endian order.
pub fn write_u128(buf: &mut [u8], val: u128, offset: usize) -> (r: Result<(), Error>)
    ensures
        match r {
            Ok(()) => offset + 16 <= old(buf)@.len() && final(buf)@ == stored(
                old(buf)@,
                offset as int,
                val as nat,
                16,
                true,
            ),
            Err(e) => offset + 16 > old(buf)@.len() && e == Error::UnexpectedEof && final(buf)@
                == old(buf)@,
        },
{
    write_unsigned(buf, val, offset, 16, true)
}

/// Writes `val` at `offset` in little-endian order.
pub fn write_u128_le(buf: &mut [u8], val: u128, offset: usize) -> (r: Result<(), Error>)
    ensures
        match r {
            Ok(()) => offset + 16 <= old(buf)@.len() && final(buf)@ == stored(
                old(buf)@,
                offset as int,
                val as nat,
                16,
                false,
            ),
            Err(e) => offset + 16 > old(buf)@.len() && e == Error::UnexpectedEof && final(buf)@
                == old(buf)@,
        },
{
    write_unsigned(buf, val, offset, 16, false)
}

/// Writes the two's-complement `val` at `offset` in big-endian order.
pub fn write_i16(buf: &mut [u8], val: i16, offset: usize) -> (r: Result<(), Error>)
    ensures
        match r {
            Ok(()) => offset + 2 <= old(buf)@.len() && final(buf)@ == stored(
                old(buf)@,
                offset as int,
                to_unsigned(val as int, 2),
                2,
                true,
            ),
            Err(e) => offset + 2 > old(buf)@.len() && e == Error::UnexpectedEof && final(buf)@
                == old(buf)@,
        },
{
    proof {
        lemma_pow256_small();
    }
    let u: u16 = if val >= 0 {
        val as u16
    } else {
        0xFFFF - ((-(val + 1)) as u16)
    };
    write_unsigned(buf, u as u128, offset, 2, true)
}

/// Writes the two's-complement `val` at `offset` in little-endian order.
pub fn write_i16_le(buf: &mut [u8], val: i16, offset: usize) -> (r: Result<(), Error>)
    ensures
        match r {
            Ok(()) => offset + 2 <= old(buf)@.len() && final(buf)@ == stored(
                old(buf)@,
                offset as int,
                to_unsigned(val as int, 2),
                2,
                false,
            ),
            Err(e) => offset + 2 > old(buf)@.len() && e == Error::UnexpectedEof && final(buf)@
                == old(buf)@,
        },
{
    proof {
        lemma_pow256_small();
    }
    let u: u16 = if val >= 0 {
        val as u16
    } else {
        0xFFFF - ((-(val + 1)) as u16)
    };
    write_unsigned(buf, u as u128, offset, 2, false)
}

/// Writes the two's-complement `val` at `offset` in big-endian order.
pub fn write_i32(buf: &mut [u8], val: i32, offset: usize) -> (r: Result<(), Error>)
    ensures
        match r {
            Ok(()) => offset + 4 <= old(buf)@.len() && final(buf)@ == stored(
                old(buf)@,
                offset as int,
                to_unsigned(val as int, 4),
                4,
                true,
            ),
            Err(e) => offset + 4 > old(buf)@.len() && e == Error::UnexpectedEof && final(buf)@
                == old(buf)@,
        },
{
    proof {
        lemma_pow256_small();
    }
    let u: u32 = if val >= 0 {
        val as u32
    } else {
        0xFFFF_FFFF - ((-(val + 1)) as u32)
    };
    write_unsigned(buf, u as u128, offset, 4, true)
}

/// Writes the two's-complement `val` at `offset` in little-endian order.
pub fn write_i32_le(buf: &mut [u8], val: i32, offset: usize) -> (r: Result<(), Error>)
    ensures
        match r {
            Ok(()) => offset + 4 <= old(buf)@.len() && final(buf)@ == stored(
                old(buf)@,
                offset as int,
                to_unsigned(val as int, 4),
                4,
                false,
            ),
            Err(e) => offset + 4 > old(buf)@.len() && e == Error::UnexpectedEof && final(buf)@
                == old(buf)@,
        },
{
    proof {
        lemma_pow256_small();
    }
    let u: u32 = if val >= 0 {
        val as u32
    } else {
        0xFFFF_FFFF - ((-(val + 1)) as u32)
    };
    write_unsigned(buf, u as u128, offset, 4, false)
}

/// Writes the two's-complement `val` at `offset` in big-endian order.
pub fn write_i64(buf: &mut [u8], val: i64, offset: usize) -> (r: Result<(), Error>)
    ensures
        match r {
            Ok(()) => offset + 8 <= old(buf)@.len() && final(buf)@ == stored(
                old(buf)@,
                offset as int,
                to_unsigned(val as int, 8),
                8,
                true,
            ),
            Err(e) => offset + 8 > old(buf)@.len() && e == Error::UnexpectedEof && final(buf)@
                == old(buf)@,
        },
{
    proof {
        lemma_pow256_small();
    }
    let u: u64 = if val >= 0 {
        val as u64
    } else {
        0xFFFF_FFFF_FFFF_FFFF - ((-(val + 1)) as u64)
    };
    write_unsigned(buf, u as u128, offset, 8, true)
}

/// Writes the two's-complement `val` at `offset` in little-endian order.
pub fn write_i64_le(buf: &mut [u8], val: i64, offset: usize) -> (r: Result<(), Error>)
    ensures
        match r {
            Ok(()) => offset + 8 <= old(buf)@.len() && final(buf)@ == stored(
                old(buf)@,
                offset as int,
                to_unsigned(val as int, 8),
                8,
                false,
            ),
            Err(e) => offset + 8 > old(buf)@.len() && e == Error::UnexpectedEof && final(buf)@
                == old(buf)@,
        },
{
    proof {
        lemma_pow256_small();
    }
    let u: u64 = if val >= 0 {
        val as u64
    } else {
        0xFFFF_FFFF_FFFF_FFFF - ((-(val + 1)) as u64)
    };
    write_unsigned(buf, u as u128, offset, 8, false)
}

/// Writes the two's-complement `val` at `offset` in big-endian order.
pub fn write_i128(buf: &mut [u8], val: i128, offset: usize) -> (r: Result<(), Error>)
    ensures
        match r {
            Ok(()) => offset + 16 <= old(buf)@.len() && final(buf)@ == stored(
                old(buf)@,
                offset as int,
                to_unsigned(val as int, 16),
                16,
                true,
            ),
            Err(e) => offset + 16 > old(buf)@.len() && e == Error::UnexpectedEof && final(buf)@
                == old(buf)@,
        },
{
    proof {
        lemma_pow256_16();
    }
    let u: u128 = if val >= 0 {
        val as u128
    } else {
        u128::MAX - ((-(val + 1)) as u128)
    };
    write_unsigned(buf, u as u128, offset, 16, true)
}

/// Writes the two's-complement `val` at `offset` in little-endian order.
pub fn write_i128_le(buf: &mut [u8], val: i128, offset: usize) -> (r: Result<(), Error>)
    ensures
        match r {
            Ok(()) => offset + 16 <= old(buf)@.len() && final(buf)@ == stored(
                old(buf)@,
                offset as int,
                to_unsigned(val as int, 16),
                16,
                false,
            ),
            Err(e) => offset + 16 > old(buf)@.len() && e == Error::UnexpectedEof && final(buf)@
                == old(buf)@,
        },
{
    proof {
        lemma_pow256_16();
    }
    let u: u128 = if val >= 0 {
        val as u128
    } else {
        u128::MAX - ((-(val + 1)) as u128)
    };
    write_unsigned(buf, u as u128, offset, 16, false)
}

/// Reads a big-endian `usize` (of the platform's word size) at `offset`.
pub fn read_usize(buf: &[u8], offset: usize) -> (r: Result<usize, Error>)
    ensures
        match r {
            Ok(v) => offset + word_bytes() <= buf@.len() && v == field(
                buf@,
                offset as int,
                word_bytes(),
                true,
            ),
            Err(e) => offset + word_bytes() > buf@.len() && e == Error::UnexpectedEof,
        },
{
    proof {
        lemma_pow256_small();
    }
    let n = word_size();
    let v = read_unsigned(buf, offset, n, true)?;
    Ok(v as usize)
}

/// Reads a big-endian two's-complement `isize` (of the platform's word size) at `offset`.
pub fn read_isize(buf: &[u8], offset: usize) -> (r: Result<isize, Error>)
    ensures
        match r {
            Ok(v) => offset + word_bytes() <= buf@.len() && v == to_signed(
                field(buf@, offset as int, word_bytes(), true),
                word_bytes(),
            ),
            Err(e) => offset + word_bytes() > buf@.len() && e == Error::UnexpectedEof,
        },
{
    proof {
        lemma_pow256_small();
    }
    let n = word_size();
    let v = read_unsigned(buf, offset, n, true)?;
    let u = v as usize;
    if u <= isize::MAX as usize {
        Ok(u as isize)
    } else {
        Ok(-((usize::MAX - u) as isize) - 1)
    }
}

/// Writes `val` (in the platform's word size) at `offset` in big-endian order.
pub fn write_usize(buf: &mut [u8], val: usize, offset: usize) -> (r: Result<(), Error>)
    ensures
        match r {
            Ok(()) => offset + word_bytes() <= old(buf)@.len() && final(buf)@ == stored(
                old(buf)@,
                offset as int,
                val as nat,
                word_bytes(),
                true,
            ),
            Err(e) => offset + word_bytes() > old(buf)@.len() && e == Error::UnexpectedEof
                && final(buf)@ == old(buf)@,
        },
{
    let n = word_size();
    write_unsigned(buf, val as u128, offset, n, true)
}

/// Writes the two's-complement `val` (in the platform's word size) at `offset` in big-endian order.
pub fn write_isize(buf: &mut [u8], val: isize, offset: usize) -> (r: Result<(), Error>)
    ensures
        match r {
            Ok(()) => offset + word_bytes() <= old(buf)@.len() && final(buf)@ == stored(
                old(buf)@,
                offset as int,
                to_unsigned(val as int, word_bytes()),
                word_bytes(),
                true,
            ),
            Err(e) => offset + word_bytes() > old(buf)@.len() && e == Error::UnexpectedEof
                && final(buf)@ == old(buf)@,
        },
{
    proof {
        lemma_pow256_small();
    }
    let n = word_size();
    let u: usize = if val >= 0 {
        val as usize
    } else {
        usize::MAX - ((-(val + 1)) as usize)
    };
    write_unsigned(buf, u as u128, offset, n, true)
}

/// Reads a little-endian `usize` (of the platform's word size) at `offset`.
pub fn read_usize_le(buf: &[u8], offset: usize) -> (r: Result<usize, Error>)
    ensures
        match r {
            Ok(v) => offset + word_bytes() <= buf@.len() && v == field(
                buf@,
                offset as int,
                word_bytes(),
                false,
            ),
            Err(e) => offset + word_bytes() > buf@.len() && e == Error::UnexpectedEof,
        },
{
    proof {
        lemma_pow256_small();
    }
    let n = word_size();
    let v = read_unsigned(buf, offset, n, false)?;
    Ok(v as usize)
}

/// Reads a little-endian two's-complement `isize` (of the platform's word size) at `offset`.
pub fn read_isize_le(buf: &[u8], offset: usize) -> (r: Result<isize, Error>)
    ensures
        match r {
            Ok(v) => offset + word_bytes() <= buf@.len() && v == to_signed(
                field(buf@, offset as int, word_bytes(), false),
                word_bytes(),
            ),
            Err(e) => offset + word_bytes() > buf@.len() && e == Error::UnexpectedEof,
        },
{
    proof {
        lemma_pow256_small();
    }
    let n = word_size();
    let v = read_unsigned(buf, offset, n, false)?;
    let u = v as usize;
    if u <= isize::MAX as usize {
        Ok(u as isize)
    } else {
        Ok(-((usize::MAX - u) as isize) - 1)
    }
}

/// Writes `val` (in the platform's word size) at `offset` in little-endian order.
pub fn write_usize_le(buf: &mut [u8], val: usize, offset: usize) -> (r: Result<(), Error>)
    ensures
        match r {
            Ok(()) => offset + word_bytes() <= old(buf)@.len() && final(buf)@ == stored(
                old(buf)@,
                offset as int,
                val as nat,
                word_bytes(),
                false,
            ),
            Err(e) => offset + word_bytes() > old(buf)@.len() && e == Error::UnexpectedEof
                && final(buf)@ == old(buf)@,
        },
{
    let n = word_size();
    write_unsigned(buf, val as u128, offset, n, false)
}

/// Writes the two's-complement `val` (in the platform's word size) at `offset` in little-endian order.
pub fn write_isize_le(buf: &mut [u8], val: isize, offset: usize) -> (r: Result<(), Error>)
    ensures
        match r {
            Ok(()) => offset + word_bytes() <= old(buf)@.len() && final(buf)@ == stored(
                old(buf)@,
                offset as int,
                to_unsigned(val as int, word_bytes()),
                word_bytes(),
                false,
            ),
            Err(e) => offset + word_bytes() > old(buf)@.len() && e == Error::UnexpectedEof
                && final(buf)@ == old(buf)@,
        },
{
    proof {
        lemma_pow256_small();
    }
    let n = word_size();
    let u: usize = if val >= 0 {
        val as usize
    } else {
        usize::MAX - ((-(val + 1)) as usize)
    };
    write_unsigned(buf, u as u128, offset, n, false)
}

/// A write leaves the buffer's length alone and changes no byte outside the
/// bytes it wrote.
pub proof fn law_write_frame(buf: Seq<u8>, offset: int, bytes: Seq<u8>)
    requires
        0 <= offset,
        offset + bytes.len() <= buf.len(),
    ensures
        splice(buf, offset, bytes).len() == buf.len(),
        forall|j: int|
            0 <= j < buf.len() && !(offset <= j < offset + bytes.len()) ==> splice(
                buf,
                offset,
                bytes,
            )[j] == buf[j],
        splice(buf, offset, bytes).subrange(offset, offset + bytes.len()) == bytes,
{
    assert(splice(buf, offset, bytes).subrange(offset, offset + bytes.len()) =~= bytes);
}

/// Reading an unsigned integer back from where it was written gives the
/// value written, in either byte order.
pub proof fn law_read_after_write(buf: Seq<u8>, offset: int, v: nat, n: nat, big_endian: bool)
    requires
        0 <= offset,
        offset + n <= buf.len(),
        v < pow256(n),
    ensures
        field(stored(buf, offset, v, n, big_endian), offset, n, big_endian) == v,
{
    lemma_bytes_len(v, n);
    law_write_frame(buf, offset, bytes_of(v, n, big_endian));
    lemma_value_of_bytes(v, n);
    vstd::arithmetic::div_mod::lemma_small_mod(v, pow256(n));
}

/// Reading a two's-complement integer back from where it was written gives
/// the value written, in either byte order.
pub proof fn law_read_after_write_signed(
    buf: Seq<u8>,
    offset: int,
    v: int,
    n: nat,
    big_endian: bool,
)
    requires
        0 <= offset,
        offset + n <= buf.len(),
        signed_fits(v, n),
    ensures
        to_signed(
            field(stored(buf, offset, to_unsigned(v, n), n, big_endian), offset, n, big_endian),
            n,
        ) == v,
{
    lemma_signed_round_trip(v, n);
    law_read_after_write(buf, offset, to_unsigned(v, n), n, big_endian);
}

/// Writing back the integer just read leaves the bytes as they were.
pub proof fn law_write_of_read_is_identity(buf: Seq<u8>, offset: int, n: nat, big_endian: bool)
    requires
        0 <= offset,
        offset + n <= buf.len(),
    ensures
        stored(buf, offset, field(buf, offset, n, big_endian), n, big_endian) == buf,
{
    let s = buf.subrange(offset, offset + n);
    lemma_bytes_of_value(s);
    assert(splice(buf, offset, s) =~= buf);
}

} // verus!
