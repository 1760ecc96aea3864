use fmmap::access::{
    bytes, checked_range, copy_all_to_vec, copy_range_to_vec, read, read_exact, read_i128,
    read_i128_le, read_i16, read_i16_le, read_i32, read_i32_le, read_i64, read_i64_le, read_i8,
    read_isize, read_isize_le, read_u128, read_u128_le, read_u16, read_u16_le, read_u32,
    read_u32_le, read_u64, read_u64_le, read_u8, read_unsigned, read_usize, read_usize_le, slice,
    tail_window, word_size, write_all, write_i128, write_i128_le, write_i16, write_i16_le,
    write_i32, write_i32_le, write_i64, write_i64_le, write_i8, write_isize, write_isize_le,
    write_u128, write_u128_le, write_u16, write_u16_le, write_u32, write_u32_le, write_u64,
    write_u64_le, write_u8, write_unsigned, write_usize, write_usize_le, zero_range,
};
use fmmap::error::{Error, ErrorKind};

#[test]
fn read_returns_partial_count_at_eof() {
    let file = vec![1u8, 2, 3, 4];
    let mut dst = [0u8; 8];

    let n = read(&file, &mut dst, 2);

    assert_eq!(n, 2);
    assert_eq!(&dst[..2], &[3, 4]);
    assert_eq!(&dst[2..], &[0; 6]);
}

#[test]
fn checked_range_methods_reject_overflow() {
    let file = vec![1u8, 2, 3, 4];

    // `bytes`, `range_reader`, `write_range_to_new_file`, `bytes_mut` and
    // `range_writer` all take their window from `checked_range`.
    assert!(bytes(&file, usize::MAX, 1).is_err());
    assert!(checked_range(usize::MAX, 1, file.len()).is_err());
    assert_eq!(
        checked_range(usize::MAX, 1, file.len()).unwrap_err(),
        Error::UnexpectedEof
    );
}

#[test]
fn bytes_mut_allows_exact_fit() {
    let file = vec![1u8, 2, 3, 4];

    let r = checked_range(0, 4, file.len()).unwrap();
    assert_eq!(file[r].len(), 4);
    let r = checked_range(4, 0, file.len()).unwrap();
    assert_eq!(file[r].len(), 0);
    // a writer at the end has nothing left to write
    assert_eq!(tail_window(file.len(), 4).unwrap(), (4, 0));
}

#[test]
fn read_write_error_paths() {
    let mut file = vec![1u8, 2, 3, 4];
    let mut buf = [0u8; 8];

    // reader with offset > len → Err
    assert!(tail_window(file.len(), 99).is_err());
    // writer with offset > len → Err
    assert!(tail_window(file.len(), 99).is_err());

    // read with offset > len → 0
    assert_eq!(read(&file, &mut buf, 99), 0);
    // write with offset > len → 0
    assert_eq!(fmmap::access::write(&mut file, b"abc", 99), 0);

    // read_exact: offset > len → Err
    assert!(read_exact(&file, &mut buf, 99).is_err());
    // read_exact: remaining < dst_len → Err
    assert!(read_exact(&file, &mut buf, 0).is_err());

    // write_all: offset > len → Err
    assert!(write_all(&mut file, b"data", 99).is_err());
    // write_all: remaining < src_len → Err
    assert!(write_all(&mut file, &[0u8; 8], 0).is_err());

    // read_u8/i8 with offset > len → Err
    assert!(read_u8(&file, 99).is_err());
    assert!(read_i8(&file, 99).is_err());
    // read_u8/i8 at offset == len → Err
    assert!(read_u8(&file, 4).is_err());
    assert!(read_i8(&file, 4).is_err());
    assert_eq!(file, vec![1, 2, 3, 4]);
}

#[test]
fn write_at_end_writes_nothing_and_read_at_end_reads_nothing() {
    let mut file = vec![1u8, 2, 3, 4];
    let mut buf = [9u8; 2];
    assert_eq!(fmmap::access::write(&mut file, b"xy", 4), 0);
    assert_eq!(read(&file, &mut buf, 4), 0);
    assert_eq!(buf, [9, 9]);
    assert_eq!(file, vec![1, 2, 3, 4]);
}

#[test]
fn partial_write_stops_at_the_end() {
    let mut file = vec![0u8; 4];
    assert_eq!(fmmap::access::write(&mut file, b"abcdef", 1), 3);
    assert_eq!(file, b"\0abc".to_vec());
    assert_eq!(fmmap::access::write(&mut file, b"Z", 0), 1);
    assert_eq!(file, b"Zabc".to_vec());
}

#[test]
fn exact_reads_and_writes_round_trip() {
    let mut file = vec![0u8; 16];
    write_all(&mut file, b"some data...", 2).unwrap();
    let mut buf = vec![0u8; 12];
    read_exact(&file, &mut buf, 2).unwrap();
    assert_eq!(buf.as_slice(), b"some data...");
    assert_eq!(bytes(&file, 2, 4).unwrap(), b"some");
    assert_eq!(slice(&file, 7, 4), b"data");
    assert_eq!(copy_range_to_vec(&file, 2, 4), b"some".to_vec());
    assert_eq!(copy_all_to_vec(&file).len(), 16);
}

#[test]
fn zero_range_clamps_to_the_end() {
    let mut file = vec![7u8; 6];
    zero_range(&mut file, 2, 4);
    assert_eq!(file, vec![7, 7, 0, 0, 7, 7]);
    zero_range(&mut file, 5, 100);
    assert_eq!(file, vec![7, 7, 0, 0, 7, 0]);
}

#[test]
fn big_endian_and_little_endian_bytes() {
    let mut file = vec![0u8; 8];
    write_u16(&mut file, 0x1234, 0).unwrap();
    write_u16_le(&mut file, 0x1234, 2).unwrap();
    write_u32(&mut file, 0xA1B2_C3D4, 4).unwrap();
    assert_eq!(file, vec![0x12, 0x34, 0x34, 0x12, 0xA1, 0xB2, 0xC3, 0xD4]);
    assert_eq!(read_u16(&file, 0).unwrap(), 0x1234);
    assert_eq!(read_u16_le(&file, 0).unwrap(), 0x3412);
    assert_eq!(read_u32_le(&file, 4).unwrap(), 0xD4C3_B2A1);
    assert_eq!(read_unsigned(&file, 4, 3, true).unwrap(), 0xA1B2C3);
    assert_eq!(read_unsigned(&file, 4, 3, false).unwrap(), 0xC3B2A1);
}

#[test]
fn twos_complement_bytes() {
    let mut file = vec![0u8; 4];
    write_i16(&mut file, -2, 0).unwrap();
    assert_eq!(&file[..2], &[0xFF, 0xFE]);
    write_i16_le(&mut file, -2, 2).unwrap();
    assert_eq!(&file[2..], &[0xFE, 0xFF]);
    assert_eq!(read_i16(&file, 0).unwrap(), -2);
    assert_eq!(read_i16_le(&file, 2).unwrap(), -2);
    write_i8(&mut file, i8::MIN, 0).unwrap();
    assert_eq!(file[0], 0x80);
    assert_eq!(read_i8(&file, 0).unwrap(), i8::MIN);
    write_unsigned(&mut file, 0x0102_0304, 0, 4, true).unwrap();
    assert_eq!(file, vec![1, 2, 3, 4]);
    assert_eq!(
        write_unsigned(&mut file, 1, 2, 4, false),
        Err(Error::UnexpectedEof)
    );
    assert_eq!(Error::UnexpectedEof.kind(), ErrorKind::UnexpectedEof);
}

#[test]
fn every_integer_type_round_trips() {
    let mut file = vec![0u8; 4096];

    write_u8(&mut file, 8, 1000).unwrap();
    write_u16(&mut file, 16, 1001).unwrap();
    write_u32(&mut file, 32, 1003).unwrap();
    write_u64(&mut file, 64, 1007).unwrap();
    write_u128(&mut file, 128, 1015).unwrap();
    write_u16_le(&mut file, 16, 1031).unwrap();
    write_u32_le(&mut file, 32, 1033).unwrap();
    write_u64_le(&mut file, 64, 1037).unwrap();
    write_u128_le(&mut file, 128, 1045).unwrap();
    write_usize(&mut file, 64, 1061).unwrap();
    write_usize_le(&mut file, 64, 1069).unwrap();

    assert_eq!(8, read_u8(&file, 1000).unwrap());
    assert_eq!(16, read_u16(&file, 1001).unwrap());
    assert_eq!(32, read_u32(&file, 1003).unwrap());
    assert_eq!(64, read_u64(&file, 1007).unwrap());
    assert_eq!(128, read_u128(&file, 1015).unwrap());
    assert_eq!(16, read_u16_le(&file, 1031).unwrap());
    assert_eq!(32, read_u32_le(&file, 1033).unwrap());
    assert_eq!(64, read_u64_le(&file, 1037).unwrap());
    assert_eq!(128, read_u128_le(&file, 1045).unwrap());
    assert_eq!(64, read_usize(&file, 1061).unwrap());
    assert_eq!(64, read_usize_le(&file, 1069).unwrap());

    write_i8(&mut file, -8, 2000).unwrap();
    write_i16(&mut file, -16, 2001).unwrap();
    write_i32(&mut file, -32, 2003).unwrap();
    write_i64(&mut file, -64, 2007).unwrap();
    write_i128(&mut file, -128, 2015).unwrap();
    write_i16_le(&mut file, -16, 2031).unwrap();
    write_i32_le(&mut file, -32, 2033).unwrap();
    write_i64_le(&mut file, -64, 2037).unwrap();
    write_i128_le(&mut file, -128, 2045).unwrap();
    write_isize(&mut file, -64, 2061).unwrap();
    write_isize_le(&mut file, -64, 2069).unwrap();

    assert_eq!(-8, read_i8(&file, 2000).unwrap());
    assert_eq!(-16, read_i16(&file, 2001).unwrap());
    assert_eq!(-32, read_i32(&file, 2003).unwrap());
    assert_eq!(-64, read_i64(&file, 2007).unwrap());
    assert_eq!(-128, read_i128(&file, 2015).unwrap());
    assert_eq!(-16, read_i16_le(&file, 2031).unwrap());
    assert_eq!(-32, read_i32_le(&file, 2033).unwrap());
    assert_eq!(-64, read_i64_le(&file, 2037).unwrap());
    assert_eq!(-128, read_i128_le(&file, 2045).unwrap());
    assert_eq!(-64, read_isize(&file, 2061).unwrap());
    assert_eq!(-64, read_isize_le(&file, 2069).unwrap());
}

#[test]
fn extreme_values_round_trip() {
    let mut file = vec![0u8; 64];
    write_u128(&mut file, u128::MAX, 0).unwrap();
    assert_eq!(read_u128(&file, 0).unwrap(), u128::MAX);
    write_i128_le(&mut file, i128::MIN, 16).unwrap();
    assert_eq!(read_i128_le(&file, 16).unwrap(), i128::MIN);
    write_i64(&mut file, i64::MAX, 32).unwrap();
    assert_eq!(read_i64(&file, 32).unwrap(), i64::MAX);
    write_isize_le(&mut file, isize::MIN, 40).unwrap();
    assert_eq!(read_isize_le(&file, 40).unwrap(), isize::MIN);
    write_usize(&mut file, usize::MAX, 48).unwrap();
    assert_eq!(read_usize(&file, 48).unwrap(), usize::MAX);
    write_i32_le(&mut file, i32::MIN, 56).unwrap();
    assert_eq!(read_i32_le(&file, 56).unwrap(), i32::MIN);
    assert_eq!(word_size(), std::mem::size_of::<usize>());
}

#[test]
fn typed_writes_past_the_end_leave_the_bytes_alone() {
    let mut file = vec![5u8; 7];
    assert_eq!(write_u64(&mut file, 1, 0), Err(Error::UnexpectedEof));
    assert_eq!(write_i32(&mut file, -1, 4), Err(Error::UnexpectedEof));
    assert_eq!(write_u8(&mut file, 1, 7), Err(Error::UnexpectedEof));
    assert_eq!(file, vec![5u8; 7]);
    assert_eq!(read_u64_le(&file, 0), Err(Error::UnexpectedEof));
    assert_eq!(read_i64_le(&file, usize::MAX), Err(Error::UnexpectedEof));
    assert_eq!(read_i32(&file, 3).unwrap(), 0x0505_0505);
}
