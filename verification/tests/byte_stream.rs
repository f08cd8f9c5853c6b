use sdocx::bits::{CheckedBitfield, UnhandledBitsError};
use sdocx::byte_stream::{
    ByteStream, ExactSizedStream, IoError, ReadBitfieldError, ReadStringError, ReadTimestampError,
    TakeInclusiveLengthPrefixedError, UnfinishedParsingError,
};

#[test]
fn reads_little_endian_integers() {
    let data = [0x01u8, 0x02, 0x03, 0x04, 0x05, 0x06, 0x07, 0x08, 0xff, 0xfe];
    let mut s = ByteStream::new(&data);
    assert_eq!(s.read_u16_le(), Ok(0x0201));
    assert_eq!(s.read_u24_le(), Ok(0x050403));
    assert_eq!(s.read_u8(), Ok(0x06));
    assert_eq!(s.read_u16_le(), Ok(0x0807));
    assert_eq!(s.read_i16_le(), Ok(-257));
    assert_eq!(s.read_u8(), Err(IoError::UnexpectedEof));
    assert_eq!(s.stream_position(), 10);
}

#[test]
fn reads_wide_integers_and_floats() {
    let mut data = Vec::new();
    data.extend_from_slice(&0x1122_3344_5566_7788u64.to_le_bytes());
    data.extend_from_slice(&(-2i64).to_le_bytes());
    data.extend_from_slice(&(-7i32).to_le_bytes());
    data.extend_from_slice(&1.5f32.to_le_bytes());
    data.extend_from_slice(&(-0.25f64).to_le_bytes());
    let mut s = ByteStream::new(&data);
    assert_eq!(s.read_u64_le(), Ok(0x1122_3344_5566_7788));
    assert_eq!(s.read_i64_le(), Ok(-2));
    assert_eq!(s.read_i32_le(), Ok(-7));
    assert_eq!(s.read_f32_le().unwrap().bits, 1.5f32.to_bits());
    assert_eq!(s.read_f64_le().unwrap().bits, (-0.25f64).to_bits());
    assert_eq!(s.n_remaining(), 0);
    assert!(s.ensure_eof().is_ok());
}

#[test]
fn failed_read_leaves_stream_unchanged() {
    let data = [1u8, 2, 3];
    let mut s = ByteStream::new(&data);
    assert_eq!(s.read_u32_le(), Err(IoError::UnexpectedEof));
    assert_eq!(s.stream_position(), 0);
    assert_eq!(s.read_u16_le(), Ok(0x0201));
    assert_eq!(s.ensure_eof(), Err(UnfinishedParsingError { remaining: 1 }));
}

#[test]
fn reads_strings() {
    // "hé" in UTF-16 with a u16 length, then "ok" in UTF-8 with a u16 length.
    let data = [2u8, 0, b'h', 0, 0xe9, 0, 2, 0, b'o', b'k'];
    let mut s = ByteStream::new(&data);
    assert_eq!(s.read_short_u16_string().unwrap(), "hé");
    assert_eq!(s.read_short_u8_string().unwrap(), "ok");
}

#[test]
fn reads_long_strings() {
    let data = [1u8, 0, 0, 0, b'x', 0, 3, 0, 0, 0, b'a', b'b', b'c'];
    let mut s = ByteStream::new(&data);
    assert_eq!(s.read_long_u16_string().unwrap(), "x");
    assert_eq!(s.read_long_u8_string().unwrap(), "abc");
}

#[test]
fn string_errors() {
    // A lone surrogate is not UTF-16.
    let data = [1u8, 0, 0x00, 0xd8];
    assert_eq!(ByteStream::new(&data).read_short_u16_string(), Err(ReadStringError::Utf16Decode));
    // 0xff is not UTF-8.
    let data = [1u8, 0, 0xff];
    assert_eq!(ByteStream::new(&data).read_short_u8_string(), Err(ReadStringError::Utf8Decode));
    // The size field is missing.
    let data = [1u8];
    assert_eq!(ByteStream::new(&data).read_short_u8_string(), Err(ReadStringError::SizeIo(IoError::UnexpectedEof)));
    // The characters are missing.
    let data = [3u8, 0, b'a'];
    assert_eq!(ByteStream::new(&data).read_short_u8_string(), Err(ReadStringError::BytesIo(IoError::UnexpectedEof)));
}

#[test]
fn reads_timestamps() {
    let micros: i64 = 1_700_000_000_000_000;
    let data = micros.to_le_bytes();
    let t = ByteStream::new(&data).read_timestamp().unwrap();
    assert_eq!(t.micros, micros);
    let data = i64::MAX.to_le_bytes();
    assert_eq!(ByteStream::new(&data).read_timestamp(), Err(ReadTimestampError::OutOfRange(i64::MAX)));
    let data = [0u8; 7];
    assert_eq!(ByteStream::new(&data).read_timestamp(), Err(ReadTimestampError::Io(IoError::UnexpectedEof)));
}

#[test]
fn reads_variable_length_bitfields() {
    let data = [0u8, 1, 0x81, 2, 0x34, 0x12, 3, 1, 2, 3, 4, 0xff, 0xff, 0xff, 0x7f, 5];
    let mut s = ByteStream::new(&data);
    assert_eq!(s.read_variable_length_bitfield(), Ok(0));
    assert_eq!(s.read_variable_length_bitfield(), Ok(0x81));
    assert_eq!(s.read_variable_length_bitfield(), Ok(0x1234));
    assert_eq!(s.read_variable_length_bitfield(), Ok(0x030201));
    assert_eq!(s.read_variable_length_bitfield(), Ok(0x7fff_ffff));
    assert_eq!(s.read_variable_length_bitfield(), Err(ReadBitfieldError::SizeOutOfRange(5)));
    let data = [2u8, 1];
    assert_eq!(ByteStream::new(&data).read_variable_length_bitfield(), Err(ReadBitfieldError::BitsIo(IoError::UnexpectedEof)));
}

#[test]
fn checked_bitfield_reports_unchecked_bits() {
    let data = [1u8, 0b1011];
    let mut f = CheckedBitfield::try_parse(&mut ByteStream::new(&data)).unwrap();
    assert!(f.any_set());
    assert!(f.check_bit(0));
    assert!(!f.check_bit(2));
    assert_eq!(f.ensure_none_set_unchecked(), Err(UnhandledBitsError(0b1010)));
    assert!(f.check_bit(1));
    assert!(f.check_bit(3));
    assert_eq!(f.ensure_none_set_unchecked(), Ok(()));
    f.clear();
    assert!(!f.any_set());
}

#[test]
fn windows_count_from_their_start() {
    // An exclusive window: a size of 3, then 3 bytes, then one more byte.
    let data = [3u8, 0, 0, 0, 10, 11, 12, 13];
    let mut s = ByteStream::new(&data);
    let mut w = s.exclusive_blind_window().unwrap();
    assert_eq!(w.stream_position(), 0);
    assert_eq!(w.read_u8(), Ok(10));
    assert_eq!(w.n_remaining(), 2);
    assert_eq!(w.read_u32_le(), Err(IoError::UnexpectedEof));
    w.skip_bytes(2).unwrap();
    s.continue_after(&w);
    assert_eq!(s.read_u8(), Ok(13));
}

#[test]
fn inclusive_windows_count_their_size_field() {
    let data = [6u8, 0, 0, 0, 1, 2, 9];
    let mut s = ByteStream::new(&data);
    let mut w = s.take_inclusive_length_prefixed().unwrap();
    assert_eq!(w.stream_position(), 4);
    assert_eq!(w.read_u16_le(), Ok(0x0201));
    assert!(w.ensure_eof().is_ok());
    s.continue_after(&w);
    assert_eq!(s.read_u8(), Ok(9));

    let data = [3u8, 0, 0, 0];
    assert_eq!(ByteStream::new(&data).take_inclusive_length_prefixed().err(), Some(TakeInclusiveLengthPrefixedError::SizeTooSmall(3)));
    let data = [4u8, 0, 0];
    assert_eq!(
        ByteStream::new(&data).take_inclusive_length_prefixed().err(),
        Some(TakeInclusiveLengthPrefixedError::Io(IoError::UnexpectedEof))
    );
}

#[test]
fn windows_may_run_past_the_end() {
    // A declared size larger than what follows still gives a window; its reads fail at the end.
    let data = [9u8, 0, 0, 0, 1];
    let mut w = ByteStream::new(&data).take_inclusive_length_prefixed().unwrap();
    assert_eq!(w.n_remaining(), 5);
    assert_eq!(w.read_u8(), Ok(1));
    assert_eq!(w.read_u8(), Err(IoError::UnexpectedEof));
    assert_eq!(w.ensure_eof(), Err(UnfinishedParsingError { remaining: 4 }));

    let data = [8u8, 0, 0, 0];
    let w = ByteStream::new(&data).take_inclusive_length_prefixed().unwrap();
    assert_eq!(w.n_remaining(), 4);

    let data = [7u8, 0, 0, 0, 1, 2];
    let mut s = ByteStream::new(&data);
    let mut w = s.exclusive_blind_window().unwrap();
    assert_eq!(w.n_remaining(), 7);
    assert_eq!(w.read_u16_le(), Ok(0x0201));
    assert_eq!(w.read_u8(), Err(IoError::UnexpectedEof));
}

#[test]
fn seeks_stay_within_the_stream() {
    let data = [0u8, 1, 2, 3, 4, 5];
    let mut s = ByteStream::new(&data);
    s.seek_to(4).unwrap();
    assert_eq!(s.read_u8(), Ok(4));
    assert_eq!(s.seek_to(7), Err(IoError::InvalidInput));
    assert_eq!(s.stream_position(), 5);
    s.seek_relative(-3).unwrap();
    assert_eq!(s.read_u8(), Ok(2));
    assert_eq!(s.seek_relative(-4), Err(IoError::InvalidInput));
    s.seek_from_end(1).unwrap();
    assert_eq!(s.read_u8(), Ok(5));
    assert_eq!(s.stream_end(), 6);
}

#[test]
fn reads_to_the_end_and_back() {
    let data = [7u8, 8, 9];
    let mut s = ByteStream::new(&data);
    assert_eq!(s.read_u8(), Ok(7));
    assert_eq!(s.bytes_from(0), &[7u8][..]);
    assert_eq!(s.read_to_end(), vec![8u8, 9]);
    assert_eq!(s.n_remaining(), 0);
    assert_eq!(s.read_to_end(), Vec::<u8>::new());
}

#[test]
fn reads_byte_runs() {
    let data: Vec<u8> = (0u8..40).collect();
    let mut s = ByteStream::new(&data);
    assert_eq!(s.read_4_bytes(), Ok([0u8, 1, 2, 3]));
    let b = s.read_32_bytes().unwrap();
    assert_eq!(b[0], 4);
    assert_eq!(b[31], 35);
    assert_eq!(s.read_u8s(4).unwrap(), vec![36u8, 37, 38, 39]);
    assert_eq!(s.read_u8s(1), Err(IoError::UnexpectedEof));
}

#[test]
fn timestamps_cover_the_range_of_years() {
    let max: i64 = 8_210_266_876_799_999_999;
    let min: i64 = -8_334_601_228_800_000_000;
    for (v, ok) in [(max, true), (max + 1, false), (min, true), (min - 1, false), (0, true)] {
        let b = v.to_le_bytes();
        let r = ByteStream::new(&b).read_timestamp();
        if ok {
            assert_eq!(r.map(|t| t.micros), Ok(v));
        } else {
            assert_eq!(r, Err(ReadTimestampError::OutOfRange(v)));
        }
    }
}
