//! Every reader refuses a buffer that is shorter than its number is wide, and
//! accepts one of exactly that length.

use endianness::{read_i16, read_i32, read_i64, read_u16, read_u32, read_u64, ByteOrder, Error};

#[test]
fn short_slice_u16_read_big_endian() {
    assert_eq!(Error::ShortSlice, read_u16(&[], ByteOrder::BigEndian).unwrap_err());
}

#[test]
fn short_slice_u16_read_little_endian() {
    assert_eq!(Error::ShortSlice, read_u16(&[], ByteOrder::LittleEndian).unwrap_err());
}

#[test]
fn short_slice_i16_read_big_endian() {
    assert_eq!(Error::ShortSlice, read_i16(&[], ByteOrder::BigEndian).unwrap_err());
}

#[test]
fn short_slice_i16_read_little_endian() {
    assert_eq!(Error::ShortSlice, read_i16(&[], ByteOrder::LittleEndian).unwrap_err());
}

#[test]
fn short_slice_u32_read_big_endian() {
    assert_eq!(Error::ShortSlice, read_u32(&[], ByteOrder::BigEndian).unwrap_err());
}

#[test]
fn short_slice_u32_read_little_endian() {
    assert_eq!(Error::ShortSlice, read_u32(&[], ByteOrder::LittleEndian).unwrap_err());
}

#[test]
fn short_slice_i32_read_big_endian() {
    assert_eq!(Error::ShortSlice, read_i32(&[], ByteOrder::BigEndian).unwrap_err());
}

#[test]
fn short_slice_i32_read_little_endian() {
    assert_eq!(Error::ShortSlice, read_i32(&[], ByteOrder::LittleEndian).unwrap_err());
}

#[test]
fn short_slice_u64_read_big_endian() {
    assert_eq!(Error::ShortSlice, read_u64(&[], ByteOrder::BigEndian).unwrap_err());
}

#[test]
fn short_slice_u64_read_little_endian() {
    assert_eq!(Error::ShortSlice, read_u64(&[], ByteOrder::LittleEndian).unwrap_err());
}

#[test]
fn short_slice_i64_read_big_endian() {
    assert_eq!(Error::ShortSlice, read_i64(&[], ByteOrder::BigEndian).unwrap_err());
}

#[test]
fn short_slice_i64_read_little_endian() {
    assert_eq!(Error::ShortSlice, read_i64(&[], ByteOrder::LittleEndian).unwrap_err());
}

// The bit patterns of floats are read by `read_u32` and `read_u64`: a float
// reader on top of them fails exactly when they do.

#[test]
fn short_slice_f32_read_big_endian() {
    let bits = read_u32(&[], ByteOrder::BigEndian).map(f32::from_bits);
    assert_eq!(Error::ShortSlice, bits.unwrap_err());
}

#[test]
fn short_slice_f32_read_little_endian() {
    let bits = read_u32(&[], ByteOrder::LittleEndian).map(f32::from_bits);
    assert_eq!(Error::ShortSlice, bits.unwrap_err());
}

#[test]
fn short_slice_f64_read_big_endian() {
    let bits = read_u64(&[], ByteOrder::BigEndian).map(f64::from_bits);
    assert_eq!(Error::ShortSlice, bits.unwrap_err());
}

#[test]
fn short_slice_f64_read_little_endian() {
    let bits = read_u64(&[], ByteOrder::LittleEndian).map(f64::from_bits);
    assert_eq!(Error::ShortSlice, bits.unwrap_err());
}

#[test]
fn one_byte_is_too_short_for_u16() {
    assert_eq!(Err(Error::ShortSlice), read_u16(&[1], ByteOrder::BigEndian));
    assert_eq!(Err(Error::ShortSlice), read_u16(&[1], ByteOrder::LittleEndian));
}

#[test]
fn empty_buffer_is_too_short_for_i32() {
    assert_eq!(Err(Error::ShortSlice), read_i32(&[], ByteOrder::LittleEndian));
}

#[test]
fn every_length_below_the_width_is_refused() {
    let bytes = [0x11u8, 0x22, 0x33, 0x44, 0x55, 0x66, 0x77, 0x88];
    for order in [ByteOrder::BigEndian, ByteOrder::LittleEndian] {
        for len in 0..2 {
            assert_eq!(Err(Error::ShortSlice), read_u16(&bytes[..len], order));
            assert_eq!(Err(Error::ShortSlice), read_i16(&bytes[..len], order));
        }
        for len in 0..4 {
            assert_eq!(Err(Error::ShortSlice), read_u32(&bytes[..len], order));
            assert_eq!(Err(Error::ShortSlice), read_i32(&bytes[..len], order));
        }
        for len in 0..8 {
            assert_eq!(Err(Error::ShortSlice), read_u64(&bytes[..len], order));
            assert_eq!(Err(Error::ShortSlice), read_i64(&bytes[..len], order));
        }
    }
}

#[test]
fn the_exact_width_is_accepted() {
    let bytes = [0x11u8, 0x22, 0x33, 0x44, 0x55, 0x66, 0x77, 0x88];
    for order in [ByteOrder::BigEndian, ByteOrder::LittleEndian] {
        assert!(read_u16(&bytes[..2], order).is_ok());
        assert!(read_i16(&bytes[..2], order).is_ok());
        assert!(read_u32(&bytes[..4], order).is_ok());
        assert!(read_i32(&bytes[..4], order).is_ok());
        assert!(read_u64(&bytes[..8], order).is_ok());
        assert!(read_i64(&bytes[..8], order).is_ok());
    }
}

#[test]
fn the_error_describes_itself() {
    assert_eq!("The slice length is too short.", Error::ShortSlice.description());
    let e = read_u64(&[1, 2, 3, 4, 5, 6, 7], ByteOrder::BigEndian).unwrap_err();
    assert_eq!("The slice length is too short.", e.description());
    assert_eq!("ShortSlice", format!("{:?}", e));
}

#[test]
fn the_result_alias_fixes_the_error() {
    let short: endianness::Result<u16> = read_u16(&[7], ByteOrder::LittleEndian);
    assert_eq!(Err(Error::ShortSlice), short);
    let whole: endianness::Result<u16> = read_u16(&[7, 0], ByteOrder::LittleEndian);
    assert_eq!(Ok(7), whole);
}
