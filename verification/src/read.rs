//! The readers: one for each width and signedness.
//!
//! All of them share one routine that assembles the leading bytes of a buffer
//! into a number, most-significant byte first. Each reader tests the length
//! of the buffer before anything else and then narrows what the routine
//! returns to its own type.
//!
//! Each contract says the same thing twice: once through `decode_unsigned` or
//! `decode_signed`, the terms in which the laws of the library are stated, and
//! once with the place values of the width spelled out, so that the result on
//! given bytes can be computed at a glance.

use crate::error::Error;
use crate::model::{
    decode_signed,
    decode_unsigned,
    eight_byte_value,
    four_byte_value,
    radix,
    two_byte_value,
    twos_complement,
    unsigned_value,
};
use crate::order::ByteOrder;
use crate::place_value::{
    lemma_be_value_push,
    lemma_eight_byte_value,
    lemma_four_byte_value,
    lemma_le_value_prepend,
    lemma_radix_monotonic,
    lemma_radix_values,
    lemma_two_byte_value,
};
use crate::signed::{lemma_reinterpret_16, lemma_reinterpret_32, lemma_reinterpret_64};
use vstd::prelude::*;

verus! {

/// The `taken` most-significant of the first `width` bytes of `data`, in the
/// order in which they stand in `data`.
spec fn most_significant(data: Seq<u8>, width: int, taken: int, order: ByteOrder) -> Seq<u8> {
    match order {
        ByteOrder::LittleEndian => data.subrange(width - taken, width),
        ByteOrder::BigEndian => data.subrange(0, taken),
    }
}

/// Assembles the first `width` bytes of `data` into the unsigned number that
/// they denote in the given order. The bytes are taken from the most
/// significant one down, each shifting what was assembled before it one byte
/// up.
fn assemble(data: &[u8], width: usize, order: ByteOrder) -> (value: u64)
    requires
        width <= 8,
        width <= data@.len(),
    ensures
        value == unsigned_value(data@.take(width as int), order),
        value < radix(width as nat),
{
    let mut value: u64 = 0;
    let mut taken: usize = 0;
    while taken < width
        invariant
            taken <= width <= 8,
            width <= data@.len(),
            value == unsigned_value(
                most_significant(data@, width as int, taken as int, order),
                order,
            ),
            value < radix(taken as nat),
        decreases width - taken,
    {
        let byte: u8 = match order {
            ByteOrder::LittleEndian => data[width - 1 - taken],
            ByteOrder::BigEndian => data[taken],
        };
        proof {
            let seen = most_significant(data@, width as int, taken as int, order);
            let next = most_significant(data@, width as int, taken + 1, order);
            match order {
                ByteOrder::LittleEndian => {
                    assert(next =~= seq![byte] + seen);
                    lemma_le_value_prepend(byte, seen);
                },
                ByteOrder::BigEndian => {
                    assert(next =~= seen.push(byte));
                    lemma_be_value_push(seen, byte);
                },
            }
            lemma_radix_monotonic(taken as nat, 7);
            lemma_radix_values();
            assert(value << 8 == value * 0x100) by (bit_vector)
                requires
                    value < 0x100_0000_0000_0000,
            ;
        }
        value = (value << 8) + (byte as u64);
        taken = taken + 1;
    }
    assert(most_significant(data@, width as int, width as int, order) =~= data@.take(
        width as int,
    ));
    value
}

/// Reads an unsigned 16-bit integer from the first two bytes of `data`.
///
/// Returns `ShortSlice` exactly when `data` holds fewer than two bytes.
/// Bytes after the second are not looked at.
pub fn read_u16(data: &[u8], endianness: ByteOrder) -> (r: Result<u16, Error>)
    ensures
        r is Err <==> data@.len() < 2,
        r matches Err(e) ==> decode_unsigned(data@, 2, endianness) == Err::<nat, Error>(e),
        r matches Ok(value) ==> decode_unsigned(data@, 2, endianness) == Ok::<nat, Error>(
            value as nat,
        ),
        r matches Ok(value) ==> value == two_byte_value(data@, endianness),
{
    if data.len() < 2 {
        Err(Error::ShortSlice)
    } else {
        let value: u64 = assemble(data, 2, endianness);
        proof {
            lemma_radix_values();
            lemma_two_byte_value(data@, endianness);
        }
        Ok(value as u16)
    }
}

/// Reads a signed 16-bit integer from the first two bytes of `data`: the
/// unsigned number that they denote, with its bit pattern taken as two's
/// complement.
///
/// Returns `ShortSlice` exactly when `data` holds fewer than two bytes.
/// Bytes after the second are not looked at.
pub fn read_i16(data: &[u8], endianness: ByteOrder) -> (r: Result<i16, Error>)
    ensures
        r is Err <==> data@.len() < 2,
        r matches Err(e) ==> decode_signed(data@, 2, endianness) == Err::<int, Error>(e),
        r matches Ok(value) ==> decode_signed(data@, 2, endianness) == Ok::<int, Error>(
            value as int,
        ),
        r matches Ok(value) ==> value == twos_complement(
            two_byte_value(data@, endianness),
            0x1_0000,
        ),
{
    match read_u16(data, endianness) {
        Ok(magnitude) => {
            proof {
                lemma_radix_values();
                lemma_reinterpret_16(magnitude);
            }
            Ok(magnitude as i16)
        },
        Err(e) => Err(e),
    }
}

/// Reads an unsigned 32-bit integer from the first four bytes of `data`.
///
/// Returns `ShortSlice` exactly when `data` holds fewer than four bytes.
/// Bytes after the fourth are not looked at.
pub fn read_u32(data: &[u8], endianness: ByteOrder) -> (r: Result<u32, Error>)
    ensures
        r is Err <==> data@.len() < 4,
        r matches Err(e) ==> decode_unsigned(data@, 4, endianness) == Err::<nat, Error>(e),
        r matches Ok(value) ==> decode_unsigned(data@, 4, endianness) == Ok::<nat, Error>(
            value as nat,
        ),
        r matches Ok(value) ==> value == four_byte_value(data@, endianness),
{
    if data.len() < 4 {
        Err(Error::ShortSlice)
    } else {
        let value: u64 = assemble(data, 4, endianness);
        proof {
            lemma_radix_values();
            lemma_four_byte_value(data@, endianness);
        }
        Ok(value as u32)
    }
}

/// Reads a signed 32-bit integer from the first four bytes of `data`: the
/// unsigned number that they denote, with its bit pattern taken as two's
/// complement.
///
/// Returns `ShortSlice` exactly when `data` holds fewer than four bytes.
/// Bytes after the fourth are not looked at.
pub fn read_i32(data: &[u8], endianness: ByteOrder) -> (r: Result<i32, Error>)
    ensures
        r is Err <==> data@.len() < 4,
        r matches Err(e) ==> decode_signed(data@, 4, endianness) == Err::<int, Error>(e),
        r matches Ok(value) ==> decode_signed(data@, 4, endianness) == Ok::<int, Error>(
            value as int,
        ),
        r matches Ok(value) ==> value == twos_complement(
            four_byte_value(data@, endianness),
            0x1_0000_0000,
        ),
{
    match read_u32(data, endianness) {
        Ok(magnitude) => {
            proof {
                lemma_radix_values();
                lemma_reinterpret_32(magnitude);
            }
            Ok(magnitude as i32)
        },
        Err(e) => Err(e),
    }
}

/// Reads an unsigned 64-bit integer from the first eight bytes of `data`.
///
/// Returns `ShortSlice` exactly when `data` holds fewer than eight bytes.
/// Bytes after the eighth are not looked at.
pub fn read_u64(data: &[u8], endianness: ByteOrder) -> (r: Result<u64, Error>)
    ensures
        r is Err <==> data@.len() < 8,
        r matches Err(e) ==> decode_unsigned(data@, 8, endianness) == Err::<nat, Error>(e),
        r matches Ok(value) ==> decode_unsigned(data@, 8, endianness) == Ok::<nat, Error>(
            value as nat,
        ),
        r matches Ok(value) ==> value == eight_byte_value(data@, endianness),
{
    if data.len() < 8 {
        Err(Error::ShortSlice)
    } else {
        let value: u64 = assemble(data, 8, endianness);
        proof {
            lemma_eight_byte_value(data@, endianness);
        }
        Ok(value)
    }
}

/// Reads a signed 64-bit integer from the first eight bytes of `data`: the
/// unsigned number that they denote, with its bit pattern taken as two's
/// complement.
///
/// Returns `ShortSlice` exactly when `data` holds fewer than eight bytes.
/// Bytes after the eighth are not looked at.
pub fn read_i64(data: &[u8], endianness: ByteOrder) -> (r: Result<i64, Error>)
    ensures
        r is Err <==> data@.len() < 8,
        r matches Err(e) ==> decode_signed(data@, 8, endianness) == Err::<int, Error>(e),
        r matches Ok(value) ==> decode_signed(data@, 8, endianness) == Ok::<int, Error>(
            value as int,
        ),
        r matches Ok(value) ==> value == twos_complement(
            eight_byte_value(data@, endianness),
            0x1_0000_0000_0000_0000,
        ),
{
    match read_u64(data, endianness) {
        Ok(magnitude) => {
            proof {
                lemma_radix_values();
                lemma_reinterpret_64(magnitude);
            }
            Ok(magnitude as i64)
        },
        Err(e) => Err(e),
    }
}

} // verus!
