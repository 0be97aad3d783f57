//! The laws of the library: what holds of the readers on every buffer.
//!
//! The readers state their results through `decode_unsigned` and
//! `decode_signed`, so each law here is stated about those two.

use crate::error::Error;
use crate::model::{
    be_value,
    bit_pattern,
    decode_signed,
    decode_unsigned,
    encoding,
    le_value,
    radix,
    signed_encoding,
    unsigned_value,
};
use crate::order::ByteOrder;
use crate::place_value::{
    lemma_be_value_push,
    lemma_le_value_prepend,
    lemma_radix_values,
    lemma_value_bound,
};
use crate::signed::{lemma_reinterpret_16, lemma_reinterpret_32, lemma_reinterpret_64};
use vstd::prelude::*;

verus! {

/// Writing a number takes exactly as many bytes as were asked for.
pub proof fn lemma_encoding_len(n: nat, width: nat, order: ByteOrder)
    ensures
        encoding(n, width, order).len() == width,
    decreases width,
{
    if width > 0 {
        lemma_encoding_len(n / 256, (width - 1) as nat, order);
    }
}

/// The bytes that write a number denote that number, if the number fits into
/// them.
pub proof fn lemma_encoding_value(n: nat, width: nat, order: ByteOrder)
    requires
        n < radix(width),
    ensures
        unsigned_value(encoding(n, width, order), order) == n,
    decreases width,
{
    if width > 0 {
        let low = (n % 256) as u8;
        let upper = encoding(n / 256, (width - 1) as nat, order);
        lemma_encoding_value(n / 256, (width - 1) as nat, order);
        match order {
            ByteOrder::LittleEndian => lemma_le_value_prepend(low, upper),
            ByteOrder::BigEndian => lemma_be_value_push(upper, low),
        }
    }
}

/// Round trip of unsigned numbers: writing a number that fits into `width`
/// bytes in some order and reading the bytes back in the same order yields
/// the number.
pub proof fn lemma_round_trip_unsigned(n: nat, width: nat, order: ByteOrder)
    requires
        n < radix(width),
    ensures
        decode_unsigned(encoding(n, width, order), width, order) == Ok::<nat, Error>(n),
{
    let bytes = encoding(n, width, order);
    lemma_encoding_len(n, width, order);
    lemma_encoding_value(n, width, order);
    assert(bytes.take(width as int) =~= bytes);
}

/// Round trip of signed numbers: writing a number that fits into `width`
/// bytes of two's complement in some order and reading the bytes back in the
/// same order yields the number.
pub proof fn lemma_round_trip_signed(n: int, width: nat, order: ByteOrder)
    requires
        -radix(width) <= 2 * n < radix(width),
    ensures
        decode_signed(signed_encoding(n, width, order), width, order) == Ok::<int, Error>(n),
{
    lemma_round_trip_unsigned(bit_pattern(n, width), width, order);
}

/// A sequence of bytes read most-significant byte first denotes what the
/// reversed sequence denotes read least-significant byte first.
pub proof fn lemma_reversal(bytes: Seq<u8>)
    ensures
        be_value(bytes) == le_value(bytes.reverse()),
        le_value(bytes) == be_value(bytes.reverse()),
    decreases bytes.len(),
{
    if bytes.len() > 0 {
        let mirrored = bytes.reverse();
        lemma_reversal(bytes.drop_last());
        assert(mirrored.drop_first() =~= bytes.drop_last().reverse());
        lemma_reversal(bytes.drop_first());
        assert(mirrored.drop_last() =~= bytes.drop_first().reverse());
    }
}

/// Order equivalence: reading a buffer of no more than `width` bytes in
/// big-endian order yields what reading the reversed buffer in little-endian
/// order yields, for unsigned and for signed numbers.
pub proof fn lemma_order_equivalence(data: Seq<u8>, width: nat)
    requires
        data.len() <= width,
    ensures
        decode_unsigned(data, width, ByteOrder::BigEndian) == decode_unsigned(
            data.reverse(),
            width,
            ByteOrder::LittleEndian,
        ),
        decode_signed(data, width, ByteOrder::BigEndian) == decode_signed(
            data.reverse(),
            width,
            ByteOrder::LittleEndian,
        ),
{
    if data.len() == width {
        lemma_reversal(data);
        assert(data.take(width as int) =~= data);
        assert(data.reverse().take(width as int) =~= data.reverse());
    }
}

/// Order equivalence of byte pairs: the pair `a`, `b` read as a big-endian
/// 16-bit number is the pair `b`, `a` read as a little-endian one.
pub proof fn lemma_order_equivalence_of_pairs(a: u8, b: u8)
    ensures
        decode_unsigned(seq![a, b], 2, ByteOrder::BigEndian) == decode_unsigned(
            seq![b, a],
            2,
            ByteOrder::LittleEndian,
        ),
        decode_signed(seq![a, b], 2, ByteOrder::BigEndian) == decode_signed(
            seq![b, a],
            2,
            ByteOrder::LittleEndian,
        ),
{
    lemma_order_equivalence(seq![a, b], 2);
    assert(seq![a, b].reverse() =~= seq![b, a]);
}

/// Short-buffer boundary: a buffer shorter than the width yields
/// `ShortSlice`, and every other buffer yields a number.
pub proof fn lemma_short_buffer(data: Seq<u8>, width: nat, order: ByteOrder)
    ensures
        data.len() < width ==> decode_unsigned(data, width, order) == Err::<nat, Error>(
            Error::ShortSlice,
        ),
        data.len() < width ==> decode_signed(data, width, order) == Err::<int, Error>(
            Error::ShortSlice,
        ),
        data.len() >= width ==> decode_unsigned(data, width, order) is Ok,
        data.len() >= width ==> decode_signed(data, width, order) is Ok,
{
}

/// Oversized-buffer tolerance: a buffer of at least `width` bytes yields
/// what its first `width` bytes alone yield.
pub proof fn lemma_longer_buffer(data: Seq<u8>, width: nat, order: ByteOrder)
    requires
        data.len() >= width,
    ensures
        decode_unsigned(data, width, order) == decode_unsigned(
            data.take(width as int),
            width,
            order,
        ),
        decode_signed(data, width, order) == decode_signed(data.take(width as int), width, order),
{
    let prefix = data.take(width as int);
    assert(prefix.take(width as int) =~= prefix);
}

/// Signedness of 16-bit numbers: the signed reading of a buffer is the
/// unsigned reading with its bits taken as an `i16`, and fails when the
/// unsigned reading fails.
pub proof fn lemma_signed_reading_16(data: Seq<u8>, order: ByteOrder)
    ensures
        decode_unsigned(data, 2, order) matches Ok(magnitude) ==> magnitude <= u16::MAX,
        decode_unsigned(data, 2, order) matches Ok(magnitude) ==> decode_signed(
            data,
            2,
            order,
        ) == Ok::<int, Error>(((magnitude as u16) as i16) as int),
        decode_unsigned(data, 2, order) matches Err(e) ==> decode_signed(data, 2, order)
            == Err::<int, Error>(e),
{
    if data.len() >= 2 {
        lemma_value_bound(data.take(2), order);
        lemma_radix_values();
        lemma_reinterpret_16(unsigned_value(data.take(2), order) as u16);
    }
}

/// Signedness of 32-bit numbers: the signed reading of a buffer is the
/// unsigned reading with its bits taken as an `i32`, and fails when the
/// unsigned reading fails.
pub proof fn lemma_signed_reading_32(data: Seq<u8>, order: ByteOrder)
    ensures
        decode_unsigned(data, 4, order) matches Ok(magnitude) ==> magnitude <= u32::MAX,
        decode_unsigned(data, 4, order) matches Ok(magnitude) ==> decode_signed(
            data,
            4,
            order,
        ) == Ok::<int, Error>(((magnitude as u32) as i32) as int),
        decode_unsigned(data, 4, order) matches Err(e) ==> decode_signed(data, 4, order)
            == Err::<int, Error>(e),
{
    if data.len() >= 4 {
        lemma_value_bound(data.take(4), order);
        lemma_radix_values();
        lemma_reinterpret_32(unsigned_value(data.take(4), order) as u32);
    }
}

/// Signedness of 64-bit numbers: the signed reading of a buffer is the
/// unsigned reading with its bits taken as an `i64`, and fails when the
/// unsigned reading fails.
pub proof fn lemma_signed_reading_64(data: Seq<u8>, order: ByteOrder)
    ensures
        decode_unsigned(data, 8, order) matches Ok(magnitude) ==> magnitude <= u64::MAX,
        decode_unsigned(data, 8, order) matches Ok(magnitude) ==> decode_signed(
            data,
            8,
            order,
        ) == Ok::<int, Error>(((magnitude as u64) as i64) as int),
        decode_unsigned(data, 8, order) matches Err(e) ==> decode_signed(data, 8, order)
            == Err::<int, Error>(e),
{
    if data.len() >= 8 {
        lemma_value_bound(data.take(8), order);
        lemma_radix_values();
        lemma_reinterpret_64(unsigned_value(data.take(8), order) as u64);
    }
}

} // verus!
