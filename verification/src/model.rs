//! The numbers that byte sequences denote.
//!
//! Everything here is mathematics: sequences of bytes, natural numbers and
//! integers. The readers state their results in these terms, and the laws of
//! the library are proved about them.

use crate::error::Error;
use crate::order::ByteOrder;
use vstd::prelude::*;

verus! {

/// How many numbers `width` bytes can tell apart: 256 to the power `width`.
pub open spec fn radix(width: nat) -> nat
    decreases width,
{
    if width == 0 {
        1
    } else {
        256 * radix((width - 1) as nat)
    }
}

/// The number that `bytes` denote when the first byte is the least
/// significant one: the sum of `bytes[i] * 256^i` over all indices `i`.
pub open spec fn le_value(bytes: Seq<u8>) -> nat
    decreases bytes.len(),
{
    if bytes.len() == 0 {
        0
    } else {
        bytes.first() as nat + 256 * le_value(bytes.drop_first())
    }
}

/// The number that `bytes` denote when the first byte is the most
/// significant one: the sum of `bytes[i] * 256^(len - 1 - i)` over all
/// indices `i`.
pub open spec fn be_value(bytes: Seq<u8>) -> nat
    decreases bytes.len(),
{
    if bytes.len() == 0 {
        0
    } else {
        256 * be_value(bytes.drop_last()) + bytes.last() as nat
    }
}

/// The unsigned number that all of `bytes` denote in the given order.
pub open spec fn unsigned_value(bytes: Seq<u8>, order: ByteOrder) -> nat {
    match order {
        ByteOrder::LittleEndian => le_value(bytes),
        ByteOrder::BigEndian => be_value(bytes),
    }
}

/// The integer that the bit pattern of the unsigned number `pattern` stands
/// for in two's complement, where `modulus` is the number of bit patterns:
/// the upper half of the unsigned range stands for the negative numbers.
pub open spec fn twos_complement(pattern: int, modulus: int) -> int {
    if 2 * pattern < modulus {
        pattern
    } else {
        pattern - modulus
    }
}

/// The unsigned number that the first two bytes of `data` denote, place by
/// place.
pub open spec fn two_byte_value(data: Seq<u8>, order: ByteOrder) -> int {
    match order {
        ByteOrder::LittleEndian => data[0] + data[1] * 0x100,
        ByteOrder::BigEndian => data[0] * 0x100 + data[1],
    }
}

/// The unsigned number that the first four bytes of `data` denote, place by
/// place.
pub open spec fn four_byte_value(data: Seq<u8>, order: ByteOrder) -> int {
    match order {
        ByteOrder::LittleEndian => data[0] + data[1] * 0x100 + data[2] * 0x1_0000 + data[3]
            * 0x100_0000,
        ByteOrder::BigEndian => data[0] * 0x100_0000 + data[1] * 0x1_0000 + data[2] * 0x100
            + data[3],
    }
}

/// The unsigned number that the first eight bytes of `data` denote, place by
/// place.
pub open spec fn eight_byte_value(data: Seq<u8>, order: ByteOrder) -> int {
    match order {
        ByteOrder::LittleEndian => data[0] + data[1] * 0x100 + data[2] * 0x1_0000 + data[3]
            * 0x100_0000 + data[4] * 0x1_0000_0000 + data[5] * 0x100_0000_0000 + data[6]
            * 0x1_0000_0000_0000 + data[7] * 0x100_0000_0000_0000,
        ByteOrder::BigEndian => data[0] * 0x100_0000_0000_0000 + data[1] * 0x1_0000_0000_0000
            + data[2] * 0x100_0000_0000 + data[3] * 0x1_0000_0000 + data[4] * 0x100_0000
            + data[5] * 0x1_0000 + data[6] * 0x100 + data[7],
    }
}

/// What reading an unsigned number of `width` bytes from `data` yields: the
/// number denoted by the first `width` bytes, or `ShortSlice` when there are
/// not that many.
pub open spec fn decode_unsigned(data: Seq<u8>, width: nat, order: ByteOrder) -> Result<
    nat,
    Error,
> {
    if data.len() < width {
        Err(Error::ShortSlice)
    } else {
        Ok(unsigned_value(data.take(width as int), order))
    }
}

/// What reading a signed number of `width` bytes from `data` yields: the
/// unsigned reading with its bit pattern taken as two's complement.
pub open spec fn decode_signed(data: Seq<u8>, width: nat, order: ByteOrder) -> Result<int, Error> {
    match decode_unsigned(data, width, order) {
        Ok(magnitude) => Ok(twos_complement(magnitude as int, radix(width) as int)),
        Err(e) => Err(e),
    }
}

/// The `width` bytes that write `n` with the least-significant byte first.
/// Of a number that does not fit, the low `width` bytes are kept.
pub open spec fn le_bytes(n: nat, width: nat) -> Seq<u8>
    decreases width,
{
    if width == 0 {
        Seq::empty()
    } else {
        seq![(n % 256) as u8] + le_bytes(n / 256, (width - 1) as nat)
    }
}

/// The `width` bytes that write `n` with the most-significant byte first.
/// Of a number that does not fit, the low `width` bytes are kept.
pub open spec fn be_bytes(n: nat, width: nat) -> Seq<u8>
    decreases width,
{
    if width == 0 {
        Seq::empty()
    } else {
        be_bytes(n / 256, (width - 1) as nat).push((n % 256) as u8)
    }
}

/// The `width` bytes that write the unsigned number `n` in the given order.
pub open spec fn encoding(n: nat, width: nat, order: ByteOrder) -> Seq<u8> {
    match order {
        ByteOrder::LittleEndian => le_bytes(n, width),
        ByteOrder::BigEndian => be_bytes(n, width),
    }
}

/// The unsigned number with the bit pattern that `n` has in two's
/// complement of `width` bytes: `n` itself, or `n + 256^width` when `n` is
/// negative.
pub open spec fn bit_pattern(n: int, width: nat) -> nat {
    if n >= 0 {
        n as nat
    } else {
        (n + radix(width)) as nat
    }
}

/// The `width` bytes that write the signed number `n` in two's complement
/// and in the given order.
pub open spec fn signed_encoding(n: int, width: nat, order: ByteOrder) -> Seq<u8> {
    encoding(bit_pattern(n, width), width, order)
}

} // verus!
