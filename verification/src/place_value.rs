//! Facts about place values: how the number that a byte sequence denotes
//! grows with each byte, and how large it can get.

use crate::model::{
    be_value,
    eight_byte_value,
    four_byte_value,
    le_value,
    radix,
    two_byte_value,
    unsigned_value,
};
use crate::order::ByteOrder;
use vstd::prelude::*;

verus! {

/// The radix of each width that the readers use, written out.
pub proof fn lemma_radix_values()
    ensures
        radix(0) == 1,
        radix(1) == 0x100,
        radix(2) == 0x1_0000,
        radix(4) == 0x1_0000_0000,
        radix(7) == 0x100_0000_0000_0000,
        radix(8) == 0x1_0000_0000_0000_0000,
{
    reveal_with_fuel(radix, 9);
}

/// A wider number has the larger radix.
pub proof fn lemma_radix_monotonic(narrow: nat, wide: nat)
    requires
        narrow <= wide,
    ensures
        0 < radix(narrow) <= radix(wide),
    decreases wide,
{
    if wide == 0 {
    } else if narrow == wide {
        lemma_radix_monotonic((narrow - 1) as nat, (wide - 1) as nat);
    } else {
        lemma_radix_monotonic(narrow, (wide - 1) as nat);
    }
}

/// Appending a byte to a big-endian sequence shifts what was there up by
/// one byte and puts the new byte into the lowest place.
pub proof fn lemma_be_value_push(bytes: Seq<u8>, low: u8)
    ensures
        be_value(bytes.push(low)) == 256 * be_value(bytes) + low,
{
    assert(bytes.push(low).drop_last() =~= bytes);
}

/// Putting a byte in front of a little-endian sequence shifts what was there
/// up by one byte and puts the new byte into the lowest place.
pub proof fn lemma_le_value_prepend(low: u8, bytes: Seq<u8>)
    ensures
        le_value(seq![low] + bytes) == 256 * le_value(bytes) + low,
{
    assert((seq![low] + bytes).drop_first() =~= bytes);
}

/// A sequence of bytes denotes a number below the radix of its length, in
/// either order.
pub proof fn lemma_value_bound(bytes: Seq<u8>, order: ByteOrder)
    ensures
        unsigned_value(bytes, order) < radix(bytes.len()),
    decreases bytes.len(),
{
    if bytes.len() > 0 {
        match order {
            ByteOrder::LittleEndian => lemma_value_bound(bytes.drop_first(), order),
            ByteOrder::BigEndian => lemma_value_bound(bytes.drop_last(), order),
        }
    }
}

/// The first two bytes of a buffer denote the number that `two_byte_value`
/// spells out.
pub proof fn lemma_two_byte_value(data: Seq<u8>, order: ByteOrder)
    requires
        data.len() >= 2,
    ensures
        unsigned_value(data.take(2), order) == two_byte_value(data, order),
{
    reveal_with_fuel(be_value, 3);
    reveal_with_fuel(le_value, 3);
}

/// The first four bytes of a buffer denote the number that `four_byte_value`
/// spells out.
pub proof fn lemma_four_byte_value(data: Seq<u8>, order: ByteOrder)
    requires
        data.len() >= 4,
    ensures
        unsigned_value(data.take(4), order) == four_byte_value(data, order),
{
    reveal_with_fuel(be_value, 5);
    reveal_with_fuel(le_value, 5);
}

/// The first eight bytes of a buffer denote the number that
/// `eight_byte_value` spells out.
pub proof fn lemma_eight_byte_value(data: Seq<u8>, order: ByteOrder)
    requires
        data.len() >= 8,
    ensures
        unsigned_value(data.take(8), order) == eight_byte_value(data, order),
{
    reveal_with_fuel(be_value, 9);
    reveal_with_fuel(le_value, 9);
}

} // verus!
