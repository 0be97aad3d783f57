//! How Rust's reinterpreting casts relate to two's complement.

use crate::model::twos_complement;
use vstd::prelude::*;

verus! {

/// Taking the bits of a `u16` as an `i16` gives the number that the
/// magnitude stands for in two's complement, and taking the bits
/// back gives the magnitude again.
pub proof fn lemma_reinterpret_16(magnitude: u16)
    ensures
        (magnitude as i16) as int == twos_complement(magnitude as int, 0x1_0000),
        (magnitude as i16) as u16 == magnitude,
{
    assert(magnitude < 0x8000 ==> (magnitude as i16) == magnitude) by (bit_vector);
    assert(magnitude >= 0x8000 ==> (magnitude as i16) == magnitude - 0x1_0000) by (bit_vector);
    assert((magnitude as i16) as u16 == magnitude) by (bit_vector);
}

/// Taking the bits of a `u32` as an `i32` gives the number that the
/// magnitude stands for in two's complement, and taking the bits
/// back gives the magnitude again.
pub proof fn lemma_reinterpret_32(magnitude: u32)
    ensures
        (magnitude as i32) as int == twos_complement(magnitude as int, 0x1_0000_0000),
        (magnitude as i32) as u32 == magnitude,
{
    assert(magnitude < 0x8000_0000 ==> (magnitude as i32) == magnitude) by (bit_vector);
    assert(magnitude >= 0x8000_0000 ==> (magnitude as i32) == magnitude - 0x1_0000_0000)
        by (bit_vector);
    assert((magnitude as i32) as u32 == magnitude) by (bit_vector);
}

/// Taking the bits of a `u64` as an `i64` gives the number that the
/// magnitude stands for in two's complement, and taking the
/// bits back gives the magnitude again.
pub proof fn lemma_reinterpret_64(magnitude: u64)
    ensures
        (magnitude as i64) as int == twos_complement(
            magnitude as int,
            0x1_0000_0000_0000_0000,
        ),
        (magnitude as i64) as u64 == magnitude,
{
    assert(magnitude < 0x8000_0000_0000_0000 ==> (magnitude as i64) == magnitude)
        by (bit_vector);
    assert(magnitude >= 0x8000_0000_0000_0000 ==> (magnitude as i64) == magnitude
        - 0x1_0000_0000_0000_0000) by (bit_vector);
    assert((magnitude as i64) as u64 == magnitude) by (bit_vector);
}

} // verus!
