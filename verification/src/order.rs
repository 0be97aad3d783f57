//! The byte-order selector.

use vstd::prelude::*;

verus! {

/// The order in which the bytes of a multi-byte number follow each other.
#[derive(Debug, Copy, Clone, PartialEq, Eq, Structural)]
pub enum ByteOrder {
    /// Least-significant byte first (Intel byte order).
    LittleEndian,
    /// Most-significant byte first (Motorola byte order).
    BigEndian,
}

} // verus!
