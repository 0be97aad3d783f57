//! Fixed-width numbers read from byte buffers in an explicit byte order.
//!
//! Every reader takes a borrowed buffer and a [`ByteOrder`] and returns either
//! the number held by the leading bytes of the buffer or [`Error::ShortSlice`].
//! Nothing here panics, allocates or keeps state.

pub mod error;
pub mod laws;
pub mod model;
pub mod order;
pub mod place_value;
pub mod read;
pub mod signed;

pub use crate::error::{Error, Result};
pub use crate::order::ByteOrder;
pub use crate::read::{read_i16, read_i32, read_i64, read_u16, read_u32, read_u64};
