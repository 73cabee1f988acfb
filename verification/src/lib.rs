//! A fixed-capacity array of boolean flags, packed eight to a byte.
//!
//! [`BitArray`] owns a byte buffer sized once, at construction, and reads or
//! writes one flag at a time with an explicit bounds check. Flag `p` lives in
//! byte `p / 8`, at the bit of weight `2^(p % 8)`: the least significant bit of
//! a byte holds the lowest position stored in it.
//!
//! The contracts speak of [`model::PackedBits`], the array as a mathematical
//! value; [`laws`] holds what is proved of every such value.

pub mod bitarray;
pub mod error;
pub mod laws;
pub mod layout;
pub mod model;
pub mod text;

pub use crate::bitarray::{BitArray, ONE_BYTE_BITS_COUNT};
pub use crate::error::OutOfRangeError;
