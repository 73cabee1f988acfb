//! The one failure of a bit array: an access outside its capacity.

use crate::text::{append_decimal, decimal};
use vstd::prelude::*;
use vstd::string::StringExecFns;

verus! {

/// An access to a position that the bit array does not hold.
///
/// It records the capacity of the array at the time of the access and the
/// position asked for, so that a caller can report both.
#[derive(Clone, Copy, Debug, PartialEq, Eq, Structural)]
pub struct OutOfRangeError {
    /// Number of flags that the array holds.
    pub bitarray_size: i64,
    /// The position that was asked for.
    pub bitarray_position: i64,
}

/// The text that reports an access to `position` in an array of `size` flags.
pub open spec fn out_of_range_message(position: int, size: int) -> Seq<char> {
    "Given position: "@ + decimal(position) + " is out of the bitarray size "@ + decimal(size)
        + "."@
}

impl OutOfRangeError {
    /// The error for an access to `bitarray_position` in an array of
    /// `bitarray_size` flags.
    pub fn new(bitarray_size: i64, bitarray_position: i64) -> (error: Self)
        ensures
            error == (OutOfRangeError { bitarray_size, bitarray_position }),
    {
        Self { bitarray_size, bitarray_position }
    }

    /// The text of this error.
    pub open spec fn message(&self) -> Seq<char> {
        out_of_range_message(self.bitarray_position as int, self.bitarray_size as int)
    }

    /// Renders the error for a reader: the position first, then the size.
    pub fn to_string(&self) -> (text: String)
        ensures
            text@ == self.message(),
    {
        let mut text = String::from_str("Given position: ");
        append_decimal(&mut text, self.bitarray_position);
        text.append(" is out of the bitarray size ");
        append_decimal(&mut text, self.bitarray_size);
        text.append(".");
        text
    }
}

} // verus!
