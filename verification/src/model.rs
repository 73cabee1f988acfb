//! The bit array as a mathematical value: a capacity and the bytes behind it,
//! with what construction, a read and a write mean for it.

use crate::error::OutOfRangeError;
use crate::layout::{flag_at, with_flag, zeroed};
use vstd::prelude::*;

verus! {

/// What a bit array is: how many flags it holds, and the bytes that hold them.
pub struct PackedBits {
    /// Number of flags, fixed at construction.
    pub size: i64,
    /// The storage, eight flags to a byte.
    pub bytes: Seq<u8>,
}

impl PackedBits {
    /// The storage backs the capacity: the capacity is not negative, and
    /// every flag has its bit in one of the bytes.
    pub open spec fn wf(self) -> bool {
        0 <= self.size <= 8 * self.bytes.len()
    }

    /// The array of `size` flags as it is built: every byte zero.
    pub open spec fn zeroed(size: i64) -> PackedBits {
        PackedBits { size, bytes: zeroed(size as int) }
    }

    /// Whether `position` is one of the flags of the array.
    pub open spec fn holds(self, position: i64) -> bool {
        0 <= position < self.size
    }

    /// The failure of an access to `position`.
    pub open spec fn out_of_range(self, position: i64) -> OutOfRangeError {
        OutOfRangeError { bitarray_size: self.size, bitarray_position: position }
    }

    /// The flags of the array, by position.
    pub open spec fn flags(self) -> Seq<bool> {
        Seq::new(self.size as nat, |position: int| flag_at(self.bytes, position))
    }

    /// What a read at `position` returns: the flag there, or the failure
    /// where the array does not hold the position.
    pub open spec fn get(self, position: i64) -> Result<bool, OutOfRangeError> {
        if self.holds(position) {
            Ok(self.flags()[position as int])
        } else {
            Err(self.out_of_range(position))
        }
    }

    /// What a write at `position` returns: success exactly where the array
    /// holds the position.
    pub open spec fn set_outcome(self, position: i64) -> Result<(), OutOfRangeError> {
        if self.holds(position) {
            Ok(())
        } else {
            Err(self.out_of_range(position))
        }
    }

    /// The array after a write of `flag` at `position`: one bit of one byte
    /// changed, or nothing at all where the array does not hold the position.
    pub open spec fn set(self, position: i64, flag: bool) -> PackedBits {
        if self.holds(position) {
            PackedBits { size: self.size, bytes: with_flag(self.bytes, position as int, flag) }
        } else {
            self
        }
    }

    /// A write changes the flag at its position and no other flag.
    pub proof fn lemma_set_flags(self, position: i64, flag: bool)
        requires
            self.wf(),
            self.holds(position),
        ensures
            self.set(position, flag).flags() == self.flags().update(position as int, flag),
    {
        let after = self.set(position, flag);
        assert forall|p: int| 0 <= p < self.size implies #[trigger] after.flags()[p]
            == self.flags().update(position as int, flag)[p] by {
            crate::layout::lemma_flag_after_write(self.bytes, position as int, flag, p);
        }
        assert(after.flags() =~= self.flags().update(position as int, flag));
    }

    /// No flag of a newly built array is set.
    pub proof fn lemma_zeroed_flags(size: i64)
        requires
            0 <= size,
        ensures
            Self::zeroed(size).wf(),
            Self::zeroed(size).flags() == Seq::new(size as nat, |position: int| false),
    {
        assert forall|p: int| 0 <= p < size implies !#[trigger] Self::zeroed(size).flags()[p] by {
            crate::layout::lemma_zeroed_is_clear(size as int, p);
        }
        assert(Self::zeroed(size).flags() =~= Seq::new(size as nat, |position: int| false));
    }
}

} // verus!
