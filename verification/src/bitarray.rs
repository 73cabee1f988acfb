//! The bit array itself: construction, and the checked read and write of one
//! flag.

use crate::error::OutOfRangeError;
use crate::layout::{bit_mask, byte_count, byte_index};
use crate::model::PackedBits;
use vstd::prelude::*;

verus! {

/// Number of bits in one byte, named for readability.
pub const ONE_BYTE_BITS_COUNT: i8 = 8;

/// A fixed number of boolean flags, packed eight to a byte.
///
/// `size` is the number of flags and never changes after construction.
/// `bit_array` is the storage: flag `p` is the bit of weight `2^(p % 8)` of
/// byte `p / 8`.
///
/// ```rust
/// use bitarray_naive::BitArray;
///
/// let bitarray_size: i64 = 9999;
///
/// let mut bitarray: BitArray = BitArray::new(bitarray_size);
///
/// bitarray.set(12, true).unwrap();
///
/// assert_eq!(bitarray.get(12).unwrap(), true);
/// ```
#[derive(Debug)]
pub struct BitArray {
    /// Number of flags that the array holds.
    pub size: i64,
    /// The bytes that hold the flags.
    pub bit_array: Vec<u8>,
}

impl View for BitArray {
    type V = PackedBits;

    open spec fn view(&self) -> PackedBits {
        PackedBits { size: self.size, bytes: self.bit_array@ }
    }
}

impl BitArray {
    /// Builds an array of `size` flags, none of them set.
    ///
    /// The storage is `size / 8 + 1` bytes, all zero: one byte more than the
    /// whole bytes that the flags fill, whatever `size` is.
    pub fn new(size: i64) -> (array: Self)
        requires
            0 <= size,
            byte_count(size as int) <= usize::MAX,
        ensures
            array.size == size,
            array.bit_array@.len() == size / 8 + 1,
            array@ == PackedBits::zeroed(size),
            array@.wf(),
            array@.flags() == Seq::new(size as nat, |position: int| false),
    {
        let capacity: usize = (size / ONE_BYTE_BITS_COUNT as i64) as usize + 1;
        let mut bit_array: Vec<u8> = Vec::with_capacity(capacity);
        let mut filled: usize = 0;
        while filled < capacity
            invariant
                filled <= capacity,
                bit_array@ == Seq::new(filled as nat, |i: int| 0u8),
            decreases capacity - filled,
        {
            bit_array.push(0);
            filled += 1;
        }
        proof {
            PackedBits::lemma_zeroed_flags(size);
        }
        Self { size, bit_array }
    }

    /// Index in the storage of the byte that holds the flag at `position`.
    fn calc_vec_position(position: i64) -> (index: usize)
        requires
            0 <= position,
            byte_index(position as int) <= usize::MAX,
        ensures
            index == byte_index(position as int),
    {
        (position / ONE_BYTE_BITS_COUNT as i64) as usize
    }

    /// The byte with the one bit set that stands for the flag at `position`:
    /// bit `position % 8`, counted from the least significant.
    fn calc_byte_offset(position: i64) -> (mask: u8)
        requires
            0 <= position,
        ensures
            mask == bit_mask(position as int),
    {
        let offset: u8 = (position % ONE_BYTE_BITS_COUNT as i64) as u8;
        1u8 << offset
    }

    /// Makes the flag at `position` equal to `flag`.
    ///
    /// Fails, and changes nothing, where the array does not hold `position`:
    /// at a negative position, and at `size` or beyond.
    pub fn set(&mut self, position: i64, flag: bool) -> (outcome: Result<(), OutOfRangeError>)
        requires
            old(self)@.wf(),
        ensures
            outcome is Ok <==> 0 <= position < old(self).size,
            outcome == old(self)@.set_outcome(position),
            final(self)@ == old(self)@.set(position, flag),
            final(self)@.wf(),
            final(self)@.flags() == if old(self)@.holds(position) {
                old(self)@.flags().update(position as int, flag)
            } else {
                old(self)@.flags()
            },
    {
        if position < 0 || position >= self.size {
            Err(OutOfRangeError::new(self.size, position))
        } else {
            assert(byte_index(position as int) < self.bit_array.len());
            let vec_position: usize = Self::calc_vec_position(position);
            let byte_offset: u8 = Self::calc_byte_offset(position);
            proof {
                old(self)@.lemma_set_flags(position, flag);
            }
            if flag {
                self.bit_array[vec_position] |= byte_offset;
            } else {
                self.bit_array[vec_position] &= !byte_offset;
            }
            Ok(())
        }
    }

    /// Reads the flag at `position`.
    ///
    /// Fails where the array does not hold `position`: at a negative
    /// position, and at `size` or beyond.
    pub fn get(&self, position: i64) -> (outcome: Result<bool, OutOfRangeError>)
        requires
            self@.wf(),
        ensures
            outcome is Ok <==> 0 <= position < self.size,
            outcome == self@.get(position),
    {
        if position < 0 || position >= self.size {
            Err(OutOfRangeError::new(self.size, position))
        } else {
            assert(byte_index(position as int) < self.bit_array.len());
            let vec_position: usize = Self::calc_vec_position(position);
            let byte_offset: u8 = Self::calc_byte_offset(position);
            Ok(self.bit_array[vec_position] & byte_offset == byte_offset)
        }
    }
}

} // verus!
