//! What holds of every bit array, whatever its capacity and history.
//!
//! Each law is stated over [`PackedBits`], the value that the contracts of
//! [`BitArray`](crate::bitarray::BitArray) speak of, and proved here.

use crate::error::OutOfRangeError;
use crate::layout::{
    bit_offset, byte_index, flag_at, lemma_byte_with_twice, lemma_flag_after_write, mask_at,
};
use crate::model::PackedBits;
use vstd::prelude::*;

verus! {

/// A newly built array of `size` flags is backed by exactly `size / 8 + 1`
/// bytes.
pub proof fn fresh_storage_length(size: i64)
    requires
        0 <= size,
    ensures
        PackedBits::zeroed(size).wf(),
        PackedBits::zeroed(size).bytes.len() == size / 8 + 1,
{
}

/// The storage of a newly built array backs every one of its flags, with at
/// least one bit and at most eight to spare.
pub proof fn fresh_storage_covers_capacity(size: i64)
    requires
        0 <= size,
    ensures
        size < 8 * PackedBits::zeroed(size).bytes.len() <= size + 8,
{
}

/// Every flag of an array has its byte in the storage.
pub proof fn storage_backs_every_flag(array: PackedBits, position: i64)
    requires
        array.wf(),
        array.holds(position),
    ensures
        0 <= byte_index(position as int) < array.bytes.len(),
{
}

/// Every flag of a newly built array reads as not set.
pub proof fn fresh_reads_false(size: i64, position: i64)
    requires
        0 <= position < size,
    ensures
        PackedBits::zeroed(size).get(position) == Ok::<bool, OutOfRangeError>(false),
{
    PackedBits::lemma_zeroed_flags(size);
}

/// A read at the position just written returns the flag written.
pub proof fn written_flag_is_read(array: PackedBits, position: i64, value: bool)
    requires
        array.wf(),
        array.holds(position),
    ensures
        array.set(position, value).get(position) == Ok::<bool, OutOfRangeError>(value),
{
    array.lemma_set_flags(position, value);
}

/// A write at one position does not change what a read at another returns.
pub proof fn write_is_local(array: PackedBits, written: i64, read: i64, value: bool)
    requires
        array.wf(),
        array.holds(written),
        array.holds(read),
        written != read,
    ensures
        array.set(written, value).get(read) == array.get(read),
{
    array.lemma_set_flags(written, value);
}

/// A write changes one byte of the storage, and in it only the bit of the
/// position written: every other bit that the storage backs, the spare bits
/// beyond the capacity among them, stays as it was.
pub proof fn write_changes_one_bit(array: PackedBits, position: i64, value: bool, other: int)
    requires
        array.wf(),
        array.holds(position),
        0 <= other < 8 * array.bytes.len(),
        other != position,
    ensures
        array.set(position, value).bytes.len() == array.bytes.len(),
        forall|index: int|
            0 <= index < array.bytes.len() && index != byte_index(position as int)
                ==> array.set(position, value).bytes[index] == array.bytes[index],
        flag_at(array.set(position, value).bytes, other) == flag_at(array.bytes, other),
{
    lemma_flag_after_write(array.bytes, position as int, value, other);
}

/// An access at the capacity itself, the first position beyond the last flag,
/// fails with the capacity as both size and position, and a write there
/// changes nothing.
pub proof fn boundary_is_rejected(array: PackedBits, value: bool)
    ensures
        array.get(array.size) == Err::<bool, OutOfRangeError>(
            OutOfRangeError { bitarray_size: array.size, bitarray_position: array.size },
        ),
        array.set_outcome(array.size) == Err::<(), OutOfRangeError>(
            OutOfRangeError { bitarray_size: array.size, bitarray_position: array.size },
        ),
        array.set(array.size, value) == array,
{
}

/// Every access succeeds exactly at the positions from zero up to, and not
/// including, the capacity; a failed write leaves the array as it was.
pub proof fn access_succeeds_in_range_only(array: PackedBits, position: i64, value: bool)
    ensures
        array.get(position) is Ok <==> 0 <= position < array.size,
        array.set_outcome(position) is Ok <==> 0 <= position < array.size,
        array.get(position) is Err ==> array.get(position) == Err::<bool, OutOfRangeError>(
            array.out_of_range(position),
        ),
        array.set_outcome(position) is Err ==> array.set(position, value) == array,
{
}

/// Writing the same flag twice at one position leaves the array as the first
/// write left it, and the flag reads as written.
pub proof fn repeated_write_is_idempotent(array: PackedBits, position: i64, value: bool)
    requires
        array.wf(),
        array.holds(position),
    ensures
        array.set(position, value).set(position, value) == array.set(position, value),
        array.set(position, value).set(position, value).get(position) == Ok::<
            bool,
            OutOfRangeError,
        >(value),
{
    let once = array.set(position, value);
    let twice = once.set(position, value);
    lemma_byte_with_twice(
        array.bytes[byte_index(position as int)],
        mask_at(bit_offset(position as int)),
        value,
    );
    assert(twice.bytes =~= once.bytes);
    once.lemma_set_flags(position, value);
    array.lemma_set_flags(position, value);
}

/// The bit that stands for a flag has the weight of two to the power of the
/// flag's place in its byte: the lowest position of a byte is its least
/// significant bit.
pub proof fn mask_weights()
    ensures
        mask_at(0) == 1,
        mask_at(1) == 2,
        mask_at(2) == 4,
        mask_at(3) == 8,
        mask_at(4) == 16,
        mask_at(5) == 32,
        mask_at(6) == 64,
        mask_at(7) == 128,
{
    assert(1u8 << 0u8 == 1) by (bit_vector);
    assert(1u8 << 1u8 == 2) by (bit_vector);
    assert(1u8 << 2u8 == 4) by (bit_vector);
    assert(1u8 << 3u8 == 8) by (bit_vector);
    assert(1u8 << 4u8 == 16) by (bit_vector);
    assert(1u8 << 5u8 == 32) by (bit_vector);
    assert(1u8 << 6u8 == 64) by (bit_vector);
    assert(1u8 << 7u8 == 128) by (bit_vector);
}

} // verus!
