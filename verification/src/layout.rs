//! Where a flag lives: the arithmetic from a position to a byte and a bit in
//! it, and what reading and writing one bit means for a sequence of bytes.

use vstd::prelude::*;

verus! {

/// Index of the byte that holds the flag at `position`.
pub open spec fn byte_index(position: int) -> int {
    position / 8
}

/// Place of the flag at `position` inside its byte, counted from the least
/// significant bit.
pub open spec fn bit_offset(position: int) -> u8 {
    (position % 8) as u8
}

/// The byte with only the bit at `offset` set.
pub open spec fn mask_at(offset: u8) -> u8 {
    1u8 << offset
}

/// The single-bit pattern that selects the flag at `position` in its byte.
pub open spec fn bit_mask(position: int) -> u8 {
    mask_at(bit_offset(position))
}

/// Number of bytes that back `size` flags: one more than the whole bytes that
/// `size` flags fill, also when `size` is a multiple of eight.
pub open spec fn byte_count(size: int) -> int {
    size / 8 + 1
}

/// Whether `byte` has every bit of `mask` set.
pub open spec fn covers(byte: u8, mask: u8) -> bool {
    byte & mask == mask
}

/// `byte` with the bits of `mask` set (`flag`) or cleared (`!flag`).
pub open spec fn byte_with(byte: u8, mask: u8, flag: bool) -> u8 {
    if flag {
        byte | mask
    } else {
        byte & !mask
    }
}

/// The flag that `bytes` holds at `position`.
pub open spec fn flag_at(bytes: Seq<u8>, position: int) -> bool {
    covers(bytes[byte_index(position)], bit_mask(position))
}

/// `bytes` after the flag at `position` is made `flag`: the one byte that
/// holds the position changes, in the one bit that stands for it.
pub open spec fn with_flag(bytes: Seq<u8>, position: int, flag: bool) -> Seq<u8> {
    bytes.update(
        byte_index(position),
        byte_with(bytes[byte_index(position)], bit_mask(position), flag),
    )
}

/// Storage for `size` flags, none of them set.
pub open spec fn zeroed(size: int) -> Seq<u8> {
    Seq::new(byte_count(size) as nat, |i: int| 0u8)
}

/// Setting or clearing the bit at `offset` leaves that bit as asked.
pub proof fn lemma_byte_with_same(byte: u8, offset: u8, flag: bool)
    requires
        offset < 8,
    ensures
        covers(byte_with(byte, mask_at(offset), flag), mask_at(offset)) == flag,
{
    assert(((byte | (1u8 << offset)) & (1u8 << offset)) == (1u8 << offset)) by (bit_vector)
        requires
            offset < 8,
    ;
    assert(((byte & !(1u8 << offset)) & (1u8 << offset)) != (1u8 << offset)) by (bit_vector)
        requires
            offset < 8,
    ;
}

/// Setting or clearing the bit at `offset` leaves the bit at any other offset
/// of the byte as it was.
pub proof fn lemma_byte_with_other(byte: u8, offset: u8, other: u8, flag: bool)
    requires
        offset < 8,
        other < 8,
        offset != other,
    ensures
        covers(byte_with(byte, mask_at(offset), flag), mask_at(other)) == covers(
            byte,
            mask_at(other),
        ),
{
    assert((((byte | (1u8 << offset)) & (1u8 << other)) == (1u8 << other)) == ((byte & (1u8
        << other)) == (1u8 << other))) by (bit_vector)
        requires
            offset < 8,
            other < 8,
            offset != other,
    ;
    assert((((byte & !(1u8 << offset)) & (1u8 << other)) == (1u8 << other)) == ((byte & (1u8
        << other)) == (1u8 << other))) by (bit_vector)
        requires
            offset < 8,
            other < 8,
            offset != other,
    ;
}

/// Setting or clearing a bit that is already as asked changes nothing.
pub proof fn lemma_byte_with_twice(byte: u8, mask: u8, flag: bool)
    ensures
        byte_with(byte_with(byte, mask, flag), mask, flag) == byte_with(byte, mask, flag),
{
    assert(((byte | mask) | mask) == (byte | mask)) by (bit_vector);
    assert(((byte & !mask) & !mask) == (byte & !mask)) by (bit_vector);
}

/// No bit of a zero byte is set.
pub proof fn lemma_zero_byte_is_clear(offset: u8)
    requires
        offset < 8,
    ensures
        !covers(0u8, mask_at(offset)),
{
    assert((0u8 & (1u8 << offset)) != (1u8 << offset)) by (bit_vector)
        requires
            offset < 8,
    ;
}

/// Reading after a write: the position written holds the flag written, and
/// every other position that the storage backs, padding included, holds what
/// it held before.
pub proof fn lemma_flag_after_write(bytes: Seq<u8>, position: int, flag: bool, other: int)
    requires
        0 <= position,
        0 <= other,
        byte_index(position) < bytes.len(),
        byte_index(other) < bytes.len(),
    ensures
        flag_at(with_flag(bytes, position, flag), other) == if other == position {
            flag
        } else {
            flag_at(bytes, other)
        },
{
    if byte_index(other) == byte_index(position) {
        let byte = bytes[byte_index(position)];
        if other == position {
            lemma_byte_with_same(byte, bit_offset(position), flag);
        } else {
            lemma_byte_with_other(byte, bit_offset(position), bit_offset(other), flag);
        }
    }
}

/// Every position that zeroed storage backs reads as not set.
pub proof fn lemma_zeroed_is_clear(size: int, position: int)
    requires
        0 <= position,
        byte_index(position) < byte_count(size),
    ensures
        !flag_at(zeroed(size), position),
{
    lemma_zero_byte_is_clear(bit_offset(position));
}

} // verus!
