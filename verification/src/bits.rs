//! A 32-bit bitfield that records which of its bits have been queried.
use vstd::prelude::*;

use crate::byte_stream::{spec_bitfield, ByteStream, ReadBitfieldError};

verus! {

/// One or more bits were set but never checked; holds those bits.
#[derive(Debug, Clone, Copy, PartialEq, Eq, Structural)]
pub struct UnhandledBitsError(pub u32);

/// Wraps a 32-bit bitfield and tracks which bits have been queried.
///
/// If we read a bitfield from a binary file, we need to handle all of the bits that are used;
/// if a bit is set but we never check its value, it may lead to parsing errors later that are
/// hard to diagnose.
#[derive(Debug, Clone, Copy, PartialEq, Eq, Structural)]
pub struct CheckedBitfield {
    /// The underlying bitfield.
    bits: u32,
    /// Stores which bits of `bits` have been queried.
    checked: u32,
}

/// The mask of bit `index` (0 is the least significant bit).
pub open spec fn bit_mask(index: u8) -> u32 {
    1u32 << index
}

/// Whether bit `index` of `v` is set.
pub open spec fn bit_is_set(v: u32, index: u8) -> bool {
    v & bit_mask(index) != 0
}

impl CheckedBitfield {
    /// The underlying bitfield.
    pub closed spec fn bits(self) -> u32 {
        self.bits
    }

    /// The bits that have been queried.
    pub closed spec fn checked(self) -> u32 {
        self.checked
    }

    /// The set bits that have not been queried.
    pub open spec fn unchecked_set(self) -> u32 {
        self.bits() & !self.checked()
    }

    /// A bitfield holding `value`, with no bit queried yet.
    pub fn from_bits(value: u32) -> (r: CheckedBitfield)
        ensures
            r.bits() == value,
            r.checked() == 0,
    {
        CheckedBitfield { bits: value, checked: 0 }
    }

    /// Reads a variable-length bitfield from `stream`.
    pub fn try_parse(stream: &mut ByteStream) -> (r: Result<CheckedBitfield, ReadBitfieldError>)
        ensures
            match spec_bitfield(old(stream)@) {
                Ok((v, s2)) => r matches Ok(bf) && bf.bits() == v && bf.checked() == 0
                    && final(stream)@ == s2,
                Err(e) => r == Err::<CheckedBitfield, ReadBitfieldError>(e),
            },
            final(stream)@.same_frame(old(stream)@),
    {
        match stream.read_variable_length_bitfield() {
            Ok(v) => Ok(CheckedBitfield::from_bits(v)),
            Err(e) => Err(e),
        }
    }

    /// Sets every bit, and its checked state, to zero.
    pub fn clear(&mut self)
        ensures
            final(self).bits() == 0,
            final(self).checked() == 0,
    {
        self.bits = 0;
        self.checked = 0;
    }

    /// Returns `true` iff the `index`th bit is set, where 0 is the index of the least significant
    /// bit. Stores that this bit has been checked.
    pub fn check_bit(&mut self, index: u8) -> (r: bool)
        requires
            index < 32,
        ensures
            r == bit_is_set(old(self).bits(), index),
            final(self).bits() == old(self).bits(),
            final(self).checked() == old(self).checked() | bit_mask(index),
    {
        let mask: u32 = 1u32 << index;
        self.checked = self.checked | mask;
        self.bits & mask != 0
    }

    /// Returns `true` iff any bits are set.
    pub fn any_set(self) -> (r: bool)
        ensures
            r == (self.bits() != 0),
    {
        self.bits != 0
    }

    /// Returns an `UnhandledBitsError` containing the unhandled bits if there are any.
    pub fn ensure_none_set_unchecked(self) -> (r: Result<(), UnhandledBitsError>)
        ensures
            r is Ok <==> self.unchecked_set() == 0,
            r matches Err(e) ==> e.0 == self.unchecked_set(),
    {
        match self.bits & !self.checked {
            0 => Ok(()),
            bad => Err(UnhandledBitsError(bad)),
        }
    }
}

/// Law: checking bit `index` removes exactly that bit from the set-but-unchecked bits, and a
/// bit that is set but has not been checked is always reported as unhandled.
pub proof fn lemma_check_bit_handles_that_bit(bits: u32, checked: u32, index: u8)
    requires
        index < 32,
    ensures
        bits & !(checked | bit_mask(index)) == (bits & !checked) & !bit_mask(index),
        bit_is_set(bits, index) && !bit_is_set(checked, index) ==> bits & !checked != 0,
        !bit_is_set(bits & !(checked | bit_mask(index)), index),
{
    assert(bits & !(checked | (1u32 << index)) == (bits & !checked) & !(1u32 << index)) by (bit_vector);
    assert(bits & (1u32 << index) != 0 && checked & (1u32 << index) == 0 ==> bits & !checked != 0) by (bit_vector)
        requires index < 32;
    assert((bits & !(checked | (1u32 << index))) & (1u32 << index) == 0) by (bit_vector);
}


/// The masks of the runs of field bits that the readers check, as numbers.
pub proof fn lemma_chunk_masks()
    by (bit_vector)
    ensures
        bit_mask(0u8) | bit_mask(1u8) | bit_mask(2u8) | bit_mask(3u8) | bit_mask(4u8) | bit_mask(5u8) | bit_mask(6u8) == 0x7fu32,
        bit_mask(0u8) | bit_mask(1u8) | bit_mask(2u8) | bit_mask(3u8) | bit_mask(4u8) | bit_mask(5u8) | bit_mask(6u8) | bit_mask(7u8) == 0xffu32,
        bit_mask(9u8) == 0x200u32,
        bit_mask(11u8) | bit_mask(12u8) | bit_mask(15u8) | bit_mask(16u8) == 0x19800u32,
        bit_mask(0u8) | bit_mask(1u8) | bit_mask(2u8) | bit_mask(3u8) | bit_mask(6u8) | bit_mask(7u8) | bit_mask(9u8) | bit_mask(9u8) | bit_mask(10u8) | bit_mask(11u8) | bit_mask(12u8) == 0x1ecfu32,
        bit_mask(15u8) | bit_mask(16u8) | bit_mask(17u8) | bit_mask(18u8) | bit_mask(19u8) | bit_mask(20u8) | bit_mask(21u8) | bit_mask(22u8) == 0x7f8000u32,
        bit_mask(0u8) | bit_mask(1u8) | bit_mask(2u8) | bit_mask(3u8) | bit_mask(4u8) == 0x1fu32,
        bit_mask(0u8) == 0x1u32,
        bit_mask(6u8) | bit_mask(7u8) | bit_mask(8u8) | bit_mask(9u8) == 0x3c0u32,
        bit_mask(1u8) | bit_mask(2u8) | bit_mask(3u8) == 0xeu32,
        bit_mask(1u8) | bit_mask(3u8) | bit_mask(4u8) | bit_mask(5u8) == 0x3au32,
        bit_mask(9u8) | bit_mask(10u8) | bit_mask(11u8) | bit_mask(12u8) == 0x1e00u32,
        bit_mask(17u8) | bit_mask(18u8) == 0x60000u32,
        bit_mask(0u8) | bit_mask(1u8) | bit_mask(2u8) | bit_mask(3u8) | bit_mask(4u8) | bit_mask(5u8) | bit_mask(6u8) | bit_mask(7u8) | bit_mask(8u8) | bit_mask(9u8) | bit_mask(12u8) == 0x13ffu32,
        bit_mask(0u8) | bit_mask(1u8) | bit_mask(2u8) | bit_mask(3u8) | bit_mask(4u8) | bit_mask(5u8) | bit_mask(6u8) | bit_mask(7u8) | bit_mask(8u8) == 0x1ffu32,
        bit_mask(13u8) | bit_mask(14u8) | bit_mask(15u8) | bit_mask(16u8) | bit_mask(17u8) | bit_mask(18u8) | bit_mask(19u8) == 0xfe000u32,
        bit_mask(2u8) | bit_mask(3u8) | bit_mask(7u8) == 0x8cu32,
        bit_mask(1u8) | bit_mask(2u8) | bit_mask(3u8) | bit_mask(4u8) == 0x1eu32,
        bit_mask(5u8) | bit_mask(6u8) | bit_mask(7u8) | bit_mask(8u8) == 0x1e0u32,
        bit_mask(9u8) | bit_mask(10u8) | bit_mask(11u8) | bit_mask(22u8) == 0x400e00u32,
        bit_mask(12u8) | bit_mask(13u8) | bit_mask(14u8) | bit_mask(15u8) == 0xf000u32,
        bit_mask(16u8) | bit_mask(17u8) | bit_mask(18u8) | bit_mask(19u8) == 0xf0000u32,
        bit_mask(20u8) | bit_mask(21u8) | bit_mask(23u8) | bit_mask(24u8) == 0x1b00000u32,
        bit_mask(0u8) | bit_mask(1u8) | bit_mask(2u8) | bit_mask(3u8) | bit_mask(4u8) | bit_mask(5u8) == 0x3fu32,
        bit_mask(0u8) | bit_mask(1u8) | bit_mask(2u8) | bit_mask(3u8) == 0xfu32,
        bit_mask(0u8) | bit_mask(1u8) | bit_mask(2u8) | bit_mask(3u8) | bit_mask(4u8) | bit_mask(5u8) | bit_mask(6u8) | bit_mask(7u8) | bit_mask(8u8) | bit_mask(10u8) == 0x5ffu32,
        bit_mask(7u8) | bit_mask(8u8) | bit_mask(9u8) == 0x380u32,
        bit_mask(10u8) | bit_mask(11u8) | bit_mask(12u8) | bit_mask(13u8) == 0x3c00u32,
        bit_mask(14u8) | bit_mask(15u8) | bit_mask(16u8) | bit_mask(17u8) == 0x3c000u32,
{
}

/// `|` is associative.
pub proof fn lemma_or_assoc(a: u32, b: u32, c: u32)
    by (bit_vector)
    ensures
        (a | b) | c == a | (b | c),
{
}

/// Zero is the identity of `|`.
pub proof fn lemma_zero_or(a: u32)
    by (bit_vector)
    ensures
        0u32 | a == a,
{
}

/// Clearing no bits changes nothing.
pub proof fn lemma_and_not_zero(a: u32)
    by (bit_vector)
    ensures
        a & !0u32 == a,
{
}

} // verus!
