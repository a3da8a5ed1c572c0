//! Facts about single bits.
use crate::hw::bit;
use vstd::prelude::*;

verus! {

/// The words with one bit set.
pub proof fn powers_of_two()
    ensures
        1u32 << 0u32 == 0x1,
        1u32 << 1u32 == 0x2,
        1u32 << 2u32 == 0x4,
        1u32 << 3u32 == 0x8,
        1u32 << 4u32 == 0x10,
        1u32 << 5u32 == 0x20,
        1u32 << 6u32 == 0x40,
        1u32 << 7u32 == 0x80,
        1u32 << 8u32 == 0x100,
{
    assert(1u32 << 0u32 == 0x1 && 1u32 << 1u32 == 0x2 && 1u32 << 2u32 == 0x4 && 1u32 << 3u32 == 0x8
        && 1u32 << 4u32 == 0x10 && 1u32 << 5u32 == 0x20 && 1u32 << 6u32 == 0x40 && 1u32 << 7u32
        == 0x80 && 1u32 << 8u32 == 0x100) by (bit_vector);
}

/// A word with one bit set has no other.
pub proof fn one_bit_is_set(i: u32, j: u32)
    requires
        i < 32,
        j < 32,
    ensures
        bit(1u32 << i, j) == (i == j),
{
    assert(((1u32 << i) & (1u32 << j) != 0) == (i == j)) by (bit_vector)
        requires
            i < 32,
            j < 32,
    ;
}

/// Setting one bit of a word sets that bit alone.
pub proof fn setting_concerns_one_bit(word: u32, i: u32, j: u32)
    requires
        i < 32,
        j < 32,
    ensures
        bit(word | (1u32 << i), j) == (i == j || bit(word, j)),
{
    assert(((word | (1u32 << i)) & (1u32 << j) != 0) == (i == j || word & (1u32 << j) != 0))
        by (bit_vector)
        requires
            i < 32,
            j < 32,
    ;
}

/// Flags that are joined.
pub proof fn flags_are_joined()
    ensures
        0x10u32 | 0x40u32 == 0x50,
        0x40u32 | 0x10u32 == 0x50,
        0x400u32 | 0x200u32 | 0x100u32 | 0x80u32 == 0x780,
        0u32 | 0u32 | 0x60u32 == 0x60,
        0u32 | 1u32 == 1,
        0u32 | 2u32 == 2,
        0u32 | 0x0C00_0000u32 | 0u32 | 0x1_4000u32 == 0x0C01_4000,
        0u32 | 0u32 | 0xC000_0000u32 | 0x1_4000u32 == 0xC001_4000,
        8u32 | 0x6000u32 == 0x6008,
        8u32 | 0x2000u32 == 0x2008,
        8u32 | 0x4000u32 == 0x4008,
{
    assert(0x10u32 | 0x40u32 == 0x50 && 0x40u32 | 0x10u32 == 0x50 && 0x400u32 | 0x200u32 | 0x100u32
        | 0x80u32 == 0x780 && 0u32 | 0u32 | 0x60u32 == 0x60 && 0u32 | 1u32 == 1 && 0u32 | 2u32 == 2
        && 0u32 | 0x0C00_0000u32 | 0u32 | 0x1_4000u32 == 0x0C01_4000 && 0u32 | 0u32 | 0xC000_0000u32
        | 0x1_4000u32 == 0xC001_4000 && 8u32 | 0x6000u32 == 0x6008 && 8u32 | 0x2000u32 == 0x2008
        && 8u32 | 0x4000u32 == 0x4008) by (bit_vector);
}

/// The four low bits of a byte, one by one.
pub proof fn low_bits_of_a_byte(b: u8)
    ensures
        (b & 1 != 0) == (b % 2 == 1),
        (b & 2 != 0) == (b / 2 % 2 == 1),
        (b & 4 != 0) == (b / 4 % 2 == 1),
        (b & 8 != 0) == (b / 8 % 2 == 1),
{
    assert((b & 1 != 0) == (b % 2 == 1) && (b & 2 != 0) == (b / 2 % 2 == 1) && (b & 4 != 0) == (b
        / 4 % 2 == 1) && (b & 8 != 0) == (b / 8 % 2 == 1)) by (bit_vector);
}

/// Bit 5 of a word that was set or cleared there.
pub proof fn bit_5_is_set_or_cleared(v: u32)
    ensures
        bit((v & !0x20u32) | 0x20u32, 5),
        !bit((v & !0x20u32) | 0u32, 5),
{
    assert(((v & !0x20u32) | 0x20u32) & (1u32 << 5u32) != 0 && ((v & !0x20u32) | 0u32) & (1u32
        << 5u32) == 0) by (bit_vector);
}

} // verus!
