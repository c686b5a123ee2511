//! Facts about the bit patterns of the scroll and address registers.

use vstd::prelude::*;

verus! {

/// Every update of the temporary address by a register write keeps it within
/// 15 bits, and the fine scroll within 3.
pub proof fn lemma_t_updates_bounded(t: u16, value: u8)
    by (bit_vector)
    requires
        t < 0x8000,
    ensures
        (t & 0xF3FF) | ((value as u16 & 0x03) << 10) < 0x8000,
        (t & 0x7FE0) | (value as u16 >> 3) < 0x8000,
        (t & 0xC1F) | ((value as u16 & 0xF8) << 2) | ((value as u16 & 0x7) << 12) < 0x8000,
        (t & 0x80FF) | ((value as u16 & 0x3F) << 8) < 0x4000,
        ((t & 0xFF00) | (value as u16)) < 0x8000,
        value & 0x7 <= 7,
{
}

/// Copying scroll bits from the temporary address keeps the current address
/// within 15 bits.
pub proof fn lemma_copies_bounded(v: u16, t: u16)
    by (bit_vector)
    requires
        v < 0x8000,
        t < 0x8000,
    ensures
        (v & !0x7BE0u16) | (t & 0x7BE0) < 0x8000,
        (v & !0x041Fu16) | (t & 0x041F) < 0x8000,
{
}

/// The horizontal increment keeps the current address within 15 bits.
pub proof fn lemma_increment_x_bounded(v: u16)
    by (bit_vector)
    requires
        v < 0x8000,
    ensures
        (v & 0xFFE0) ^ 0x0400 < 0x8000,
        v & 0x001F != 31 ==> v + 1 < 0x8000,
{
}

/// The vertical increment keeps the current address within 15 bits.
pub proof fn lemma_increment_y_bounded(v: u16, next: u16)
    by (bit_vector)
    requires
        v < 0x8000,
        next < 32,
    ensures
        v & 0x7000 != 0x7000 ==> v + 0x1000 < 0x8000,
        ((v & 0x8FFF) & 0x3E0) >> 5 < 32,
        ((v & 0x8FFF) & 0xFC1F) | (next << 5) < 0x8000,
        (((v & 0x8FFF) ^ 0x800) & 0xFC1F) | (next << 5) < 0x8000,
{
}

} // verus!

verus! {

/// The status byte carries the three flags in its top bits and the low five
/// bits of the last register write below them.
pub proof fn lemma_status_bits(register: u8, overflow: u8, hit: u8, vblank: u8)
    by (bit_vector)
    requires
        overflow == 0 || overflow == 0x20,
        hit == 0 || hit == 0x40,
        vblank == 0 || vblank == 0x80,
    ensures
        ((register & 0x1F) | overflow | hit | vblank) & 0x80 == vblank,
        ((register & 0x1F) | overflow | hit | vblank) & 0x40 == hit,
        ((register & 0x1F) | overflow | hit | vblank) & 0x20 == overflow,
        ((register & 0x1F) | overflow | hit | vblank) & 0x1F == register & 0x1F,
{
}

/// Two address writes load fourteen bits: six from the first byte, eight from
/// the second.
pub proof fn lemma_address_pair_bits(t: u16, hi: u8, lo: u8)
    by (bit_vector)
    requires
        t < 0x8000,
    ensures
        ((((t & 0x80FF) | ((hi as u16 & 0x3F) << 8)) & 0xFF00) | (lo as u16)) == ((hi as u16
            & 0x3F) << 8) | (lo as u16),
        (((hi as u16 & 0x3F) << 8) | (lo as u16)) < 0x4000,
{
}

/// Clearing the nametable bits of the temporary address twice is clearing
/// them once.
pub proof fn lemma_control_zero_bits(t: u16)
    by (bit_vector)
    ensures
        (((t & 0xF3FF) | ((0u8 as u16 & 0x03) << 10)) & 0xF3FF) | ((0u8 as u16 & 0x03) << 10) == (t
            & 0xF3FF) | ((0u8 as u16 & 0x03) << 10),
        (0u8 >> 7) & 1 != 1,
{
}

/// The horizontal increment, field by field.
pub proof fn lemma_increment_x_bits(v: u16)
    by (bit_vector)
    requires
        v < 0x8000,
    ensures
        v & 0x001F == 31 ==> ((v & 0xFFE0) ^ 0x0400) & 0x001F == 0,
        v & 0x001F == 31 ==> ((v & 0xFFE0) ^ 0x0400) & 0x0400 == (v & 0x0400) ^ 0x0400,
        v & 0x001F == 31 ==> ((v & 0xFFE0) ^ 0x0400) & 0xFBE0 == v & 0xFBE0,
        v & 0x001F != 31 ==> (v + 1) as u16 & 0x001F == (v & 0x001F) + 1,
        v & 0x001F != 31 ==> (v + 1) as u16 & 0xFFE0 == v & 0xFFE0,
{
}

/// The vertical increment, field by field, when fine Y is at its last row.
pub proof fn lemma_increment_y_bits(v: u16)
    by (bit_vector)
    requires
        v < 0x8000,
        v & 0x7000 == 0x7000,
    ensures
        ((v & 0x8FFF) & 0x3E0) >> 5 == (v >> 5) & 0x1F,
        ((((v & 0x8FFF) ^ 0x800) & 0xFC1F) | (0u16 << 5)) & 0x7000 == 0,
        ((((v & 0x8FFF) ^ 0x800) & 0xFC1F) | (0u16 << 5)) & 0x03E0 == 0,
        ((((v & 0x8FFF) ^ 0x800) & 0xFC1F) | (0u16 << 5)) & 0x0800 == (v & 0x0800) ^ 0x0800,
        ((((v & 0x8FFF) ^ 0x800) & 0xFC1F) | (0u16 << 5)) & 0x041F == v & 0x041F,
        (((v & 0x8FFF) & 0xFC1F) | (0u16 << 5)) & 0x7000 == 0,
        (((v & 0x8FFF) & 0xFC1F) | (0u16 << 5)) & 0x03E0 == 0,
        (((v & 0x8FFF) & 0xFC1F) | (0u16 << 5)) & 0x0C1F == v & 0x0C1F,
{
}

/// The vertical increment below the last row of a tile moves fine Y alone.
pub proof fn lemma_increment_fine_y_bits(v: u16)
    by (bit_vector)
    requires
        v < 0x8000,
        v & 0x7000 != 0x7000,
    ensures
        (v + 0x1000) as u16 & 0x0FFF == v & 0x0FFF,
        ((v + 0x1000) as u16 >> 12) & 7 == ((v >> 12) & 7) + 1,
{
}

} // verus!

verus! {

/// The widths of the pieces that the renderer cuts out of bytes and
/// addresses.
pub proof fn lemma_fetch_bounds(v: u16, byte: u8, word: u32)
    by (bit_vector)
    ensures
        ((v >> 4) & 4) | (v & 2) < 8,
        (v >> 12) & 7 <= 7,
        byte & 0xFE <= 254,
        word & 0x0F <= 15,
        byte <= 15 ==> byte | 0x10 < 32,
{
}

} // verus!
