//! The fixed table of the 64 colours the picture unit can show.

use vstd::prelude::*;

verus! {

/// The colours as opaque ARGB, indexed by the six-bit colour number.
pub const PALETTE: [u32; 64] = [
    0xFF75_7575, 0xFF27_1B8F, 0xFF00_00AB, 0xFF47_009F,
    0xFF8F_0077, 0xFFAB_0013, 0xFFA7_0000, 0xFF7F_0B00,
    0xFF43_2F00, 0xFF00_4700, 0xFF00_5100, 0xFF00_3F17,
    0xFF1B_3F5F, 0xFF00_0000, 0xFF00_0000, 0xFF00_0000,
    0xFFBC_BCBC, 0xFF00_73EF, 0xFF23_3BEF, 0xFF83_00F3,
    0xFFBF_00BF, 0xFFE7_005B, 0xFFDB_2B00, 0xFFCB_4F0F,
    0xFF8B_7300, 0xFF00_9700, 0xFF00_AB00, 0xFF00_933B,
    0xFF00_838B, 0xFF00_0000, 0xFF00_0000, 0xFF00_0000,
    0xFFFF_FFFF, 0xFF3F_BFFF, 0xFF5F_97FF, 0xFFA7_8BFD,
    0xFFF7_7BFF, 0xFFFF_77B7, 0xFFFF_7763, 0xFFFF_9B3B,
    0xFFF3_BF3F, 0xFF83_D313, 0xFF4F_DF4B, 0xFF58_F898,
    0xFF00_EBDB, 0xFF00_0000, 0xFF00_0000, 0xFF00_0000,
    0xFFFF_FFFF, 0xFFAB_E7FF, 0xFFC7_D7FF, 0xFFD7_CBFF,
    0xFFFF_C7FF, 0xFFFF_C7DB, 0xFFFF_BFB3, 0xFFFF_DBAB,
    0xFFFF_E7A3, 0xFFE3_FFA3, 0xFFAB_F3BF, 0xFFB3_FFCF,
    0xFF9F_FFF3, 0xFF00_0000, 0xFF00_0000, 0xFF00_0000,
];

/// The colour shown for a byte of palette memory: its low six bits choose
/// the colour, and in grayscale only the two brightness bits count.
pub open spec fn shown_index(entry: u8, grayscale: bool) -> u8 {
    if grayscale {
        (entry % 64) as u8 & 0x30
    } else {
        (entry % 64) as u8
    }
}

/// Looks up the colour shown for a byte of palette memory.
pub fn shown_color(entry: u8, grayscale: bool) -> (argb: u32)
    ensures
        shown_index(entry, grayscale) < 64,
        argb == PALETTE[shown_index(entry, grayscale) as int],
{
    let mut index: u8 = entry % 64;
    if grayscale {
        assert(index & 0x30 < 64) by (bit_vector);
        index = index & 0x30;
    }
    PALETTE[index as usize]
}

/// Every colour of the table is opaque: its alpha byte is 0xFF.
pub proof fn lemma_palette_opaque(index: int)
    requires
        0 <= index < 64,
    ensures
        PALETTE[index] >= 0xFF00_0000,
{
}

} // verus!
