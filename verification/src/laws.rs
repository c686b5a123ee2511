//! What holds of the register file however it is driven.

use vstd::prelude::*;
use crate::bits::{
    lemma_address_pair_bits, lemma_control_zero_bits, lemma_increment_fine_y_bits,
    lemma_increment_x_bits, lemma_increment_y_bits, lemma_status_bits,
};
use crate::mapper::Mapper;
use crate::registers::{
    address_step, coarse_x, coarse_y, fine_y, palette_slot, Control, RegisterFile,
};

verus! {

impl RegisterFile {
    /// The register file after a reset: control, mask and sprite address
    /// written with zero.
    pub open spec fn reset(self) -> RegisterFile {
        self.write_control(0).write_mask(0).write_oam_address(0)
    }

    /// The register file after `n` data reads in a row.
    pub open spec fn read_data_times<M: Mapper>(self, mapper: &M, n: nat) -> RegisterFile
        decreases n,
    {
        if n == 0 {
            self
        } else {
            self.read_data(mapper).read_data_times(mapper, (n - 1) as nat)
        }
    }
}

/// A status read leaves the write toggle at zero and reports in bit 7 whether
/// a vertical blank had occurred, in bits 6 and 5 the sprite flags, and below
/// them the low bits of the last register write.
pub proof fn lemma_status_read<M: Mapper>(s: RegisterFile, mapper: &M)
    ensures
        s.read_register(mapper, 0x2002).w == 0,
        !s.read_register(mapper, 0x2002).nmi_occurred,
        (s.register_value(mapper, 0x2002) & 0x80 == 0x80) == s.nmi_occurred,
        (s.register_value(mapper, 0x2002) & 0x40 == 0x40) == s.sprite_zero_hit,
        (s.register_value(mapper, 0x2002) & 0x20 == 0x20) == s.sprite_overflow,
        s.register_value(mapper, 0x2002) & 0x1F == s.register & 0x1F,
{
    let overflow: u8 = if s.sprite_overflow { 0x20 } else { 0 };
    let hit: u8 = if s.sprite_zero_hit { 0x40 } else { 0 };
    let vblank: u8 = if s.nmi_occurred { 0x80 } else { 0 };
    lemma_status_bits(s.register, overflow, hit, vblank);
}

/// Two address writes, starting from a clear toggle, load the current address
/// with the low six bits of the first byte above the second byte.
pub proof fn lemma_address_pair<M: Mapper>(s: RegisterFile, mapper: &M, hi: u8, lo: u8)
    requires
        s.wf(),
        s.w == 0,
    ensures
        s.write_register(mapper, 0x2006, hi).write_register(mapper, 0x2006, lo).v == ((hi as u16
            & 0x3F) << 8) | (lo as u16),
        s.write_register(mapper, 0x2006, hi).write_register(mapper, 0x2006, lo).v < 0x4000,
        s.write_register(mapper, 0x2006, hi).write_register(mapper, 0x2006, lo).w == 0,
{
    lemma_address_pair_bits(s.t, hi, lo);
}

/// After two scroll writes and a status read the toggle is clear, whatever it
/// was before, and the next scroll write is taken as the first of a pair.
pub proof fn lemma_scroll_pair_then_status<M: Mapper>(
    s: RegisterFile,
    mapper: &M,
    a: u8,
    b: u8,
    c: u8,
)
    ensures
        ({
            let after = s.write_register(mapper, 0x2005, a).write_register(
                mapper,
                0x2005,
                b,
            ).read_register(mapper, 0x2002);
            let next = after.write_register(mapper, 0x2005, c);
            &&& after.w == 0
            &&& next.w == 1
            &&& next.x == c & 0x7
            &&& next.t == (after.t & 0x7FE0) | (c as u16 >> 3)
            &&& next.v == after.v
        }),
{
}

/// The first entry of each sprite palette is the first entry of the matching
/// background palette: both names read the same cell, and a write through
/// either is read back through both.
pub proof fn lemma_palette_aliases(s: RegisterFile, k: u16, value: u8)
    requires
        s.wf(),
        k == 0 || k == 4 || k == 8 || k == 12,
    ensures
        s.read_palette((k + 16) as u16) == s.read_palette(k),
        s.write_palette((k + 16) as u16, value) == s.write_palette(k, value),
        s.write_palette(k, value).read_palette((k + 16) as u16) == value,
        s.write_palette((k + 16) as u16, value).read_palette(k) == value,
{
}

/// A palette write changes the cell it names and no other.
pub proof fn lemma_palette_write(s: RegisterFile, address: u16, value: u8, other: u16)
    requires
        s.wf(),
        address < 32,
        other < 32,
    ensures
        s.write_palette(address, value).wf(),
        s.write_palette(address, value).read_palette(other) == (if palette_slot(other)
            == palette_slot(address) {
            value
        } else {
            s.read_palette(other)
        }),
{
}

/// A second reset changes nothing.
pub proof fn lemma_reset_idempotent(s: RegisterFile)
    ensures
        s.reset().reset() == s.reset(),
        s.reset().control == Control::decode(0),
        !s.reset().mask.rendering(),
        s.reset().oam_address == 0,
        !s.reset().nmi_output,
{
    lemma_control_zero_bits(s.t);
    assert(!Control::decode(0).increment) by (bit_vector);
    assert(!(((0u8 >> 3) & 1u8) == 1u8) && !(((0u8 >> 4) & 1u8) == 1u8)) by (bit_vector);
    assert(s.reset().reset() =~= s.reset());
}

/// Taking one step around the bus and then `n - 1` more is taking `n`.
proof fn lemma_fold_steps(v: int, n: int, step: int)
    requires
        n >= 1,
        step == 1 || step == 32,
    ensures
        ((v + step) % 0x4000 + (n - 1) * step) % 0x4000 == (v + n * step) % 0x4000,
{
    let rest = (n - 1) * step;
    assert(rest + (v + step) == v + n * step) by (nonlinear_arith)
        requires
            rest == (n - 1) * step,
    ;
    vstd::arithmetic::div_mod::lemma_add_mod_noop_right(rest, v + step, 0x4000);
}

/// Data reads advance the current address by the control register's step,
/// around the 14-bit bus, and leave the step alone.
pub proof fn lemma_read_data_times<M: Mapper>(s: RegisterFile, mapper: &M, n: nat)
    requires
        s.v < 0x4000,
    ensures
        s.read_data_times(mapper, n).v == (s.v + n * address_step(s.control.increment)) % 0x4000,
        s.read_data_times(mapper, n).control == s.control,
    decreases n,
{
    if n > 0 {
        let next = s.read_data(mapper);
        let step = address_step(s.control.increment);
        assert(next.v == (s.v + step) % 0x4000);
        assert(next.control == s.control);
        lemma_read_data_times(next, mapper, (n - 1) as nat);
        lemma_fold_steps(s.v as int, n as int, step);
    }
}

/// An address loaded by two address writes comes back after 0x4000 data
/// reads, whichever the step.
pub proof fn lemma_data_reads_cycle<M: Mapper>(s: RegisterFile, mapper: &M, hi: u8, lo: u8)
    requires
        s.wf(),
        s.w == 0,
    ensures
        ({
            let loaded = s.write_register(mapper, 0x2006, hi).write_register(mapper, 0x2006, lo);
            loaded.read_data_times(mapper, 0x4000).v == loaded.v
        }),
{
    let loaded = s.write_register(mapper, 0x2006, hi).write_register(mapper, 0x2006, lo);
    lemma_address_pair(s, mapper, hi, lo);
    lemma_read_data_times(loaded, mapper, 0x4000);
    vstd::arithmetic::div_mod::lemma_mod_multiples_vanish(
        address_step(loaded.control.increment),
        loaded.v as int,
        0x4000,
    );
}

/// The horizontal increment at the last column returns to column 0 and
/// switches the horizontal nametable; elsewhere it moves one column on.
/// Nothing else changes.
pub proof fn lemma_increment_x(s: RegisterFile)
    requires
        s.wf(),
    ensures
        coarse_x(s.v) == 31 ==> {
            &&& coarse_x(s.increment_x().v) == 0
            &&& s.increment_x().v & 0x0400 == (s.v & 0x0400) ^ 0x0400
            &&& s.increment_x().v & 0xFBE0 == s.v & 0xFBE0
        },
        coarse_x(s.v) != 31 ==> {
            &&& coarse_x(s.increment_x().v) == coarse_x(s.v) + 1
            &&& s.increment_x().v & 0xFFE0 == s.v & 0xFFE0
        },
{
    lemma_increment_x_bits(s.v);
}

/// The vertical increment at the last pixel row of tile row 29 returns to
/// tile row 0 and switches the vertical nametable; at tile row 31 it returns
/// to tile row 0 without switching. Fine Y returns to 0 and the horizontal
/// bits stay. Below the last pixel row only fine Y moves.
pub proof fn lemma_increment_y(s: RegisterFile)
    requires
        s.wf(),
    ensures
        fine_y(s.v) == 7 && coarse_y(s.v) == 29 ==> {
            &&& s.increment_y().v & 0x03E0 == 0
            &&& s.increment_y().v & 0x7000 == 0
            &&& s.increment_y().v & 0x0800 == (s.v & 0x0800) ^ 0x0800
            &&& s.increment_y().v & 0x041F == s.v & 0x041F
        },
        fine_y(s.v) == 7 && coarse_y(s.v) == 31 ==> {
            &&& s.increment_y().v & 0x03E0 == 0
            &&& s.increment_y().v & 0x7000 == 0
            &&& s.increment_y().v & 0x0C1F == s.v & 0x0C1F
        },
        fine_y(s.v) != 7 ==> {
            &&& fine_y(s.increment_y().v) == fine_y(s.v) + 1
            &&& s.increment_y().v & 0x0FFF == s.v & 0x0FFF
        },
{
    let v = s.v;
    assert(((v >> 12) & 7 == 7) == (v & 0x7000 == 0x7000)) by (bit_vector)
        requires
            v < 0x8000,
    ;
    if v & 0x7000 == 0x7000 {
        lemma_increment_y_bits(v);
    } else {
        lemma_increment_fine_y_bits(v);
    }
}

} // verus!
