//! What the picture unit needs from a cartridge: pattern-table storage and a
//! nametable mirroring mode.

use vstd::prelude::*;

verus! {

/// How the four logical nametables are laid onto the two physical ones.
#[derive(Clone, Copy, Debug, PartialEq, Eq, Structural)]
pub enum Mirroring {
    Horizontal,
    Vertical,
    SingleLower,
    SingleUpper,
}

impl Mirroring {
    /// The physical nametable (0 or 1) that backs logical nametable `table`.
    pub open spec fn bank(self, table: int) -> int {
        match self {
            Mirroring::Horizontal => if table < 2 { 0 } else { 1 },
            Mirroring::Vertical => table % 2,
            Mirroring::SingleLower => 0,
            Mirroring::SingleUpper => 1,
        }
    }

    /// The offset into the 2 KiB of nametable memory that `addr` folds to.
    pub open spec fn fold(self, addr: u16) -> int {
        let rel = addr as int % 0x1000;
        self.bank(rel / 0x400) * 0x400 + rel % 0x400
    }

    /// Folds an address of the nametable range into an offset below 2048.
    pub fn mirror_address(&self, addr: u16) -> (offset: u16)
        ensures
            offset == self.fold(addr),
            offset < 2048,
    {
        let rel: u16 = addr % 0x1000;
        let table: u16 = rel / 0x400;
        let bank: u16 = match self {
            Mirroring::Horizontal => if table < 2 { 0 } else { 1 },
            Mirroring::Vertical => table % 2,
            Mirroring::SingleLower => 0,
            Mirroring::SingleUpper => 1,
        };
        bank * 0x400 + rel % 0x400
    }
}

/// Every fold lands inside the 2 KiB of nametable memory.
pub proof fn lemma_fold_in_range(mode: Mirroring, addr: u16)
    ensures
        0 <= mode.fold(addr) < 2048,
{
}

/// The capability a cartridge offers to the picture unit.
pub trait Mapper: Sized {
    /// The pattern-table byte at `addr`, for `addr < 0x2000`.
    spec fn chr(&self, addr: u16) -> u8;

    /// The mirroring mode in force.
    spec fn mirroring(&self) -> Mirroring;

    /// The mapper as it is after `value` was written to `addr`.
    spec fn written(&self, addr: u16, value: u8) -> Self;

    fn read(&self, addr: u16) -> (value: u8)
        requires
            addr < 0x2000,
        ensures
            value == self.chr(addr),
    ;

    fn write(&mut self, addr: u16, value: u8)
        requires
            addr < 0x2000,
        ensures
            *final(self) == old(self).written(addr, value),
    ;

    fn mirroring_mode(&self) -> (mode: Mirroring)
        ensures
            mode == self.mirroring(),
    ;
}

/// A cartridge with 8 KiB of writable pattern memory and a fixed mirroring mode.
pub struct PatternRam {
    cells: [u8; 8192],
    mode: Mirroring,
}

impl PatternRam {
    /// The pattern memory, byte by byte.
    pub closed spec fn cells(&self) -> Seq<u8> {
        self.cells@
    }

    /// Zeroed pattern memory under the given mirroring mode.
    pub fn new(mode: Mirroring) -> (ram: PatternRam)
        ensures
            ram.mirroring() == mode,
            forall|a: u16| a < 0x2000 ==> ram.chr(a) == 0,
    {
        PatternRam { cells: [0u8; 8192], mode }
    }
}

impl Mapper for PatternRam {
    closed spec fn chr(&self, addr: u16) -> u8 {
        self.cells@[addr as int]
    }

    closed spec fn mirroring(&self) -> Mirroring {
        self.mode
    }

    closed spec fn written(&self, addr: u16, value: u8) -> PatternRam {
        PatternRam {
            cells: vstd::array::spec_array_update(self.cells, addr as int, value),
            mode: self.mode,
        }
    }

    fn read(&self, addr: u16) -> (value: u8) {
        self.cells[addr as usize]
    }

    fn write(&mut self, addr: u16, value: u8) {
        self.cells[addr as usize] = value;
    }

    fn mirroring_mode(&self) -> (mode: Mirroring) {
        self.mode
    }
}

/// A write to pattern RAM changes the byte written and no other, and leaves
/// the mirroring mode alone.
pub proof fn lemma_pattern_ram_written(ram: PatternRam, addr: u16, value: u8, at: u16)
    requires
        addr < 0x2000,
        at < 0x2000,
    ensures
        ram.written(addr, value).chr(at) == (if at == addr { value } else { ram.chr(at) }),
        ram.written(addr, value).mirroring() == ram.mirroring(),
{
}

} // verus!
