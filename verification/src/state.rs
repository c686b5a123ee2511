//! The register file as the machine holds it.

use vstd::prelude::*;
use crate::bits::{
    lemma_copies_bounded, lemma_increment_x_bounded, lemma_increment_y_bounded,
    lemma_t_updates_bounded,
};
use crate::mapper::Mapper;
use crate::registers::{Control, Mask, RegisterFile};

verus! {

/// The 2 KiB of nametable memory.
pub struct NameTables {
    cells: [u8; 2048],
}

impl View for NameTables {
    type V = Seq<u8>;

    closed spec fn view(&self) -> Seq<u8> {
        self.cells@
    }
}

impl NameTables {
    pub fn new() -> (n: NameTables)
        ensures
            n@ == Seq::new(2048, |i: int| 0u8),
    {
        NameTables { cells: [0u8; 2048] }
    }

    pub fn read(&self, addr: u16) -> (value: u8)
        ensures
            self@.len() == 2048,
            value == self@[addr as int % 2048],
    {
        self.cells[(addr % 2048) as usize]
    }

    pub fn write(&mut self, addr: u16, val: u8)
        ensures
            final(self)@ == old(self)@.update(addr as int % 2048, val),
            final(self)@.len() == 2048,
    {
        self.cells[(addr % 2048) as usize] = val;
    }
}

/// Sprite attribute memory: 64 entries of four bytes, (Y, tile, attributes, X).
pub struct OAM(pub [u8; 256]);

impl OAM {
    pub fn new() -> (o: OAM)
        ensures
            o.0@ == Seq::new(256, |i: int| 0u8),
    {
        OAM([0u8; 256])
    }
}

/// The openly modifiable state of the picture unit.
pub struct PPUState {
    palettes: [u8; 32],
    nametables: NameTables,
    oam: OAM,
    v: u16,
    t: u16,
    w: u8,
    x: u8,
    register: u8,
    nmi_occurred: bool,
    nmi_output: bool,
    nmi_previous: bool,
    nmi_delay: u8,
    control: Control,
    mask: Mask,
    sprite_zero_hit: bool,
    sprite_overflow: bool,
    oam_address: u8,
    buffer_data: u8,
}

impl View for PPUState {
    type V = RegisterFile;

    closed spec fn view(&self) -> RegisterFile {
        RegisterFile {
            palettes: self.palettes@,
            nametables: self.nametables@,
            oam: self.oam.0@,
            v: self.v,
            t: self.t,
            w: self.w,
            x: self.x,
            register: self.register,
            nmi_occurred: self.nmi_occurred,
            nmi_output: self.nmi_output,
            nmi_previous: self.nmi_previous,
            nmi_delay: self.nmi_delay,
            control: self.control,
            mask: self.mask,
            sprite_zero_hit: self.sprite_zero_hit,
            sprite_overflow: self.sprite_overflow,
            oam_address: self.oam_address,
            buffer_data: self.buffer_data,
        }
    }
}

impl PPUState {
    /// The widths of the data model hold.
    pub open spec fn wf(&self) -> bool {
        self@.wf()
    }

    /// The register file at power-on.
    pub fn new() -> (s: PPUState)
        ensures
            s@ == RegisterFile::initial(),
            s.wf(),
    {
        PPUState {
            palettes: [0u8; 32],
            nametables: NameTables::new(),
            oam: OAM::new(),
            v: 0,
            t: 0,
            w: 0,
            x: 0,
            register: 0,
            nmi_occurred: false,
            nmi_output: false,
            nmi_previous: false,
            nmi_delay: 0,
            control: Control::from_byte(0),
            mask: Mask::from_byte(0),
            sprite_zero_hit: false,
            sprite_overflow: false,
            oam_address: 0,
            buffer_data: 0,
        }
    }

    pub fn nmi_change(&mut self)
        requires
            old(self).wf(),
        ensures
            final(self)@ == old(self)@.nmi_change(),
            final(self).wf(),
    {
        let nmi = self.nmi_output && self.nmi_occurred;
        if nmi && !self.nmi_previous {
            self.nmi_delay = 15;
        }
        self.nmi_previous = nmi;
    }

    pub fn read<M: Mapper>(&self, mapper: &M, address: u16) -> (value: u8)
        requires
            self.wf(),
        ensures
            value == self@.read(mapper, address),
    {
        let a: u16 = address % 0x4000;
        if a < 0x2000 {
            mapper.read(a)
        } else if a < 0x3F00 {
            let mode = mapper.mirroring_mode();
            let mirrored: u16 = mode.mirror_address(a);
            self.nametables.read(mirrored)
        } else {
            self.read_palette(a % 32)
        }
    }

    pub fn write<M: Mapper>(&mut self, mapper: &mut M, address: u16, value: u8)
        requires
            old(self).wf(),
        ensures
            final(self)@ == old(self)@.write(&*old(mapper), address, value),
            final(self).wf(),
            *final(mapper) == (if address % 0x4000 < 0x2000 {
                old(mapper).written((address % 0x4000) as u16, value)
            } else {
                *old(mapper)
            }),
    {
        let a: u16 = address % 0x4000;
        if a < 0x2000 {
            mapper.write(a, value);
        } else if a < 0x3F00 {
            let mode = mapper.mirroring_mode();
            let mirrored: u16 = mode.mirror_address(a);
            self.nametables.write(mirrored, value);
        } else {
            self.write_palette(a % 32, value);
        }
    }

    pub fn read_palette(&self, address: u16) -> (value: u8)
        requires
            address < 32,
        ensures
            value == self@.read_palette(address),
    {
        let wrapped: u16 = if address >= 16 && address % 4 == 0 {
            address - 16
        } else {
            address
        };
        self.palettes[wrapped as usize]
    }

    pub fn write_palette(&mut self, address: u16, value: u8)
        requires
            address < 32,
            old(self).wf(),
        ensures
            final(self)@ == old(self)@.write_palette(address, value),
            final(self).wf(),
    {
        let wrapped: u16 = if address >= 16 && address % 4 == 0 {
            address - 16
        } else {
            address
        };
        self.palettes[wrapped as usize] = value;
    }

    /// Reads one of the registers visible to the processor; the pattern
    /// tables are reached through the mapper.
    pub fn read_register<M: Mapper>(&mut self, m: &M, address: u16) -> (value: u8)
        requires
            old(self).wf(),
        ensures
            value == old(self)@.register_value(m, address),
            final(self)@ == old(self)@.read_register(m, address),
            final(self).wf(),
    {
        if address == 0x2002 {
            self.read_status()
        } else if address == 0x2004 {
            self.read_oam_data()
        } else if address == 0x2007 {
            self.read_data(m)
        } else {
            0
        }
    }

    pub fn read_status(&mut self) -> (value: u8)
        requires
            old(self).wf(),
        ensures
            value == old(self)@.status(),
            final(self)@ == old(self)@.read_status(),
            final(self).wf(),
    {
        let mut res: u8 = self.register & 0x1F;
        res = res | (if self.sprite_overflow { 0x20u8 } else { 0u8 });
        res = res | (if self.sprite_zero_hit { 0x40u8 } else { 0u8 });
        res = res | (if self.nmi_occurred { 0x80u8 } else { 0u8 });
        self.nmi_occurred = false;
        self.nmi_change();
        self.w = 0;
        res
    }

    pub fn read_oam_data(&self) -> (value: u8)
        requires
            self.wf(),
        ensures
            value == self@.oam[self@.oam_address as int],
    {
        self.oam.0[self.oam_address as usize]
    }

    pub fn read_data<M: Mapper>(&mut self, mapper: &M) -> (value: u8)
        requires
            old(self).wf(),
        ensures
            value == old(self)@.data(mapper),
            final(self)@ == old(self)@.read_data(mapper),
            final(self).wf(),
    {
        let a: u16 = self.v % 0x4000;
        let fetched: u8 = self.read(mapper, a);
        let value: u8 = if a < 0x3F00 {
            let buffered: u8 = self.buffer_data;
            self.buffer_data = fetched;
            buffered
        } else {
            self.buffer_data = self.read(mapper, a - 0x1000);
            fetched
        };
        let step: u16 = if self.control.increment { 32 } else { 1 };
        self.v = (a + step) % 0x4000;
        value
    }

    /// Writes one of the registers visible to the processor.
    pub fn write_register<M: Mapper>(&mut self, mapper: &mut M, address: u16, value: u8)
        requires
            old(self).wf(),
        ensures
            final(self)@ == old(self)@.write_register(&*old(mapper), address, value),
            *final(mapper) == old(self)@.mapper_after_write(*old(mapper), address, value),
            final(self).wf(),
    {
        self.register = value;
        if address == 0x2000 {
            self.write_control(value);
        } else if address == 0x2001 {
            self.write_mask(value);
        } else if address == 0x2003 {
            self.write_oam_address(value);
        } else if address == 0x2004 {
            self.write_oam_data(value);
        } else if address == 0x2005 {
            self.write_scroll(value);
        } else if address == 0x2006 {
            self.write_address(value);
        } else if address == 0x2007 {
            self.write_data(mapper, value);
        }
    }

    pub fn write_control(&mut self, value: u8)
        requires
            old(self).wf(),
        ensures
            final(self)@ == old(self)@.write_control(value),
            final(self).wf(),
    {
        self.control = Control::from_byte(value);
        self.nmi_output = (value >> 7) & 1 == 1;
        self.nmi_change();
        let t: u16 = self.t;
        proof {
            lemma_t_updates_bounded(t, value);
        }
        self.t = (t & 0xF3FF) | ((value as u16 & 0x03) << 10);
    }

    pub fn write_mask(&mut self, value: u8)
        requires
            old(self).wf(),
        ensures
            final(self)@ == old(self)@.write_mask(value),
            final(self).wf(),
    {
        self.mask = Mask::from_byte(value);
    }

    pub fn write_oam_address(&mut self, value: u8)
        requires
            old(self).wf(),
        ensures
            final(self)@ == old(self)@.write_oam_address(value),
            final(self).wf(),
    {
        self.oam_address = value;
    }

    pub fn write_oam_data(&mut self, value: u8)
        requires
            old(self).wf(),
        ensures
            final(self)@ == old(self)@.write_oam_data(value),
            final(self).wf(),
    {
        let a: usize = self.oam_address as usize;
        self.oam.0[a] = value;
        self.oam_address = if self.oam_address == 255 { 0 } else { self.oam_address + 1 };
    }

    pub fn write_scroll(&mut self, value: u8)
        requires
            old(self).wf(),
        ensures
            final(self)@ == old(self)@.write_scroll(value),
            final(self).wf(),
    {
        let t: u16 = self.t;
        if self.w == 0 {
            let first: u16 = (t & 0x7FE0) | (value as u16 >> 3);
            let fine: u8 = value & 0x7;
            assert(first < 0x8000 && fine <= 7) by {
                lemma_t_updates_bounded(t, value);
            }
            self.t = first;
            self.x = fine;
            self.w = 1;
        } else {
            let second: u16 = (t & 0xC1F) | ((value as u16 & 0xF8) << 2) | ((value as u16 & 0x7)
                << 12);
            assert(second < 0x8000) by {
                lemma_t_updates_bounded(t, value);
            }
            self.t = second;
            self.w = 0;
        }
    }

    pub fn write_address(&mut self, value: u8)
        requires
            old(self).wf(),
        ensures
            final(self)@ == old(self)@.write_address(value),
            final(self).wf(),
    {
        let t: u16 = self.t;
        if self.w == 0 {
            let first: u16 = (t & 0x80FF) | ((value as u16 & 0x3F) << 8);
            assert(first < 0x8000) by {
                lemma_t_updates_bounded(t, value);
            }
            self.t = first;
            self.w = 1;
        } else {
            let second: u16 = (t & 0xFF00) | value as u16;
            assert(second < 0x8000) by {
                lemma_t_updates_bounded(t, value);
            }
            self.t = second;
            self.v = second;
            self.w = 0;
        }
    }

    pub fn write_data<M: Mapper>(&mut self, mapper: &mut M, value: u8)
        requires
            old(self).wf(),
        ensures
            final(self)@ == old(self)@.write_data(&*old(mapper), value),
            *final(mapper) == old(self)@.mapper_after_write(*old(mapper), 0x2007, value),
            final(self).wf(),
    {
        let a: u16 = self.v % 0x4000;
        self.write(mapper, a, value);
        let step: u16 = if self.control.increment { 32 } else { 1 };
        self.v = (a + step) % 0x4000;
    }

    pub fn copy_y(&mut self)
        requires
            old(self).wf(),
        ensures
            final(self)@ == old(self)@.copy_y(),
            final(self).wf(),
    {
        let v: u16 = self.v;
        let t: u16 = self.t;
        proof {
            lemma_copies_bounded(v, t);
        }
        self.v = (v & !0x7BE0u16) | (t & 0x7BE0);
    }

    pub fn increment_x(&mut self)
        requires
            old(self).wf(),
        ensures
            final(self)@ == old(self)@.increment_x(),
            final(self).wf(),
    {
        let v: u16 = self.v;
        proof {
            lemma_increment_x_bounded(v);
        }
        if v & 0x001F == 31 {
            self.v = (v & 0xFFE0) ^ 0x0400;
        } else {
            self.v = v + 1;
        }
    }

    pub fn increment_y(&mut self)
        requires
            old(self).wf(),
        ensures
            final(self)@ == old(self)@.increment_y(),
            final(self).wf(),
    {
        let v: u16 = self.v;
        if v & 0x7000 != 0x7000 {
            proof {
                lemma_increment_y_bounded(v, 0);
            }
            self.v = v + 0x1000;
        } else {
            let cleared: u16 = v & 0x8FFF;
            let row: u16 = (cleared & 0x3E0) >> 5;
            proof {
                lemma_increment_y_bounded(v, 0);
            }
            let next: u16 = if row == 29 || row == 31 { 0 } else { row + 1 };
            let turned: u16 = if row == 29 { cleared ^ 0x800 } else { cleared };
            proof {
                lemma_increment_y_bounded(v, next);
            }
            self.v = (turned & 0xFC1F) | (next << 5);
        }
    }

    pub fn copy_x(&mut self)
        requires
            old(self).wf(),
        ensures
            final(self)@ == old(self)@.copy_x(),
            final(self).wf(),
    {
        let v: u16 = self.v;
        let t: u16 = self.t;
        proof {
            lemma_copies_bounded(v, t);
        }
        self.v = (v & !0x041Fu16) | (t & 0x041F);
    }
}

impl PPUState {
    /// Counts the interrupt delay down by one dot and says whether the
    /// interrupt is to be raised now.
    pub fn count_down(&mut self) -> (fire: bool)
        requires
            old(self).wf(),
        ensures
            fire == old(self)@.fires(),
            final(self)@ == old(self)@.count_down(),
            final(self).wf(),
    {
        if self.nmi_delay > 0 {
            self.nmi_delay = self.nmi_delay - 1;
            self.nmi_delay == 0 && self.nmi_output && self.nmi_occurred
        } else {
            false
        }
    }

    pub fn begin_vblank(&mut self)
        requires
            old(self).wf(),
        ensures
            final(self)@ == old(self)@.begin_vblank(),
            final(self).wf(),
    {
        self.nmi_occurred = true;
        self.nmi_change();
    }

    pub fn end_vblank(&mut self)
        requires
            old(self).wf(),
        ensures
            final(self)@ == old(self)@.end_vblank(),
            final(self).wf(),
    {
        self.nmi_occurred = false;
        self.nmi_change();
        self.sprite_zero_hit = false;
        self.sprite_overflow = false;
    }

    pub fn set_sprite_zero_hit(&mut self)
        requires
            old(self).wf(),
        ensures
            final(self)@ == (RegisterFile { sprite_zero_hit: true, ..old(self)@ }),
            final(self).wf(),
    {
        self.sprite_zero_hit = true;
    }

    pub fn set_sprite_overflow(&mut self)
        requires
            old(self).wf(),
        ensures
            final(self)@ == (RegisterFile { sprite_overflow: true, ..old(self)@ }),
            final(self).wf(),
    {
        self.sprite_overflow = true;
    }

    /// Byte `i` of sprite attribute memory.
    pub fn oam_byte(&self, i: usize) -> (value: u8)
        requires
            i < 256,
        ensures
            value == self@.oam[i as int],
    {
        self.oam.0[i]
    }

    /// Byte `offset` of nametable memory.
    pub fn nametable_byte(&self, offset: u16) -> (value: u8)
        requires
            offset < 2048,
        ensures
            value == self@.nametables[offset as int],
    {
        self.nametables.read(offset)
    }

    pub fn v(&self) -> (v: u16)
        ensures
            v == self@.v,
    {
        self.v
    }

    pub fn t(&self) -> (t: u16)
        ensures
            t == self@.t,
    {
        self.t
    }

    pub fn w(&self) -> (w: u8)
        ensures
            w == self@.w,
    {
        self.w
    }

    pub fn fine_x(&self) -> (x: u8)
        ensures
            x == self@.x,
    {
        self.x
    }

    pub fn control(&self) -> (control: Control)
        ensures
            control == self@.control,
    {
        self.control
    }

    pub fn mask(&self) -> (mask: Mask)
        ensures
            mask == self@.mask,
    {
        self.mask
    }

    pub fn nmi_delay(&self) -> (delay: u8)
        ensures
            delay == self@.nmi_delay,
    {
        self.nmi_delay
    }

    pub fn nmi_occurred(&self) -> (occurred: bool)
        ensures
            occurred == self@.nmi_occurred,
    {
        self.nmi_occurred
    }

    pub fn nmi_output(&self) -> (output: bool)
        ensures
            output == self@.nmi_output,
    {
        self.nmi_output
    }

    pub fn sprite_zero_hit(&self) -> (hit: bool)
        ensures
            hit == self@.sprite_zero_hit,
    {
        self.sprite_zero_hit
    }

    pub fn sprite_overflow(&self) -> (overflow: bool)
        ensures
            overflow == self@.sprite_overflow,
    {
        self.sprite_overflow
    }

    pub fn oam_address(&self) -> (address: u8)
        ensures
            address == self@.oam_address,
    {
        self.oam_address
    }

    pub fn buffer_data(&self) -> (data: u8)
        ensures
            data == self@.buffer_data,
    {
        self.buffer_data
    }
}

} // verus!
