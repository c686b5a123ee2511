//! The register file of the picture unit: everything the processor can see
//! through the eight memory-mapped registers, and the memory behind them.

use vstd::prelude::*;
use crate::mapper::Mapper;

verus! {

/// The flags that a write to the control register sets.
#[derive(Clone, Copy, Debug, PartialEq, Eq, Structural)]
pub struct Control {
    /// Base nametable select, two bits.
    pub nametable: u8,
    /// Address increment per data access: 1 when clear, 32 when set.
    pub increment: bool,
    /// Pattern table of 8x8 sprites.
    pub sprite_table: bool,
    /// Pattern table of the background.
    pub background_table: bool,
    /// Sprites are 8x16 when set.
    pub sprite_size: bool,
    pub master_slave: bool,
}

impl Control {
    pub open spec fn decode(value: u8) -> Control {
        Control {
            nametable: value & 3,
            increment: (value >> 2) & 1 == 1,
            sprite_table: (value >> 3) & 1 == 1,
            background_table: (value >> 4) & 1 == 1,
            sprite_size: (value >> 5) & 1 == 1,
            master_slave: (value >> 6) & 1 == 1,
        }
    }

    /// Splits a control byte into its flags.
    pub fn from_byte(value: u8) -> (c: Control)
        ensures
            c == Control::decode(value),
            c.nametable <= 3,
    {
        assert(value & 3 <= 3) by (bit_vector);
        Control {
            nametable: value & 3,
            increment: (value >> 2) & 1 == 1,
            sprite_table: (value >> 3) & 1 == 1,
            background_table: (value >> 4) & 1 == 1,
            sprite_size: (value >> 5) & 1 == 1,
            master_slave: (value >> 6) & 1 == 1,
        }
    }
}

/// The flags that a write to the mask register sets.
#[derive(Clone, Copy, Debug, PartialEq, Eq, Structural)]
pub struct Mask {
    pub grayscale: bool,
    pub show_left_background: bool,
    pub show_left_sprites: bool,
    pub show_background: bool,
    pub show_sprites: bool,
    pub red_tint: bool,
    pub green_tint: bool,
    pub blue_tint: bool,
}

impl Mask {
    pub open spec fn decode(value: u8) -> Mask {
        Mask {
            grayscale: value & 1 == 1,
            show_left_background: (value >> 1) & 1 == 1,
            show_left_sprites: (value >> 2) & 1 == 1,
            show_background: (value >> 3) & 1 == 1,
            show_sprites: (value >> 4) & 1 == 1,
            red_tint: (value >> 5) & 1 == 1,
            green_tint: (value >> 6) & 1 == 1,
            blue_tint: (value >> 7) & 1 == 1,
        }
    }

    /// Splits a mask byte into its flags.
    pub fn from_byte(value: u8) -> (m: Mask)
        ensures
            m == Mask::decode(value),
    {
        Mask {
            grayscale: value & 1 == 1,
            show_left_background: (value >> 1) & 1 == 1,
            show_left_sprites: (value >> 2) & 1 == 1,
            show_background: (value >> 3) & 1 == 1,
            show_sprites: (value >> 4) & 1 == 1,
            red_tint: (value >> 5) & 1 == 1,
            green_tint: (value >> 6) & 1 == 1,
            blue_tint: (value >> 7) & 1 == 1,
        }
    }

    /// Whether either layer is drawn.
    pub open spec fn rendering(self) -> bool {
        self.show_background || self.show_sprites
    }
}

/// The register file as a mathematical value.
#[verifier::ext_equal]
pub struct RegisterFile {
    /// Palette memory, 32 bytes.
    pub palettes: Seq<u8>,
    /// Nametable memory, 2048 bytes.
    pub nametables: Seq<u8>,
    /// Sprite attribute memory, 256 bytes.
    pub oam: Seq<u8>,
    /// Current video memory address, 15 bits.
    pub v: u16,
    /// Temporary video memory address, 15 bits.
    pub t: u16,
    /// Write toggle: 0 before the first write of a pair, 1 before the second.
    pub w: u8,
    /// Fine horizontal scroll, 3 bits.
    pub x: u8,
    /// The last byte written to any register.
    pub register: u8,
    pub nmi_occurred: bool,
    pub nmi_output: bool,
    pub nmi_previous: bool,
    pub nmi_delay: u8,
    pub control: Control,
    pub mask: Mask,
    pub sprite_zero_hit: bool,
    pub sprite_overflow: bool,
    pub oam_address: u8,
    pub buffer_data: u8,
}

/// The palette cell that `address` names: the sprite palettes' first entries
/// are the background palettes' first entries.
pub open spec fn palette_slot(address: u16) -> int {
    if address >= 16 && address % 4 == 0 {
        address - 16
    } else {
        address as int
    }
}

/// The step by which a data access advances the address.
pub open spec fn address_step(increment: bool) -> int {
    if increment {
        32
    } else {
        1
    }
}

/// Coarse X of an address: the tile column, 0 to 31.
pub open spec fn coarse_x(v: u16) -> u16 {
    v & 0x001F
}

/// Coarse Y of an address: the tile row, 0 to 31.
pub open spec fn coarse_y(v: u16) -> u16 {
    (v >> 5) & 0x1F
}

/// Fine Y of an address: the pixel row within the tile, 0 to 7.
pub open spec fn fine_y(v: u16) -> u16 {
    (v >> 12) & 7
}

impl RegisterFile {
    pub open spec fn wf(self) -> bool {
        &&& self.palettes.len() == 32
        &&& self.nametables.len() == 2048
        &&& self.oam.len() == 256
        &&& self.v < 0x8000
        &&& self.t < 0x8000
        &&& self.w <= 1
        &&& self.x <= 7
        &&& self.nmi_delay <= 15
        &&& self.control.nametable <= 3
    }

    /// The register file at power-on: everything zero.
    pub open spec fn initial() -> RegisterFile {
        RegisterFile {
            palettes: Seq::new(32, |i: int| 0u8),
            nametables: Seq::new(2048, |i: int| 0u8),
            oam: Seq::new(256, |i: int| 0u8),
            v: 0,
            t: 0,
            w: 0,
            x: 0,
            register: 0,
            nmi_occurred: false,
            nmi_output: false,
            nmi_previous: false,
            nmi_delay: 0,
            control: Control::decode(0),
            mask: Mask::decode(0),
            sprite_zero_hit: false,
            sprite_overflow: false,
            oam_address: 0,
            buffer_data: 0,
        }
    }

    /// The interrupt line as the processor would see it.
    pub open spec fn nmi_line(self) -> bool {
        self.nmi_output && self.nmi_occurred
    }

    /// Latches the interrupt line; a rising edge primes the delay.
    pub open spec fn nmi_change(self) -> RegisterFile {
        RegisterFile {
            nmi_delay: if self.nmi_line() && !self.nmi_previous { 15 } else { self.nmi_delay },
            nmi_previous: self.nmi_line(),
            ..self
        }
    }

    pub open spec fn read_palette(self, address: u16) -> u8 {
        self.palettes[palette_slot(address)]
    }

    pub open spec fn write_palette(self, address: u16, value: u8) -> RegisterFile {
        RegisterFile { palettes: self.palettes.update(palette_slot(address), value), ..self }
    }

    /// The byte that the picture unit's bus holds at `address`.
    pub open spec fn read<M: Mapper>(self, mapper: &M, address: u16) -> u8 {
        let a = address % 0x4000;
        if a < 0x2000 {
            mapper.chr(a)
        } else if a < 0x3F00 {
            self.nametables[mapper.mirroring().fold(a)]
        } else {
            self.read_palette(a % 32)
        }
    }

    /// The register file after a bus write; pattern-table writes go to the
    /// mapper and leave it unchanged.
    pub open spec fn write<M: Mapper>(self, mapper: &M, address: u16, value: u8) -> RegisterFile {
        let a = address % 0x4000;
        if a < 0x2000 {
            self
        } else if a < 0x3F00 {
            RegisterFile {
                nametables: self.nametables.update(mapper.mirroring().fold(a), value),
                ..self
            }
        } else {
            self.write_palette(a % 32, value)
        }
    }

    /// The byte that a status read returns.
    pub open spec fn status(self) -> u8 {
        (self.register & 0x1F) | (if self.sprite_overflow { 0x20u8 } else { 0u8 })
            | (if self.sprite_zero_hit { 0x40u8 } else { 0u8 })
            | (if self.nmi_occurred { 0x80u8 } else { 0u8 })
    }

    /// The register file after a status read.
    pub open spec fn read_status(self) -> RegisterFile {
        RegisterFile { w: 0, ..(RegisterFile { nmi_occurred: false, ..self }).nmi_change() }
    }

    /// The address that a data access uses: `v` folded into the 14-bit bus.
    pub open spec fn data_address(self) -> u16 {
        self.v % 0x4000
    }

    /// `v` after a data access.
    pub open spec fn advanced(self) -> u16 {
        ((self.data_address() + address_step(self.control.increment)) % 0x4000) as u16
    }

    /// The byte that a data read returns: the buffered byte below the
    /// palettes, the palette byte itself in their range.
    pub open spec fn data<M: Mapper>(self, mapper: &M) -> u8 {
        if self.data_address() < 0x3F00 {
            self.buffer_data
        } else {
            self.read(mapper, self.data_address())
        }
    }

    /// The register file after a data read.
    pub open spec fn read_data<M: Mapper>(self, mapper: &M) -> RegisterFile {
        let a = self.data_address();
        RegisterFile {
            buffer_data: if a < 0x3F00 {
                self.read(mapper, a)
            } else {
                self.read(mapper, (a - 0x1000) as u16)
            },
            v: self.advanced(),
            ..self
        }
    }

    /// The byte that a register read returns.
    pub open spec fn register_value<M: Mapper>(self, mapper: &M, address: u16) -> u8 {
        if address == 0x2002 {
            self.status()
        } else if address == 0x2004 {
            self.oam[self.oam_address as int]
        } else if address == 0x2007 {
            self.data(mapper)
        } else {
            0
        }
    }

    /// The register file after a register read.
    pub open spec fn read_register<M: Mapper>(self, mapper: &M, address: u16) -> RegisterFile {
        if address == 0x2002 {
            self.read_status()
        } else if address == 0x2007 {
            self.read_data(mapper)
        } else {
            self
        }
    }

    pub open spec fn write_control(self, value: u8) -> RegisterFile {
        RegisterFile {
            t: (self.t & 0xF3FF) | ((value as u16 & 0x03) << 10),
            ..(RegisterFile {
                control: Control::decode(value),
                nmi_output: (value >> 7) & 1 == 1,
                ..self
            }).nmi_change()
        }
    }

    pub open spec fn write_mask(self, value: u8) -> RegisterFile {
        RegisterFile { mask: Mask::decode(value), ..self }
    }

    pub open spec fn write_oam_address(self, value: u8) -> RegisterFile {
        RegisterFile { oam_address: value, ..self }
    }

    pub open spec fn write_oam_data(self, value: u8) -> RegisterFile {
        RegisterFile {
            oam: self.oam.update(self.oam_address as int, value),
            oam_address: if self.oam_address == 255 { 0u8 } else { (self.oam_address + 1) as u8 },
            ..self
        }
    }

    pub open spec fn write_scroll(self, value: u8) -> RegisterFile {
        if self.w == 0 {
            RegisterFile {
                t: (self.t & 0x7FE0) | (value as u16 >> 3),
                x: value & 0x7,
                w: 1,
                ..self
            }
        } else {
            RegisterFile {
                t: (self.t & 0xC1F) | ((value as u16 & 0xF8) << 2) | ((value as u16 & 0x7) << 12),
                w: 0,
                ..self
            }
        }
    }

    pub open spec fn write_address(self, value: u8) -> RegisterFile {
        if self.w == 0 {
            RegisterFile { t: (self.t & 0x80FF) | ((value as u16 & 0x3F) << 8), w: 1, ..self }
        } else {
            RegisterFile {
                t: (self.t & 0xFF00) | value as u16,
                v: (self.t & 0xFF00) | value as u16,
                w: 0,
                ..self
            }
        }
    }

    /// The register file after a data write.
    pub open spec fn write_data<M: Mapper>(self, mapper: &M, value: u8) -> RegisterFile {
        RegisterFile { v: self.advanced(), ..self.write(mapper, self.data_address(), value) }
    }

    /// The register file after a register write.
    pub open spec fn write_register<M: Mapper>(
        self,
        mapper: &M,
        address: u16,
        value: u8,
    ) -> RegisterFile {
        let s = RegisterFile { register: value, ..self };
        if address == 0x2000 {
            s.write_control(value)
        } else if address == 0x2001 {
            s.write_mask(value)
        } else if address == 0x2003 {
            s.write_oam_address(value)
        } else if address == 0x2004 {
            s.write_oam_data(value)
        } else if address == 0x2005 {
            s.write_scroll(value)
        } else if address == 0x2006 {
            s.write_address(value)
        } else if address == 0x2007 {
            s.write_data(mapper, value)
        } else {
            s
        }
    }

    /// The mapper after a register write: only a data write to the pattern
    /// tables reaches it.
    pub open spec fn mapper_after_write<M: Mapper>(self, mapper: M, address: u16, value: u8) -> M {
        if address == 0x2007 && self.data_address() < 0x2000 {
            mapper.written(self.data_address(), value)
        } else {
            mapper
        }
    }

    /// The register file after the interrupt delay has counted one dot down.
    pub open spec fn count_down(self) -> RegisterFile {
        RegisterFile {
            nmi_delay: if self.nmi_delay > 0 { (self.nmi_delay - 1) as u8 } else { 0u8 },
            ..self
        }
    }

    /// Whether this dot's countdown raises the interrupt: the delay runs out
    /// while the line is still high.
    pub open spec fn fires(self) -> bool {
        self.nmi_delay == 1 && self.nmi_line()
    }

    /// The register file after vertical blank has begun.
    pub open spec fn begin_vblank(self) -> RegisterFile {
        (RegisterFile { nmi_occurred: true, ..self }).nmi_change()
    }

    /// The register file after vertical blank has ended: the blank flag and
    /// both sprite flags are down.
    pub open spec fn end_vblank(self) -> RegisterFile {
        RegisterFile {
            sprite_zero_hit: false,
            sprite_overflow: false,
            ..(RegisterFile { nmi_occurred: false, ..self }).nmi_change()
        }
    }

    /// Copies the vertical scroll bits of `t` into `v`.
    pub open spec fn copy_y(self) -> RegisterFile {
        RegisterFile { v: (self.v & !0x7BE0u16) | (self.t & 0x7BE0), ..self }
    }

    /// Copies the horizontal scroll bits of `t` into `v`.
    pub open spec fn copy_x(self) -> RegisterFile {
        RegisterFile { v: (self.v & !0x041Fu16) | (self.t & 0x041F), ..self }
    }

    /// Moves `v` one tile to the right, into the next nametable at the edge.
    pub open spec fn increment_x(self) -> RegisterFile {
        RegisterFile {
            v: if self.v & 0x001F == 31 {
                (self.v & 0xFFE0) ^ 0x0400
            } else {
                (self.v + 1) as u16
            },
            ..self
        }
    }

    /// Moves `v` one pixel row down: fine Y first, then coarse Y, which wraps
    /// into the other nametable after row 29 and to zero after row 31.
    pub open spec fn increment_y(self) -> RegisterFile {
        RegisterFile {
            v: if self.v & 0x7000 != 0x7000 {
                (self.v + 0x1000) as u16
            } else {
                let cleared = self.v & 0x8FFF;
                let row = (cleared & 0x3E0) >> 5;
                let next: u16 = if row == 29 || row == 31 { 0 } else { (row + 1) as u16 };
                let turned = if row == 29 { cleared ^ 0x800 } else { cleared };
                (turned & 0xFC1F) | (next << 5)
            },
            ..self
        }
    }
}

} // verus!
