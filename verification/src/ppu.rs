//! The renderer: one dot per step, one frame of pixels per 262 scanlines.

use vstd::prelude::*;
use crate::bits::lemma_fetch_bounds;
use crate::bus::{CpuLines, MemoryBus};
use crate::mapper::Mapper;
use crate::palette::shown_color;
use crate::ports::{blank_frame, PixelBuffer, VideoDevice};
use crate::registers::RegisterFile;
use crate::render::{
    pattern_nibble, pattern_row, sprite_height, sprite_pattern, sprite_row_address, Machine,
    Renderer,
};
use crate::render_laws::lemma_position_kept;

verus! {

/// Packs the eight pixels of a pattern row, the leftmost on top; a flipped
/// row is read from its right end.
pub fn pack_row(select: u8, low: u8, high: u8, flipped: bool) -> (data: u32)
    ensures
        data == pattern_row(select, low, high, flipped, 8),
{
    let mut data: u32 = 0;
    let mut k: u8 = 0;
    while k < 8
        invariant
            k <= 8,
            data == pattern_row(select, low, high, flipped, k as nat),
        decreases 8 - k,
    {
        let bit: u8 = if flipped { k } else { 7 - k };
        let nibble: u8 = select | ((low >> bit) & 1) | (((high >> bit) & 1) << 1);
        assert(nibble == pattern_nibble(select, low, high, flipped, k));
        data = (data << 4) | nibble as u32;
        k += 1;
    }
    data
}

/// The renderer.
pub struct PPU {
    cycle: i32,
    scanline: i32,
    v_buffer: PixelBuffer,
    nametable_byte: u8,
    attributetable_byte: u8,
    lowtile_byte: u8,
    hightile_byte: u8,
    tiledata: u64,
    f: u8,
    sprite_count: i32,
    sprite_patterns: [u32; 8],
    sprite_positions: [u8; 8],
    sprite_priorities: [u8; 8],
    sprite_indices: [u8; 8],
}

impl View for PPU {
    type V = Renderer;

    closed spec fn view(&self) -> Renderer {
        Renderer {
            cycle: self.cycle,
            scanline: self.scanline,
            f: self.f,
            nametable_byte: self.nametable_byte,
            attributetable_byte: self.attributetable_byte,
            lowtile_byte: self.lowtile_byte,
            hightile_byte: self.hightile_byte,
            tiledata: self.tiledata,
            sprite_count: self.sprite_count,
            sprite_patterns: self.sprite_patterns@,
            sprite_positions: self.sprite_positions@,
            sprite_priorities: self.sprite_priorities@,
            sprite_indices: self.sprite_indices@,
            pixels: self.v_buffer@,
        }
    }
}

impl PPU {
    /// The ranges of the data model hold.
    pub open spec fn wf(&self) -> bool {
        self@.wf()
    }

    /// Creates a renderer and resets it together with the register file.
    pub fn new<M: Mapper>(m: &mut MemoryBus<M>) -> (ppu: PPU)
        requires
            old(m).ppu.wf(),
        ensures
            ppu.wf(),
            ppu@ == Renderer::power_on(),
            final(m).ppu@ == old(m).ppu@.reset(),
            final(m).ppu.wf(),
            final(m).mapper == old(m).mapper,
            final(m).cpu == old(m).cpu,
    {
        let mut ppu = PPU {
            cycle: 0,
            scanline: 0,
            v_buffer: PixelBuffer::new(),
            nametable_byte: 0,
            attributetable_byte: 0,
            lowtile_byte: 0,
            hightile_byte: 0,
            tiledata: 0,
            f: 0,
            sprite_count: 0,
            sprite_patterns: [0u32; 8],
            sprite_positions: [0u8; 8],
            sprite_priorities: [0u8; 8],
            sprite_indices: [0u8; 8],
        };
        ppu.reset(m);
        ppu
    }

    /// Resets the renderer to its initial state: the dot counter goes to the
    /// end of the post-render line, and control, mask and sprite address are
    /// written with zero. The frame is kept.
    pub fn reset<M: Mapper>(&mut self, m: &mut MemoryBus<M>)
        requires
            old(self).wf(),
            old(m).ppu.wf(),
        ensures
            (Machine { ppu: final(self)@, regs: final(m).ppu@ }) == (Machine {
                ppu: old(self)@,
                regs: old(m).ppu@,
            }).reset(),
            final(self).wf(),
            final(m).ppu.wf(),
            final(m).mapper == old(m).mapper,
            final(m).cpu == old(m).cpu,
    {
        self.cycle = 340;
        self.scanline = 240;
        m.ppu.write_control(0);
        m.ppu.write_mask(0);
        m.ppu.write_oam_address(0);
    }

    /// Clears the frame to zeroes. A reset does not do this.
    pub fn clear_vbuffers(&mut self)
        requires
            old(self).wf(),
        ensures
            final(self).wf(),
            final(self)@ == (Renderer { pixels: blank_frame(), ..old(self)@ }),
    {
        self.v_buffer = PixelBuffer::new();
    }

    pub fn fetch_nametable_byte<M: Mapper>(&mut self, m: &MemoryBus<M>)
        requires
            old(self).wf(),
            m.ppu.wf(),
        ensures
            final(self)@ == old(self)@.fetch_nametable_byte(m.ppu@, &m.mapper),
            final(self).wf(),
    {
        let v: u16 = m.ppu.v();
        let address: u16 = 0x2000 | (v & 0x0FFF);
        self.nametable_byte = m.ppu.read(&m.mapper, address);
    }

    pub fn fetch_attributetable_byte<M: Mapper>(&mut self, m: &MemoryBus<M>)
        requires
            old(self).wf(),
            m.ppu.wf(),
        ensures
            final(self)@ == old(self)@.fetch_attributetable_byte(m.ppu@, &m.mapper),
            final(self).wf(),
    {
        let v: u16 = m.ppu.v();
        let address: u16 = 0x23C0 | (v & 0x0C00) | ((v >> 4) & 0x38) | ((v >> 2) & 0x07);
        proof {
            lemma_fetch_bounds(v, 0, 0);
        }
        let shift: u8 = (((v >> 4) & 4) | (v & 2)) as u8;
        let read: u8 = m.ppu.read(&m.mapper, address);
        self.attributetable_byte = ((read >> shift) & 3) << 2;
    }

    /// Where the row of the background tile being fetched lies.
    fn background_row_address<M: Mapper>(&self, m: &MemoryBus<M>) -> (address: u16)
        requires
            m.ppu.wf(),
        ensures
            address == self@.background_row_address(m.ppu@),
            address <= 0x1FF7,
    {
        let v: u16 = m.ppu.v();
        proof {
            lemma_fetch_bounds(v, 0, 0);
        }
        let row: u16 = (v >> 12) & 7;
        let table: u16 = if m.ppu.control().background_table { 0x1000 } else { 0 };
        let tile: u16 = self.nametable_byte as u16;
        table + tile * 16 + row
    }

    pub fn fetch_lowtile_byte<M: Mapper>(&mut self, m: &MemoryBus<M>)
        requires
            old(self).wf(),
            m.ppu.wf(),
        ensures
            final(self)@ == old(self)@.fetch_lowtile_byte(m.ppu@, &m.mapper),
            final(self).wf(),
    {
        let address: u16 = self.background_row_address(m);
        self.lowtile_byte = m.ppu.read(&m.mapper, address);
    }

    pub fn fetch_hightile_byte<M: Mapper>(&mut self, m: &MemoryBus<M>)
        requires
            old(self).wf(),
            m.ppu.wf(),
        ensures
            final(self)@ == old(self)@.fetch_hightile_byte(m.ppu@, &m.mapper),
            final(self).wf(),
    {
        let address: u16 = self.background_row_address(m);
        self.hightile_byte = m.ppu.read(&m.mapper, address + 8);
    }

    pub fn store_tiledata(&mut self)
        requires
            old(self).wf(),
        ensures
            final(self)@ == old(self)@.store_tiledata(),
            final(self).wf(),
    {
        let data: u32 = pack_row(
            self.attributetable_byte,
            self.lowtile_byte,
            self.hightile_byte,
            false,
        );
        self.tiledata = self.tiledata | data as u64;
    }

    /// Fetches the eight pixels of row `row` of sprite `i`.
    pub fn fetch_sprite_pattern<M: Mapper>(&self, m: &MemoryBus<M>, i: usize, row: i32) -> (data:
        u32)
        requires
            m.ppu.wf(),
            i < 64,
            0 <= row < sprite_height(m.ppu@.control),
        ensures
            data == sprite_pattern(m.ppu@, &m.mapper, i as int, row as int),
    {
        let tile: u8 = m.ppu.oam_byte(i * 4 + 1);
        let attributes: u8 = m.ppu.oam_byte(i * 4 + 2);
        let control = m.ppu.control();
        proof {
            lemma_fetch_bounds(0, tile, 0);
        }
        let address: u16 = if !control.sprite_size {
            let r: i32 = if attributes & 0x80 == 0x80 { 7 - row } else { row };
            let table: u16 = if control.sprite_table { 0x1000 } else { 0 };
            table + (tile as u16) * 16 + (r as u16)
        } else {
            let r: i32 = if attributes & 0x80 == 0x80 { 15 - row } else { row };
            let table: u16 = if tile & 1 == 1 { 0x1000 } else { 0 };
            let top: u8 = tile & 0xFE;
            if r > 7 {
                table + ((top + 1) as u16) * 16 + ((r - 8) as u16)
            } else {
                table + (top as u16) * 16 + (r as u16)
            }
        };
        assert(address == sprite_row_address(control, tile, attributes, row as int));
        let select: u8 = (attributes & 3) << 2;
        let low: u8 = m.ppu.read(&m.mapper, address);
        let high: u8 = m.ppu.read(&m.mapper, address + 8);
        pack_row(select, low, high, attributes & 0x40 == 0x40)
    }
}

impl PPU {
    /// Fills the sprite slots for the current scanline: the first eight
    /// sprites that it crosses, in the order of sprite memory. A ninth
    /// raises the overflow flag.
    pub fn evaluate_sprites<M: Mapper>(&mut self, m: &mut MemoryBus<M>)
        requires
            old(self).wf(),
            old(m).ppu.wf(),
        ensures
            final(self)@ == old(self)@.evaluate_sprites(old(m).ppu@, &old(m).mapper),
            final(m).ppu@ == (if old(self)@.sprites_overflow(old(m).ppu@, &old(m).mapper) {
                RegisterFile { sprite_overflow: true, ..old(m).ppu@ }
            } else {
                old(m).ppu@
            }),
            final(self).wf(),
            final(m).ppu.wf(),
            final(m).mapper == old(m).mapper,
            final(m).cpu == old(m).cpu,
    {
        let h: i32 = if m.ppu.control().sprite_size { 16 } else { 8 };
        let ghost start = self@;
        let ghost regs = m.ppu@;
        let ghost cart = m.mapper;
        let mut count: i32 = 0;
        let mut i: usize = 0;
        while i < 64
            invariant
                i <= 64,
                0 <= count <= i,
                start.wf(),
                m.ppu.wf(),
                m.ppu@ == regs,
                m.mapper == cart,
                m.cpu == old(m).cpu,
                h == sprite_height(regs.control),
                self@.sprite_count == start.sprite_count,
                self@.scanline == start.scanline,
                (Renderer { sprite_count: 0, ..self@ }).wf(),
                (Renderer { sprite_count: count, ..self@ }) == start.scan_sprites(
                    regs,
                    &cart,
                    i as nat,
                ),
            decreases 64 - i,
        {
            let y: u8 = m.ppu.oam_byte(i * 4);
            let a_reg: u8 = m.ppu.oam_byte(i * 4 + 2);
            let x: u8 = m.ppu.oam_byte(i * 4 + 3);
            let row: i32 = self.scanline - y as i32;
            assert(row == start.sprite_row(regs, i as int));
            if row >= 0 && row < h {
                if count < 8 {
                    let pattern: u32 = self.fetch_sprite_pattern(m, i, row);
                    self.sprite_patterns[count as usize] = pattern;
                    self.sprite_positions[count as usize] = x;
                    self.sprite_priorities[count as usize] = (a_reg >> 5) & 1;
                    self.sprite_indices[count as usize] = i as u8;
                }
                count += 1;
            }
            i += 1;
        }
        if count > 8 {
            count = 8;
            m.ppu.set_sprite_overflow();
        }
        self.sprite_count = count;
    }

    /// Shows the finished frame and begins vertical blank.
    pub fn set_vblank<M: Mapper, V: VideoDevice>(&mut self, m: &mut MemoryBus<M>, video: &mut V)
        requires
            old(self).wf(),
            old(m).ppu.wf(),
        ensures
            final(self)@ == old(self)@,
            final(m).ppu@ == old(m).ppu@.begin_vblank(),
            final(video).frames() == old(video).frames().push(old(self)@.pixels),
            final(self).wf(),
            final(m).ppu.wf(),
            final(m).mapper == old(m).mapper,
            final(m).cpu == old(m).cpu,
    {
        video.blit_pixels(&self.v_buffer);
        m.ppu.begin_vblank();
    }

    /// Ends vertical blank and lowers the sprite flags.
    pub fn clear_vblank<M: Mapper>(&self, m: &mut MemoryBus<M>)
        requires
            old(m).ppu.wf(),
        ensures
            final(m).ppu@ == old(m).ppu@.end_vblank(),
            final(m).ppu.wf(),
            final(m).mapper == old(m).mapper,
            final(m).cpu == old(m).cpu,
    {
        m.ppu.end_vblank();
    }

    /// The eight background pixels that are being shown.
    pub fn fetch_tiledata(&self) -> (data: u32)
        ensures
            data == (self@.tiledata >> 32) as u32,
    {
        (self.tiledata >> 32) as u32
    }

    pub fn background_pixel<M: Mapper>(&self, m: &MemoryBus<M>) -> (color: u8)
        requires
            m.ppu.wf(),
        ensures
            color == self@.background_pixel(m.ppu@),
            color <= 15,
    {
        if !m.ppu.mask().show_background {
            0
        } else {
            let x: u8 = m.ppu.fine_x();
            let data: u32 = self.fetch_tiledata() >> (((7 - x) * 4) as u32);
            proof {
                lemma_fetch_bounds(0, 0, data);
            }
            (data & 0x0F) as u8
        }
    }

    /// The slot and colour of the first opaque sprite pixel at the current
    /// dot.
    pub fn sprite_pixel<M: Mapper>(&self, m: &MemoryBus<M>) -> (found: (u8, u8))
        requires
            self.wf(),
        ensures
            found == self@.sprite_pixel(m.ppu@),
            found.0 < 8,
            found.1 <= 15,
    {
        if !m.ppu.mask().show_sprites {
            return (0, 0);
        }
        let mut i: i32 = 0;
        while i < self.sprite_count
            invariant
                0 <= i <= self.sprite_count,
                self.wf(),
                m.ppu@.mask.show_sprites,
                self@.first_opaque(0) == self@.first_opaque(i as int),
            decreases self.sprite_count - i,
        {
            let offset: i32 = (self.cycle - 1) - self.sprite_positions[i as usize] as i32;
            if offset >= 0 && offset <= 7 {
                let shift: u32 = ((7 - offset) * 4) as u32;
                let pattern: u32 = self.sprite_patterns[i as usize];
                proof {
                    lemma_fetch_bounds(0, 0, pattern >> shift);
                }
                let color: u8 = ((pattern >> shift) & 0x0F) as u8;
                assert(color == self@.slot_color(i as int));
                if color % 4 != 0 {
                    return (i as u8, color);
                }
            }
            i += 1;
        }
        (0, 0)
    }

    /// Chooses between the layers at the current dot, and raises the
    /// sprite-zero flag where entry 0 of sprite memory meets the background.
    /// Returns the palette address of the colour chosen.
    fn pixel_color<M: Mapper>(&self, m: &mut MemoryBus<M>) -> (color: u8)
        requires
            self.wf(),
            old(m).ppu.wf(),
        ensures
            color == self@.pixel_color(old(m).ppu@),
            color < 32,
            final(m).ppu@ == (if self@.hits_sprite_zero(old(m).ppu@) {
                RegisterFile { sprite_zero_hit: true, ..old(m).ppu@ }
            } else {
                old(m).ppu@
            }),
            final(m).ppu.wf(),
            final(m).mapper == old(m).mapper,
            final(m).cpu == old(m).cpu,
    {
        let x: i32 = self.cycle - 1;
        let mask = m.ppu.mask();
        let mut background: u8 = self.background_pixel(m);
        let found = self.sprite_pixel(m);
        let mut sprite: u8 = found.1;
        if x < 8 && !mask.show_left_background {
            background = 0;
        }
        if x < 8 && !mask.show_left_sprites {
            sprite = 0;
        }
        assert(background == self@.masked_background(m.ppu@));
        assert(sprite == self@.masked_sprite(m.ppu@));
        proof {
            lemma_fetch_bounds(0, sprite, 0);
        }
        if sprite % 4 == 0 {
            if background % 4 == 0 {
                0
            } else {
                background
            }
        } else if background % 4 == 0 {
            sprite | 0x10
        } else {
            let slot: usize = found.0 as usize;
            if self.sprite_indices[slot] == 0 && x < 255 {
                m.ppu.set_sprite_zero_hit();
            }
            if self.sprite_priorities[slot] == 0 {
                sprite | 0x10
            } else {
                background
            }
        }
    }

    /// Draws the current dot into the frame.
    pub fn render_pixel<M: Mapper>(&mut self, m: &mut MemoryBus<M>)
        requires
            old(self).wf(),
            old(m).ppu.wf(),
            old(self)@.visibleline(),
            old(self)@.visible_cycle(),
        ensures
            final(self)@ == old(self)@.render_pixel(old(m).ppu@),
            final(m).ppu@ == (if old(self)@.hits_sprite_zero(old(m).ppu@) {
                RegisterFile { sprite_zero_hit: true, ..old(m).ppu@ }
            } else {
                old(m).ppu@
            }),
            final(self).wf(),
            final(m).ppu.wf(),
            final(m).mapper == old(m).mapper,
            final(m).cpu == old(m).cpu,
    {
        let x: i32 = self.cycle - 1;
        let y: i32 = self.scanline;
        let grayscale: bool = m.ppu.mask().grayscale;
        let color: u8 = self.pixel_color(m);
        let entry: u8 = m.ppu.read_palette(color as u16);
        assert(entry == old(m).ppu@.read_palette(color as u16));
        let argb: u32 = shown_color(entry, grayscale);
        self.v_buffer.write(x as usize, y as usize, argb);
    }

    /// Housekeeping at the start of a dot: counts the interrupt delay down,
    /// raising the interrupt when it runs out, and advances the dot counter.
    pub fn tick<M: Mapper>(&mut self, m: &mut MemoryBus<M>)
        requires
            old(self).wf(),
            old(m).ppu.wf(),
        ensures
            (Machine { ppu: final(self)@, regs: final(m).ppu@ }) == (Machine {
                ppu: old(self)@,
                regs: old(m).ppu@,
            }).tick(),
            final(m).cpu == (if old(m).ppu@.fires() {
                CpuLines { nmi: true, ..old(m).cpu }
            } else {
                old(m).cpu
            }),
            final(self).wf(),
            final(m).ppu.wf(),
            final(m).mapper == old(m).mapper,
    {
        if m.ppu.count_down() {
            m.cpu.set_nmi();
        }
        let mask = m.ppu.mask();
        let rendering: bool = mask.show_background || mask.show_sprites;
        if rendering && self.f == 1 && self.scanline == 261 && self.cycle == 339 {
            self.cycle = 0;
            self.scanline = 0;
            self.f = 1 - self.f;
        } else if self.cycle < 340 {
            self.cycle = self.cycle + 1;
        } else if self.scanline < 261 {
            self.cycle = 0;
            self.scanline = self.scanline + 1;
        } else {
            self.cycle = 0;
            self.scanline = 0;
            self.f = 1 - self.f;
        }
    }

    /// The background fetch of the current dot.
    fn fetch<M: Mapper>(&mut self, m: &MemoryBus<M>)
        requires
            old(self).wf(),
            m.ppu.wf(),
        ensures
            (Machine { ppu: final(self)@, regs: m.ppu@ }) == (Machine {
                ppu: old(self)@,
                regs: m.ppu@,
            }).fetch(&m.mapper),
            final(self).wf(),
    {
        let mask = m.ppu.mask();
        let rendering: bool = mask.show_background || mask.show_sprites;
        let renderline: bool = self.scanline == 261 || self.scanline < 240;
        let fetch_cycle: bool = (self.cycle >= 321 && self.cycle <= 336) || (self.cycle >= 1
            && self.cycle <= 256);
        if rendering && renderline && fetch_cycle {
            self.tiledata = self.tiledata << 4;
            let phase: i32 = self.cycle % 8;
            if phase == 1 {
                self.fetch_nametable_byte(m);
            } else if phase == 3 {
                self.fetch_attributetable_byte(m);
            } else if phase == 5 {
                self.fetch_lowtile_byte(m);
            } else if phase == 7 {
                self.fetch_hightile_byte(m);
            } else if phase == 0 {
                self.store_tiledata();
            }
        }
    }

    /// The scroll moves of the current dot.
    fn scroll<M: Mapper>(&self, m: &mut MemoryBus<M>)
        requires
            self.wf(),
            old(m).ppu.wf(),
        ensures
            (Machine { ppu: self@, regs: final(m).ppu@ }) == (Machine {
                ppu: self@,
                regs: old(m).ppu@,
            }).scroll(),
            final(m).ppu.wf(),
            final(m).mapper == old(m).mapper,
            final(m).cpu == old(m).cpu,
    {
        let mask = m.ppu.mask();
        let rendering: bool = mask.show_background || mask.show_sprites;
        let preline: bool = self.scanline == 261;
        let renderline: bool = preline || self.scanline < 240;
        let fetch_cycle: bool = (self.cycle >= 321 && self.cycle <= 336) || (self.cycle >= 1
            && self.cycle <= 256);
        if rendering {
            if preline && self.cycle >= 280 && self.cycle <= 304 {
                m.ppu.copy_y();
            }
            if renderline {
                if fetch_cycle && self.cycle % 8 == 0 {
                    m.ppu.increment_x();
                }
                if self.cycle == 256 {
                    m.ppu.increment_y();
                }
                if self.cycle == 257 {
                    m.ppu.copy_x();
                }
            }
        }
    }

    /// Draws the current dot, if it is a visible one and rendering is on.
    fn draw<M: Mapper>(&mut self, m: &mut MemoryBus<M>)
        requires
            old(self).wf(),
            old(m).ppu.wf(),
        ensures
            (Machine { ppu: final(self)@, regs: final(m).ppu@ }) == (Machine {
                ppu: old(self)@,
                regs: old(m).ppu@,
            }).draw(),
            final(self).wf(),
            final(m).ppu.wf(),
            final(m).mapper == old(m).mapper,
            final(m).cpu == old(m).cpu,
    {
        let mask = m.ppu.mask();
        let rendering: bool = mask.show_background || mask.show_sprites;
        if rendering && self.scanline < 240 && self.cycle >= 1 && self.cycle <= 256 {
            self.render_pixel(m);
        }
    }

    /// Sprite evaluation for the next scanline, at dot 257.
    fn sprites<M: Mapper>(&mut self, m: &mut MemoryBus<M>)
        requires
            old(self).wf(),
            old(m).ppu.wf(),
        ensures
            (Machine { ppu: final(self)@, regs: final(m).ppu@ }) == (Machine {
                ppu: old(self)@,
                regs: old(m).ppu@,
            }).sprites(&old(m).mapper),
            final(self).wf(),
            final(m).ppu.wf(),
            final(m).mapper == old(m).mapper,
            final(m).cpu == old(m).cpu,
    {
        let mask = m.ppu.mask();
        let rendering: bool = mask.show_background || mask.show_sprites;
        if rendering && self.cycle == 257 {
            if self.scanline < 240 {
                self.evaluate_sprites(m);
            } else {
                self.sprite_count = 0;
            }
        }
    }

    /// The vertical-blank transitions of the current dot. Returns whether a
    /// finished frame was shown.
    fn blank<M: Mapper, V: VideoDevice>(&mut self, m: &mut MemoryBus<M>, video: &mut V) -> (frame:
        bool)
        requires
            old(self).wf(),
            old(m).ppu.wf(),
        ensures
            final(self)@ == old(self)@,
            (Machine { ppu: final(self)@, regs: final(m).ppu@ }) == (Machine {
                ppu: old(self)@,
                regs: old(m).ppu@,
            }).blank(),
            frame == (Machine { ppu: old(self)@, regs: old(m).ppu@ }).frame_due(),
            final(video).frames() == (if frame {
                old(video).frames().push(old(self)@.pixels)
            } else {
                old(video).frames()
            }),
            final(self).wf(),
            final(m).ppu.wf(),
            final(m).mapper == old(m).mapper,
            final(m).cpu == old(m).cpu,
    {
        let mut frame_happened: bool = false;
        if self.scanline == 241 && self.cycle == 1 {
            self.set_vblank(m, video);
            frame_happened = true;
        }
        if self.scanline == 261 && self.cycle == 1 {
            self.clear_vblank(m);
        }
        frame_happened
    }

    /// Steps the renderer forward by one dot. Returns whether a finished
    /// frame was shown.
    pub fn step<M: Mapper, V: VideoDevice>(&mut self, m: &mut MemoryBus<M>, video: &mut V) -> (frame:
        bool)
        requires
            old(self).wf(),
            old(m).ppu.wf(),
        ensures
            (Machine { ppu: final(self)@, regs: final(m).ppu@ }) == (Machine {
                ppu: old(self)@,
                regs: old(m).ppu@,
            }).step(&old(m).mapper),
            frame == (Machine { ppu: old(self)@, regs: old(m).ppu@ }).shows_frame(),
            final(video).frames() == (if frame {
                old(video).frames().push(final(self)@.pixels)
            } else {
                old(video).frames()
            }),
            final(m).cpu == (if old(m).ppu@.fires() {
                CpuLines { nmi: true, ..old(m).cpu }
            } else {
                old(m).cpu
            }),
            final(m).mapper == old(m).mapper,
            final(self).wf(),
            final(m).ppu.wf(),
    {
        let ghost before = Machine { ppu: self@, regs: m.ppu@ };
        self.tick(m);
        let ghost ticked = Machine { ppu: self@, regs: m.ppu@ };
        self.draw(m);
        let ghost drawn = Machine { ppu: self@, regs: m.ppu@ };
        self.fetch(m);
        let ghost fetched = Machine { ppu: self@, regs: m.ppu@ };
        self.scroll(m);
        let ghost scrolled = Machine { ppu: self@, regs: m.ppu@ };
        self.sprites(m);
        let ghost evaluated = Machine { ppu: self@, regs: m.ppu@ };
        proof {
            lemma_position_kept(ticked, &m.mapper);
        }
        self.blank(m, video)
    }

    pub fn cycle(&self) -> (cycle: i32)
        ensures
            cycle == self@.cycle,
    {
        self.cycle
    }

    pub fn scanline(&self) -> (scanline: i32)
        ensures
            scanline == self@.scanline,
    {
        self.scanline
    }

    /// Parity of the frame being drawn.
    pub fn frame_parity(&self) -> (f: u8)
        ensures
            f == self@.f,
    {
        self.f
    }

    pub fn sprite_count(&self) -> (count: i32)
        ensures
            count == self@.sprite_count,
    {
        self.sprite_count
    }

    /// The OAM index of the sprite in slot `k`.
    pub fn sprite_index(&self, k: usize) -> (index: u8)
        requires
            k < 8,
        ensures
            index == self@.sprite_indices[k as int],
    {
        self.sprite_indices[k]
    }

    /// The packed pixels of the sprite in slot `k`.
    pub fn sprite_slot_pattern(&self, k: usize) -> (pattern: u32)
        requires
            k < 8,
        ensures
            pattern == self@.sprite_patterns[k as int],
    {
        self.sprite_patterns[k]
    }

    /// The pixel in column `x` of row `y` of the frame being drawn.
    pub fn pixel(&self, x: usize, y: usize) -> (argb: u32)
        requires
            self.wf(),
            x < 256,
            y < 240,
        ensures
            argb == self@.pixels[y * 256 + x],
    {
        self.v_buffer.pixel(x, y)
    }
}

impl PPU {
    /// Steps the renderer forward by `dots` dots. Returns how many frames
    /// were shown.
    pub fn run_dots<M: Mapper, V: VideoDevice>(
        &mut self,
        m: &mut MemoryBus<M>,
        video: &mut V,
        dots: u32,
    ) -> (shown: u32)
        requires
            old(self).wf(),
            old(m).ppu.wf(),
        ensures
            (Machine { ppu: final(self)@, regs: final(m).ppu@ }) == (Machine {
                ppu: old(self)@,
                regs: old(m).ppu@,
            }).steps(&old(m).mapper, dots as nat),
            final(video).frames() == old(video).frames() + (Machine {
                ppu: old(self)@,
                regs: old(m).ppu@,
            }).frames_shown(&old(m).mapper, dots as nat),
            shown == (Machine { ppu: old(self)@, regs: old(m).ppu@ }).frames_shown(
                &old(m).mapper,
                dots as nat,
            ).len(),
            final(m).cpu == (if (Machine { ppu: old(self)@, regs: old(m).ppu@ }).raises(
                &old(m).mapper,
                dots as nat,
            ) {
                CpuLines { nmi: true, ..old(m).cpu }
            } else {
                old(m).cpu
            }),
            final(m).mapper == old(m).mapper,
            final(self).wf(),
            final(m).ppu.wf(),
    {
        let ghost start = Machine { ppu: self@, regs: m.ppu@ };
        let ghost cart = m.mapper;
        let ghost lines = m.cpu;
        let ghost shown_before = video.frames();
        let mut shown: u32 = 0;
        let mut i: u32 = 0;
        while i < dots
            invariant
                i <= dots,
                self.wf(),
                m.ppu.wf(),
                m.mapper == cart,
                (Machine { ppu: self@, regs: m.ppu@ }) == start.steps(&cart, i as nat),
                video.frames() == shown_before + start.frames_shown(&cart, i as nat),
                shown == start.frames_shown(&cart, i as nat).len(),
                shown <= i,
                m.cpu == (if start.raises(&cart, i as nat) {
                    CpuLines { nmi: true, ..lines }
                } else {
                    lines
                }),
            decreases dots - i,
        {
            let frame: bool = self.step(m, video);
            if frame {
                shown = shown + 1;
            }
            i = i + 1;
        }
        shown
    }

    /// Shows the frame as it stands.
    pub fn update_window<V: VideoDevice>(&self, video: &mut V)
        requires
            self.wf(),
        ensures
            final(video).frames() == old(video).frames().push(self@.pixels),
    {
        video.blit_pixels(&self.v_buffer);
    }
}

} // verus!
