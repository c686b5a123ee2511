//! The renderer as a mathematical value, and what one dot does to it.

use vstd::prelude::*;
use crate::mapper::Mapper;
use crate::palette::{shown_index, PALETTE};
use crate::ports::blank_frame;
use crate::registers::{fine_y, Control, RegisterFile};

verus! {

/// The renderer's state between two dots.
#[verifier::ext_equal]
pub struct Renderer {
    /// Dot within the scanline, 0 to 340.
    pub cycle: i32,
    /// Scanline, 0 to 261: 0 to 239 visible, 261 the pre-render line.
    pub scanline: i32,
    /// Frame parity, 0 or 1.
    pub f: u8,
    pub nametable_byte: u8,
    pub attributetable_byte: u8,
    pub lowtile_byte: u8,
    pub hightile_byte: u8,
    /// Sixteen background pixels of four bits, the next to be shown on top.
    pub tiledata: u64,
    /// How many of the eight sprite slots are in use.
    pub sprite_count: i32,
    pub sprite_patterns: Seq<u32>,
    pub sprite_positions: Seq<u8>,
    pub sprite_priorities: Seq<u8>,
    pub sprite_indices: Seq<u8>,
    /// The frame being drawn, 256 by 240, row by row.
    pub pixels: Seq<u32>,
}

/// Where the tile index under `v` lies.
pub open spec fn nametable_address(v: u16) -> u16 {
    0x2000 | (v & 0x0FFF)
}

/// Where the attribute byte for the tile under `v` lies.
pub open spec fn attribute_address(v: u16) -> u16 {
    0x23C0 | (v & 0x0C00) | ((v >> 4) & 0x38) | ((v >> 2) & 0x07)
}

/// Where in its attribute byte the tile under `v` finds its two bits.
pub open spec fn attribute_shift(v: u16) -> u8 {
    (((v >> 4) & 4) | (v & 2)) as u8
}

/// The palette select of a tile, moved to bits 2 and 3 of a pixel.
pub open spec fn attribute_bits(read: u8, shift: u8) -> u8 {
    ((read >> shift) & 3) << 2
}

/// Where row `row` of tile `tile` lies in the pattern table; its high plane
/// lies eight bytes on.
pub open spec fn tile_row_address(table: bool, tile: u8, row: int) -> int {
    (if table { 0x1000int } else { 0int }) + tile * 16 + row
}

/// Pixel `k` of a pattern row, counted from the left: the palette select
/// above one bit of each plane.
pub open spec fn pattern_nibble(select: u8, low: u8, high: u8, flipped: bool, k: u8) -> u8 {
    let bit: u8 = if flipped { k } else { (7 - k) as u8 };
    select | ((low >> bit) & 1) | (((high >> bit) & 1) << 1)
}

/// The first `n` pixels of a pattern row, four bits each, the leftmost on
/// top.
pub open spec fn pattern_row(select: u8, low: u8, high: u8, flipped: bool, n: nat) -> u32
    decreases n,
{
    if n == 0 {
        0
    } else {
        (pattern_row(select, low, high, flipped, (n - 1) as nat) << 4) | pattern_nibble(
            select,
            low,
            high,
            flipped,
            (n - 1) as u8,
        ) as u32
    }
}

/// Height of a sprite in rows.
pub open spec fn sprite_height(control: Control) -> int {
    if control.sprite_size {
        16
    } else {
        8
    }
}

/// Where row `row` of a sprite lies in the pattern tables. A tall sprite
/// takes its table from bit 0 of the tile number and its lower half from the
/// tile after; a vertical flip counts rows from the bottom.
pub open spec fn sprite_row_address(control: Control, tile: u8, attributes: u8, row: int) -> int {
    if !control.sprite_size {
        let r = if attributes & 0x80 == 0x80 { 7 - row } else { row };
        tile_row_address(control.sprite_table, tile, r)
    } else {
        let r = if attributes & 0x80 == 0x80 { 15 - row } else { row };
        let top = tile & 0xFE;
        if r > 7 {
            tile_row_address(tile & 1 == 1, (top + 1) as u8, r - 8)
        } else {
            tile_row_address(tile & 1 == 1, top, r)
        }
    }
}

/// The eight pixels of row `row` of sprite `i`.
pub open spec fn sprite_pattern<M: Mapper>(regs: RegisterFile, mapper: &M, i: int, row: int) -> u32 {
    let tile = regs.oam[4 * i + 1];
    let attributes = regs.oam[4 * i + 2];
    let address = sprite_row_address(regs.control, tile, attributes, row) as u16;
    pattern_row(
        (attributes & 3) << 2,
        regs.read(mapper, address),
        regs.read(mapper, (address + 8) as u16),
        attributes & 0x40 == 0x40,
        8,
    )
}

impl Renderer {
    /// The renderer as it is made: at the last dot of the post-render line,
    /// everything else zero.
    pub open spec fn power_on() -> Renderer {
        Renderer {
            cycle: 340,
            scanline: 240,
            f: 0,
            nametable_byte: 0,
            attributetable_byte: 0,
            lowtile_byte: 0,
            hightile_byte: 0,
            tiledata: 0,
            sprite_count: 0,
            sprite_patterns: Seq::new(8, |i: int| 0u32),
            sprite_positions: Seq::new(8, |i: int| 0u8),
            sprite_priorities: Seq::new(8, |i: int| 0u8),
            sprite_indices: Seq::new(8, |i: int| 0u8),
            pixels: blank_frame(),
        }
    }

    pub open spec fn wf(self) -> bool {
        &&& 0 <= self.cycle <= 340
        &&& 0 <= self.scanline <= 261
        &&& self.f <= 1
        &&& 0 <= self.sprite_count <= 8
        &&& self.sprite_patterns.len() == 8
        &&& self.sprite_positions.len() == 8
        &&& self.sprite_priorities.len() == 8
        &&& self.sprite_indices.len() == 8
        &&& self.pixels.len() == 61440
    }

    /// Advances the dot counter: 341 dots to a line, 262 lines to a frame,
    /// and with rendering on every odd frame's pre-render line one dot short.
    pub open spec fn tick(self, rendering: bool) -> Renderer {
        if rendering && self.f == 1 && self.scanline == 261 && self.cycle == 339 {
            Renderer { cycle: 0, scanline: 0, f: (1 - self.f) as u8, ..self }
        } else if self.cycle < 340 {
            Renderer { cycle: (self.cycle + 1) as i32, ..self }
        } else if self.scanline < 261 {
            Renderer { cycle: 0, scanline: (self.scanline + 1) as i32, ..self }
        } else {
            Renderer { cycle: 0, scanline: 0, f: (1 - self.f) as u8, ..self }
        }
    }

    pub open spec fn preline(self) -> bool {
        self.scanline == 261
    }

    pub open spec fn visibleline(self) -> bool {
        self.scanline < 240
    }

    pub open spec fn renderline(self) -> bool {
        self.preline() || self.visibleline()
    }

    pub open spec fn visible_cycle(self) -> bool {
        1 <= self.cycle <= 256
    }

    pub open spec fn fetch_cycle(self) -> bool {
        (321 <= self.cycle <= 336) || self.visible_cycle()
    }

    pub open spec fn fetch_nametable_byte<M: Mapper>(self, regs: RegisterFile, mapper: &M) -> Renderer {
        Renderer { nametable_byte: regs.read(mapper, nametable_address(regs.v)), ..self }
    }

    pub open spec fn fetch_attributetable_byte<M: Mapper>(
        self,
        regs: RegisterFile,
        mapper: &M,
    ) -> Renderer {
        Renderer {
            attributetable_byte: attribute_bits(
                regs.read(mapper, attribute_address(regs.v)),
                attribute_shift(regs.v),
            ),
            ..self
        }
    }

    /// Where the row of the background tile being fetched lies.
    pub open spec fn background_row_address(self, regs: RegisterFile) -> u16 {
        tile_row_address(regs.control.background_table, self.nametable_byte, fine_y(regs.v) as int) as u16
    }

    pub open spec fn fetch_lowtile_byte<M: Mapper>(self, regs: RegisterFile, mapper: &M) -> Renderer {
        Renderer { lowtile_byte: regs.read(mapper, self.background_row_address(regs)), ..self }
    }

    pub open spec fn fetch_hightile_byte<M: Mapper>(self, regs: RegisterFile, mapper: &M) -> Renderer {
        Renderer {
            hightile_byte: regs.read(mapper, (self.background_row_address(regs) + 8) as u16),
            ..self
        }
    }

    /// Lays the eight pixels just fetched into the low half of the shift
    /// register.
    pub open spec fn store_tiledata(self) -> Renderer {
        Renderer {
            tiledata: self.tiledata | pattern_row(
                self.attributetable_byte,
                self.lowtile_byte,
                self.hightile_byte,
                false,
                8,
            ) as u64,
            ..self
        }
    }

    /// Row of sprite `i` that the current scanline crosses, if it is within
    /// the sprite's height.
    pub open spec fn sprite_row(self, regs: RegisterFile, i: int) -> int {
        self.scanline - regs.oam[4 * i]
    }

    /// Whether sprite `i` is crossed by the current scanline.
    pub open spec fn sprite_on_line(self, regs: RegisterFile, i: int) -> bool {
        0 <= self.sprite_row(regs, i) < sprite_height(regs.control)
    }

    /// The slots after the first `n` sprites were looked at, in order: each
    /// sprite on the line is counted, and the first eight of them are kept.
    /// The count here is not yet held to eight.
    pub open spec fn scan_sprites<M: Mapper>(self, regs: RegisterFile, mapper: &M, n: nat) -> Renderer
        decreases n,
    {
        if n == 0 {
            Renderer { sprite_count: 0, ..self }
        } else {
            let before = self.scan_sprites(regs, mapper, (n - 1) as nat);
            let i = n - 1;
            let k = before.sprite_count as int;
            if !self.sprite_on_line(regs, i) {
                before
            } else if k < 8 {
                Renderer {
                    sprite_count: (k + 1) as i32,
                    sprite_patterns: before.sprite_patterns.update(
                        k,
                        sprite_pattern(regs, mapper, i, self.sprite_row(regs, i)),
                    ),
                    sprite_positions: before.sprite_positions.update(k, regs.oam[4 * i + 3]),
                    sprite_priorities: before.sprite_priorities.update(
                        k,
                        (regs.oam[4 * i + 2] >> 5) & 1,
                    ),
                    sprite_indices: before.sprite_indices.update(k, i as u8),
                    ..before
                }
            } else {
                Renderer { sprite_count: (k + 1) as i32, ..before }
            }
        }
    }

    /// Whether more than eight sprites are on the current scanline.
    pub open spec fn sprites_overflow<M: Mapper>(self, regs: RegisterFile, mapper: &M) -> bool {
        self.scan_sprites(regs, mapper, 64).sprite_count > 8
    }

    /// The slots filled for the current scanline.
    pub open spec fn evaluate_sprites<M: Mapper>(self, regs: RegisterFile, mapper: &M) -> Renderer {
        let scanned = self.scan_sprites(regs, mapper, 64);
        Renderer {
            sprite_count: if scanned.sprite_count > 8 { 8 } else { scanned.sprite_count },
            ..scanned
        }
    }

    /// The background's colour at the current dot; 0 when the background is
    /// not shown.
    pub open spec fn background_pixel(self, regs: RegisterFile) -> u8 {
        if !regs.mask.show_background {
            0
        } else {
            (((self.tiledata >> 32) as u32 >> (((7 - regs.x) * 4) as u32)) & 0x0F) as u8
        }
    }

    /// How far the current dot lies right of slot `k`'s left edge.
    pub open spec fn slot_offset(self, k: int) -> int {
        (self.cycle - 1) - self.sprite_positions[k]
    }

    /// The colour that slot `k` has at the current dot; 0 where it does not
    /// reach.
    pub open spec fn slot_color(self, k: int) -> u8 {
        if 0 <= self.slot_offset(k) <= 7 {
            ((self.sprite_patterns[k] >> (((7 - self.slot_offset(k)) * 4) as u32)) & 0x0F) as u8
        } else {
            0
        }
    }

    /// The first slot from `from` on that is opaque at the current dot, or
    /// the number of slots in use if there is none.
    pub open spec fn first_opaque(self, from: int) -> int
        decreases self.sprite_count - from,
    {
        if from >= self.sprite_count {
            self.sprite_count as int
        } else if self.slot_color(from) % 4 != 0 {
            from
        } else {
            self.first_opaque(from + 1)
        }
    }

    /// The slot and colour of the sprite pixel at the current dot; (0, 0)
    /// when sprites are not shown or none is opaque here.
    pub open spec fn sprite_pixel(self, regs: RegisterFile) -> (u8, u8) {
        if !regs.mask.show_sprites || self.first_opaque(0) >= self.sprite_count {
            (0u8, 0u8)
        } else {
            (self.first_opaque(0) as u8, self.slot_color(self.first_opaque(0)))
        }
    }

    /// The background colour after the left-edge mask.
    pub open spec fn masked_background(self, regs: RegisterFile) -> u8 {
        if self.cycle - 1 < 8 && !regs.mask.show_left_background {
            0
        } else {
            self.background_pixel(regs)
        }
    }

    /// The sprite colour after the left-edge mask.
    pub open spec fn masked_sprite(self, regs: RegisterFile) -> u8 {
        if self.cycle - 1 < 8 && !regs.mask.show_left_sprites {
            0
        } else {
            self.sprite_pixel(regs).1
        }
    }

    /// Whether both layers are opaque at the current dot.
    pub open spec fn layers_meet(self, regs: RegisterFile) -> bool {
        self.masked_background(regs) % 4 != 0 && self.masked_sprite(regs) % 4 != 0
    }

    /// Whether the current dot raises the sprite-zero flag: both layers are
    /// opaque, the sprite is entry 0 of sprite memory, and the dot is not in
    /// the last column.
    pub open spec fn hits_sprite_zero(self, regs: RegisterFile) -> bool {
        &&& self.layers_meet(regs)
        &&& self.sprite_indices[self.sprite_pixel(regs).0 as int] == 0
        &&& self.cycle - 1 < 255
    }

    /// The palette address of the current dot's colour.
    pub open spec fn pixel_color(self, regs: RegisterFile) -> u8 {
        let background = self.masked_background(regs);
        let sprite = self.masked_sprite(regs);
        if sprite % 4 == 0 {
            if background % 4 == 0 {
                0
            } else {
                background
            }
        } else if background % 4 == 0 {
            sprite | 0x10
        } else if self.sprite_priorities[self.sprite_pixel(regs).0 as int] == 0 {
            sprite | 0x10
        } else {
            background
        }
    }

    /// The renderer after it has drawn the current dot into the frame.
    pub open spec fn render_pixel(self, regs: RegisterFile) -> Renderer {
        Renderer {
            pixels: self.pixels.update(
                self.scanline * 256 + (self.cycle - 1),
                PALETTE[shown_index(
                    regs.read_palette(self.pixel_color(regs) as u16),
                    regs.mask.grayscale,
                ) as int],
            ),
            ..self
        }
    }
}

/// Renderer and register file together: what one dot works on.
#[verifier::ext_equal]
pub struct Machine {
    pub ppu: Renderer,
    pub regs: RegisterFile,
}

impl Machine {
    pub open spec fn wf(self) -> bool {
        self.ppu.wf() && self.regs.wf()
    }

    /// Whether either layer is drawn.
    pub open spec fn rendering(self) -> bool {
        self.regs.mask.rendering()
    }

    /// Housekeeping at the start of a dot: the interrupt delay counts down
    /// and the dot counter moves on.
    pub open spec fn tick(self) -> Machine {
        Machine { ppu: self.ppu.tick(self.rendering()), regs: self.regs.count_down() }
    }

    /// Draws the current dot, if it is a visible one and rendering is on.
    pub open spec fn draw(self) -> Machine {
        if self.rendering() && self.ppu.visibleline() && self.ppu.visible_cycle() {
            Machine {
                ppu: self.ppu.render_pixel(self.regs),
                regs: if self.ppu.hits_sprite_zero(self.regs) {
                    RegisterFile { sprite_zero_hit: true, ..self.regs }
                } else {
                    self.regs
                },
            }
        } else {
            self
        }
    }

    /// The background fetch of the current dot: the shift register moves on
    /// by one pixel, and the dot's place in its group of eight says what is
    /// fetched.
    pub open spec fn fetch<M: Mapper>(self, mapper: &M) -> Machine {
        if self.rendering() && self.ppu.renderline() && self.ppu.fetch_cycle() {
            let shifted = Renderer { tiledata: self.ppu.tiledata << 4, ..self.ppu };
            let phase = self.ppu.cycle % 8;
            Machine {
                ppu: if phase == 1 {
                    shifted.fetch_nametable_byte(self.regs, mapper)
                } else if phase == 3 {
                    shifted.fetch_attributetable_byte(self.regs, mapper)
                } else if phase == 5 {
                    shifted.fetch_lowtile_byte(self.regs, mapper)
                } else if phase == 7 {
                    shifted.fetch_hightile_byte(self.regs, mapper)
                } else if phase == 0 {
                    shifted.store_tiledata()
                } else {
                    shifted
                },
                regs: self.regs,
            }
        } else {
            self
        }
    }

    /// The scroll moves of the current dot.
    pub open spec fn scroll(self) -> Machine {
        if !self.rendering() {
            self
        } else {
            let p = self.ppu;
            let r1 = if p.preline() && 280 <= p.cycle <= 304 {
                self.regs.copy_y()
            } else {
                self.regs
            };
            let r2 = if p.renderline() && p.fetch_cycle() && p.cycle % 8 == 0 {
                r1.increment_x()
            } else {
                r1
            };
            let r3 = if p.renderline() && p.cycle == 256 {
                r2.increment_y()
            } else {
                r2
            };
            let r4 = if p.renderline() && p.cycle == 257 {
                r3.copy_x()
            } else {
                r3
            };
            Machine { ppu: p, regs: r4 }
        }
    }

    /// Sprite evaluation for the next scanline, at dot 257.
    pub open spec fn sprites<M: Mapper>(self, mapper: &M) -> Machine {
        if self.rendering() && self.ppu.cycle == 257 {
            if self.ppu.visibleline() {
                Machine {
                    ppu: self.ppu.evaluate_sprites(self.regs, mapper),
                    regs: if self.ppu.sprites_overflow(self.regs, mapper) {
                        RegisterFile { sprite_overflow: true, ..self.regs }
                    } else {
                        self.regs
                    },
                }
            } else {
                Machine { ppu: Renderer { sprite_count: 0, ..self.ppu }, regs: self.regs }
            }
        } else {
            self
        }
    }

    /// Whether the current dot is the one at which a finished frame is
    /// shown: dot 1 of scanline 241.
    pub open spec fn frame_due(self) -> bool {
        self.ppu.scanline == 241 && self.ppu.cycle == 1
    }

    /// Vertical blank begins at dot 1 of scanline 241 and ends at dot 1 of
    /// the pre-render line.
    pub open spec fn blank(self) -> Machine {
        let r1 = if self.frame_due() {
            self.regs.begin_vblank()
        } else {
            self.regs
        };
        let r2 = if self.ppu.preline() && self.ppu.cycle == 1 {
            r1.end_vblank()
        } else {
            r1
        };
        Machine { ppu: self.ppu, regs: r2 }
    }

    /// One dot.
    pub open spec fn step<M: Mapper>(self, mapper: &M) -> Machine {
        self.tick().draw().fetch(mapper).scroll().sprites(mapper).blank()
    }

    /// Whether this dot shows a frame.
    pub open spec fn shows_frame(self) -> bool {
        self.tick().frame_due()
    }

    /// The renderer after a reset: the dot counter at the last dot of the
    /// post-render line, and the register file reset.
    pub open spec fn reset(self) -> Machine {
        Machine {
            ppu: Renderer { cycle: 340, scanline: 240, ..self.ppu },
            regs: self.regs.reset(),
        }
    }
}

impl Machine {
    /// The machine after `n` dots.
    pub open spec fn steps<M: Mapper>(self, mapper: &M, n: nat) -> Machine
        decreases n,
    {
        if n == 0 {
            self
        } else {
            self.steps(mapper, (n - 1) as nat).step(mapper)
        }
    }

    /// The frames shown during `n` dots, oldest first.
    pub open spec fn frames_shown<M: Mapper>(self, mapper: &M, n: nat) -> Seq<Seq<u32>>
        decreases n,
    {
        if n == 0 {
            Seq::empty()
        } else {
            let earlier = self.frames_shown(mapper, (n - 1) as nat);
            let before = self.steps(mapper, (n - 1) as nat);
            if before.shows_frame() {
                earlier.push(before.step(mapper).ppu.pixels)
            } else {
                earlier
            }
        }
    }

    /// Whether any of `n` dots raises the interrupt.
    pub open spec fn raises<M: Mapper>(self, mapper: &M, n: nat) -> bool
        decreases n,
    {
        if n == 0 {
            false
        } else {
            self.raises(mapper, (n - 1) as nat) || self.steps(mapper, (n - 1) as nat).regs.fires()
        }
    }
}

} // verus!
