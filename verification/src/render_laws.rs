//! What holds of the renderer on every dot.

use vstd::prelude::*;
use crate::laws::lemma_reset_idempotent;
use crate::mapper::Mapper;
use crate::registers::RegisterFile;
use crate::render::{sprite_pattern, Machine, Renderer};

verus! {

/// A second reset changes nothing.
pub proof fn lemma_machine_reset_idempotent(m: Machine)
    ensures
        m.reset().reset() == m.reset(),
        m.reset().ppu.cycle == 340,
        m.reset().ppu.scanline == 240,
        m.reset().ppu.pixels == m.ppu.pixels,
{
    lemma_reset_idempotent(m.regs);
}

/// Between the tick and the end of a dot the dot counter stays where it is.
pub proof fn lemma_position_kept<M: Mapper>(ticked: Machine, mapper: &M)
    requires
        ticked.wf(),
    ensures
        ({
            let evaluated = ticked.draw().fetch(mapper).scroll().sprites(mapper);
            &&& evaluated.ppu.cycle == ticked.ppu.cycle
            &&& evaluated.ppu.scanline == ticked.ppu.scanline
            &&& evaluated.ppu.f == ticked.ppu.f
            &&& evaluated.blank().ppu == evaluated.ppu
        }),
{
    let drawn = ticked.draw();
    let fetched = drawn.fetch(mapper);
    let scrolled = fetched.scroll();
    lemma_scan_keeps(scrolled.ppu, scrolled.regs, mapper, 64);
}

/// Looking at sprites changes the slots and nothing else.
pub proof fn lemma_scan_keeps<M: Mapper>(r: Renderer, regs: RegisterFile, mapper: &M, n: nat)
    requires
        r.wf(),
        n <= 64,
    ensures
        ({
            let scanned = r.scan_sprites(regs, mapper, n);
            &&& scanned.cycle == r.cycle
            &&& scanned.scanline == r.scanline
            &&& scanned.f == r.f
            &&& scanned.tiledata == r.tiledata
            &&& scanned.nametable_byte == r.nametable_byte
            &&& scanned.attributetable_byte == r.attributetable_byte
            &&& scanned.lowtile_byte == r.lowtile_byte
            &&& scanned.hightile_byte == r.hightile_byte
            &&& scanned.pixels == r.pixels
            &&& 0 <= scanned.sprite_count <= n
            &&& scanned.sprite_patterns.len() == r.sprite_patterns.len()
            &&& scanned.sprite_positions.len() == r.sprite_positions.len()
            &&& scanned.sprite_priorities.len() == r.sprite_priorities.len()
            &&& scanned.sprite_indices.len() == r.sprite_indices.len()
        }),
    decreases n,
{
    if n > 0 {
        lemma_scan_keeps(r, regs, mapper, (n - 1) as nat);
    }
}

/// How many of the first `n` sprites the current scanline crosses.
pub open spec fn on_line_count(r: Renderer, regs: RegisterFile, n: nat) -> nat
    decreases n,
{
    if n == 0 {
        0
    } else {
        on_line_count(r, regs, (n - 1) as nat) + (if r.sprite_on_line(regs, (n - 1) as int) {
            1nat
        } else {
            0nat
        })
    }
}

/// Looking at sprites counts those on the line.
pub proof fn lemma_scan_counts<M: Mapper>(r: Renderer, regs: RegisterFile, mapper: &M, n: nat)
    requires
        r.wf(),
        n <= 64,
    ensures
        r.scan_sprites(regs, mapper, n).sprite_count == on_line_count(r, regs, n),
        on_line_count(r, regs, n) <= n,
    decreases n,
{
    if n > 0 {
        lemma_scan_counts(r, regs, mapper, (n - 1) as nat);
        lemma_scan_keeps(r, regs, mapper, (n - 1) as nat);
    }
}

/// The count of sprites on the line does not fall as more are looked at.
pub proof fn lemma_count_monotonic(r: Renderer, regs: RegisterFile, i: nat, n: nat)
    requires
        i <= n,
    ensures
        on_line_count(r, regs, i) <= on_line_count(r, regs, n),
    decreases n,
{
    if i < n {
        lemma_count_monotonic(r, regs, i, (n - 1) as nat);
    }
}

/// A sprite on the line with fewer than eight before it takes the slot of
/// its rank, and keeps it whatever follows.
pub proof fn lemma_slot_kept<M: Mapper>(
    r: Renderer,
    regs: RegisterFile,
    mapper: &M,
    i: nat,
    n: nat,
)
    requires
        r.wf(),
        i < n <= 64,
        r.sprite_on_line(regs, i as int),
        on_line_count(r, regs, i) < 8,
    ensures
        ({
            let k = on_line_count(r, regs, i) as int;
            let scanned = r.scan_sprites(regs, mapper, n);
            &&& scanned.sprite_indices[k] == i
            &&& scanned.sprite_positions[k] == regs.oam[4 * (i as int) + 3]
            &&& scanned.sprite_priorities[k] == (regs.oam[4 * (i as int) + 2] >> 5) & 1
            &&& scanned.sprite_patterns[k] == sprite_pattern(
                regs,
                mapper,
                i as int,
                r.sprite_row(regs, i as int),
            )
        }),
    decreases n,
{
    lemma_scan_counts(r, regs, mapper, i);
    lemma_scan_keeps(r, regs, mapper, i);
    if n > i + 1 {
        lemma_slot_kept(r, regs, mapper, i, (n - 1) as nat);
        lemma_scan_counts(r, regs, mapper, (n - 1) as nat);
        lemma_scan_keeps(r, regs, mapper, (n - 1) as nat);
        lemma_count_monotonic(r, regs, i + 1, (n - 1) as nat);
    }
}

/// Once eight sprites are collected, the slots stay as they are.
pub proof fn lemma_first_eight_stay<M: Mapper>(
    r: Renderer,
    regs: RegisterFile,
    mapper: &M,
    i: nat,
    n: nat,
)
    requires
        r.wf(),
        i <= n <= 64,
        on_line_count(r, regs, i) >= 8,
    ensures
        ({
            let early = r.scan_sprites(regs, mapper, i);
            let late = r.scan_sprites(regs, mapper, n);
            &&& late.sprite_indices == early.sprite_indices
            &&& late.sprite_positions == early.sprite_positions
            &&& late.sprite_priorities == early.sprite_priorities
            &&& late.sprite_patterns == early.sprite_patterns
        }),
    decreases n,
{
    if i < n {
        lemma_first_eight_stay(r, regs, mapper, i, (n - 1) as nat);
        lemma_scan_counts(r, regs, mapper, (n - 1) as nat);
        lemma_count_monotonic(r, regs, i, (n - 1) as nat);
    }
}

/// Sprite evaluation keeps the first eight sprites on the line and raises the
/// overflow flag exactly when there is a ninth; it lowers no flag.
pub proof fn lemma_sprite_overflow<M: Mapper>(m: Machine, mapper: &M)
    requires
        m.wf(),
        m.rendering(),
        m.ppu.cycle == 257,
        m.ppu.visibleline(),
    ensures
        ({
            let on_line = on_line_count(m.ppu, m.regs, 64);
            let after = m.sprites(mapper);
            &&& after.ppu.sprite_count == (if on_line > 8 { 8 } else { on_line as int })
            &&& after.regs.sprite_overflow == (m.regs.sprite_overflow || on_line >= 9)
            &&& after.regs == (RegisterFile {
                sprite_overflow: after.regs.sprite_overflow,
                ..m.regs
            })
        }),
{
    lemma_scan_counts(m.ppu, m.regs, mapper, 64);
}

/// A dot raises the sprite-zero flag only where both layers are opaque, the
/// sprite is entry 0 of sprite memory, and the column is not the last; and
/// drawing lowers no flag.
pub proof fn lemma_sprite_zero_hit(m: Machine)
    requires
        m.wf(),
    ensures
        m.draw().regs.sprite_zero_hit ==> m.regs.sprite_zero_hit || {
            &&& m.ppu.cycle - 1 != 255
            &&& m.ppu.masked_background(m.regs) % 4 != 0
            &&& m.ppu.masked_sprite(m.regs) % 4 != 0
            &&& m.ppu.sprite_indices[m.ppu.sprite_pixel(m.regs).0 as int] == 0
            &&& m.rendering()
            &&& m.ppu.visibleline()
        },
        m.regs.sprite_zero_hit ==> m.draw().regs.sprite_zero_hit,
{
}

/// Within a whole dot the sprite-zero flag rises only by drawing.
pub proof fn lemma_sprite_zero_hit_in_step<M: Mapper>(m: Machine, mapper: &M)
    requires
        m.wf(),
    ensures
        m.step(mapper).regs.sprite_zero_hit && !m.regs.sprite_zero_hit ==> {
            let t = m.tick();
            &&& t.ppu.hits_sprite_zero(t.regs)
            &&& t.ppu.cycle - 1 != 255
            &&& t.ppu.masked_background(t.regs) % 4 != 0
            &&& t.ppu.masked_sprite(t.regs) % 4 != 0
        },
{
}

} // verus!
