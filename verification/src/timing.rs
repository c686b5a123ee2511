//! How dots add up to scanlines and frames.

use vstd::prelude::*;
use crate::bits::{lemma_copies_bounded, lemma_increment_x_bounded, lemma_increment_y_bounded};
use crate::mapper::Mapper;
use crate::render_laws::lemma_scan_keeps;
use crate::registers::RegisterFile;
use crate::render::{Machine, Renderer};

verus! {

impl Renderer {
    /// How many dots into the frame the renderer is.
    pub open spec fn dot(self) -> int {
        self.scanline * 341 + self.cycle
    }

    /// The last dot of the frame being drawn: with rendering on, an odd
    /// frame is one dot short.
    pub open spec fn last_dot(self, rendering: bool) -> int {
        if rendering && self.f == 1 {
            89340
        } else {
            89341
        }
    }

    /// The renderer after `n` ticks of the dot counter.
    pub open spec fn ticks(self, rendering: bool, n: nat) -> Renderer
        decreases n,
    {
        if n == 0 {
            self
        } else {
            self.ticks(rendering, (n - 1) as nat).tick(rendering)
        }
    }
}

/// Ticking `a + b` times is ticking `a` times and then `b` times.
pub proof fn lemma_ticks_add(r: Renderer, rendering: bool, a: nat, b: nat)
    ensures
        r.ticks(rendering, a + b) == r.ticks(rendering, a).ticks(rendering, b),
    decreases b,
{
    if b > 0 {
        lemma_ticks_add(r, rendering, a, (b - 1) as nat);
        assert((a + b - 1) as nat == a + (b - 1) as nat);
    }
}

/// Within a frame each tick moves one dot on and changes nothing but the dot
/// counter.
pub proof fn lemma_ticks_within_frame(r: Renderer, rendering: bool, k: nat)
    requires
        r.wf(),
        r.dot() + k <= r.last_dot(rendering),
    ensures
        r.ticks(rendering, k).wf(),
        r.ticks(rendering, k).dot() == r.dot() + k,
        r.ticks(rendering, k) == (Renderer {
            cycle: r.ticks(rendering, k).cycle,
            scanline: r.ticks(rendering, k).scanline,
            ..r
        }),
    decreases k,
{
    if k > 0 {
        lemma_ticks_within_frame(r, rendering, (k - 1) as nat);
    }
}

/// The tick at the last dot of a frame begins the next frame, of the other
/// parity.
pub proof fn lemma_frame_wraps(r: Renderer, rendering: bool)
    requires
        r.wf(),
        r.dot() == r.last_dot(rendering),
    ensures
        r.tick(rendering) == (Renderer { cycle: 0, scanline: 0, f: (1 - r.f) as u8, ..r }),
{
    if rendering && r.f == 1 {
        assert(r.scanline == 261 && r.cycle == 339);
    } else {
        assert(r.scanline == 261 && r.cycle == 340);
    }
}

/// After 341 ticks the renderer is one scanline on, at the same dot of it,
/// and in the next frame if the line was the last. This holds wherever the
/// 341 ticks do not cross the short end of an odd frame.
pub proof fn lemma_line_lasts_341(r: Renderer, rendering: bool)
    requires
        r.wf(),
        !(rendering && r.f == 1 && r.dot() + 341 > 89340),
    ensures
        r.ticks(rendering, 341).cycle == r.cycle,
        r.ticks(rendering, 341).scanline == (if r.scanline == 261 {
            0
        } else {
            r.scanline + 1
        }),
        r.ticks(rendering, 341).f == (if r.scanline == 261 {
            1 - r.f
        } else {
            r.f as int
        }),
{
    if r.scanline < 261 {
        lemma_ticks_within_frame(r, rendering, 341);
    } else {
        let to_end = (340 - r.cycle) as nat;
        lemma_ticks_within_frame(r, rendering, to_end);
        let at_end = r.ticks(rendering, to_end);
        assert(at_end.scanline == 261 && at_end.cycle == 340);
        lemma_frame_wraps(at_end, rendering);
        let wrapped = at_end.tick(rendering);
        assert(wrapped == r.ticks(rendering, to_end + 1));
        lemma_ticks_within_frame(wrapped, rendering, r.cycle as nat);
        lemma_ticks_add(r, rendering, to_end + 1, r.cycle as nat);
        assert(to_end + 1 + r.cycle as nat == 341);
    }
}

/// With rendering on, the pre-render line of an odd frame lasts 340 dots:
/// from its first dot, 340 ticks reach the first dot of the next frame.
pub proof fn lemma_short_line_lasts_340(r: Renderer)
    requires
        r.wf(),
        r.f == 1,
        r.scanline == 261,
        r.cycle == 0,
    ensures
        r.ticks(true, 340) == (Renderer { cycle: 0, scanline: 0, f: 0, ..r }),
        r.ticks(true, 339).scanline == 261,
        r.ticks(true, 339).cycle == 339,
{
    lemma_ticks_within_frame(r, true, 339);
    lemma_frame_wraps(r.ticks(true, 339), true);
}

/// Where the dot counter stands `k` ticks after the dot at which a frame is
/// shown, up to the dot at which the next one is.
pub proof fn lemma_dot_after_frame(r: Renderer, rendering: bool, k: nat)
    requires
        r.wf(),
        r.scanline == 241,
        r.cycle == 1,
        k <= r.last_dot(rendering) + 1,
    ensures
        k <= r.last_dot(rendering) - 82182 ==> {
            &&& r.ticks(rendering, k).dot() == 82182 + k
            &&& r.ticks(rendering, k).f == r.f
        },
        k > r.last_dot(rendering) - 82182 ==> {
            &&& r.ticks(rendering, k).dot() == k - (r.last_dot(rendering) - 82182) - 1
            &&& r.ticks(rendering, k).f == 1 - r.f
        },
        r.ticks(rendering, k).wf(),
{
    let to_end = (r.last_dot(rendering) - 82182) as nat;
    if k <= to_end {
        lemma_ticks_within_frame(r, rendering, k);
    } else {
        lemma_ticks_within_frame(r, rendering, to_end);
        let at_end = r.ticks(rendering, to_end);
        lemma_frame_wraps(at_end, rendering);
        let wrapped = at_end.tick(rendering);
        assert(wrapped == r.ticks(rendering, to_end + 1));
        let rest = (k - to_end - 1) as nat;
        lemma_ticks_within_frame(wrapped, rendering, rest);
        lemma_ticks_add(r, rendering, to_end + 1, rest);
        assert(to_end + 1 + rest == k);
    }
}

/// The scroll moves keep the register file within its widths.
pub proof fn lemma_scroll_moves_wf(s: RegisterFile)
    requires
        s.wf(),
    ensures
        s.copy_y().wf(),
        s.copy_x().wf(),
        s.increment_x().wf(),
        s.increment_y().wf(),
{
    lemma_copies_bounded(s.v, s.t);
    lemma_increment_x_bounded(s.v);
    lemma_increment_y_bounded(s.v, 0);
    let cleared = s.v & 0x8FFF;
    let row = (cleared & 0x3E0) >> 5;
    let next: u16 = if row == 29 || row == 31 {
        0
    } else {
        (row + 1) as u16
    };
    lemma_increment_y_bounded(s.v, next);
}

/// What a phase of a dot leaves alone: the ranges of the data model, control
/// and mask, and the dot counter.
pub open spec fn phase_keeps(before: Machine, after: Machine) -> bool {
    &&& after.wf()
    &&& after.regs.mask == before.regs.mask
    &&& after.regs.control == before.regs.control
    &&& after.ppu.cycle == before.ppu.cycle
    &&& after.ppu.scanline == before.ppu.scanline
    &&& after.ppu.f == before.ppu.f
}

/// The tick keeps the machine within its ranges.
pub proof fn lemma_tick_wf(m: Machine)
    requires
        m.wf(),
    ensures
        m.tick().wf(),
        m.tick().regs.mask == m.regs.mask,
        m.tick().regs.control == m.regs.control,
{
}

/// Drawing keeps the machine within its ranges.
pub proof fn lemma_draw_wf(m: Machine)
    requires
        m.wf(),
    ensures
        phase_keeps(m, m.draw()),
{
}

/// The background fetch keeps the machine within its ranges.
pub proof fn lemma_fetch_wf<M: Mapper>(m: Machine, mapper: &M)
    requires
        m.wf(),
    ensures
        phase_keeps(m, m.fetch(mapper)),
{
}

/// The scroll moves of a dot keep the machine within its ranges.
pub proof fn lemma_scroll_wf(m: Machine)
    requires
        m.wf(),
    ensures
        phase_keeps(m, m.scroll()),
{
    let r0 = m.regs;
    lemma_scroll_moves_wf(r0);
    let r1 = if m.ppu.preline() && 280 <= m.ppu.cycle <= 304 {
        r0.copy_y()
    } else {
        r0
    };
    lemma_scroll_moves_wf(r1);
    let r2 = if m.ppu.renderline() && m.ppu.fetch_cycle() && m.ppu.cycle % 8 == 0 {
        r1.increment_x()
    } else {
        r1
    };
    lemma_scroll_moves_wf(r2);
    let r3 = if m.ppu.renderline() && m.ppu.cycle == 256 {
        r2.increment_y()
    } else {
        r2
    };
    lemma_scroll_moves_wf(r3);
}

/// Sprite evaluation keeps the machine within its ranges.
pub proof fn lemma_sprites_wf<M: Mapper>(m: Machine, mapper: &M)
    requires
        m.wf(),
    ensures
        phase_keeps(m, m.sprites(mapper)),
{
    lemma_scan_keeps(m.ppu, m.regs, mapper, 64);
}

/// The vertical-blank transitions keep the machine within its ranges.
pub proof fn lemma_blank_wf(m: Machine)
    requires
        m.wf(),
    ensures
        phase_keeps(m, m.blank()),
{
}

/// A dot keeps renderer and register file within their ranges, and leaves
/// control and mask as they are.
pub proof fn lemma_step_wf<M: Mapper>(m: Machine, mapper: &M)
    requires
        m.wf(),
    ensures
        m.step(mapper).wf(),
        m.step(mapper).regs.mask == m.regs.mask,
        m.step(mapper).regs.control == m.regs.control,
        m.step(mapper).ppu.cycle == m.ppu.tick(m.rendering()).cycle,
        m.step(mapper).ppu.scanline == m.ppu.tick(m.rendering()).scanline,
        m.step(mapper).ppu.f == m.ppu.tick(m.rendering()).f,
{
    let ticked = m.tick();
    lemma_tick_wf(m);
    let drawn = ticked.draw();
    lemma_draw_wf(ticked);
    let fetched = drawn.fetch(mapper);
    lemma_fetch_wf(drawn, mapper);
    let scrolled = fetched.scroll();
    lemma_scroll_wf(fetched);
    let evaluated = scrolled.sprites(mapper);
    lemma_sprites_wf(scrolled, mapper);
    lemma_blank_wf(evaluated);
    assert(m.step(mapper) == evaluated.blank());
}

/// Dots keep the machine within its ranges, leave control and mask as they
/// are, and move the dot counter as ticks alone would.
pub proof fn lemma_steps_tick<M: Mapper>(m: Machine, mapper: &M, n: nat)
    requires
        m.wf(),
    ensures
        m.steps(mapper, n).wf(),
        m.steps(mapper, n).regs.mask == m.regs.mask,
        m.steps(mapper, n).regs.control == m.regs.control,
        m.steps(mapper, n).ppu.cycle == m.ppu.ticks(m.rendering(), n).cycle,
        m.steps(mapper, n).ppu.scanline == m.ppu.ticks(m.rendering(), n).scanline,
        m.steps(mapper, n).ppu.f == m.ppu.ticks(m.rendering(), n).f,
    decreases n,
{
    if n > 0 {
        lemma_steps_tick(m, mapper, (n - 1) as nat);
        lemma_step_wf(m.steps(mapper, (n - 1) as nat), mapper);
    }
}

/// After 341 dots the machine is one scanline on, at the same dot of it,
/// wherever the 341 dots do not cross the short end of an odd frame.
pub proof fn lemma_scanline_advances<M: Mapper>(m: Machine, mapper: &M)
    requires
        m.wf(),
        !(m.rendering() && m.ppu.f == 1 && m.ppu.dot() + 341 > 89340),
    ensures
        m.steps(mapper, 341).ppu.cycle == m.ppu.cycle,
        m.steps(mapper, 341).ppu.scanline == (if m.ppu.scanline == 261 {
            0
        } else {
            m.ppu.scanline + 1
        }),
{
    lemma_steps_tick(m, mapper, 341);
    lemma_line_lasts_341(m.ppu, m.rendering());
}

/// With rendering on, 340 dots from the first dot of an odd frame's
/// pre-render line reach the first dot of the next frame.
pub proof fn lemma_short_line<M: Mapper>(m: Machine, mapper: &M)
    requires
        m.wf(),
        m.rendering(),
        m.ppu.f == 1,
        m.ppu.scanline == 261,
        m.ppu.cycle == 0,
    ensures
        m.steps(mapper, 340).ppu.cycle == 0,
        m.steps(mapper, 340).ppu.scanline == 0,
        m.steps(mapper, 340).ppu.f == 0,
{
    lemma_steps_tick(m, mapper, 340);
    lemma_short_line_lasts_340(m.ppu);
}

/// The dots from one shown frame to the next: a frame of full length, or one
/// dot less where rendering is on and the frame is odd.
pub open spec fn frame_period(m: Machine) -> nat {
    if m.rendering() && m.ppu.f == 1 {
        89341
    } else {
        89342
    }
}

/// No frame is shown during the first `k` dots after one was, for `k` short
/// of the frame period.
pub proof fn lemma_no_frame_between<M: Mapper>(m: Machine, mapper: &M, k: nat)
    requires
        m.wf(),
        m.ppu.scanline == 241,
        m.ppu.cycle == 1,
        k < frame_period(m),
    ensures
        m.frames_shown(mapper, k).len() == 0,
    decreases k,
{
    if k > 0 {
        lemma_no_frame_between(m, mapper, (k - 1) as nat);
        let before = m.steps(mapper, (k - 1) as nat);
        lemma_steps_tick(m, mapper, (k - 1) as nat);
        lemma_steps_tick(m, mapper, k);
        lemma_step_wf(before, mapper);
        lemma_dot_after_frame(m.ppu, m.rendering(), k);
        let now = m.ppu.ticks(m.rendering(), k);
        assert(now.dot() != 82182);
        assert(!(now.scanline == 241 && now.cycle == 1));
        assert(before.step(mapper).ppu.cycle == before.tick().ppu.cycle);
        assert(before.step(mapper).ppu.scanline == before.tick().ppu.scanline);
        assert(!before.shows_frame());
    }
}

/// From the dot at which a frame is shown, the next frame is shown exactly
/// one frame period later, and none before: one frame per period.
pub proof fn lemma_one_frame_per_period<M: Mapper>(m: Machine, mapper: &M)
    requires
        m.wf(),
        m.ppu.scanline == 241,
        m.ppu.cycle == 1,
    ensures
        m.frames_shown(mapper, frame_period(m)).len() == 1,
        forall|k: nat| k < frame_period(m) ==> (#[trigger] m.frames_shown(mapper, k)).len() == 0,
        m.steps(mapper, frame_period(m)).ppu.scanline == 241,
        m.steps(mapper, frame_period(m)).ppu.cycle == 1,
        m.steps(mapper, frame_period(m)).ppu.f == 1 - m.ppu.f,
{
    let period = frame_period(m);
    assert forall|k: nat| k < period implies (#[trigger] m.frames_shown(mapper, k)).len() == 0 by {
        lemma_no_frame_between(m, mapper, k);
    }
    let before = m.steps(mapper, (period - 1) as nat);
    lemma_steps_tick(m, mapper, (period - 1) as nat);
    lemma_steps_tick(m, mapper, period);
    lemma_step_wf(before, mapper);
    lemma_dot_after_frame(m.ppu, m.rendering(), period);
    let now = m.ppu.ticks(m.rendering(), period);
    assert(now.dot() == 82182);
    assert(now.scanline == 241 && now.cycle == 1);
    assert(before.step(mapper).ppu.cycle == before.tick().ppu.cycle);
    assert(before.step(mapper).ppu.scanline == before.tick().ppu.scanline);
    assert(before.shows_frame());
    lemma_no_frame_between(m, mapper, (period - 1) as nat);
}

} // verus!
