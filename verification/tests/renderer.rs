use ludus::bus::MemoryBus;
use ludus::mapper::{Mirroring, PatternRam};
use ludus::palette::{shown_color, PALETTE};
use ludus::ports::{FrameLog, FrameSlot, PixelBuffer};
use ludus::ppu::{pack_row, PPU};

fn machine() -> (PPU, MemoryBus<PatternRam>, FrameLog) {
    let mut m = MemoryBus::new(PatternRam::new(Mirroring::Horizontal));
    let ppu = PPU::new(&mut m);
    (ppu, m, FrameLog::new())
}

fn poke(m: &mut MemoryBus<PatternRam>, address: u16, value: u8) {
    m.ppu.write_register(&mut m.mapper, address, value);
}

fn store(m: &mut MemoryBus<PatternRam>, address: u16, bytes: &[u8]) {
    poke(m, 0x2000, 0x00);
    poke(m, 0x2006, (address >> 8) as u8);
    poke(m, 0x2006, (address & 0xFF) as u8);
    for b in bytes {
        poke(m, 0x2007, *b);
    }
}

fn sprite(m: &mut MemoryBus<PatternRam>, index: u8, y: u8, tile: u8, attributes: u8, x: u8) {
    poke(m, 0x2003, index * 4);
    poke(m, 0x2004, y);
    poke(m, 0x2004, tile);
    poke(m, 0x2004, attributes);
    poke(m, 0x2004, x);
}

fn run_to(ppu: &mut PPU, m: &mut MemoryBus<PatternRam>, log: &mut FrameLog, line: i32, dot: i32) {
    let mut guard: u32 = 0;
    while !(ppu.scanline() == line && ppu.cycle() == dot) {
        ppu.step(m, log);
        guard += 1;
        assert!(guard < 200_000);
    }
}

#[test]
fn reset_puts_the_counter_at_the_end_of_the_post_render_line() {
    let (ppu, m, _) = machine();
    assert_eq!(ppu.cycle(), 340);
    assert_eq!(ppu.scanline(), 240);
    assert_eq!(ppu.frame_parity(), 0);
    assert_eq!(ppu.sprite_count(), 0);
    assert_eq!(ppu.pixel(0, 0), 0);
    assert_eq!(ppu.pixel(255, 239), 0);
    assert_eq!(m.ppu.oam_address(), 0);
}

#[test]
fn interrupt_fires_once_fifteen_dots_after_vblank() {
    let (mut ppu, mut m, _) = machine();
    poke(&mut m, 0x2000, 0x80);
    m.ppu.begin_vblank();
    assert_eq!(m.ppu.nmi_delay(), 15);
    let mut raised = 0;
    for dot in 1..=15 {
        ppu.tick(&mut m);
        if m.cpu.take_nmi() {
            raised += 1;
            assert_eq!(dot, 15);
        }
    }
    assert_eq!(raised, 1);
    assert_eq!(m.ppu.nmi_delay(), 0);
    for _ in 0..100 {
        ppu.tick(&mut m);
        assert!(!m.cpu.take_nmi());
    }
}

#[test]
fn interrupt_does_not_fire_when_output_was_disabled_in_time() {
    let (mut ppu, mut m, _) = machine();
    poke(&mut m, 0x2000, 0x80);
    m.ppu.begin_vblank();
    for _ in 0..10 {
        ppu.tick(&mut m);
    }
    poke(&mut m, 0x2000, 0x00);
    for _ in 0..20 {
        ppu.tick(&mut m);
        assert!(!m.cpu.take_nmi());
    }
}

#[test]
fn vblank_begins_at_line_241_and_ends_at_the_pre_render_line() {
    let (mut ppu, mut m, mut log) = machine();
    poke(&mut m, 0x2000, 0x80);
    assert!(!ppu.step(&mut m, &mut log));
    assert_eq!((ppu.scanline(), ppu.cycle()), (241, 0));
    assert!(!m.ppu.nmi_occurred());
    assert!(ppu.step(&mut m, &mut log));
    assert_eq!((ppu.scanline(), ppu.cycle()), (241, 1));
    assert!(m.ppu.nmi_occurred());
    assert_eq!(m.ppu.nmi_delay(), 15);
    assert_eq!(log.count(), 1);
    m.ppu.set_sprite_overflow();
    m.ppu.set_sprite_zero_hit();
    run_to(&mut ppu, &mut m, &mut log, 261, 0);
    assert!(m.ppu.nmi_occurred());
    assert!(m.ppu.sprite_overflow());
    ppu.step(&mut m, &mut log);
    assert!(!m.ppu.nmi_occurred());
    assert!(!m.ppu.sprite_overflow());
    assert!(!m.ppu.sprite_zero_hit());
    assert!(m.cpu.nmi);
}

#[test]
fn a_scanline_lasts_341_dots() {
    let (mut ppu, mut m, _) = machine();
    for _ in 0..7 {
        ppu.tick(&mut m);
    }
    assert_eq!((ppu.scanline(), ppu.cycle()), (241, 6));
    for _ in 0..341 {
        ppu.tick(&mut m);
    }
    assert_eq!((ppu.scanline(), ppu.cycle()), (242, 6));
    for _ in 0..(341 * 19) {
        ppu.tick(&mut m);
    }
    assert_eq!((ppu.scanline(), ppu.cycle(), ppu.frame_parity()), (261, 6, 0));
    for _ in 0..341 {
        ppu.tick(&mut m);
    }
    assert_eq!((ppu.scanline(), ppu.cycle(), ppu.frame_parity()), (0, 6, 1));
}

#[test]
fn one_frame_per_341_times_262_dots_without_rendering() {
    let (mut ppu, mut m, mut log) = machine();
    let shown = ppu.run_dots(&mut m, &mut log, 341 * 262);
    assert_eq!(shown, 1);
    assert_eq!(log.count(), 1);
    assert_eq!((ppu.scanline(), ppu.cycle(), ppu.frame_parity()), (240, 340, 1));
    let shown = ppu.run_dots(&mut m, &mut log, 2 * 341 * 262);
    assert_eq!(shown, 2);
    assert_eq!(log.count(), 3);
    assert_eq!((ppu.scanline(), ppu.cycle(), ppu.frame_parity()), (240, 340, 1));
}

#[test]
fn odd_frame_is_one_dot_short_with_rendering() {
    let (mut ppu, mut m, mut log) = machine();
    run_to(&mut ppu, &mut m, &mut log, 0, 0);
    assert_eq!(ppu.frame_parity(), 1);
    run_to(&mut ppu, &mut m, &mut log, 261, 0);
    assert_eq!(ppu.frame_parity(), 1);
    poke(&mut m, 0x2001, 0x08);
    for _ in 0..339 {
        ppu.step(&mut m, &mut log);
    }
    assert_eq!((ppu.scanline(), ppu.cycle(), ppu.frame_parity()), (261, 339, 1));
    ppu.step(&mut m, &mut log);
    assert_eq!((ppu.scanline(), ppu.cycle(), ppu.frame_parity()), (0, 0, 0));
}

#[test]
fn even_frame_keeps_its_last_dot_with_rendering() {
    let (mut ppu, mut m, mut log) = machine();
    run_to(&mut ppu, &mut m, &mut log, 261, 339);
    assert_eq!(ppu.frame_parity(), 0);
    poke(&mut m, 0x2001, 0x08);
    ppu.step(&mut m, &mut log);
    assert_eq!((ppu.scanline(), ppu.cycle(), ppu.frame_parity()), (261, 340, 0));
    ppu.step(&mut m, &mut log);
    assert_eq!((ppu.scanline(), ppu.cycle(), ppu.frame_parity()), (0, 0, 1));
}

#[test]
fn odd_frame_keeps_its_last_dot_without_rendering() {
    let (mut ppu, mut m, mut log) = machine();
    run_to(&mut ppu, &mut m, &mut log, 0, 0);
    run_to(&mut ppu, &mut m, &mut log, 261, 339);
    assert_eq!(ppu.frame_parity(), 1);
    ppu.step(&mut m, &mut log);
    assert_eq!((ppu.scanline(), ppu.cycle(), ppu.frame_parity()), (261, 340, 1));
}

#[test]
fn frames_alternate_between_89342_and_89341_dots_with_rendering() {
    let (mut ppu, mut m, mut log) = machine();
    poke(&mut m, 0x2001, 0x08);
    run_to(&mut ppu, &mut m, &mut log, 241, 1);
    assert_eq!(log.count(), 1);
    assert_eq!(ppu.frame_parity(), 0);
    assert_eq!(ppu.run_dots(&mut m, &mut log, 89341), 0);
    assert_eq!(ppu.run_dots(&mut m, &mut log, 1), 1);
    assert_eq!((ppu.scanline(), ppu.cycle(), ppu.frame_parity()), (241, 1, 1));
    assert_eq!(ppu.run_dots(&mut m, &mut log, 89340), 0);
    assert_eq!(ppu.run_dots(&mut m, &mut log, 1), 1);
    assert_eq!((ppu.scanline(), ppu.cycle(), ppu.frame_parity()), (241, 1, 0));
    assert_eq!(log.count(), 3);
}

#[test]
fn backdrop_fills_the_frame() {
    let (mut ppu, mut m, mut log) = machine();
    store(&mut m, 0x3F00, &[0x0F]);
    poke(&mut m, 0x2001, 0x08);
    while log.count() < 2 {
        ppu.step(&mut m, &mut log);
    }
    assert_eq!(PALETTE[0x0F], 0xFF00_0000);
    for i in 0..(256 * 240) {
        assert_eq!(log.pixel(1, i), PALETTE[0x0F]);
    }
    for i in 0..(256 * 240) {
        assert_eq!(log.pixel(0, i), 0);
    }
}

#[test]
fn backdrop_colour_follows_the_palette_and_grayscale() {
    let (mut ppu, mut m, mut log) = machine();
    store(&mut m, 0x3F00, &[0x21]);
    poke(&mut m, 0x2001, 0x09);
    while log.count() < 2 {
        ppu.step(&mut m, &mut log);
    }
    assert_eq!(log.pixel(1, 0), PALETTE[0x20]);
    assert_eq!(log.pixel(1, 256 * 240 - 1), 0xFFFF_FFFF);
}

fn opaque_scene(sprite_x: u8, attributes: u8) -> (PPU, MemoryBus<PatternRam>, FrameLog) {
    let (ppu, mut m, log) = machine();
    store(&mut m, 0x0000, &[0xFF; 8]);
    store(&mut m, 0x0010, &[0xFF; 8]);
    store(&mut m, 0x3F00, &[0x0F, 0x11, 0x12, 0x13]);
    store(&mut m, 0x3F11, &[0x25]);
    for i in 0..64 {
        sprite(&mut m, i, 0xF0, 0, 0, 0);
    }
    sprite(&mut m, 0, 0, 1, attributes, sprite_x);
    poke(&mut m, 0x2003, 0);
    poke(&mut m, 0x2000, 0x00);
    poke(&mut m, 0x2006, 0x00);
    poke(&mut m, 0x2006, 0x00);
    (ppu, m, log)
}

#[test]
fn sprite_zero_hit_at_first_column_where_both_are_opaque() {
    let (mut ppu, mut m, mut log) = opaque_scene(0, 0x20);
    poke(&mut m, 0x2001, 0x1E);
    let mut guard: u32 = 0;
    while !m.ppu.sprite_zero_hit() {
        ppu.step(&mut m, &mut log);
        guard += 1;
        assert!(guard < 200_000);
    }
    assert_eq!((ppu.scanline(), ppu.cycle()), (1, 1));
    assert!(!m.ppu.sprite_overflow());
    assert_eq!(ppu.sprite_count(), 1);
    assert_eq!(ppu.sprite_index(0), 0);
    assert_eq!(ppu.sprite_slot_pattern(0), 0x1111_1111);
}

#[test]
fn sprite_behind_background_shows_the_background() {
    let (mut ppu, mut m, mut log) = opaque_scene(0, 0x20);
    poke(&mut m, 0x2001, 0x1E);
    while log.count() < 2 {
        ppu.step(&mut m, &mut log);
    }
    assert_eq!(log.pixel(1, 256), PALETTE[0x11]);
    assert_eq!(log.pixel(1, 256 + 100), PALETTE[0x11]);
}

#[test]
fn sprite_in_front_of_background_shows_the_sprite() {
    let (mut ppu, mut m, mut log) = opaque_scene(16, 0x00);
    poke(&mut m, 0x2001, 0x1E);
    while log.count() < 2 {
        ppu.step(&mut m, &mut log);
    }
    assert_eq!(log.pixel(1, 256 + 15), PALETTE[0x11]);
    assert_eq!(log.pixel(1, 256 + 16), PALETTE[0x25]);
    assert_eq!(log.pixel(1, 256 + 23), PALETTE[0x25]);
    assert_eq!(log.pixel(1, 256 + 24), PALETTE[0x11]);
    assert_eq!(log.pixel(1, 8 * 256 + 16), PALETTE[0x25]);
    assert_eq!(log.pixel(1, 9 * 256 + 16), PALETTE[0x11]);
    assert_eq!(log.pixel(1, 16), PALETTE[0x11]);
}

#[test]
fn sprite_zero_hit_skips_the_masked_left_columns() {
    let (mut ppu, mut m, mut log) = opaque_scene(4, 0x00);
    poke(&mut m, 0x2001, 0x18);
    let mut guard: u32 = 0;
    while !m.ppu.sprite_zero_hit() {
        ppu.step(&mut m, &mut log);
        guard += 1;
        assert!(guard < 200_000);
    }
    assert_eq!((ppu.scanline(), ppu.cycle()), (1, 9));
}

#[test]
fn sprite_zero_hit_never_in_the_last_column() {
    let (mut ppu, mut m, mut log) = opaque_scene(255, 0x00);
    poke(&mut m, 0x2001, 0x1E);
    while log.count() < 3 {
        ppu.step(&mut m, &mut log);
        assert!(!m.ppu.sprite_zero_hit());
    }
    assert_eq!(log.pixel(2, 256 + 255), PALETTE[0x25]);
}

#[test]
fn sprite_zero_hit_never_on_transparent_background() {
    let (mut ppu, mut m, mut log) = opaque_scene(0, 0x00);
    store(&mut m, 0x0000, &[0x00; 8]);
    poke(&mut m, 0x2006, 0x00);
    poke(&mut m, 0x2006, 0x00);
    poke(&mut m, 0x2001, 0x1E);
    while log.count() < 3 {
        ppu.step(&mut m, &mut log);
        assert!(!m.ppu.sprite_zero_hit());
    }
    assert_eq!(log.pixel(2, 256), PALETTE[0x25]);
    assert_eq!(log.pixel(2, 256 + 8), PALETTE[0x0F]);
}

#[test]
fn sprite_zero_hit_never_on_transparent_sprite() {
    let (mut ppu, mut m, mut log) = opaque_scene(0, 0x00);
    store(&mut m, 0x0010, &[0x00; 8]);
    poke(&mut m, 0x2006, 0x00);
    poke(&mut m, 0x2006, 0x00);
    poke(&mut m, 0x2001, 0x1E);
    while log.count() < 3 {
        ppu.step(&mut m, &mut log);
        assert!(!m.ppu.sprite_zero_hit());
    }
    assert_eq!(log.pixel(2, 256), PALETTE[0x11]);
}

#[test]
fn ninth_sprite_on_a_line_sets_overflow_and_keeps_the_first_eight() {
    let (mut ppu, mut m, _) = machine();
    for i in 0..64 {
        sprite(&mut m, i, 0, 0, 0, 0);
    }
    for i in 0..9u8 {
        sprite(&mut m, 10 + i, 236, i, 0x20 * (i % 2), 3 * i);
    }
    store(&mut m, 0x0000, &[0x80]);
    ppu.evaluate_sprites(&mut m);
    assert_eq!(ppu.sprite_count(), 8);
    assert!(m.ppu.sprite_overflow());
    for k in 0..8 {
        assert_eq!(ppu.sprite_index(k), 10 + k as u8);
    }
    assert_eq!(ppu.sprite_slot_pattern(0), 0);
}

#[test]
fn eight_sprites_on_a_line_do_not_overflow() {
    let (mut ppu, mut m, _) = machine();
    for i in 0..8u8 {
        sprite(&mut m, 2 * i, 233, 0, 0, i);
    }
    store(&mut m, 0x0007, &[0x81]);
    store(&mut m, 0x000F, &[0x01]);
    ppu.evaluate_sprites(&mut m);
    assert_eq!(ppu.sprite_count(), 8);
    assert!(!m.ppu.sprite_overflow());
    for k in 0..8 {
        assert_eq!(ppu.sprite_index(k), 2 * k as u8);
        assert_eq!(ppu.sprite_slot_pattern(k), 0x1000_0003);
    }
}

#[test]
fn sprites_off_the_line_are_skipped() {
    let (mut ppu, mut m, _) = machine();
    for i in 0..64 {
        sprite(&mut m, i, 0, 0, 0, 0);
    }
    sprite(&mut m, 5, 232, 0, 0, 0);
    sprite(&mut m, 6, 233, 0, 0, 0);
    sprite(&mut m, 7, 240, 0, 0, 0);
    sprite(&mut m, 8, 241, 0, 0, 0);
    ppu.evaluate_sprites(&mut m);
    assert_eq!(ppu.sprite_count(), 2);
    assert_eq!(ppu.sprite_index(0), 6);
    assert_eq!(ppu.sprite_index(1), 7);
    poke(&mut m, 0x2000, 0x20);
    ppu.evaluate_sprites(&mut m);
    assert_eq!(ppu.sprite_count(), 3);
    assert_eq!(ppu.sprite_index(0), 5);
}

#[test]
fn tall_flipped_sprite_fetches_from_table_one() {
    let (ppu, mut m, _) = machine();
    store(&mut m, 0x1017, &[0x80]);
    store(&mut m, 0x1007, &[0x01]);
    store(&mut m, 0x1018, &[0x40]);
    store(&mut m, 0x1000, &[0x02]);
    store(&mut m, 0x0017, &[0xFF]);
    store(&mut m, 0x0007, &[0xFF]);
    sprite(&mut m, 0, 0, 0x01, 0x80, 0);
    poke(&mut m, 0x2000, 0x20);
    assert_eq!(ppu.fetch_sprite_pattern(&m, 0, 0), 0x1000_0000);
    assert_eq!(ppu.fetch_sprite_pattern(&m, 0, 7), 0x0200_0000);
    assert_eq!(ppu.fetch_sprite_pattern(&m, 0, 8), 0x0000_0001);
    assert_eq!(ppu.fetch_sprite_pattern(&m, 0, 15), 0x0000_0010);
    assert_eq!(ppu.fetch_sprite_pattern(&m, 0, 1), 0);
}

#[test]
fn small_sprite_rows_and_flips() {
    let (ppu, mut m, _) = machine();
    store(&mut m, 0x1032, &[0xC0]);
    store(&mut m, 0x103A, &[0x80]);
    store(&mut m, 0x1035, &[0x01]);
    sprite(&mut m, 3, 0, 0x03, 0x02, 0);
    poke(&mut m, 0x2000, 0x08);
    assert_eq!(ppu.fetch_sprite_pattern(&m, 3, 2), 0xB988_8888);
    assert_eq!(ppu.fetch_sprite_pattern(&m, 3, 5), 0x8888_8889);
    sprite(&mut m, 3, 0, 0x03, 0x42, 0);
    assert_eq!(ppu.fetch_sprite_pattern(&m, 3, 2), 0x8888_889B);
    sprite(&mut m, 3, 0, 0x03, 0x82, 0);
    assert_eq!(ppu.fetch_sprite_pattern(&m, 3, 2), 0x8888_8889);
    assert_eq!(ppu.fetch_sprite_pattern(&m, 3, 5), 0xB988_8888);
}

#[test]
fn rows_pack_leftmost_pixel_on_top() {
    assert_eq!(pack_row(0x0C, 0x81, 0x01, false), 0xDCCC_CCCF);
    assert_eq!(pack_row(0x0C, 0x81, 0x01, true), 0xFCCC_CCCD);
    assert_eq!(pack_row(0x00, 0x00, 0x00, false), 0);
    assert_eq!(pack_row(0x04, 0xFF, 0xFF, true), 0x7777_7777);
    assert_eq!(pack_row(0x00, 0xF0, 0x3C, false), 0x1133_2200);
}

#[test]
fn shown_colour_takes_six_bits_and_grayscale_two() {
    assert_eq!(shown_color(0x0F, false), 0xFF00_0000);
    assert_eq!(shown_color(0xE1, false), 0xFF3F_BFFF);
    assert_eq!(shown_color(0xE1, true), 0xFFFF_FFFF);
    assert_eq!(shown_color(0x00, true), 0xFF75_7575);
    assert_eq!(shown_color(0x3F, true), PALETTE[0x30]);
    assert_eq!(shown_color(0x16, false), 0xFFDB_2B00);
}

#[test]
fn clear_vbuffers_zeroes_the_frame_and_reset_keeps_it() {
    let (mut ppu, mut m, mut log) = machine();
    store(&mut m, 0x3F00, &[0x0F]);
    poke(&mut m, 0x2001, 0x08);
    run_to(&mut ppu, &mut m, &mut log, 10, 0);
    assert_eq!(ppu.pixel(0, 0), 0xFF00_0000);
    ppu.reset(&mut m);
    assert_eq!(ppu.pixel(0, 0), 0xFF00_0000);
    assert_eq!((ppu.scanline(), ppu.cycle()), (240, 340));
    ppu.clear_vbuffers();
    assert_eq!(ppu.pixel(0, 0), 0);
    assert_eq!(ppu.pixel(255, 9), 0);
}

#[test]
fn update_window_shows_the_frame_as_it_stands() {
    let (mut ppu, mut m, mut log) = machine();
    store(&mut m, 0x3F00, &[0x16]);
    poke(&mut m, 0x2001, 0x08);
    run_to(&mut ppu, &mut m, &mut log, 1, 0);
    assert_eq!(log.count(), 1);
    ppu.update_window(&mut log);
    assert_eq!(log.count(), 2);
    assert_eq!(log.pixel(1, 0), 0xFFDB_2B00);
    assert_eq!(log.pixel(1, 255), 0xFFDB_2B00);
    assert_eq!(log.pixel(1, 256), 0);
}

#[test]
fn pixel_buffer_is_row_major() {
    let mut buffer = PixelBuffer::new();
    buffer.write(3, 2, 0xFF12_3456);
    assert_eq!(buffer.pixel(3, 2), 0xFF12_3456);
    assert_eq!(buffer.pixel(2, 3), 0);
    let pixels = buffer.to_vec();
    assert_eq!(pixels.len(), 256 * 240);
    assert_eq!(pixels[2 * 256 + 3], 0xFF12_3456);
}

#[test]
fn scroll_registers_move_during_rendering() {
    let (mut ppu, mut m, mut log) = machine();
    poke(&mut m, 0x2001, 0x08);
    run_to(&mut ppu, &mut m, &mut log, 261, 304);
    assert_eq!(m.ppu.v(), 0);
    run_to(&mut ppu, &mut m, &mut log, 0, 255);
    let before = m.ppu.v();
    assert_eq!(before & 0x7000, 0);
    ppu.step(&mut m, &mut log);
    assert_eq!(m.ppu.v() & 0x7000, 0x1000);
    ppu.step(&mut m, &mut log);
    assert_eq!(m.ppu.v(), 0x1000);
}

#[test]
fn frame_slot_keeps_the_latest_frame() {
    let mut m = MemoryBus::new(PatternRam::new(Mirroring::Horizontal));
    let mut ppu = PPU::new(&mut m);
    let mut slot = FrameSlot::new();
    assert!(!slot.take_fresh());
    assert_eq!(slot.latest().len(), 0);
    store(&mut m, 0x3F00, &[0x16]);
    poke(&mut m, 0x2001, 0x08);
    assert_eq!(ppu.run_dots(&mut m, &mut slot, 2), 1);
    assert!(slot.take_fresh());
    assert!(!slot.take_fresh());
    assert_eq!(slot.latest().len(), 256 * 240);
    assert_eq!(slot.latest()[0], 0);
    assert_eq!(ppu.run_dots(&mut m, &mut slot, 89342), 1);
    assert!(slot.take_fresh());
    assert_eq!(slot.latest()[0], 0xFFDB_2B00);
    assert_eq!(slot.latest()[256 * 240 - 1], 0xFFDB_2B00);
}

#[test]
fn every_palette_colour_is_opaque() {
    assert_eq!(PALETTE.len(), 64);
    for argb in PALETTE {
        assert_eq!(argb >> 24, 0xFF);
    }
    assert_eq!(PALETTE[0x00], 0xFF75_7575);
    assert_eq!(PALETTE[0x3C], 0xFF9F_FFF3);
}
