use ludus::bus::MemoryBus;
use ludus::mapper::{Mapper, Mirroring, PatternRam};
use ludus::ppu::PPU;

fn bus(mode: Mirroring) -> MemoryBus<PatternRam> {
    MemoryBus::new(PatternRam::new(mode))
}

fn write(m: &mut MemoryBus<PatternRam>, address: u16, value: u8) {
    m.ppu.write_register(&mut m.mapper, address, value);
}

fn read(m: &mut MemoryBus<PatternRam>, address: u16) -> u8 {
    m.ppu.read_register(&m.mapper, address)
}

#[test]
fn power_on_state_is_zero() {
    let m = bus(Mirroring::Horizontal);
    assert_eq!(m.ppu.v(), 0);
    assert_eq!(m.ppu.t(), 0);
    assert_eq!(m.ppu.w(), 0);
    assert_eq!(m.ppu.fine_x(), 0);
    assert_eq!(m.ppu.nmi_delay(), 0);
    assert!(!m.ppu.nmi_occurred());
    assert!(!m.ppu.nmi_output());
    assert_eq!(m.ppu.oam_address(), 0);
    assert_eq!(m.ppu.buffer_data(), 0);
    assert_eq!(m.ppu.oam_byte(0), 0);
    assert_eq!(m.ppu.oam_byte(255), 0);
    assert_eq!(m.ppu.nametable_byte(2047), 0);
    assert_eq!(m.ppu.read_palette(31), 0);
    assert!(!m.cpu.nmi);
}

#[test]
fn status_read_reports_vblank_and_clears_toggle() {
    let mut m = bus(Mirroring::Horizontal);
    write(&mut m, 0x2005, 0x7D);
    assert_eq!(m.ppu.w(), 1);
    m.ppu.begin_vblank();
    assert!(m.ppu.nmi_occurred());
    let first = read(&mut m, 0x2002);
    assert_eq!(first, 0x9D);
    assert_eq!(m.ppu.w(), 0);
    assert!(!m.ppu.nmi_occurred());
    let second = read(&mut m, 0x2002);
    assert_eq!(second, 0x1D);
    assert_eq!(m.ppu.w(), 0);
}

#[test]
fn status_read_reports_sprite_flags() {
    let mut m = bus(Mirroring::Horizontal);
    m.ppu.set_sprite_overflow();
    assert_eq!(read(&mut m, 0x2002), 0x20);
    m.ppu.set_sprite_zero_hit();
    assert_eq!(read(&mut m, 0x2002), 0x60);
    m.ppu.end_vblank();
    assert_eq!(read(&mut m, 0x2002), 0x00);
}

#[test]
fn address_pair_loads_fourteen_bits() {
    let mut m = bus(Mirroring::Horizontal);
    write(&mut m, 0x2006, 0xFF);
    assert_eq!(m.ppu.w(), 1);
    assert_eq!(m.ppu.t(), 0x3F00);
    assert_eq!(m.ppu.v(), 0);
    write(&mut m, 0x2006, 0x34);
    assert_eq!(m.ppu.w(), 0);
    assert_eq!(m.ppu.v(), 0x3F34);
    assert_eq!(m.ppu.t(), 0x3F34);
}

#[test]
fn scroll_pair_then_status_then_first_write() {
    let mut m = bus(Mirroring::Horizontal);
    write(&mut m, 0x2005, 0xAB);
    assert_eq!(m.ppu.t(), 0x0015);
    assert_eq!(m.ppu.fine_x(), 3);
    assert_eq!(m.ppu.w(), 1);
    write(&mut m, 0x2005, 0xCD);
    assert_eq!(m.ppu.t(), 0x5335);
    assert_eq!(m.ppu.w(), 0);
    read(&mut m, 0x2002);
    assert_eq!(m.ppu.w(), 0);
    write(&mut m, 0x2005, 0x7D);
    assert_eq!(m.ppu.w(), 1);
    assert_eq!(m.ppu.fine_x(), 5);
    assert_eq!(m.ppu.t(), 0x532F);
}

#[test]
fn status_read_between_scroll_writes_restarts_the_pair() {
    let mut m = bus(Mirroring::Horizontal);
    write(&mut m, 0x2005, 0xFF);
    assert_eq!(m.ppu.w(), 1);
    read(&mut m, 0x2002);
    write(&mut m, 0x2005, 0x08);
    assert_eq!(m.ppu.w(), 1);
    assert_eq!(m.ppu.t(), 0x0001);
    assert_eq!(m.ppu.fine_x(), 0);
}

#[test]
fn palette_aliases_read_the_same_cell() {
    let mut m = bus(Mirroring::Horizontal);
    let pairs: [(u16, u16, u8); 4] =
        [(0x10, 0x00, 0x2A), (0x04, 0x14, 0x11), (0x18, 0x08, 0x3C), (0x0C, 0x1C, 0x07)];
    for (written, alias, value) in pairs {
        write(&mut m, 0x2006, 0x3F);
        write(&mut m, 0x2006, written as u8);
        write(&mut m, 0x2007, value);
        assert_eq!(m.ppu.read_palette(written), value);
        assert_eq!(m.ppu.read_palette(alias), value);
    }
    assert_eq!(m.ppu.read_palette(0x10), m.ppu.read_palette(0x00));
    assert_eq!(m.ppu.read_palette(0x14), m.ppu.read_palette(0x04));
    assert_eq!(m.ppu.read_palette(0x18), m.ppu.read_palette(0x08));
    assert_eq!(m.ppu.read_palette(0x1C), m.ppu.read_palette(0x0C));
}

#[test]
fn palette_cells_off_the_aliases_are_distinct() {
    let mut m = bus(Mirroring::Horizontal);
    m.ppu.write_palette(0x11, 0x21);
    m.ppu.write_palette(0x01, 0x22);
    assert_eq!(m.ppu.read_palette(0x11), 0x21);
    assert_eq!(m.ppu.read_palette(0x01), 0x22);
    m.ppu.write_palette(0x1F, 0x3F);
    assert_eq!(m.ppu.read_palette(0x1F), 0x3F);
    assert_eq!(m.ppu.read_palette(0x0F), 0);
}

#[test]
fn palette_range_mirrors_every_32_bytes() {
    let mut m = bus(Mirroring::Horizontal);
    write(&mut m, 0x2006, 0x3F);
    write(&mut m, 0x2006, 0xE5);
    write(&mut m, 0x2007, 0x19);
    assert_eq!(m.ppu.read_palette(0x05), 0x19);
    assert_eq!(m.ppu.read(&m.mapper, 0x3F05), 0x19);
    assert_eq!(m.ppu.read(&m.mapper, 0x7F25), 0x19);
}

#[test]
fn two_resets_leave_the_same_registers() {
    let mut m = bus(Mirroring::Horizontal);
    let mut ppu = PPU::new(&mut m);
    write(&mut m, 0x2000, 0xFF);
    write(&mut m, 0x2001, 0xFF);
    write(&mut m, 0x2003, 0x40);
    write(&mut m, 0x2005, 0x55);
    ppu.reset(&mut m);
    let once = (
        m.ppu.control(),
        m.ppu.mask(),
        m.ppu.oam_address(),
        m.ppu.t(),
        m.ppu.v(),
        m.ppu.w(),
        m.ppu.fine_x(),
        m.ppu.nmi_output(),
        m.ppu.nmi_delay(),
        ppu.cycle(),
        ppu.scanline(),
    );
    ppu.reset(&mut m);
    let twice = (
        m.ppu.control(),
        m.ppu.mask(),
        m.ppu.oam_address(),
        m.ppu.t(),
        m.ppu.v(),
        m.ppu.w(),
        m.ppu.fine_x(),
        m.ppu.nmi_output(),
        m.ppu.nmi_delay(),
        ppu.cycle(),
        ppu.scanline(),
    );
    assert_eq!(once, twice);
    assert_eq!(m.ppu.oam_address(), 0);
    assert!(!m.ppu.nmi_output());
    assert!(!m.ppu.control().increment);
    assert!(!m.ppu.mask().show_background);
    assert_eq!(m.ppu.t(), 0x000A);
    assert_eq!(ppu.cycle(), 340);
    assert_eq!(ppu.scanline(), 240);
}

#[test]
fn data_reads_come_round_after_0x4000() {
    let mut m = bus(Mirroring::Vertical);
    write(&mut m, 0x2006, 0x21);
    write(&mut m, 0x2006, 0x23);
    assert_eq!(m.ppu.v(), 0x2123);
    for _ in 0..0x4000 {
        read(&mut m, 0x2007);
    }
    assert_eq!(m.ppu.v(), 0x2123);
    write(&mut m, 0x2000, 0x04);
    for _ in 0..0x4000 {
        read(&mut m, 0x2007);
    }
    assert_eq!(m.ppu.v(), 0x2123);
}

#[test]
fn data_access_steps_by_one_or_thirty_two() {
    let mut m = bus(Mirroring::Horizontal);
    write(&mut m, 0x2006, 0x3F);
    write(&mut m, 0x2006, 0xFF);
    read(&mut m, 0x2007);
    assert_eq!(m.ppu.v(), 0x0000);
    write(&mut m, 0x2000, 0x04);
    write(&mut m, 0x2006, 0x3F);
    write(&mut m, 0x2006, 0xF0);
    write(&mut m, 0x2007, 0x01);
    assert_eq!(m.ppu.v(), 0x0010);
}

#[test]
fn increment_x_wraps_at_column_31() {
    let mut m = bus(Mirroring::Horizontal);
    write(&mut m, 0x2006, 0x00);
    write(&mut m, 0x2006, 0x1F);
    m.ppu.increment_x();
    assert_eq!(m.ppu.v(), 0x0400);
    write(&mut m, 0x2006, 0x04);
    write(&mut m, 0x2006, 0x1F);
    m.ppu.increment_x();
    assert_eq!(m.ppu.v(), 0x0000);
    write(&mut m, 0x2006, 0x00);
    write(&mut m, 0x2006, 0x05);
    m.ppu.increment_x();
    assert_eq!(m.ppu.v(), 0x0006);
}

fn load_vertical(m: &mut MemoryBus<PatternRam>, second: u8) {
    read(m, 0x2002);
    write(m, 0x2005, 0x00);
    write(m, 0x2005, second);
    m.ppu.copy_y();
}

#[test]
fn increment_y_wraps_at_rows_29_and_31() {
    let mut m = bus(Mirroring::Horizontal);
    load_vertical(&mut m, 0xEF);
    assert_eq!(m.ppu.v(), 0x73A0);
    m.ppu.increment_y();
    assert_eq!(m.ppu.v(), 0x0800);

    load_vertical(&mut m, 0xFF);
    assert_eq!(m.ppu.v(), 0x73E0);
    m.ppu.increment_y();
    assert_eq!(m.ppu.v(), 0x0000);

    load_vertical(&mut m, 0x2F);
    assert_eq!(m.ppu.v(), 0x70A0);
    m.ppu.increment_y();
    assert_eq!(m.ppu.v(), 0x00C0);

    load_vertical(&mut m, 0x00);
    assert_eq!(m.ppu.v(), 0x0000);
    m.ppu.increment_y();
    assert_eq!(m.ppu.v(), 0x1000);
}

#[test]
fn copy_x_takes_the_horizontal_bits() {
    let mut m = bus(Mirroring::Horizontal);
    write(&mut m, 0x2006, 0x3B);
    write(&mut m, 0x2006, 0xE0);
    assert_eq!(m.ppu.v(), 0x3BE0);
    write(&mut m, 0x2000, 0x01);
    write(&mut m, 0x2005, 0xFF);
    assert_eq!(m.ppu.t(), 0x37FF);
    m.ppu.copy_x();
    assert_eq!(m.ppu.v(), 0x3FFF);
}

#[test]
fn oam_data_write_post_increments_with_wrap() {
    let mut m = bus(Mirroring::Horizontal);
    write(&mut m, 0x2003, 0xFF);
    write(&mut m, 0x2004, 0x77);
    assert_eq!(m.ppu.oam_byte(255), 0x77);
    assert_eq!(m.ppu.oam_address(), 0);
    write(&mut m, 0x2004, 0x12);
    assert_eq!(m.ppu.oam_byte(0), 0x12);
    assert_eq!(m.ppu.oam_address(), 1);
    write(&mut m, 0x2003, 0x00);
    assert_eq!(read(&mut m, 0x2004), 0x12);
    assert_eq!(read(&mut m, 0x2004), 0x12);
    assert_eq!(m.ppu.oam_address(), 0);
}

#[test]
fn control_write_decomposes_bits() {
    let mut m = bus(Mirroring::Horizontal);
    write(&mut m, 0x2000, 0xFF);
    let c = m.ppu.control();
    assert_eq!(c.nametable, 3);
    assert!(c.increment && c.sprite_table && c.background_table);
    assert!(c.sprite_size && c.master_slave);
    assert!(m.ppu.nmi_output());
    assert_eq!(m.ppu.t(), 0x0C00);
    write(&mut m, 0x2000, 0x01);
    let c = m.ppu.control();
    assert_eq!(c.nametable, 1);
    assert!(!c.increment && !c.sprite_table && !c.background_table);
    assert!(!c.sprite_size && !c.master_slave);
    assert!(!m.ppu.nmi_output());
    assert_eq!(m.ppu.t(), 0x0400);
}

#[test]
fn mask_write_decomposes_bits() {
    let mut m = bus(Mirroring::Horizontal);
    write(&mut m, 0x2001, 0x15);
    let k = m.ppu.mask();
    assert!(k.grayscale && k.show_left_sprites && k.show_sprites);
    assert!(!k.show_left_background && !k.show_background);
    assert!(!k.red_tint && !k.green_tint && !k.blue_tint);
    write(&mut m, 0x2001, 0xEA);
    let k = m.ppu.mask();
    assert!(!k.grayscale && !k.show_left_sprites && !k.show_sprites);
    assert!(k.show_left_background && k.show_background);
    assert!(k.red_tint && k.green_tint && k.blue_tint);
}

#[test]
fn data_writes_with_step_32_land_32_apart() {
    let mut m = bus(Mirroring::Horizontal);
    write(&mut m, 0x2000, 0x04);
    write(&mut m, 0x2006, 0x20);
    write(&mut m, 0x2006, 0x00);
    write(&mut m, 0x2007, 0xAA);
    write(&mut m, 0x2007, 0xBB);
    assert_eq!(m.ppu.nametable_byte(0), 0xAA);
    assert_eq!(m.ppu.nametable_byte(32), 0xBB);
    assert_eq!(m.ppu.nametable_byte(1), 0);
    assert_eq!(m.ppu.v(), 0x2040);
}

#[test]
fn data_reads_are_buffered_below_the_palettes() {
    let mut m = bus(Mirroring::Horizontal);
    write(&mut m, 0x2006, 0x20);
    write(&mut m, 0x2006, 0x00);
    write(&mut m, 0x2007, 0xAA);
    write(&mut m, 0x2007, 0xBB);
    write(&mut m, 0x2006, 0x20);
    write(&mut m, 0x2006, 0x00);
    assert_eq!(read(&mut m, 0x2007), 0x00);
    assert_eq!(read(&mut m, 0x2007), 0xAA);
    assert_eq!(read(&mut m, 0x2007), 0xBB);
}

#[test]
fn palette_reads_are_immediate_and_refill_the_buffer() {
    let mut m = bus(Mirroring::Horizontal);
    write(&mut m, 0x2006, 0x2F);
    write(&mut m, 0x2006, 0x00);
    write(&mut m, 0x2007, 0x5C);
    write(&mut m, 0x2006, 0x3F);
    write(&mut m, 0x2006, 0x00);
    write(&mut m, 0x2007, 0x0F);
    write(&mut m, 0x2006, 0x3F);
    write(&mut m, 0x2006, 0x00);
    assert_eq!(read(&mut m, 0x2007), 0x0F);
    assert_eq!(m.ppu.buffer_data(), 0x5C);
}

#[test]
fn data_write_to_pattern_table_reaches_the_mapper() {
    let mut m = bus(Mirroring::Horizontal);
    write(&mut m, 0x2006, 0x00);
    write(&mut m, 0x2006, 0x10);
    write(&mut m, 0x2007, 0x5A);
    assert_eq!(m.mapper.read(0x0010), 0x5A);
    assert_eq!(m.mapper.read(0x0011), 0x00);
    assert_eq!(m.ppu.read(&m.mapper, 0x4010), 0x5A);
    assert_eq!(m.ppu.nametable_byte(0x10), 0);
}

#[test]
fn unlisted_registers_read_zero_and_writes_are_latched() {
    let mut m = bus(Mirroring::Horizontal);
    write(&mut m, 0x2002, 0xFF);
    assert_eq!(read(&mut m, 0x2000), 0);
    assert_eq!(read(&mut m, 0x2001), 0);
    assert_eq!(read(&mut m, 0x2005), 0);
    assert_eq!(read(&mut m, 0x2002), 0x1F);
}

#[test]
fn mirroring_folds_each_mode() {
    assert_eq!(Mirroring::Horizontal.mirror_address(0x2000), 0x000);
    assert_eq!(Mirroring::Horizontal.mirror_address(0x2405), 0x005);
    assert_eq!(Mirroring::Horizontal.mirror_address(0x2800), 0x400);
    assert_eq!(Mirroring::Horizontal.mirror_address(0x2FFF), 0x7FF);
    assert_eq!(Mirroring::Vertical.mirror_address(0x2000), 0x000);
    assert_eq!(Mirroring::Vertical.mirror_address(0x2405), 0x405);
    assert_eq!(Mirroring::Vertical.mirror_address(0x2800), 0x000);
    assert_eq!(Mirroring::Vertical.mirror_address(0x2FFF), 0x7FF);
    assert_eq!(Mirroring::SingleLower.mirror_address(0x2C33), 0x033);
    assert_eq!(Mirroring::SingleLower.mirror_address(0x2433), 0x033);
    assert_eq!(Mirroring::SingleUpper.mirror_address(0x2033), 0x433);
    assert_eq!(Mirroring::SingleUpper.mirror_address(0x2C33), 0x433);
    assert_eq!(Mirroring::Horizontal.mirror_address(0x3005), 0x005);
    assert_eq!(Mirroring::Vertical.mirror_address(0x3EFF), 0x6FF);
}

#[test]
fn nametable_writes_follow_the_mirroring_mode() {
    let mut h = bus(Mirroring::Horizontal);
    write(&mut h, 0x2006, 0x24);
    write(&mut h, 0x2006, 0x07);
    write(&mut h, 0x2007, 0x66);
    assert_eq!(h.ppu.nametable_byte(0x007), 0x66);
    assert_eq!(h.ppu.read(&h.mapper, 0x2007), 0x66);
    assert_eq!(h.ppu.read(&h.mapper, 0x2807), 0x00);

    let mut v = bus(Mirroring::Vertical);
    write(&mut v, 0x2006, 0x24);
    write(&mut v, 0x2006, 0x07);
    write(&mut v, 0x2007, 0x66);
    assert_eq!(v.ppu.nametable_byte(0x407), 0x66);
    assert_eq!(v.ppu.read(&v.mapper, 0x2C07), 0x66);
    assert_eq!(v.ppu.read(&v.mapper, 0x2007), 0x00);
}

#[test]
fn interrupt_edge_primes_the_delay_once() {
    let mut m = bus(Mirroring::Horizontal);
    m.ppu.begin_vblank();
    assert_eq!(m.ppu.nmi_delay(), 0);
    write(&mut m, 0x2000, 0x80);
    assert_eq!(m.ppu.nmi_delay(), 15);
    assert!(!m.ppu.count_down());
    assert_eq!(m.ppu.nmi_delay(), 14);
    write(&mut m, 0x2000, 0x80);
    assert_eq!(m.ppu.nmi_delay(), 14);
    write(&mut m, 0x2000, 0x00);
    write(&mut m, 0x2000, 0x80);
    assert_eq!(m.ppu.nmi_delay(), 15);
}
