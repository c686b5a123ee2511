use ludus::bus::{ButtonState, CpuLines, MemoryBus};
use ludus::console::{Console, Idle, Silent};
use ludus::mapper::{Mirroring, PatternRam};
use ludus::ports::FrameLog;
use ludus::window::{get_scale, Scale};

fn console() -> Console<PatternRam, Idle, Silent> {
    Console::new(PatternRam::new(Mirroring::Vertical), Idle::new(), Silent::new())
}

#[test]
fn a_step_runs_three_dots_per_cycle() {
    let mut c = console();
    let mut log = FrameLog::new();
    assert_eq!((c.ppu().scanline(), c.ppu().cycle()), (240, 340));
    let cycles = c.step(&mut log);
    assert_eq!(cycles, 2);
    assert_eq!((c.ppu().scanline(), c.ppu().cycle()), (241, 5));
    assert_eq!(log.count(), 1);
    let cycles = c.step(&mut log);
    assert_eq!(cycles, 2);
    assert_eq!((c.ppu().scanline(), c.ppu().cycle()), (241, 11));
    assert_eq!(log.count(), 1);
}

#[test]
fn catch_up_runs_the_dots_of_the_cycles_given() {
    let mut c = console();
    let mut log = FrameLog::new();
    c.catch_up(&mut log, 514);
    assert_eq!((c.ppu().scanline(), c.ppu().cycle()), (245, 177));
    assert_eq!(log.count(), 1);
    c.catch_up(&mut log, 0);
    assert_eq!((c.ppu().scanline(), c.ppu().cycle()), (245, 177));
}

#[test]
fn step_micros_runs_the_budget_of_cycles() {
    let mut c = console();
    let mut log = FrameLog::new();
    c.step_micros(100, &mut log);
    assert_eq!((c.ppu().scanline(), c.ppu().cycle()), (242, 198));
    assert_eq!(log.count(), 1);
    c.step_micros(0, &mut log);
    assert_eq!((c.ppu().scanline(), c.ppu().cycle()), (242, 198));
}

#[test]
fn step_micros_takes_the_largest_argument() {
    let mut c = console();
    let mut log = FrameLog::new();
    c.step_micros(1, &mut log);
    assert_eq!((c.ppu().scanline(), c.ppu().cycle()), (241, 5));
    c.step_micros(2, &mut log);
    assert_eq!((c.ppu().scanline(), c.ppu().cycle()), (241, 17));
}

#[test]
fn step_frame_runs_a_sixtieth_of_a_second() {
    let mut c = console();
    let mut log = FrameLog::new();
    c.step_frame(&mut log);
    assert_eq!(log.count(), 2);
    assert_eq!((c.ppu().scanline(), c.ppu().cycle(), c.ppu().frame_parity()), (241, 153, 1));
    c.step_frame(&mut log);
    assert_eq!(log.count(), 3);
    assert_eq!((c.ppu().scanline(), c.ppu().cycle(), c.ppu().frame_parity()), (241, 307, 0));
}

#[test]
fn update_controller_pushes_the_buttons() {
    let mut c = console();
    let held = ButtonState::from_keys(true, false, false, true, false, false, true, false);
    c.update_controller(held);
    assert_eq!(c.mem().cpu.buttons, held);
    assert!(c.mem().cpu.buttons.a);
    assert!(!c.mem().cpu.buttons.b);
    assert!(c.mem().cpu.buttons.start);
    assert!(c.mem().cpu.buttons.left);
    assert!(!c.mem().cpu.nmi);
    assert_eq!(ButtonState::new(), ButtonState::from_keys(
        false, false, false, false, false, false, false, false,
    ));
}

#[test]
fn reset_returns_the_renderer_and_clears_the_frame() {
    let mut c = console();
    let mut log = FrameLog::new();
    c.step_frame(&mut log);
    c.reset();
    assert_eq!((c.ppu().scanline(), c.ppu().cycle()), (240, 340));
    assert_eq!(c.ppu().pixel(0, 0), 0);
    assert_eq!(c.mem().ppu.oam_address(), 0);
    assert!(!c.mem().cpu.nmi);
    c.reset();
    assert_eq!((c.ppu().scanline(), c.ppu().cycle()), (240, 340));
}

#[test]
fn update_window_shows_the_current_frame() {
    let c = console();
    let mut log = FrameLog::new();
    c.update_window(&mut log);
    assert_eq!(log.count(), 1);
    assert_eq!(log.pixel(0, 0), 0);
}

#[test]
fn interrupt_latch_is_set_and_taken() {
    let mut lines = CpuLines::new();
    assert!(!lines.take_nmi());
    lines.set_nmi();
    assert!(lines.nmi);
    assert!(lines.take_nmi());
    assert!(!lines.take_nmi());
    let mut bus = MemoryBus::new(PatternRam::new(Mirroring::SingleLower));
    bus.cpu.set_nmi();
    bus.reset();
    assert!(!bus.cpu.nmi);
}

#[test]
fn scale_words() {
    assert_eq!(get_scale("1"), Scale::X1);
    assert_eq!(get_scale("2"), Scale::X2);
    assert_eq!(get_scale("4"), Scale::X4);
    assert_eq!(get_scale("fit"), Scale::FitScreen);
    assert_eq!(get_scale(""), Scale::FitScreen);
    assert_eq!(get_scale("8"), Scale::FitScreen);
    assert_eq!(get_scale("11"), Scale::FitScreen);
    assert_eq!(get_scale(" 1"), Scale::FitScreen);
    assert_eq!(get_scale("\u{FF11}"), Scale::FitScreen);
}
