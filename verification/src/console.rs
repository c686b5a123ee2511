//! The driver: one processor instruction, then three dots of the picture
//! unit and one cycle of the audio unit for each processor cycle it took.

use vstd::prelude::*;
use crate::bus::{BusModel, ButtonState, CpuLines, MemoryBus};
use crate::mapper::Mapper;
use crate::ports::{blank_frame, VideoDevice};
use crate::ppu::PPU;
use crate::registers::RegisterFile;
use crate::render::{Machine, Renderer};

verus! {

/// A processor, as the driver sees it: something that runs one instruction
/// against the bus and says how long it took.
pub trait Cpu<M: Mapper>: Sized {
    /// The processor as the next instruction leaves it.
    spec fn after(&self, bus: BusModel<M>) -> Self;

    /// The bus as the next instruction leaves it.
    spec fn bus_after(&self, bus: BusModel<M>) -> BusModel<M>;

    /// The cycles that the next instruction takes.
    spec fn cycles_of(&self, bus: BusModel<M>) -> u16;

    /// The processor as a reset leaves it.
    spec fn after_reset(&self) -> Self;

    /// Runs one instruction and returns the cycles it took, at least one.
    fn step(&mut self, bus: &mut MemoryBus<M>) -> (cycles: u16)
        requires
            old(bus).ppu.wf(),
        ensures
            cycles == old(self).cycles_of(old(bus)@),
            cycles >= 1,
            *final(self) == old(self).after(old(bus)@),
            final(bus)@ == old(self).bus_after(old(bus)@),
            final(bus).ppu.wf(),
    ;

    /// Returns the processor to its state at power-on.
    fn reset(&mut self)
        ensures
            *final(self) == old(self).after_reset(),
    ;
}

/// An audio unit, as the driver sees it: something that is stepped once per
/// processor cycle.
pub trait Apu {
    /// The cycles stepped so far.
    spec fn cycles(&self) -> nat;

    fn step(&mut self)
        ensures
            final(self).cycles() == old(self).cycles() + 1,
    ;
}

/// A processor that executes nothing: each step takes the two cycles of a
/// no-operation, and takes a pending interrupt with it.
pub struct Idle {}

impl Idle {
    pub fn new() -> Idle {
        Idle {  }
    }
}

impl<M: Mapper> Cpu<M> for Idle {
    open spec fn after(&self, bus: BusModel<M>) -> Idle {
        *self
    }

    open spec fn bus_after(&self, bus: BusModel<M>) -> BusModel<M> {
        BusModel { cpu: CpuLines { nmi: false, buttons: bus.cpu.buttons }, ..bus }
    }

    open spec fn cycles_of(&self, bus: BusModel<M>) -> u16 {
        2
    }

    open spec fn after_reset(&self) -> Idle {
        *self
    }

    fn step(&mut self, bus: &mut MemoryBus<M>) -> (cycles: u16) {
        bus.cpu.take_nmi();
        2
    }

    fn reset(&mut self) {
    }
}

/// An audio unit that makes no sound.
pub struct Silent {
    elapsed: Ghost<nat>,
}

impl Silent {
    pub fn new() -> (apu: Silent)
        ensures
            apu.cycles() == 0,
    {
        Silent { elapsed: Ghost(0) }
    }
}

impl Apu for Silent {
    closed spec fn cycles(&self) -> nat {
        self.elapsed@
    }

    fn step(&mut self) {
        self.elapsed = Ghost((self.elapsed@ + 1) as nat);
    }
}

/// The processor cycles that fit into `micros` microseconds, at 1.79 cycles
/// to the microsecond.
pub open spec fn cycle_budget(micros: u32) -> int {
    micros * 179 / 100
}

/// The console as a mathematical value.
pub struct ConsoleState<M, C> {
    pub cpu: C,
    pub bus: BusModel<M>,
    pub ppu: Renderer,
    /// The cycles that the audio unit was stepped.
    pub audio: nat,
}

impl<M: Mapper, C: Cpu<M>> ConsoleState<M, C> {
    /// Renderer and register file.
    pub open spec fn machine(self) -> Machine {
        Machine { ppu: self.ppu, regs: self.bus.regs }
    }

    pub open spec fn wf(self) -> bool {
        self.machine().wf()
    }

    /// The console after the picture unit has run three dots and the audio
    /// unit one cycle for each of `cycles` processor cycles.
    pub open spec fn catch_up(self, cycles: u16) -> ConsoleState<M, C> {
        let dots = (3 * cycles) as nat;
        let ran = self.machine().steps(&self.bus.mapper, dots);
        ConsoleState {
            cpu: self.cpu,
            bus: BusModel {
                regs: ran.regs,
                mapper: self.bus.mapper,
                cpu: if self.machine().raises(&self.bus.mapper, dots) {
                    CpuLines { nmi: true, ..self.bus.cpu }
                } else {
                    self.bus.cpu
                },
            },
            ppu: ran.ppu,
            audio: self.audio + cycles as nat,
        }
    }

    /// The frames shown while the picture unit catches up.
    pub open spec fn frames_catching_up(self, cycles: u16) -> Seq<Seq<u32>> {
        self.machine().frames_shown(&self.bus.mapper, (3 * cycles) as nat)
    }

    /// The cycles that the next instruction takes.
    pub open spec fn next_cycles(self) -> u16 {
        self.cpu.cycles_of(self.bus)
    }

    /// The console as the processor's next instruction leaves it, before the
    /// other units have caught up.
    pub open spec fn execute(self) -> ConsoleState<M, C> {
        ConsoleState { cpu: self.cpu.after(self.bus), bus: self.cpu.bus_after(self.bus), ..self }
    }

    /// The console after one instruction and the dots and cycles that
    /// follow it.
    pub open spec fn step(self) -> ConsoleState<M, C> {
        self.execute().catch_up(self.next_cycles())
    }

    /// The frames shown during one step.
    pub open spec fn frames_in_step(self) -> Seq<Seq<u32>> {
        self.execute().frames_catching_up(self.next_cycles())
    }

    /// The cycles by which a step lowers what remains of a budget.
    pub open spec fn charge(self) -> int {
        if self.next_cycles() >= 1 {
            self.next_cycles() as int
        } else {
            1
        }
    }

    /// The console after it has stepped until `remaining` cycles have
    /// elapsed.
    pub open spec fn run(self, remaining: int) -> ConsoleState<M, C>
        decreases remaining + 65536,
    {
        if remaining <= 0 {
            self
        } else {
            self.step().run(remaining - self.charge())
        }
    }

    /// The frames shown while the console steps until `remaining` cycles
    /// have elapsed.
    pub open spec fn frames_in_run(self, remaining: int) -> Seq<Seq<u32>>
        decreases remaining + 65536,
    {
        if remaining <= 0 {
            Seq::empty()
        } else {
            self.frames_in_step() + self.step().frames_in_run(remaining - self.charge())
        }
    }

    /// The console after a reset: the processor reset, a pending interrupt
    /// dropped, the renderer and the register file reset, the frame blank.
    pub open spec fn reset(self) -> ConsoleState<M, C> {
        ConsoleState {
            cpu: self.cpu.after_reset(),
            bus: BusModel {
                regs: self.bus.regs.reset(),
                mapper: self.bus.mapper,
                cpu: CpuLines { nmi: false, buttons: self.bus.cpu.buttons },
            },
            ppu: Renderer { cycle: 340, scanline: 240, pixels: blank_frame(), ..self.ppu },
            audio: self.audio,
        }
    }
}

/// The owner of everything needed to run a game.
pub struct Console<M: Mapper, C: Cpu<M>, A: Apu> {
    apu: A,
    cpu: C,
    ppu: PPU,
    mem: MemoryBus<M>,
}

impl<M: Mapper, C: Cpu<M>, A: Apu> View for Console<M, C, A> {
    type V = ConsoleState<M, C>;

    closed spec fn view(&self) -> ConsoleState<M, C> {
        ConsoleState { cpu: self.cpu, bus: self.mem@, ppu: self.ppu@, audio: self.apu.cycles() }
    }
}

impl<M: Mapper, C: Cpu<M>, A: Apu> Console<M, C, A> {
    pub open spec fn wf(&self) -> bool {
        self@.wf()
    }

    /// Puts a console together around a cartridge: the register file at
    /// power-on, the renderer reset.
    pub fn new(mapper: M, cpu: C, apu: A) -> (console: Console<M, C, A>)
        ensures
            console.wf(),
            console@ == (ConsoleState {
                cpu,
                bus: BusModel {
                    regs: RegisterFile::initial().reset(),
                    mapper,
                    cpu: CpuLines { nmi: false, buttons: ButtonState::released() },
                },
                ppu: Renderer::power_on(),
                audio: apu.cycles(),
            }),
    {
        let mut mem = MemoryBus::new(mapper);
        let ppu = PPU::new(&mut mem);
        Console { apu, cpu, ppu, mem }
    }

    /// Runs the picture unit for three dots and the audio unit for one cycle
    /// per processor cycle, after an instruction that took `cycles`.
    pub fn catch_up<V: VideoDevice>(&mut self, video: &mut V, cycles: u16)
        requires
            old(self).wf(),
        ensures
            final(self).wf(),
            final(self)@ == old(self)@.catch_up(cycles),
            final(video).frames() == old(video).frames() + old(self)@.frames_catching_up(cycles),
    {
        self.ppu.run_dots(&mut self.mem, video, cycles as u32 * 3);
        let ghost ppu = self.ppu;
        let ghost mem = self.mem;
        let mut i: u16 = 0;
        while i < cycles
            invariant
                i <= cycles,
                self.apu.cycles() == old(self).apu.cycles() + i,
                self.ppu == ppu,
                self.mem == mem,
                self.cpu == old(self).cpu,
            decreases cycles - i,
        {
            self.apu.step();
            i = i + 1;
        }
    }

    /// Runs one processor instruction and lets the other units catch up.
    /// Returns the processor cycles taken.
    pub fn step<V: VideoDevice>(&mut self, video: &mut V) -> (cpucycles: i32)
        requires
            old(self).wf(),
        ensures
            final(self).wf(),
            cpucycles == old(self)@.next_cycles(),
            cpucycles >= 1,
            final(self)@ == old(self)@.step(),
            final(video).frames() == old(video).frames() + old(self)@.frames_in_step(),
    {
        let cycles: u16 = self.cpu.step(&mut self.mem);
        self.catch_up(video, cycles);
        cycles as i32
    }

    /// Runs instructions until the processor cycles that fit into `micros`
    /// microseconds have elapsed; the last instruction may run over.
    pub fn step_micros<V: VideoDevice>(&mut self, micros: u32, video: &mut V)
        requires
            old(self).wf(),
        ensures
            final(self).wf(),
            final(self)@ == old(self)@.run(cycle_budget(micros)),
            final(video).frames() == old(video).frames() + old(self)@.frames_in_run(
                cycle_budget(micros),
            ),
    {
        let budget: i64 = ((micros as u64 * 179) / 100) as i64;
        let mut cpu_cycles: i64 = budget;
        while cpu_cycles > 0
            invariant
                self.wf(),
                cpu_cycles > -65536,
                budget == cycle_budget(micros),
                self@.run(cpu_cycles as int) == old(self)@.run(budget as int),
                video.frames() + self@.frames_in_run(cpu_cycles as int) == old(video).frames()
                    + old(self)@.frames_in_run(budget as int),
            decreases cpu_cycles + 65536,
        {
            let ghost before = self@;
            let ghost shown = video.frames();
            let taken: i32 = self.step(video);
            assert(before.charge() == taken);
            assert((shown + before.frames_in_step()) + before.step().frames_in_run(
                cpu_cycles - taken,
            ) == shown + (before.frames_in_step() + before.step().frames_in_run(
                cpu_cycles - taken,
            )));
            cpu_cycles = cpu_cycles - taken as i64;
        }
    }

    /// Runs the console for the sixtieth of a second.
    pub fn step_frame<V: VideoDevice>(&mut self, video: &mut V)
        requires
            old(self).wf(),
        ensures
            final(self).wf(),
            final(self)@ == old(self)@.run(cycle_budget(16666)),
            final(video).frames() == old(video).frames() + old(self)@.frames_in_run(
                cycle_budget(16666),
            ),
    {
        self.step_micros(1_000_000 / 60, video);
    }

    /// Shows the frame as it stands.
    pub fn update_window<V: VideoDevice>(&self, video: &mut V)
        requires
            self.wf(),
        ensures
            final(video).frames() == old(video).frames().push(self@.ppu.pixels),
    {
        self.ppu.update_window(video);
    }

    /// Pushes the state of the buttons to the processor.
    pub fn update_controller(&mut self, buttons: ButtonState)
        requires
            old(self).wf(),
        ensures
            final(self).wf(),
            final(self)@ == (ConsoleState {
                bus: BusModel {
                    cpu: CpuLines { nmi: old(self)@.bus.cpu.nmi, buttons },
                    ..old(self)@.bus
                },
                ..old(self)@
            }),
    {
        self.mem.cpu.set_buttons(buttons);
    }

    /// Resets everything to its initial state and clears the frame.
    pub fn reset(&mut self)
        requires
            old(self).wf(),
        ensures
            final(self).wf(),
            final(self)@ == old(self)@.reset(),
    {
        self.cpu.reset();
        self.mem.reset();
        self.ppu.reset(&mut self.mem);
        self.ppu.clear_vbuffers();
    }

    /// The renderer.
    pub fn ppu(&self) -> (ppu: &PPU)
        ensures
            ppu@ == self@.ppu,
    {
        &self.ppu
    }

    /// The bus.
    pub fn mem(&self) -> (mem: &MemoryBus<M>)
        ensures
            mem@ == self@.bus,
    {
        &self.mem
    }

    /// The processor.
    pub fn cpu(&self) -> (cpu: &C)
        ensures
            *cpu == self@.cpu,
    {
        &self.cpu
    }
}

} // verus!
