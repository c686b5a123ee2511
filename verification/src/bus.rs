//! The memory bus: the one owner of the state that processor and picture
//! unit share.

use vstd::prelude::*;
use crate::mapper::Mapper;
use crate::registers::RegisterFile;
use crate::state::PPUState;

verus! {

/// The eight buttons of a controller.
#[derive(Clone, Copy, Debug, PartialEq, Eq, Structural)]
pub struct ButtonState {
    pub a: bool,
    pub b: bool,
    pub select: bool,
    pub start: bool,
    pub up: bool,
    pub down: bool,
    pub left: bool,
    pub right: bool,
}

/// The lines into the processor that other units drive.
#[derive(Clone, Copy, Debug, PartialEq, Eq, Structural)]
pub struct CpuLines {
    /// The interrupt latch: set by the picture unit, cleared by the processor
    /// when it takes the interrupt.
    pub nmi: bool,
    /// The buttons as last pushed by the host.
    pub buttons: ButtonState,
}

impl CpuLines {
    pub fn new() -> (lines: CpuLines)
        ensures
            !lines.nmi,
            lines.buttons == ButtonState::released(),
    {
        CpuLines { nmi: false, buttons: ButtonState::new() }
    }

    /// Requests a non-maskable interrupt.
    pub fn set_nmi(&mut self)
        ensures
            final(self).nmi,
            final(self).buttons == old(self).buttons,
    {
        self.nmi = true;
    }

    /// Takes the pending interrupt request, if there is one.
    pub fn take_nmi(&mut self) -> (pending: bool)
        ensures
            pending == old(self).nmi,
            !final(self).nmi,
            final(self).buttons == old(self).buttons,
    {
        let pending = self.nmi;
        self.nmi = false;
        pending
    }

    pub fn set_buttons(&mut self, buttons: ButtonState)
        ensures
            final(self).buttons == buttons,
            final(self).nmi == old(self).nmi,
    {
        self.buttons = buttons;
    }
}

impl ButtonState {
    /// No button held.
    pub open spec fn released() -> ButtonState {
        ButtonState {
            a: false,
            b: false,
            select: false,
            start: false,
            up: false,
            down: false,
            left: false,
            right: false,
        }
    }

    pub fn new() -> (buttons: ButtonState)
        ensures
            buttons == ButtonState::released(),
    {
        ButtonState {
            a: false,
            b: false,
            select: false,
            start: false,
            up: false,
            down: false,
            left: false,
            right: false,
        }
    }
}

/// The bus that joins the register file, the cartridge and the processor's
/// input lines.
pub struct MemoryBus<M: Mapper> {
    pub ppu: PPUState,
    pub mapper: M,
    pub cpu: CpuLines,
}

/// The bus as a mathematical value.
pub struct BusModel<M> {
    pub regs: RegisterFile,
    pub mapper: M,
    pub cpu: CpuLines,
}

impl<M: Mapper> View for MemoryBus<M> {
    type V = BusModel<M>;

    open spec fn view(&self) -> BusModel<M> {
        BusModel { regs: self.ppu@, mapper: self.mapper, cpu: self.cpu }
    }
}

impl<M: Mapper> MemoryBus<M> {
    /// A bus around `mapper`, with the register file at power-on.
    pub fn new(mapper: M) -> (bus: MemoryBus<M>)
        ensures
            bus@ == (BusModel {
                regs: RegisterFile::initial(),
                mapper,
                cpu: CpuLines { nmi: false, buttons: ButtonState::released() },
            }),
            bus.ppu.wf(),
    {
        MemoryBus { ppu: PPUState::new(), mapper, cpu: CpuLines::new() }
    }
}

impl<M: Mapper> MemoryBus<M> {
    /// Drops a pending interrupt request. The register file and the
    /// cartridge are reset by their owners.
    pub fn reset(&mut self)
        ensures
            final(self)@ == (BusModel {
                cpu: CpuLines { nmi: false, buttons: old(self).cpu.buttons },
                ..old(self)@
            }),
            final(self).ppu == old(self).ppu,
    {
        self.cpu.nmi = false;
    }
}

} // verus!
