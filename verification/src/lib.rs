//! Core of an NES emulator: the picture processing unit, its register file and
//! memory view, and the driver that keeps it in step with the processor.

pub mod bits;
pub mod bus;
pub mod console;
pub mod interaction;
pub mod laws;
pub mod mapper;
pub mod palette;
pub mod ports;
pub mod ppu;
pub mod registers;
pub mod render;
pub mod render_laws;
pub mod state;
pub mod timing;
pub mod window;
