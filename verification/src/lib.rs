//! The memory subsystem of a Game Boy emulator: a 64 KiB address bus with
//! cartridge banking, sprite DMA, the input register and the hardware timer.
//!
//! Every operation has a contract over a mathematical model of the bus,
//! [`memory::BusState`], and the laws that relate the operations are proved in
//! [`laws`].

pub mod util;
pub mod joypad;
pub mod mbc;
pub mod memory;
pub mod tile;
pub mod timer;
pub mod laws;
