//! A cycle-counting core for an 8-bit handheld console: memory bus with a
//! bank-switched cartridge, CPU, timer, DMA, interrupt controller and PPU.
//!
//! What every operation does is stated over a mathematical view of the
//! machine state, and the executable code is proved to do just that.
pub mod memory;
pub mod graphics;
pub mod cpu;
pub mod emulator;
