//! The processor: registers, instruction set, interrupts, timer and DMA.
pub mod alu;
pub mod boot;
pub mod processor;
pub mod dma;
pub mod instructions;
pub mod interrupts;
pub mod opcodes;
pub mod registers;
pub mod timers;
