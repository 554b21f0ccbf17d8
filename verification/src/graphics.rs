//! The pixel processing unit: mode machine, object scan and pixel pipeline.
pub mod fifo;
pub mod memory;
pub mod object;
pub mod pixel_fetcher;
pub mod ppu;
