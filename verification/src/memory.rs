//! Addressable storage: the cartridge with its bank controller and the
//! fixed-size memories behind the bus.
pub mod bus;
pub mod io;
pub mod mem;
