use vstd::prelude::*;
use crate::memory::bus::{Bus, BusView, is_prohibited, OAM_START};

verus! {

/// Number of bytes that one transfer copies into the object memory.
pub const DMA_LENGTH: u16 = 160;

/// The transfer engine: idle, or about to copy the byte at `src + index`.
#[derive(Clone, Copy, PartialEq, Eq, Structural, Debug)]
pub enum DmaState {
    Active { src: u16, index: u16 },
    Inactive,
}

impl DmaState {
    /// The transfer that a write of `byte` to the trigger register starts:
    /// from the page `byte`, at its first byte.
    pub open spec fn started_by(byte: u8) -> DmaState {
        DmaState::Active { src: (byte * 256) as u16, index: 0 }
    }

    /// The address that the next step reads.
    pub open spec fn source_address(self) -> u16 {
        match self {
            DmaState::Active { src, index } => ((src + index) % 0x1_0000) as u16,
            DmaState::Inactive => 0,
        }
    }

    /// Whether the next step copies a byte.
    pub open spec fn copies(self) -> bool {
        self matches DmaState::Active { index, .. } && index < DMA_LENGTH
    }

    /// A step is defined unless it would read the prohibited range.
    pub open spec fn step_defined(self) -> bool {
        self.copies() ==> !is_prohibited(self.source_address())
    }

    /// The engine after one step: the next index, or idle once the last
    /// byte was copied.
    pub open spec fn spec_next(self) -> DmaState {
        match self {
            DmaState::Inactive => DmaState::Inactive,
            DmaState::Active { src, index } => if index >= DMA_LENGTH - 1 {
                DmaState::Inactive
            } else {
                DmaState::Active { src, index: (index + 1) as u16 }
            },
        }
    }

    /// The bus after one step: the byte read through the bus at
    /// `src + index` written through the bus to the object memory at offset
    /// `index`.
    pub open spec fn spec_copy(self, bus: BusView) -> BusView {
        match self {
            DmaState::Active { src, index } if index < DMA_LENGTH => bus.write(
                (OAM_START + index) as u16,
                bus.read(self.source_address()),
            ),
            _ => bus,
        }
    }

    pub fn init_dma_transfer(byte: u8) -> (r: Self)
        ensures
            r == Self::started_by(byte),
    {
        DmaState::Active { src: (byte as u16) * 256, index: 0 }
    }

    /// Whether `step` may be called.
    pub fn can_step(&self) -> (b: bool)
        ensures
            b == self.step_defined(),
    {
        match self {
            DmaState::Inactive => true,
            DmaState::Active { src, index } => {
                if *index < DMA_LENGTH {
                    !crate::memory::bus::address_is_prohibited(src.wrapping_add(*index))
                } else {
                    true
                }
            },
        }
    }

    /// Copies one byte, where a transfer is under way, and returns the
    /// state of the engine after it.
    pub fn step(self, bus: &mut Bus) -> (r: Self)
        requires
            self.step_defined(),
        ensures
            r == self.spec_next(),
            final(bus)@ == self.spec_copy(old(bus)@),
    {
        match self {
            DmaState::Inactive => DmaState::Inactive,
            DmaState::Active { src, index } => {
                if index < DMA_LENGTH {
                    let byte = bus.read_byte(src.wrapping_add(index));
                    bus.write_byte(OAM_START + index, byte);
                }
                if index >= DMA_LENGTH - 1 {
                    DmaState::Inactive
                } else {
                    DmaState::Active { src, index: index + 1 }
                }
            },
        }
    }
}

} // verus!
