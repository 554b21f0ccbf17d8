use vstd::prelude::*;
use crate::cpu::processor::{CPU, CpuView};
use crate::graphics::ppu::{PixelData, PpuView, optional_frame, PPU};

verus! {

/// The machine: the CPU with its bus, and the PPU that follows it.
#[derive(Clone, Debug)]
pub struct EmulatorState {
    pub cpu: CPU,
    pub ppu: PPU,
    /// The frame that the last step finished, if it finished one.
    pub framebuffer: Option<PixelData>,
}

/// The state of the machine, as plain values.
pub ghost struct EmulatorView {
    pub cpu: CpuView,
    pub ppu: PpuView,
    pub framebuffer: Option<Seq<u8>>,
}

impl View for EmulatorState {
    type V = EmulatorView;

    open spec fn view(&self) -> EmulatorView {
        EmulatorView {
            cpu: self.cpu@,
            ppu: self.ppu@,
            framebuffer: optional_frame(self.framebuffer),
        }
    }
}

impl EmulatorView {
    /// The machine after one step, and the cycles that it took: the CPU
    /// makes a step, and the PPU is given the cycles of it.
    pub open spec fn step(self) -> (EmulatorView, u8) {
        let (cpu, cycles) = self.cpu.spec_step();
        let (ppu, bus, framebuffer) = self.ppu.step(cycles, cpu.bus);
        (EmulatorView { cpu: cpu.with_bus(bus), ppu, framebuffer }, cycles)
    }
}

impl EmulatorState {
    pub fn init(cpu: CPU) -> (r: Self)
        ensures
            r@ == (EmulatorView { cpu: cpu@, ppu: PpuView::initial(), framebuffer: None }),
    {
        Self { cpu, ppu: PPU::init(), framebuffer: None }
    }

    /// Makes one step of the CPU and gives its cycles to the PPU.
    pub fn step(&mut self) -> (cycles: u8)
        requires
            old(self)@.cpu.step_defined(),
        ensures
            final(self)@ == old(self)@.step().0,
            cycles == old(self)@.step().1,
    {
        let cycles = self.cpu.step();
        self.framebuffer = self.ppu.step(cycles, &mut self.cpu.bus);
        cycles
    }

    /// Makes one step where the CPU can make one. Where it cannot, the
    /// result is `None`, and the PPU is left as it was.
    pub fn try_step(&mut self) -> (r: Option<u8>)
        ensures
            r is Some <==> old(self)@.cpu.step_defined(),
            r matches Some(cycles) ==> final(self)@ == old(self)@.step().0 && cycles == old(
                self,
            )@.step().1,
            r is None ==> final(self)@ == (EmulatorView {
                cpu: old(self)@.cpu.stopped(),
                ..old(self)@
            }),
    {
        match self.cpu.try_step() {
            None => None,
            Some(cycles) => {
                self.framebuffer = self.ppu.step(cycles, &mut self.cpu.bus);
                Some(cycles)
            },
        }
    }
}

} // verus!
