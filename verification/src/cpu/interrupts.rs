use vstd::prelude::*;
use crate::cpu::processor::{CPU, CpuView};
use crate::memory::bus::{Bus, BusView, INTERRUPT_STAT_BIT};

verus! {

pub const INTERRUPT_VBLANK_BIT: u8 = 0b1;

pub const INTERRUPT_TIMER_BIT: u8 = 0b100;

pub const INTERRUPT_SERIAL_BIT: u8 = 0b1000;

pub const INTERRUPT_JOYPAD_BIT: u8 = 0b10000;

/// Cycles that the dispatch of an interrupt takes.
pub const INTERRUPT_HANDLER_CYCLES: u8 = 20;

/// Cycles charged where no interrupt is dispatched.
pub const INTERRUPT_IGNORE_CYCLES: u8 = 0;

/// The master enable of the interrupts. `EnableRequested` becomes `Enabled`
/// once the instruction after the request has run.
#[derive(Clone, Copy, PartialEq, Eq, Structural, Debug)]
pub enum InterruptState {
    Enabled,
    Disabled,
    EnableRequested,
}

impl Default for InterruptState {
    fn default() -> (r: Self)
        ensures
            r == InterruptState::Disabled,
    {
        InterruptState::Disabled
    }
}

/// Whether the CPU runs, sleeps until an interrupt is pending, or is about
/// to fetch a byte twice.
#[derive(Clone, Copy, PartialEq, Eq, Structural, Debug)]
pub enum HaltState {
    NotHalted,
    Halted,
    HaltBug,
}

impl Default for HaltState {
    fn default() -> (r: Self)
        ensures
            r == HaltState::NotHalted,
    {
        HaltState::NotHalted
    }
}

/// The five interrupt sources, highest priority first.
#[derive(Clone, Copy, PartialEq, Eq, Structural, Debug)]
pub enum InterruptSource {
    VBLANK,
    STAT,
    TIMER,
    SERIAL,
    JOYPAD,
}

impl InterruptSource {
    /// The bit of the interrupt registers that stands for the source.
    pub open spec fn spec_bit(self) -> u8 {
        match self {
            InterruptSource::VBLANK => INTERRUPT_VBLANK_BIT,
            InterruptSource::STAT => INTERRUPT_STAT_BIT,
            InterruptSource::TIMER => INTERRUPT_TIMER_BIT,
            InterruptSource::SERIAL => INTERRUPT_SERIAL_BIT,
            InterruptSource::JOYPAD => INTERRUPT_JOYPAD_BIT,
        }
    }

    /// The address of the handler of the source.
    pub open spec fn spec_handler(self) -> u16 {
        match self {
            InterruptSource::VBLANK => 0x40,
            InterruptSource::STAT => 0x48,
            InterruptSource::TIMER => 0x50,
            InterruptSource::SERIAL => 0x58,
            InterruptSource::JOYPAD => 0x60,
        }
    }

    pub fn bit(&self) -> (r: u8)
        ensures
            r == self.spec_bit(),
    {
        match self {
            InterruptSource::VBLANK => INTERRUPT_VBLANK_BIT,
            InterruptSource::STAT => INTERRUPT_STAT_BIT,
            InterruptSource::TIMER => INTERRUPT_TIMER_BIT,
            InterruptSource::SERIAL => INTERRUPT_SERIAL_BIT,
            InterruptSource::JOYPAD => INTERRUPT_JOYPAD_BIT,
        }
    }

    pub fn handler(&self) -> (r: u16)
        ensures
            r == self.spec_handler(),
    {
        match self {
            InterruptSource::VBLANK => 0x40,
            InterruptSource::STAT => 0x48,
            InterruptSource::TIMER => 0x50,
            InterruptSource::SERIAL => 0x58,
            InterruptSource::JOYPAD => 0x60,
        }
    }
}

/// The source that is served among those whose bits are set in `bits`: the
/// one with the lowest bit. None where none of the five low bits is set.
pub open spec fn source_of(bits: u8) -> Option<InterruptSource> {
    if bits & INTERRUPT_VBLANK_BIT != 0 {
        Some(InterruptSource::VBLANK)
    } else if bits & INTERRUPT_STAT_BIT != 0 {
        Some(InterruptSource::STAT)
    } else if bits & INTERRUPT_TIMER_BIT != 0 {
        Some(InterruptSource::TIMER)
    } else if bits & INTERRUPT_SERIAL_BIT != 0 {
        Some(InterruptSource::SERIAL)
    } else if bits & INTERRUPT_JOYPAD_BIT != 0 {
        Some(InterruptSource::JOYPAD)
    } else {
        None
    }
}

pub fn get_source_from_bits(bits: u8) -> (r: Option<InterruptSource>)
    ensures
        r == source_of(bits),
{
    if bits & INTERRUPT_VBLANK_BIT != 0 {
        Some(InterruptSource::VBLANK)
    } else if bits & INTERRUPT_STAT_BIT != 0 {
        Some(InterruptSource::STAT)
    } else if bits & INTERRUPT_TIMER_BIT != 0 {
        Some(InterruptSource::TIMER)
    } else if bits & INTERRUPT_SERIAL_BIT != 0 {
        Some(InterruptSource::SERIAL)
    } else if bits & INTERRUPT_JOYPAD_BIT != 0 {
        Some(InterruptSource::JOYPAD)
    } else {
        None
    }
}

/// A source is served exactly where one of the five low bits is set, it is
/// one whose bit is set, and no source of higher priority has its bit set.
pub proof fn lemma_source_of(bits: u8)
    ensures
        source_of(bits) is None <==> bits & 0x1F == 0,
        source_of(bits) matches Some(source) ==> {
            &&& bits & source.spec_bit() != 0
            &&& bits & ((source.spec_bit() - 1) as u8) == 0
        },
{
    assert({
        &&& ((bits & 0x1F == 0) <==> (bits & 1 == 0 && bits & 2 == 0 && bits & 4 == 0 && bits & 8
            == 0 && bits & 16 == 0))
        &&& bits & 0 == 0
        &&& (bits & 1 == 0 && bits & 2 == 0 ==> bits & 3 == 0)
        &&& (bits & 1 == 0 && bits & 2 == 0 && bits & 4 == 0 ==> bits & 7 == 0)
        &&& (bits & 1 == 0 && bits & 2 == 0 && bits & 4 == 0 && bits & 8 == 0 ==> bits & 15 == 0)
    }) by (bit_vector);
}

impl Bus {
    pub fn request_vblank_interrupt(&mut self)
        ensures
            final(self)@ == (BusView {
                io: old(self).io.request(INTERRUPT_VBLANK_BIT),
                ..old(self)@
            }),
    {
        self.enable_interrupt_request(INTERRUPT_VBLANK_BIT)
    }

    pub fn request_stat_interrupt(&mut self)
        ensures
            final(self)@ == (BusView {
                io: old(self).io.request(INTERRUPT_STAT_BIT),
                ..old(self)@
            }),
    {
        self.enable_interrupt_request(INTERRUPT_STAT_BIT)
    }

    pub fn request_timer_interrupt(&mut self)
        ensures
            final(self)@ == (BusView {
                io: old(self).io.request(INTERRUPT_TIMER_BIT),
                ..old(self)@
            }),
    {
        self.enable_interrupt_request(INTERRUPT_TIMER_BIT)
    }

    pub fn request_serial_interrupt(&mut self)
        ensures
            final(self)@ == (BusView {
                io: old(self).io.request(INTERRUPT_SERIAL_BIT),
                ..old(self)@
            }),
    {
        self.enable_interrupt_request(INTERRUPT_SERIAL_BIT)
    }

    pub fn request_joypad_interrupt(&mut self)
        ensures
            final(self)@ == (BusView {
                io: old(self).io.request(INTERRUPT_JOYPAD_BIT),
                ..old(self)@
            }),
    {
        self.enable_interrupt_request(INTERRUPT_JOYPAD_BIT)
    }

    pub fn get_interrupt_enabled(&self) -> (r: u8)
        ensures
            r == self.io.interrupt_enabled(),
    {
        self.io.interrupt_enable | 0xE0
    }

    pub fn get_interrupt_flags(&self) -> (r: u8)
        ensures
            r == self.io.interrupt_flags(),
    {
        self.io.interrupt_requests | 0xE0
    }

    /// Whether a source is both enabled and requested.
    pub fn is_interrupt_pending(&self) -> (b: bool)
        ensures
            b == (self.io.pending() != 0),
    {
        self.get_interrupt_enabled() & self.get_interrupt_flags() & 0x1F != 0
    }

    pub fn clear_interrupt_source(&mut self, source: &InterruptSource)
        ensures
            final(self)@ == (BusView {
                io: old(self).io.acknowledge(source.spec_bit()),
                ..old(self)@
            }),
    {
        self.clear_interrupt_request(source.bit())
    }

    pub fn clear_interrupt_request(&mut self, bit: u8)
        ensures
            final(self)@ == (BusView { io: old(self).io.acknowledge(bit), ..old(self)@ }),
    {
        let flags = self.get_interrupt_flags();
        self.io.interrupt_requests = flags & !bit;
    }

    pub fn enable_interrupt_request(&mut self, bit: u8)
        ensures
            final(self)@ == (BusView { io: old(self).io.request(bit), ..old(self)@ }),
    {
        let flags = self.get_interrupt_flags();
        self.io.interrupt_requests = flags | bit;
    }
}


impl CpuView {
    /// The CPU after HALT. With the interrupts enabled it sleeps. With them
    /// disabled, or about to be enabled, it sleeps too unless a source is
    /// pending already: then it goes on, and fetches the next byte twice.
    pub open spec fn halt(self) -> CpuView {
        CpuView {
            halt_state: if self.interrupt_state != InterruptState::Enabled
                && self.bus.io.pending() != 0 {
                HaltState::HaltBug
            } else {
                HaltState::Halted
            },
            ..self
        }
    }
}

impl CPU {
    /// Called by the HALT instruction. Sets the halt state, the halt bug
    /// included.
    pub fn update_halt_state(&mut self)
        ensures
            final(self)@ == old(self)@.halt(),
    {
        self.halt_state = match self.interrupt_state {
            InterruptState::Enabled => HaltState::Halted,
            InterruptState::EnableRequested => {
                if self.bus.is_interrupt_pending() {
                    HaltState::HaltBug
                } else {
                    HaltState::Halted
                }
            },
            InterruptState::Disabled => {
                if self.bus.is_interrupt_pending() {
                    HaltState::HaltBug
                } else {
                    HaltState::Halted
                }
            },
        };
    }
}

impl CpuView {
    /// The source that is served next, if any: the one of highest priority
    /// among those that are enabled and requested.
    pub open spec fn pending_source(self) -> Option<InterruptSource> {
        source_of(self.bus.io.interrupt_enabled() & self.bus.io.interrupt_flags())
    }

    /// The CPU after the dispatch to the handler of `source`: the request
    /// taken back, the interrupts disabled, the program counter pushed and
    /// set to the handler.
    pub open spec fn serve(self, source: InterruptSource) -> CpuView {
        CpuView {
            interrupt_state: InterruptState::Disabled,
            bus: BusView { io: self.bus.io.acknowledge(source.spec_bit()), ..self.bus },
            ..self
        }.call(source.spec_handler())
    }

    /// Whether an interrupt is dispatched now.
    pub open spec fn dispatches(self) -> bool {
        self.interrupt_state == InterruptState::Enabled && self.pending_source() is Some
    }

    /// A dispatch pushes the program counter, so the stack must be
    /// writable.
    pub open spec fn dispatch_defined(self) -> bool {
        self.dispatches() ==> self.stack_writable()
    }

    /// The CPU after interrupts were looked at, and the cycles that took:
    /// 20 where one was dispatched, else none.
    pub open spec fn handle_interrupts(self) -> (CpuView, u8) {
        if self.dispatches() {
            (self.serve(self.pending_source()->0), INTERRUPT_HANDLER_CYCLES)
        } else {
            (self, INTERRUPT_IGNORE_CYCLES)
        }
    }

    /// The halted CPU after interrupts were looked at: a pending source
    /// wakes it, and is dispatched at once where the interrupts are
    /// enabled.
    pub open spec fn handle_halted_interrupts(self) -> (CpuView, u8) {
        if self.pending_source() is None {
            (self, INTERRUPT_IGNORE_CYCLES)
        } else {
            CpuView { halt_state: HaltState::NotHalted, ..self }.handle_interrupts()
        }
    }
}

impl CPU {
    /// Whether `handle_interrupts` and `handle_halted_interrupts` may be
    /// called.
    pub fn can_dispatch(&self) -> (b: bool)
        ensures
            b == self@.dispatch_defined(),
    {
        if !matches!(self.interrupt_state, InterruptState::Enabled) {
            return true;
        }
        let i_enabled = self.bus.get_interrupt_enabled();
        let i_flags = self.bus.get_interrupt_flags();
        match get_source_from_bits(i_enabled & i_flags) {
            None => true,
            Some(_) => self.stack_is_writable(),
        }
    }

    /// Dispatches the pending interrupt of highest priority, where the
    /// interrupts are enabled and one is pending.
    pub fn handle_interrupts(&mut self) -> (cycles: u8)
        requires
            old(self)@.dispatch_defined(),
        ensures
            final(self)@ == old(self)@.handle_interrupts().0,
            cycles == old(self)@.handle_interrupts().1,
            cycles == 0 || cycles == 20,
    {
        if !matches!(self.interrupt_state, InterruptState::Enabled) {
            return INTERRUPT_IGNORE_CYCLES;
        }
        let i_enabled = self.bus.get_interrupt_enabled();
        let i_flags = self.bus.get_interrupt_flags();
        match get_source_from_bits(i_enabled & i_flags) {
            None => INTERRUPT_IGNORE_CYCLES,
            Some(interrupt_source) => self.execute_handler(interrupt_source),
        }
    }

    /// Wakes the halted CPU where a source is pending, and dispatches the
    /// interrupt where the interrupts are enabled.
    pub fn handle_halted_interrupts(&mut self) -> (cycles: u8)
        requires
            old(self)@.dispatch_defined(),
        ensures
            final(self)@ == old(self)@.handle_halted_interrupts().0,
            cycles == old(self)@.handle_halted_interrupts().1,
            cycles == 0 || cycles == 20,
    {
        let i_enabled = self.bus.get_interrupt_enabled();
        let i_flags = self.bus.get_interrupt_flags();
        match get_source_from_bits(i_enabled & i_flags) {
            None => INTERRUPT_IGNORE_CYCLES,
            Some(interrupt_source) => {
                self.halt_state = HaltState::NotHalted;
                match self.interrupt_state {
                    InterruptState::Enabled => self.execute_handler(interrupt_source),
                    _ => INTERRUPT_IGNORE_CYCLES,
                }
            },
        }
    }

    pub fn execute_handler(&mut self, interrupt_source: InterruptSource) -> (cycles: u8)
        requires
            old(self)@.stack_writable(),
        ensures
            final(self)@ == old(self)@.serve(interrupt_source),
            cycles == INTERRUPT_HANDLER_CYCLES,
    {
        self.interrupt_state = InterruptState::Disabled;
        self.bus.clear_interrupt_source(&interrupt_source);
        self.call_address(interrupt_source.handler());
        INTERRUPT_HANDLER_CYCLES
    }
}

/// Among the pending sources the one with the lowest bit is dispatched, and
/// no other. Its handler runs, its request is taken back and the requests
/// of the other sources stay; the interrupts are disabled and the dispatch
/// takes 20 cycles. (The stack lies in a memory that stores, so that the
/// push does not reach the interrupt registers.)
pub proof fn lemma_dispatch_priority(cpu: CpuView)
    requires
        cpu.bus.wf(),
        cpu.stack_stores(),
        cpu.dispatches(),
    ensures
        ({
            let source = cpu.pending_source()->0;
            let (after, cycles) = cpu.handle_interrupts();
            &&& cpu.bus.io.pending() & source.spec_bit() != 0
            &&& cpu.bus.io.pending() & ((source.spec_bit() - 1) as u8) == 0
            &&& after.registers.pc == source.spec_handler()
            &&& after.top() == cpu.registers.pc
            &&& after.interrupt_state == InterruptState::Disabled
            &&& after.bus.io.interrupt_requests & 0x1F == (cpu.bus.io.interrupt_requests & 0x1F)
                & !source.spec_bit()
            &&& after.bus.io.interrupt_enable == cpu.bus.io.interrupt_enable
            &&& cycles == INTERRUPT_HANDLER_CYCLES
        }),
{
    let bits = cpu.bus.io.interrupt_enabled() & cpu.bus.io.interrupt_flags();
    let source = cpu.pending_source()->0;
    let bit = source.spec_bit();
    let below = (bit - 1) as u8;
    let requests = cpu.bus.io.interrupt_requests;
    lemma_source_of(bits);
    assert(bit <= 0x1F ==> (bits & 0x1F) & bit == bits & bit) by (bit_vector);
    assert(below <= 0x1F ==> (bits & 0x1F) & below == bits & below) by (bit_vector);
    assert(bit <= 0x1F ==> ((requests | 0xE0) & !bit) & 0x1F == (requests & 0x1F) & !bit)
        by (bit_vector);
    let acknowledged = CpuView {
        interrupt_state: InterruptState::Disabled,
        bus: BusView { io: cpu.bus.io.acknowledge(bit), ..cpu.bus },
        ..cpu
    };
    acknowledged.lemma_push_pop(cpu.registers.pc);
}

} // verus!
