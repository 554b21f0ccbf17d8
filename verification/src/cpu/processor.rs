use vstd::prelude::*;
use crate::cpu::alu::{add_signed_offset, offset_address};
use crate::cpu::dma::{DmaState, DMA_LENGTH};
use crate::cpu::instructions::primary::{EI, RET};
use crate::cpu::instructions::Instruction;
use crate::cpu::interrupts::{HaltState, InterruptState};
use crate::cpu::opcodes::{decode, get_instruction};
use crate::cpu::registers::Registers;
use crate::cpu::timers::Clock;
use crate::memory::mem::MemoryView;
use crate::memory::bus::{
    Bus,
    BusView,
    IORegisters,
    address_is_prohibited,
    is_prohibited,
    oam_blocked,
    DMA_START,
    OAM_START,
};

verus! {

/// The three bytes at the program counter: an opcode and what may be its
/// operands.
#[derive(Clone, Copy, PartialEq, Eq, Structural, Debug)]
pub struct InstructionData {
    pub opcode: u8,
    pub param1: u8,
    pub param2: u8,
}

impl Default for InstructionData {
    fn default() -> (r: Self)
        ensures
            r == (InstructionData { opcode: 0, param1: 0, param2: 0 }),
    {
        InstructionData { opcode: 0, param1: 0, param2: 0 }
    }
}

/// The processor with the bus that it owns.
#[derive(Debug)]
pub struct CPU {
    pub registers: Registers,
    pub bus: Bus,
    pub current_instruction: InstructionData,
    /// Halt state and halt bug check
    pub halt_state: HaltState,
    /// Timers
    pub clock: Clock,
    pub last_timer_update: u64,
    /// Interrupt handling
    pub interrupt_state: InterruptState,
    /// DMA State
    pub dma_state: DmaState,
    /// The byte that the last step took from the serial port, if any.
    pub serial_output: Option<u8>,
}

/// The state of the processor, as plain values.
pub ghost struct CpuView {
    pub registers: Registers,
    pub bus: BusView,
    pub current_instruction: InstructionData,
    pub halt_state: HaltState,
    pub clock: Clock,
    pub last_timer_update: u64,
    pub interrupt_state: InterruptState,
    pub dma_state: DmaState,
    pub serial_output: Option<u8>,
}

impl View for CPU {
    type V = CpuView;

    open spec fn view(&self) -> CpuView {
        CpuView {
            registers: self.registers,
            bus: self.bus@,
            current_instruction: self.current_instruction,
            halt_state: self.halt_state,
            clock: self.clock,
            last_timer_update: self.last_timer_update,
            interrupt_state: self.interrupt_state,
            dma_state: self.dma_state,
            serial_output: self.serial_output,
        }
    }
}

impl CpuView {
    /// A processor at power-on around `bus`.
    pub open spec fn around(bus: BusView) -> CpuView {
        CpuView {
            registers: Registers::initial(),
            bus,
            current_instruction: InstructionData { opcode: 0, param1: 0, param2: 0 },
            halt_state: HaltState::NotHalted,
            clock: Clock { t: 0, m: 0 },
            last_timer_update: 0,
            interrupt_state: InterruptState::Disabled,
            dma_state: DmaState::Inactive,
            serial_output: None,
        }
    }

    pub open spec fn with_bus(self, bus: BusView) -> CpuView {
        CpuView { bus, ..self }
    }

    /// The CPU after it wrote `byte` to `address`: the bus takes the write,
    /// and one to the trigger register starts a transfer into the object
    /// memory.
    pub open spec fn write_byte(self, address: u16, byte: u8) -> CpuView {
        CpuView {
            bus: self.bus.write(address, byte),
            dma_state: if address == DMA_START {
                DmaState::started_by(byte)
            } else {
                self.dma_state
            },
            ..self
        }
    }

    /// The CPU after it wrote `word` low byte first.
    pub open spec fn write_word(self, address: u16, word: u16) -> CpuView {
        self.write_byte(address, (word % 256) as u8).write_byte(
            BusView::next(address),
            (word / 256) as u8,
        )
    }
}

impl Clone for CPU {
    fn clone(&self) -> (r: Self)
        ensures
            r@ == self@,
    {
        Self {
            registers: self.registers,
            bus: self.bus.clone(),
            current_instruction: self.current_instruction,
            halt_state: self.halt_state,
            clock: self.clock,
            last_timer_update: self.last_timer_update,
            interrupt_state: self.interrupt_state,
            dma_state: self.dma_state,
            serial_output: self.serial_output,
        }
    }
}

impl Default for CPU {
    /// A processor at power-on with a blank cartridge.
    fn default() -> (r: Self)
        ensures
            r@ == CpuView::around(BusView::with_cartridge(MemoryView::blank())),
            r@.bus.wf(),
    {
        Self {
            registers: Registers::default(),
            bus: Bus::default(),
            current_instruction: InstructionData::default(),
            halt_state: HaltState::default(),
            clock: Clock::default(),
            last_timer_update: 0,
            interrupt_state: InterruptState::default(),
            dma_state: DmaState::Inactive,
            serial_output: None,
        }
    }
}

impl CPU {
    pub fn read_byte(&self, address: u16) -> (b: u8)
        requires
            !is_prohibited(address),
        ensures
            b == self@.bus.read(address),
    {
        self.bus.read_byte(address)
    }

    /// Writes through the bus. A write to the trigger register starts a
    /// transfer into the object memory from the page that the byte names.
    pub fn write_byte(&mut self, address: u16, byte: u8)
        requires
            !is_prohibited(address),
        ensures
            final(self)@ == old(self)@.write_byte(address, byte),
    {
        self.bus.write_byte(address, byte);
        if address == DMA_START {
            self.dma_state = DmaState::init_dma_transfer(byte);
        }
    }

    /// Writes `word` with its low byte at `address` and its high byte at
    /// the address behind it.
    pub fn write_word(&mut self, address: u16, word: u16)
        requires
            !is_prohibited(address),
            !is_prohibited(BusView::next(address)),
        ensures
            final(self)@ == old(self)@.write_word(address, word),
    {
        self.write_byte(address, (word % 256) as u8);
        self.write_byte(address.wrapping_add(1), (word / 256) as u8);
    }
}

/// What the serial control register holds when a transfer is asked for.
pub const SERIAL_TRANSFER_REQUESTED: u8 = 0x81;

/// Cycles of a step in which the transfer engine or the halt keeps the CPU
/// from running an instruction.
pub const IDLE_CYCLES: u8 = 4;

/// A snapshot of the registers with the four bytes at the program counter,
/// for a log line.
#[derive(Clone, Copy, Debug)]
pub struct StateLog {
    pub registers: Registers,
    /// The flags packed into a byte.
    pub f: u8,
    pub next_bytes: [u8; 4],
}

impl CpuView {
    /// Whether the three bytes of a fetch can be read. With the halt bug
    /// the byte at the program counter is read twice, and only two
    /// addresses are touched.
    pub open spec fn fetch_defined(self) -> bool {
        let pc = self.registers.pc;
        &&& !is_prohibited(pc)
        &&& !is_prohibited(BusView::next(pc))
        &&& self.halt_state != HaltState::HaltBug ==> !is_prohibited(BusView::next(BusView::next(pc)))
    }

    /// The three bytes that a fetch reads. With the halt bug the byte at
    /// the program counter is read as opcode and again as first operand.
    pub open spec fn fetched(self) -> InstructionData {
        let pc = self.registers.pc;
        if self.halt_state == HaltState::HaltBug {
            InstructionData {
                opcode: self.bus.read(pc),
                param1: self.bus.read(pc),
                param2: self.bus.read(BusView::next(pc)),
            }
        } else {
            InstructionData {
                opcode: self.bus.read(pc),
                param1: self.bus.read(BusView::next(pc)),
                param2: self.bus.read(BusView::next(BusView::next(pc))),
            }
        }
    }

    /// The CPU after a fetch: the bytes stored, and the halt bug, which
    /// strikes once, over.
    pub open spec fn fetch(self) -> CpuView {
        CpuView {
            current_instruction: self.fetched(),
            halt_state: if self.halt_state == HaltState::HaltBug {
                HaltState::NotHalted
            } else {
                self.halt_state
            },
            ..self
        }
    }

    /// The CPU after the serial port was looked at: where a transfer is
    /// asked for and the data register holds a byte other than 0, the byte
    /// is taken out and the register cleared.
    pub open spec fn drain_serial(self) -> CpuView {
        if self.bus.io.serial_control == SERIAL_TRANSFER_REQUESTED && self.bus.io.serial_data
            != 0 {
            CpuView {
                serial_output: Some(self.bus.io.serial_data),
                bus: BusView { io: IORegisters { serial_data: 0, ..self.bus.io }, ..self.bus },
                ..self
            }
        } else {
            CpuView { serial_output: None, ..self }
        }
    }

    /// A step of the transfer engine: one byte copied, four cycles.
    pub open spec fn step_dma(self) -> (CpuView, u8) {
        (
            CpuView {
                bus: self.dma_state.spec_copy(self.bus),
                dma_state: self.dma_state.spec_next(),
                serial_output: None,
                ..self
            },
            IDLE_CYCLES,
        )
    }

    /// A step of the halted CPU, after the fetch: interrupts are looked at,
    /// and the timer goes on.
    pub open spec fn step_halted(self) -> (CpuView, u8) {
        let (cpu, interrupt_cycles) = self.handle_halted_interrupts();
        let cycles = (interrupt_cycles + IDLE_CYCLES) as u8;
        (CpuView { serial_output: None, ..cpu.update_timers(cycles) }, cycles)
    }

    /// The CPU that is about to run the fetched instruction: the program
    /// counter behind it, unless the halt bug struck.
    pub open spec fn advance(self, halt_bug: bool) -> CpuView {
        if halt_bug {
            self
        } else {
            self.with_pc(
                offset_address(self.registers.pc, decode(self.current_instruction).1 as u8),
            )
        }
    }

    /// The CPU after the instruction ran: a request to enable the
    /// interrupts that was made before this instruction, and stands, is
    /// granted.
    pub open spec fn resolve_enable(self, requested: bool) -> CpuView {
        if requested && self.interrupt_state == InterruptState::EnableRequested {
            CpuView { interrupt_state: InterruptState::Enabled, ..self }
        } else {
            self
        }
    }

    /// The CPU after the fetched instruction ran, with the request to
    /// enable the interrupts resolved, and the cycles of the instruction.
    pub open spec fn run_instruction(self, halt_bug: bool) -> (CpuView, u8) {
        let ready = self.advance(halt_bug);
        let (cpu, cycles) = decode(self.current_instruction).0.spec_execute(ready);
        (cpu.resolve_enable(self.interrupt_state == InterruptState::EnableRequested), cycles)
    }

    /// The CPU after interrupts were dispatched, the timer went on and the
    /// serial port was looked at, `cycles` after the step began.
    pub open spec fn finish_step(self, cycles: u8) -> (CpuView, u8) {
        let (cpu, interrupt_cycles) = self.handle_interrupts();
        let total = (cycles + interrupt_cycles) as u8;
        (cpu.update_timers(total).drain_serial(), total)
    }

    /// A step of the running CPU, after the fetch.
    pub open spec fn step_instruction(self, halt_bug: bool) -> (CpuView, u8) {
        let (cpu, cycles) = self.run_instruction(halt_bug);
        cpu.finish_step(cycles)
    }

    /// Whether the fetched instruction can run and the dispatch that
    /// follows it can push.
    pub open spec fn instruction_defined(self, halt_bug: bool) -> bool {
        &&& decode(self.current_instruction).0.defined(self.advance(halt_bug))
        &&& self.run_instruction(halt_bug).0.dispatch_defined()
    }

    /// Whether a step can be made: it reads and writes no prohibited
    /// address and meets no opcode that the processor does not have.
    pub open spec fn step_defined(self) -> bool {
        if self.dma_state is Active {
            self.dma_state.step_defined()
        } else if !self.fetch_defined() {
            false
        } else if self.fetch().halt_state == HaltState::Halted {
            self.fetch().dispatch_defined()
        } else {
            self.fetch().instruction_defined(self.halt_state == HaltState::HaltBug)
        }
    }

    /// The state in which a step that cannot be made leaves the CPU: as it
    /// was where the transfer or the fetch would reach the prohibited
    /// range; after the fetch where the halted CPU cannot dispatch; with
    /// the program counter behind the instruction where that cannot run;
    /// and after the instruction where the dispatch that follows cannot
    /// push.
    pub open spec fn stopped(self) -> CpuView {
        let halt_bug = self.halt_state == HaltState::HaltBug;
        if self.dma_state is Active || !self.fetch_defined() {
            self
        } else if self.fetch().halt_state == HaltState::Halted {
            self.fetch()
        } else if !decode(self.fetched()).0.defined(self.fetch().advance(halt_bug)) {
            self.fetch().advance(halt_bug)
        } else {
            self.fetch().run_instruction(halt_bug).0
        }
    }

    /// The CPU after one step, and the cycles that the step took. While a
    /// transfer into the object memory is under way the step moves one byte
    /// and runs no instruction. Else three bytes are fetched. The halted
    /// CPU then only looks for interrupts; the running one decodes and runs
    /// the instruction, dispatches an interrupt, lets the timer catch up
    /// and looks at the serial port.
    pub open spec fn spec_step(self) -> (CpuView, u8) {
        if self.dma_state is Active {
            self.step_dma()
        } else if self.fetch().halt_state == HaltState::Halted {
            self.fetch().step_halted()
        } else {
            self.fetch().step_instruction(self.halt_state == HaltState::HaltBug)
        }
    }
}

impl CPU {
    pub fn can_fetch(&self) -> (b: bool)
        ensures
            b == self@.fetch_defined(),
    {
        let pc = self.registers.pc;
        !address_is_prohibited(pc) && !address_is_prohibited(pc.wrapping_add(1)) && (matches!(
            self.halt_state,
            HaltState::HaltBug
        ) || !address_is_prohibited(pc.wrapping_add(2)))
    }

    /// Reads the three bytes at the program counter. With the halt bug the
    /// first of them is read twice.
    pub fn fetch(&mut self) -> (data: InstructionData)
        requires
            old(self)@.fetch_defined(),
        ensures
            data == old(self)@.fetched(),
            final(self)@ == (CpuView { halt_state: old(self)@.fetch().halt_state, ..old(self)@ }),
    {
        let pc = self.registers.pc;
        match self.halt_state {
            HaltState::HaltBug => {
                self.halt_state = HaltState::NotHalted;
                InstructionData {
                    opcode: self.bus.read_byte(pc),
                    param1: self.bus.read_byte(pc),
                    param2: self.bus.read_byte(pc.wrapping_add(1)),
                }
            },
            _ => InstructionData {
                opcode: self.bus.read_byte(pc),
                param1: self.bus.read_byte(pc.wrapping_add(1)),
                param2: self.bus.read_byte(pc.wrapping_add(2)),
            },
        }
    }

    /// Takes a byte from the serial port where a transfer is asked for, and
    /// keeps it in `serial_output` for whoever prints it.
    pub fn print_serial_output(&mut self)
        ensures
            final(self)@ == old(self)@.drain_serial(),
    {
        self.serial_output = None;
        if self.bus.io.serial_control == SERIAL_TRANSFER_REQUESTED {
            let character = self.bus.io.serial_data;
            if character != 0x00 {
                self.serial_output = Some(character);
                self.bus.io.serial_data = 0x00;
            }
        }
    }

    fn try_step_dma(&mut self) -> (r: Option<u8>)
        requires
            old(self).dma_state is Active,
        ensures
            r is Some <==> old(self)@.step_defined(),
            r matches Some(cycles) ==> final(self)@ == old(self)@.spec_step().0 && cycles == old(
                self,
            )@.spec_step().1,
            r is None ==> final(self)@ == old(self)@,
    {
        if !self.dma_state.can_step() {
            return None;
        }
        self.dma_state = self.dma_state.step(&mut self.bus);
        self.serial_output = None;
        Some(IDLE_CYCLES)
    }

    fn try_step_halted(&mut self) -> (r: Option<u8>)
        ensures
            r is Some <==> old(self)@.dispatch_defined(),
            r matches Some(cycles) ==> final(self)@ == old(self)@.step_halted().0 && cycles == old(
                self,
            )@.step_halted().1,
            r is None ==> final(self)@ == old(self)@,
    {
        if !self.can_dispatch() {
            return None;
        }
        // the timers go on during the halt, by the four cycles of an idle step
        let cycles = self.handle_halted_interrupts() + IDLE_CYCLES;
        self.update_timers(cycles);
        self.serial_output = None;
        Some(cycles)
    }

    fn try_run_instruction(&mut self, halt_bug: bool) -> (r: Option<u8>)
        ensures
            r is Some <==> decode(old(self).current_instruction).0.defined(
                old(self)@.advance(halt_bug),
            ),
            r matches Some(cycles) ==> final(self)@ == old(self)@.run_instruction(halt_bug).0
                && cycles == old(self)@.run_instruction(halt_bug).1 && cycles % 4 == 0 && cycles
                <= 24,
            r is None ==> final(self)@ == old(self)@.advance(halt_bug),
    {
        let (instruction, bytes) = get_instruction(&self.current_instruction);
        if !halt_bug {
            self.registers.pc = add_signed_offset(self.registers.pc, bytes as u8);
        }
        if !instruction.can_execute(self) {
            return None;
        }
        let requested = matches!(self.interrupt_state, InterruptState::EnableRequested);
        let instruction_cycles = instruction.execute(self);
        // the interrupts that EI asked for are enabled one instruction late
        if requested && matches!(self.interrupt_state, InterruptState::EnableRequested) {
            self.interrupt_state = InterruptState::Enabled;
        }
        Some(instruction_cycles)
    }

    fn try_finish_step(&mut self, cycles: u8) -> (r: Option<u8>)
        requires
            cycles % 4 == 0,
            cycles <= 24,
        ensures
            r is Some <==> old(self)@.dispatch_defined(),
            r matches Some(total) ==> final(self)@ == old(self)@.finish_step(cycles).0 && total
                == old(self)@.finish_step(cycles).1,
            r is None ==> final(self)@ == old(self)@,
    {
        if !self.can_dispatch() {
            return None;
        }
        let interrupt_cycles = self.handle_interrupts();
        let total = cycles + interrupt_cycles;
        self.update_timers(total);
        self.print_serial_output();
        Some(total)
    }

    /// Makes a step where one can be made, and returns the cycles that it
    /// took. Where none can be made the result is `None`, and the CPU is
    /// left as far as the step got.
    pub fn try_step(&mut self) -> (r: Option<u8>)
        ensures
            r is Some <==> old(self)@.step_defined(),
            r matches Some(cycles) ==> final(self)@ == old(self)@.spec_step().0 && cycles == old(
                self,
            )@.spec_step().1,
            r is None ==> final(self)@ == old(self)@.stopped(),
    {
        if matches!(self.dma_state, DmaState::Active { .. }) {
            return self.try_step_dma();
        }
        if !self.can_fetch() {
            return None;
        }
        let halt_bug = matches!(self.halt_state, HaltState::HaltBug);
        let data = self.fetch();
        self.current_instruction = data;
        if matches!(self.halt_state, HaltState::Halted) {
            return self.try_step_halted();
        }
        match self.try_run_instruction(halt_bug) {
            None => None,
            Some(cycles) => self.try_finish_step(cycles),
        }
    }

    /// Whether `step` may be called. The answer is found on a copy of the
    /// CPU.
    pub fn can_step(&self) -> (b: bool)
        ensures
            b == self@.step_defined(),
    {
        let mut copy = self.clone();
        copy.try_step().is_some()
    }

    /// Makes one step and returns the cycles that it took.
    pub fn step(&mut self) -> (cycles: u8)
        requires
            old(self)@.step_defined(),
        ensures
            final(self)@ == old(self)@.spec_step().0,
            cycles == old(self)@.spec_step().1,
    {
        match self.try_step() {
            Some(cycles) => cycles,
            None => vstd::pervasive::unreached(),
        }
    }

    /// The registers and the four bytes at the program counter, as they
    /// stand.
    pub fn log_state(&self) -> (log: StateLog)
        ensures
            log.registers == self.registers,
            log.f == self.registers.f.spec_to_byte(),
            forall|i: int|
                0 <= i < 4 ==> log.next_bytes@[i] == self@.bus.read_debug(
                    offset_address(self.registers.pc, i as u8),
                ),
    {
        let pc = self.registers.pc;
        StateLog {
            registers: self.registers,
            f: self.registers.f.to_byte(),
            next_bytes: [
                self.bus.read_debug(add_signed_offset(pc, 0)),
                self.bus.read_debug(add_signed_offset(pc, 1)),
                self.bus.read_debug(add_signed_offset(pc, 2)),
                self.bus.read_debug(add_signed_offset(pc, 3)),
            ],
        }
    }
}

/// The halt bug. HALT leaves the CPU in the state `HaltBug` exactly where
/// the interrupts are not enabled and a source is pending. In the step
/// that follows, the byte at the program counter is read twice, as opcode
/// and as first operand; the instruction runs with the program counter
/// where it was, so that the byte is fetched again by the next step unless
/// the instruction jumps; and the bug is over.
pub proof fn lemma_halt_bug(cpu: CpuView)
    ensures
        cpu.halt().halt_state == HaltState::HaltBug <==> cpu.interrupt_state
            != InterruptState::Enabled && cpu.bus.io.pending() != 0,
        cpu.halt().halt_state != HaltState::HaltBug ==> cpu.halt().halt_state == HaltState::Halted,
        cpu.halt_state == HaltState::HaltBug ==> {
            &&& cpu.fetched().opcode == cpu.bus.read(cpu.registers.pc)
            &&& cpu.fetched().param1 == cpu.bus.read(cpu.registers.pc)
            &&& cpu.fetch().halt_state == HaltState::NotHalted
            &&& cpu.fetch().advance(true).registers.pc == cpu.registers.pc
            &&& !(cpu.dma_state is Active) ==> cpu.spec_step() == cpu.fetch().step_instruction(true)
        },
        cpu.halt_state != HaltState::HaltBug ==> cpu.fetch().advance(false).registers.pc
            == offset_address(cpu.registers.pc, decode(cpu.fetched()).1 as u8),
{
}

/// While a transfer into the object memory is under way, a step runs no
/// instruction: it takes four cycles, moves the transfer on by one byte
/// and leaves registers, clock, halt state and interrupts alone. The
/// transfer ends with the byte number 159.
pub proof fn lemma_transfer_suspends_execution(cpu: CpuView)
    requires
        cpu.dma_state is Active,
    ensures
        ({
            let (after, cycles) = cpu.spec_step();
            &&& cycles == IDLE_CYCLES
            &&& after.registers == cpu.registers
            &&& after.clock == cpu.clock
            &&& after.halt_state == cpu.halt_state
            &&& after.interrupt_state == cpu.interrupt_state
            &&& after.bus == cpu.dma_state.spec_copy(cpu.bus)
            &&& after.dma_state is Inactive <==> cpu.dma_state->index >= 159
            &&& after.dma_state matches DmaState::Active { src, index } ==> src
                == cpu.dma_state->src && index == cpu.dma_state->index + 1
        }),
{
}

impl CpuView {
    /// The CPU after `count` steps, and the cycles that they took in all.
    pub open spec fn steps(self, count: nat) -> (CpuView, int)
        decreases count,
    {
        if count == 0 {
            (self, 0)
        } else {
            let (before, cycles) = self.steps((count - 1) as nat);
            (before.spec_step().0, cycles + before.spec_step().1)
        }
    }

    /// The CPU after `count` steps of the transfer engine.
    pub open spec fn transfer_steps(self, count: nat) -> CpuView
        decreases count,
    {
        if count == 0 {
            self
        } else {
            self.transfer_steps((count - 1) as nat).step_dma().0
        }
    }
}

/// After `count` steps of a transfer that was started from the page `page`
/// the first `count` bytes that the bus reads there are copied into the
/// object memory, byte for byte, and nothing else that can be read has
/// changed, unless the page lies in the prohibited range or the PPU has the
/// object memory closed. The transfer is over after 160 steps.
pub proof fn lemma_transfer_copies(cpu: CpuView, page: u8, count: nat)
    requires
        cpu.bus.wf(),
        cpu.dma_state == DmaState::started_by(page),
        !is_prohibited((page * 256) as u16),
        !oam_blocked(cpu.bus.ppu_mode),
        count <= DMA_LENGTH,
    ensures
        ({
            let after = cpu.transfer_steps(count);
            let src = (page * 256) as u16;
            &&& after.registers == cpu.registers
            &&& after.clock == cpu.clock
            &&& after.halt_state == cpu.halt_state
            &&& after.interrupt_state == cpu.interrupt_state
            &&& after.bus.wf()
            &&& after.bus.ppu_mode == cpu.bus.ppu_mode
            &&& after.dma_state == if count < DMA_LENGTH {
                DmaState::Active { src, index: count as u16 }
            } else {
                DmaState::Inactive
            }
            &&& after.dma_state.step_defined()
            &&& forall|i: int|
                0 <= i < count ==> #[trigger] after.bus.read((OAM_START + i) as u16)
                    == cpu.bus.read((src + i) as u16)
            &&& forall|address: u16|
                !(OAM_START <= address < OAM_START + count) ==> #[trigger] after.bus.read(address)
                    == cpu.bus.read(address)
        }),
    decreases count,
{
    let src = (page * 256) as u16;
    if count > 0 {
        let done = (count - 1) as nat;
        lemma_transfer_copies(cpu, page, done);
        let before = cpu.transfer_steps(done);
        let source = (src + done) as u16;
        let target = (OAM_START + done) as u16;
        assert(before.dma_state == DmaState::Active { src, index: done as u16 });
        assert(before.dma_state.source_address() == source);
        assert(before.bus.read(source) == cpu.bus.read(source));
        before.bus.lemma_write_object_memory(target, before.bus.read(source));
        let after = before.step_dma().0;
        assert(after.bus == before.bus.write(target, before.bus.read(source)));
        assert forall|i: int| 0 <= i < count implies #[trigger] after.bus.read(
            (OAM_START + i) as u16,
        ) == cpu.bus.read((src + i) as u16) by {
            if i < done {
                assert(before.bus.read((OAM_START + i) as u16) == cpu.bus.read((src + i) as u16));
            }
        }
        assert forall|address: u16|
            !(OAM_START <= address < OAM_START + count) implies #[trigger] after.bus.read(address)
            == cpu.bus.read(address) by {
            assert(before.bus.read(address) == cpu.bus.read(address));
        }
    }
}

/// The first 160 steps after a transfer was started are steps of the
/// transfer engine: each of them can be made and takes four cycles, and
/// none of them runs an instruction.
pub proof fn lemma_transfer_takes_160_steps(cpu: CpuView, page: u8, count: nat)
    requires
        cpu.bus.wf(),
        cpu.dma_state == DmaState::started_by(page),
        !is_prohibited((page * 256) as u16),
        !oam_blocked(cpu.bus.ppu_mode),
        count <= DMA_LENGTH,
    ensures
        cpu.steps(count).0 == cpu.transfer_steps(count),
        cpu.steps(count).1 == 4 * count,
        count < DMA_LENGTH ==> cpu.steps(count).0.step_defined(),
    decreases count,
{
    lemma_transfer_copies(cpu, page, count);
    if count > 0 {
        let done = (count - 1) as nat;
        lemma_transfer_takes_160_steps(cpu, page, done);
        lemma_transfer_copies(cpu, page, done);
    }
}

/// The interrupts are enabled one instruction late. The step in which EI
/// asks for them leaves the request standing and dispatches nothing; the
/// step after it grants the request once its instruction has run, unless
/// that instruction disabled the interrupts or asked again; and a request
/// is granted in no other way.
pub proof fn lemma_enable_is_delayed(cpu: CpuView, halt_bug: bool, cycles: u8)
    ensures
        decode(cpu.current_instruction).0 == Instruction::Ei(EI) && cpu.interrupt_state
            != InterruptState::EnableRequested ==> {
            &&& cpu.run_instruction(halt_bug).0.interrupt_state == InterruptState::EnableRequested
            &&& cpu.step_instruction(halt_bug).1 == 4
            &&& cpu.step_instruction(halt_bug).0.interrupt_state == InterruptState::EnableRequested
            &&& cpu.step_instruction(halt_bug).0.registers.pc == cpu.advance(halt_bug).registers.pc
        },
        cpu.interrupt_state == InterruptState::EnableRequested && decode(
            cpu.current_instruction,
        ).0.spec_execute(cpu.advance(halt_bug)).0.interrupt_state == InterruptState::EnableRequested
            ==> cpu.run_instruction(halt_bug).0.interrupt_state == InterruptState::Enabled,
        cpu.interrupt_state == InterruptState::Disabled && cpu.run_instruction(
            halt_bug,
        ).0.interrupt_state == InterruptState::Enabled ==> decode(cpu.current_instruction).0
            == Instruction::Ret(RET::EI),
        cpu.interrupt_state != InterruptState::Enabled ==> cpu.finish_step(cycles).1 == cycles,
{
    let instruction = decode(cpu.current_instruction).0;
    let ready = cpu.advance(halt_bug);
    if cpu.interrupt_state == InterruptState::Disabled && instruction.spec_execute(
        ready,
    ).0.interrupt_state == InterruptState::Enabled {
        lemma_only_return_enables(instruction, ready);
    }
}

#[verifier::rlimit(40)]
proof fn lemma_arithmetic_keeps_enable(instruction: Instruction, cpu: CpuView)
    requires
        instruction.is_arithmetic() || instruction.is_adjusting(),
    ensures
        instruction.spec_execute(cpu).0.interrupt_state == cpu.interrupt_state,
{
}

#[verifier::rlimit(40)]
proof fn lemma_loading_keeps_enable(instruction: Instruction, cpu: CpuView)
    requires
        instruction.is_loading(),
    ensures
        instruction.spec_execute(cpu).0.interrupt_state == if instruction is Di {
            InterruptState::Disabled
        } else if instruction is Ei {
            InterruptState::EnableRequested
        } else {
            cpu.interrupt_state
        },
{
}

#[verifier::rlimit(40)]
proof fn lemma_branching_keeps_enable(instruction: Instruction, cpu: CpuView)
    requires
        instruction.is_branching(),
    ensures
        instruction.spec_execute(cpu).0.interrupt_state == if instruction == Instruction::Ret(
            RET::EI,
        ) {
            InterruptState::Enabled
        } else {
            cpu.interrupt_state
        },
{
}

#[verifier::rlimit(40)]
proof fn lemma_rotations_keep_enable(instruction: Instruction, cpu: CpuView)
    requires
        instruction is Rlc || instruction is Rrc || instruction is Rl || instruction is Rr,
    ensures
        instruction.spec_execute(cpu).0.interrupt_state == cpu.interrupt_state,
{
}

#[verifier::rlimit(40)]
proof fn lemma_shifts_keep_enable(instruction: Instruction, cpu: CpuView)
    requires
        instruction is Sla || instruction is Sra || instruction is Swap || instruction is Srl,
    ensures
        instruction.spec_execute(cpu).0.interrupt_state == cpu.interrupt_state,
{
}

#[verifier::rlimit(40)]
proof fn lemma_bits_keep_enable(instruction: Instruction, cpu: CpuView)
    requires
        instruction.is_bitwise(),
    ensures
        instruction.spec_execute(cpu).0.interrupt_state == cpu.interrupt_state,
{
}

proof fn lemma_extended_keeps_enable(instruction: Instruction, cpu: CpuView)
    requires
        instruction.is_shifting() || instruction.is_bitwise(),
    ensures
        instruction.spec_execute(cpu).0.interrupt_state == cpu.interrupt_state,
{
    if instruction is Rlc || instruction is Rrc || instruction is Rl || instruction is Rr {
        lemma_rotations_keep_enable(instruction, cpu);
    } else if instruction.is_bitwise() {
        lemma_bits_keep_enable(instruction, cpu);
    } else {
        lemma_shifts_keep_enable(instruction, cpu);
    }
}

/// Of all instructions only the return from an interrupt handler enables
/// the interrupts at once.
pub proof fn lemma_only_return_enables(instruction: Instruction, cpu: CpuView)
    requires
        cpu.interrupt_state != InterruptState::Enabled,
        instruction.spec_execute(cpu).0.interrupt_state == InterruptState::Enabled,
    ensures
        instruction == Instruction::Ret(RET::EI),
{
    if instruction.is_arithmetic() || instruction.is_adjusting() {
        lemma_arithmetic_keeps_enable(instruction, cpu);
    } else if instruction.is_loading() {
        lemma_loading_keeps_enable(instruction, cpu);
    } else if instruction.is_branching() {
        lemma_branching_keeps_enable(instruction, cpu);
    } else if instruction.is_shifting() || instruction.is_bitwise() {
        lemma_extended_keeps_enable(instruction, cpu);
    }
}

} // verus!
