use vstd::prelude::*;
use crate::cpu::alu::{
    alu_add,
    alu_sub,
    alu_inc,
    alu_dec,
    alu_add16,
    alu_add_sp,
    alu_daa,
    spec_rlc,
    spec_rrc,
    spec_rl,
    spec_rr,
    offset_address,
    add_bytes,
    sub_bytes,
    increment,
    decrement,
    add_words,
    add_to_stack_pointer,
    decimal_adjust,
    rotate_left,
    rotate_right,
    rotate_left_through_carry,
    rotate_right_through_carry,
    add_signed_offset,
    complement,
};
use crate::cpu::interrupts::InterruptState;
use crate::cpu::processor::{CPU, CpuView};
use crate::cpu::registers::{Flags, Registers, R8, R16, R16Mem, high_byte, low_byte};
use crate::memory::bus::{BusView, is_prohibited, address_is_prohibited};

verus! {

/// A byte operand: a constant, a register, or the byte that HL points at.
#[derive(Clone, Copy, PartialEq, Eq, Structural, Debug)]
pub enum ByteTarget {
    Constant(u8),
    Register8(R8),
    HLAddress,
}

impl ByteTarget {
    /// Cycles of an instruction with this operand: 4 with a register, 8
    /// with a constant or through HL.
    pub open spec fn spec_cycles(self) -> u8 {
        match self {
            ByteTarget::Register8(_) => 4,
            _ => 8,
        }
    }

    /// The operand can be read unless HL points into the prohibited range.
    pub open spec fn readable(self, cpu: CpuView) -> bool {
        self is HLAddress ==> !is_prohibited(cpu.registers.hl())
    }

    pub open spec fn value(self, cpu: CpuView) -> u8 {
        match self {
            ByteTarget::Constant(value) => value,
            ByteTarget::Register8(register) => cpu.registers.r8(register),
            ByteTarget::HLAddress => cpu.hl_ptr(),
        }
    }

    pub fn cycles(&self) -> (r: u8)
        ensures
            r == self.spec_cycles(),
    {
        match self {
            ByteTarget::Register8(_) => 4,
            _ => 8,
        }
    }

    pub fn is_readable(&self, cpu: &CPU) -> (b: bool)
        ensures
            b == self.readable(cpu@),
    {
        match self {
            ByteTarget::HLAddress => cpu.hl_is_accessible(),
            _ => true,
        }
    }
}

/// A word operand: a register pair or the stack pointer.
#[derive(Clone, Copy, PartialEq, Eq, Structural, Debug)]
pub enum WordTarget {
    Register16(R16),
    SP,
}

impl WordTarget {
    pub open spec fn value(self, cpu: CpuView) -> u16 {
        match self {
            WordTarget::Register16(register) => cpu.registers.r16(register),
            WordTarget::SP => cpu.registers.sp,
        }
    }
}

impl CpuView {
    pub open spec fn hl_accessible(self) -> bool {
        !is_prohibited(self.registers.hl())
    }

    /// Whether the two bytes below the stack pointer can be written.
    pub open spec fn stack_writable(self) -> bool {
        &&& !is_prohibited(offset_address(self.registers.sp, 0xFE))
        &&& !is_prohibited(offset_address(self.registers.sp, 0xFF))
    }

    /// Whether the two bytes at the stack pointer can be read.
    pub open spec fn stack_readable(self) -> bool {
        &&& !is_prohibited(self.registers.sp)
        &&& !is_prohibited(BusView::next(self.registers.sp))
    }

    /// The CPU after `value` was pushed: the stack pointer two down, the
    /// value below it, low byte first.
    pub open spec fn push(self, value: u16) -> CpuView {
        let sp = offset_address(self.registers.sp, 0xFE);
        self.with_sp(sp).write_word(sp, value)
    }

    /// The word on top of the stack.
    pub open spec fn top(self) -> u16 {
        self.bus.read_word(self.registers.sp)
    }

    /// The CPU after the word on top of the stack was taken.
    pub open spec fn pop(self) -> CpuView {
        self.with_sp(offset_address(self.registers.sp, 2))
    }

    /// The CPU after a call: the program counter pushed, then set.
    pub open spec fn call(self, address: u16) -> CpuView {
        self.push(self.registers.pc).with_pc(address)
    }

    /// The CPU after a return: the program counter taken from the stack.
    pub open spec fn ret(self) -> CpuView {
        self.pop().with_pc(self.top())
    }
}

impl CPU {
    pub fn hl_is_accessible(&self) -> (b: bool)
        ensures
            b == self@.hl_accessible(),
    {
        !address_is_prohibited(self.read_hl())
    }

    pub fn stack_is_writable(&self) -> (b: bool)
        ensures
            b == self@.stack_writable(),
    {
        !address_is_prohibited(add_signed_offset(self.registers.sp, 0xFE))
            && !address_is_prohibited(add_signed_offset(self.registers.sp, 0xFF))
    }

    pub fn stack_is_readable(&self) -> (b: bool)
        ensures
            b == self@.stack_readable(),
    {
        !address_is_prohibited(self.registers.sp) && !address_is_prohibited(
            self.registers.sp.wrapping_add(1),
        )
    }

    pub fn push_to_stack(&mut self, value: u16)
        requires
            old(self)@.stack_writable(),
        ensures
            final(self)@ == old(self)@.push(value),
    {
        self.registers.sp = add_signed_offset(self.registers.sp, 0xFE);
        self.write_word(self.registers.sp, value);
    }

    pub fn pop_from_stack(&mut self) -> (r: u16)
        requires
            old(self)@.stack_readable(),
        ensures
            r == old(self)@.top(),
            final(self)@ == old(self)@.pop(),
    {
        let result = self.bus.read_word(self.registers.sp);
        self.registers.sp = add_signed_offset(self.registers.sp, 2);
        result
    }

    pub fn read_bytetarget(&self, target: &ByteTarget) -> (r: u8)
        requires
            target.readable(self@),
        ensures
            r == target.value(self@),
    {
        match target {
            ByteTarget::Constant(value) => *value,
            ByteTarget::Register8(register) => self.read_r8(register),
            ByteTarget::HLAddress => self.read_hl_ptr(),
        }
    }

    /// Pushes the program counter, which already points behind the
    /// instruction, and jumps.
    pub fn call_address(&mut self, address: u16)
        requires
            old(self)@.stack_writable(),
        ensures
            final(self)@ == old(self)@.call(address),
    {
        self.push_to_stack(self.registers.pc);
        self.registers.pc = address;
    }
}

#[derive(Clone, Copy, PartialEq, Eq, Structural, Debug)]
pub enum ADD {
    Byte(ByteTarget),
    Word(WordTarget),
    StackPointer(u8),
}

impl ADD {
    pub open spec fn defined(self, cpu: CpuView) -> bool {
        match self {
            ADD::Byte(target) => target.readable(cpu),
            _ => true,
        }
    }

    pub open spec fn spec_execute(self, cpu: CpuView) -> (CpuView, u8) {
        match self {
            ADD::Byte(target) => {
                let (a, f) = alu_add(cpu.registers.a, target.value(cpu), false);
                (cpu.with_registers(Registers { a, f, ..cpu.registers }), target.spec_cycles())
            },
            ADD::Word(target) => {
                let (hl, f) = alu_add16(cpu.registers.hl(), target.value(cpu), cpu.registers.f);
                (cpu.with_flags(f).with_hl(hl), 8)
            },
            ADD::StackPointer(offset) => {
                let (sp, f) = alu_add_sp(cpu.registers.sp, offset);
                (cpu.with_registers(Registers { sp, f, ..cpu.registers }), 16)
            },
        }
    }

    pub fn can_execute(&self, cpu: &CPU) -> (b: bool)
        ensures
            b == self.defined(cpu@),
    {
        match self {
            ADD::Byte(target) => target.is_readable(cpu),
            _ => true,
        }
    }

    pub fn execute(&self, cpu: &mut CPU) -> (cycles: u8)
        requires
            self.defined(old(cpu)@),
        ensures
            final(cpu)@ == self.spec_execute(old(cpu)@).0,
            cycles == self.spec_execute(old(cpu)@).1,
    {
        match self {
            ADD::Byte(target) => {
                let value = cpu.read_bytetarget(target);
                let (result, flags) = add_bytes(cpu.registers.a, value, false);
                cpu.registers.f = flags;
                cpu.registers.a = result;
                target.cycles()
            },
            ADD::Word(target) => {
                let value = match target {
                    WordTarget::Register16(register) => cpu.read_r16(register),
                    WordTarget::SP => cpu.registers.sp,
                };
                let (result, flags) = add_words(cpu.read_hl(), value, cpu.registers.f);
                cpu.registers.f = flags;
                cpu.write_hl(result);
                8
            },
            ADD::StackPointer(offset) => {
                let (result, flags) = add_to_stack_pointer(cpu.registers.sp, *offset);
                cpu.registers.f = flags;
                cpu.registers.sp = result;
                16
            },
        }
    }
}

#[derive(Clone, Copy, PartialEq, Eq, Structural, Debug)]
pub struct ADC(pub ByteTarget);

impl ADC {
    pub open spec fn defined(self, cpu: CpuView) -> bool {
        self.0.readable(cpu)
    }

    pub open spec fn spec_execute(self, cpu: CpuView) -> (CpuView, u8) {
        let (a, f) = alu_add(cpu.registers.a, self.0.value(cpu), cpu.registers.f.carry);
        (cpu.with_registers(Registers { a, f, ..cpu.registers }), self.0.spec_cycles())
    }

    pub fn execute(&self, cpu: &mut CPU) -> (cycles: u8)
        requires
            self.defined(old(cpu)@),
        ensures
            final(cpu)@ == self.spec_execute(old(cpu)@).0,
            cycles == self.spec_execute(old(cpu)@).1,
    {
        let value = cpu.read_bytetarget(&self.0);
        let (result, flags) = add_bytes(cpu.registers.a, value, cpu.registers.f.carry);
        cpu.registers.f = flags;
        cpu.registers.a = result;
        self.0.cycles()
    }
}

#[derive(Clone, Copy, PartialEq, Eq, Structural, Debug)]
pub struct SUB(pub ByteTarget);

impl SUB {
    pub open spec fn defined(self, cpu: CpuView) -> bool {
        self.0.readable(cpu)
    }

    pub open spec fn spec_execute(self, cpu: CpuView) -> (CpuView, u8) {
        let (a, f) = alu_sub(cpu.registers.a, self.0.value(cpu), false);
        (cpu.with_registers(Registers { a, f, ..cpu.registers }), self.0.spec_cycles())
    }

    pub fn execute(&self, cpu: &mut CPU) -> (cycles: u8)
        requires
            self.defined(old(cpu)@),
        ensures
            final(cpu)@ == self.spec_execute(old(cpu)@).0,
            cycles == self.spec_execute(old(cpu)@).1,
    {
        let value = cpu.read_bytetarget(&self.0);
        let (result, flags) = sub_bytes(cpu.registers.a, value, false);
        cpu.registers.f = flags;
        cpu.registers.a = result;
        self.0.cycles()
    }
}

#[derive(Clone, Copy, PartialEq, Eq, Structural, Debug)]
pub struct SBC(pub ByteTarget);

impl SBC {
    pub open spec fn defined(self, cpu: CpuView) -> bool {
        self.0.readable(cpu)
    }

    pub open spec fn spec_execute(self, cpu: CpuView) -> (CpuView, u8) {
        let (a, f) = alu_sub(cpu.registers.a, self.0.value(cpu), cpu.registers.f.carry);
        (cpu.with_registers(Registers { a, f, ..cpu.registers }), self.0.spec_cycles())
    }

    pub fn execute(&self, cpu: &mut CPU) -> (cycles: u8)
        requires
            self.defined(old(cpu)@),
        ensures
            final(cpu)@ == self.spec_execute(old(cpu)@).0,
            cycles == self.spec_execute(old(cpu)@).1,
    {
        let value = cpu.read_bytetarget(&self.0);
        let (result, flags) = sub_bytes(cpu.registers.a, value, cpu.registers.f.carry);
        cpu.registers.f = flags;
        cpu.registers.a = result;
        self.0.cycles()
    }
}

/// The flags after a bitwise operation gave `result`.
pub open spec fn logic_flags(result: u8, half_carry: bool) -> Flags {
    Flags { zero: result == 0, negative: false, half_carry, carry: false }
}

#[derive(Clone, Copy, PartialEq, Eq, Structural, Debug)]
pub struct AND(pub ByteTarget);

impl AND {
    pub open spec fn defined(self, cpu: CpuView) -> bool {
        self.0.readable(cpu)
    }

    pub open spec fn spec_execute(self, cpu: CpuView) -> (CpuView, u8) {
        let a = cpu.registers.a & self.0.value(cpu);
        (
            cpu.with_registers(Registers { a, f: logic_flags(a, true), ..cpu.registers }),
            self.0.spec_cycles(),
        )
    }

    pub fn execute(&self, cpu: &mut CPU) -> (cycles: u8)
        requires
            self.defined(old(cpu)@),
        ensures
            final(cpu)@ == self.spec_execute(old(cpu)@).0,
            cycles == self.spec_execute(old(cpu)@).1,
    {
        let value = cpu.read_bytetarget(&self.0);
        let result = cpu.registers.a & value;
        cpu.registers.f.zero = result == 0;
        cpu.registers.f.negative = false;
        cpu.registers.f.carry = false;
        cpu.registers.f.half_carry = true;
        cpu.registers.a = result;
        self.0.cycles()
    }
}

#[derive(Clone, Copy, PartialEq, Eq, Structural, Debug)]
pub struct XOR(pub ByteTarget);

impl XOR {
    pub open spec fn defined(self, cpu: CpuView) -> bool {
        self.0.readable(cpu)
    }

    pub open spec fn spec_execute(self, cpu: CpuView) -> (CpuView, u8) {
        let a = cpu.registers.a ^ self.0.value(cpu);
        (
            cpu.with_registers(Registers { a, f: logic_flags(a, false), ..cpu.registers }),
            self.0.spec_cycles(),
        )
    }

    pub fn execute(&self, cpu: &mut CPU) -> (cycles: u8)
        requires
            self.defined(old(cpu)@),
        ensures
            final(cpu)@ == self.spec_execute(old(cpu)@).0,
            cycles == self.spec_execute(old(cpu)@).1,
    {
        let value = cpu.read_bytetarget(&self.0);
        let result = cpu.registers.a ^ value;
        cpu.registers.f.zero = result == 0;
        cpu.registers.f.negative = false;
        cpu.registers.f.carry = false;
        cpu.registers.f.half_carry = false;
        cpu.registers.a = result;
        self.0.cycles()
    }
}

#[derive(Clone, Copy, PartialEq, Eq, Structural, Debug)]
pub struct OR(pub ByteTarget);

impl OR {
    pub open spec fn defined(self, cpu: CpuView) -> bool {
        self.0.readable(cpu)
    }

    pub open spec fn spec_execute(self, cpu: CpuView) -> (CpuView, u8) {
        let a = cpu.registers.a | self.0.value(cpu);
        (
            cpu.with_registers(Registers { a, f: logic_flags(a, false), ..cpu.registers }),
            self.0.spec_cycles(),
        )
    }

    pub fn execute(&self, cpu: &mut CPU) -> (cycles: u8)
        requires
            self.defined(old(cpu)@),
        ensures
            final(cpu)@ == self.spec_execute(old(cpu)@).0,
            cycles == self.spec_execute(old(cpu)@).1,
    {
        let value = cpu.read_bytetarget(&self.0);
        let result = cpu.registers.a | value;
        cpu.registers.f.zero = result == 0;
        cpu.registers.f.negative = false;
        cpu.registers.f.carry = false;
        cpu.registers.f.half_carry = false;
        cpu.registers.a = result;
        self.0.cycles()
    }
}

/// Compares like a subtraction whose result is thrown away.
#[derive(Clone, Copy, PartialEq, Eq, Structural, Debug)]
pub struct CP(pub ByteTarget);

impl CP {
    pub open spec fn defined(self, cpu: CpuView) -> bool {
        self.0.readable(cpu)
    }

    pub open spec fn spec_execute(self, cpu: CpuView) -> (CpuView, u8) {
        (
            cpu.with_flags(alu_sub(cpu.registers.a, self.0.value(cpu), false).1),
            self.0.spec_cycles(),
        )
    }

    pub fn execute(&self, cpu: &mut CPU) -> (cycles: u8)
        requires
            self.defined(old(cpu)@),
        ensures
            final(cpu)@ == self.spec_execute(old(cpu)@).0,
            cycles == self.spec_execute(old(cpu)@).1,
    {
        let value = cpu.read_bytetarget(&self.0);
        let (_, flags) = sub_bytes(cpu.registers.a, value, false);
        cpu.registers.f = flags;
        self.0.cycles()
    }
}

#[derive(Clone, Copy, PartialEq, Eq, Structural, Debug)]
pub enum INC {
    R8(R8),
    HL,
    R16(R16),
    SP,
}

impl INC {
    pub open spec fn defined(self, cpu: CpuView) -> bool {
        self is HL ==> cpu.hl_accessible()
    }

    pub open spec fn spec_execute(self, cpu: CpuView) -> (CpuView, u8) {
        match self {
            INC::R8(register) => {
                let (value, f) = alu_inc(cpu.registers.r8(register), cpu.registers.f);
                (cpu.with_flags(f).with_r8(register, value), 4)
            },
            INC::HL => {
                let (value, f) = alu_inc(cpu.hl_ptr(), cpu.registers.f);
                (cpu.with_flags(f).write_hl_ptr(value), 12)
            },
            INC::R16(register) => (
                cpu.with_r16(register, offset_address(cpu.registers.r16(register), 1)),
                8,
            ),
            INC::SP => (cpu.with_sp(offset_address(cpu.registers.sp, 1)), 8),
        }
    }

    pub fn execute(&self, cpu: &mut CPU) -> (cycles: u8)
        requires
            self.defined(old(cpu)@),
        ensures
            final(cpu)@ == self.spec_execute(old(cpu)@).0,
            cycles == self.spec_execute(old(cpu)@).1,
    {
        match self {
            INC::R8(register) => {
                let (result, flags) = increment(cpu.read_r8(register), cpu.registers.f);
                cpu.registers.f = flags;
                cpu.write_r8(register, result);
                4
            },
            INC::HL => {
                let (result, flags) = increment(cpu.read_hl_ptr(), cpu.registers.f);
                cpu.registers.f = flags;
                cpu.write_hl_ptr(result);
                12
            },
            INC::R16(register) => {
                let result = add_signed_offset(cpu.read_r16(register), 1);
                cpu.write_r16(register, result);
                8
            },
            INC::SP => {
                let result = add_signed_offset(cpu.registers.sp, 1);
                cpu.registers.sp = result;
                8
            },
        }
    }
}

#[derive(Clone, Copy, PartialEq, Eq, Structural, Debug)]
pub enum DEC {
    R8(R8),
    HL,
    R16(R16),
    SP,
}

impl DEC {
    pub open spec fn defined(self, cpu: CpuView) -> bool {
        self is HL ==> cpu.hl_accessible()
    }

    pub open spec fn spec_execute(self, cpu: CpuView) -> (CpuView, u8) {
        match self {
            DEC::R8(register) => {
                let (value, f) = alu_dec(cpu.registers.r8(register), cpu.registers.f);
                (cpu.with_flags(f).with_r8(register, value), 4)
            },
            DEC::HL => {
                let (value, f) = alu_dec(cpu.hl_ptr(), cpu.registers.f);
                (cpu.with_flags(f).write_hl_ptr(value), 12)
            },
            DEC::R16(register) => (
                cpu.with_r16(register, offset_address(cpu.registers.r16(register), 0xFF)),
                8,
            ),
            DEC::SP => (cpu.with_sp(offset_address(cpu.registers.sp, 0xFF)), 8),
        }
    }

    pub fn execute(&self, cpu: &mut CPU) -> (cycles: u8)
        requires
            self.defined(old(cpu)@),
        ensures
            final(cpu)@ == self.spec_execute(old(cpu)@).0,
            cycles == self.spec_execute(old(cpu)@).1,
    {
        match self {
            DEC::R8(register) => {
                let (result, flags) = decrement(cpu.read_r8(register), cpu.registers.f);
                cpu.registers.f = flags;
                cpu.write_r8(register, result);
                4
            },
            DEC::HL => {
                let (result, flags) = decrement(cpu.read_hl_ptr(), cpu.registers.f);
                cpu.registers.f = flags;
                cpu.write_hl_ptr(result);
                12
            },
            DEC::R16(register) => {
                let result = add_signed_offset(cpu.read_r16(register), 0xFF);
                cpu.write_r16(register, result);
                8
            },
            DEC::SP => {
                let result = add_signed_offset(cpu.registers.sp, 0xFF);
                cpu.registers.sp = result;
                8
            },
        }
    }
}

/// The flags after a rotation of the accumulator: only the carry can be
/// set.
pub open spec fn rotation_flags(carry: bool) -> Flags {
    Flags { zero: false, negative: false, half_carry: false, carry }
}

impl CpuView {
    /// The CPU after a rotation of the accumulator gave `result`.
    pub open spec fn rotated(self, result: (u8, bool)) -> CpuView {
        self.with_registers(
            Registers { a: result.0, f: rotation_flags(result.1), ..self.registers },
        )
    }
}

impl CPU {
    fn set_rotated(&mut self, result: (u8, bool))
        ensures
            final(self)@ == old(self)@.rotated(result),
    {
        self.registers.f.zero = false;
        self.registers.f.negative = false;
        self.registers.f.half_carry = false;
        self.registers.f.carry = result.1;
        self.registers.a = result.0;
    }
}

#[derive(Clone, Copy, PartialEq, Eq, Structural, Debug)]
pub struct RRCA;

impl RRCA {
    pub open spec fn spec_execute(self, cpu: CpuView) -> (CpuView, u8) {
        (cpu.rotated(spec_rrc(cpu.registers.a)), 4)
    }

    pub fn execute(&self, cpu: &mut CPU) -> (cycles: u8)
        ensures
            final(cpu)@ == self.spec_execute(old(cpu)@).0,
            cycles == self.spec_execute(old(cpu)@).1,
    {
        cpu.set_rotated(rotate_right(cpu.registers.a));
        4
    }
}

#[derive(Clone, Copy, PartialEq, Eq, Structural, Debug)]
pub struct RLCA;

impl RLCA {
    pub open spec fn spec_execute(self, cpu: CpuView) -> (CpuView, u8) {
        (cpu.rotated(spec_rlc(cpu.registers.a)), 4)
    }

    pub fn execute(&self, cpu: &mut CPU) -> (cycles: u8)
        ensures
            final(cpu)@ == self.spec_execute(old(cpu)@).0,
            cycles == self.spec_execute(old(cpu)@).1,
    {
        cpu.set_rotated(rotate_left(cpu.registers.a));
        4
    }
}

#[derive(Clone, Copy, PartialEq, Eq, Structural, Debug)]
pub struct RRA;

impl RRA {
    pub open spec fn spec_execute(self, cpu: CpuView) -> (CpuView, u8) {
        (cpu.rotated(spec_rr(cpu.registers.a, cpu.registers.f.carry)), 4)
    }

    pub fn execute(&self, cpu: &mut CPU) -> (cycles: u8)
        ensures
            final(cpu)@ == self.spec_execute(old(cpu)@).0,
            cycles == self.spec_execute(old(cpu)@).1,
    {
        cpu.set_rotated(rotate_right_through_carry(cpu.registers.a, cpu.registers.f.carry));
        4
    }
}

#[derive(Clone, Copy, PartialEq, Eq, Structural, Debug)]
pub struct RLA;

impl RLA {
    pub open spec fn spec_execute(self, cpu: CpuView) -> (CpuView, u8) {
        (cpu.rotated(spec_rl(cpu.registers.a, cpu.registers.f.carry)), 4)
    }

    pub fn execute(&self, cpu: &mut CPU) -> (cycles: u8)
        ensures
            final(cpu)@ == self.spec_execute(old(cpu)@).0,
            cycles == self.spec_execute(old(cpu)@).1,
    {
        cpu.set_rotated(rotate_left_through_carry(cpu.registers.a, cpu.registers.f.carry));
        4
    }
}

/// Adjusts the accumulator to two decimal digits after an addition or a
/// subtraction of such numbers.
#[derive(Clone, Copy, PartialEq, Eq, Structural, Debug)]
pub struct DAA;

impl DAA {
    pub open spec fn spec_execute(self, cpu: CpuView) -> (CpuView, u8) {
        let (a, f) = alu_daa(cpu.registers.a, cpu.registers.f);
        (cpu.with_registers(Registers { a, f, ..cpu.registers }), 4)
    }

    pub fn execute(&self, cpu: &mut CPU) -> (cycles: u8)
        ensures
            final(cpu)@ == self.spec_execute(old(cpu)@).0,
            cycles == self.spec_execute(old(cpu)@).1,
            !final(cpu).registers.f.half_carry,
    {
        let (result, flags) = decimal_adjust(cpu.registers.a, cpu.registers.f);
        cpu.registers.f = flags;
        cpu.registers.a = result;
        4
    }
}

#[derive(Clone, Copy, PartialEq, Eq, Structural, Debug)]
pub struct CPL;

impl CPL {
    pub open spec fn spec_execute(self, cpu: CpuView) -> (CpuView, u8) {
        (
            cpu.with_registers(
                Registers {
                    a: (255 - cpu.registers.a) as u8,
                    f: Flags { negative: true, half_carry: true, ..cpu.registers.f },
                    ..cpu.registers
                },
            ),
            4,
        )
    }

    pub fn execute(&self, cpu: &mut CPU) -> (cycles: u8)
        ensures
            final(cpu)@ == self.spec_execute(old(cpu)@).0,
            cycles == self.spec_execute(old(cpu)@).1,
    {
        cpu.registers.f.negative = true;
        cpu.registers.f.half_carry = true;
        cpu.registers.a = complement(cpu.registers.a);
        4
    }
}

#[derive(Clone, Copy, PartialEq, Eq, Structural, Debug)]
pub struct SCF;

impl SCF {
    pub open spec fn spec_execute(self, cpu: CpuView) -> (CpuView, u8) {
        (
            cpu.with_flags(
                Flags { negative: false, half_carry: false, carry: true, ..cpu.registers.f },
            ),
            4,
        )
    }

    pub fn execute(&self, cpu: &mut CPU) -> (cycles: u8)
        ensures
            final(cpu)@ == self.spec_execute(old(cpu)@).0,
            cycles == self.spec_execute(old(cpu)@).1,
    {
        cpu.registers.f.negative = false;
        cpu.registers.f.half_carry = false;
        cpu.registers.f.carry = true;
        4
    }
}

#[derive(Clone, Copy, PartialEq, Eq, Structural, Debug)]
pub struct CCF;

impl CCF {
    pub open spec fn spec_execute(self, cpu: CpuView) -> (CpuView, u8) {
        (
            cpu.with_flags(
                Flags {
                    negative: false,
                    half_carry: false,
                    carry: !cpu.registers.f.carry,
                    ..cpu.registers.f
                },
            ),
            4,
        )
    }

    pub fn execute(&self, cpu: &mut CPU) -> (cycles: u8)
        ensures
            final(cpu)@ == self.spec_execute(old(cpu)@).0,
            cycles == self.spec_execute(old(cpu)@).1,
    {
        cpu.registers.f.negative = false;
        cpu.registers.f.half_carry = false;
        cpu.registers.f.carry = !cpu.registers.f.carry;
        4
    }
}

/// The condition of a conditional jump, call or return.
#[derive(Clone, Copy, PartialEq, Eq, Structural, Debug)]
pub enum FlagCondition {
    Zero,
    NotZero,
    Carry,
    NotCarry,
}

impl FlagCondition {
    pub open spec fn holds(self, f: Flags) -> bool {
        match self {
            FlagCondition::Zero => f.zero,
            FlagCondition::NotZero => !f.zero,
            FlagCondition::Carry => f.carry,
            FlagCondition::NotCarry => !f.carry,
        }
    }

    pub fn is_true(&self, cpu: &CPU) -> (b: bool)
        ensures
            b == self.holds(cpu.registers.f),
    {
        match self {
            Self::Zero => cpu.registers.f.zero,
            Self::NotZero => !cpu.registers.f.zero,
            Self::Carry => cpu.registers.f.carry,
            Self::NotCarry => !cpu.registers.f.carry,
        }
    }
}

#[derive(Clone, Copy, PartialEq, Eq, Structural, Debug)]
pub enum JP {
    Constant(u16),
    ConditionalConstant(FlagCondition, u16),
    HLAddress,
}

impl JP {
    pub open spec fn spec_execute(self, cpu: CpuView) -> (CpuView, u8) {
        match self {
            JP::Constant(address) => (cpu.with_pc(address), 16),
            JP::ConditionalConstant(condition, address) => if condition.holds(cpu.registers.f) {
                (cpu.with_pc(address), 16)
            } else {
                (cpu, 12)
            },
            JP::HLAddress => (cpu.with_pc(cpu.registers.hl()), 4),
        }
    }

    pub fn execute(&self, cpu: &mut CPU) -> (cycles: u8)
        ensures
            final(cpu)@ == self.spec_execute(old(cpu)@).0,
            cycles == self.spec_execute(old(cpu)@).1,
    {
        match self {
            JP::Constant(address) => {
                cpu.registers.pc = *address;
                16
            },
            JP::ConditionalConstant(condition, address) => {
                if condition.is_true(cpu) {
                    cpu.registers.pc = *address;
                    16
                } else {
                    12
                }
            },
            JP::HLAddress => {
                cpu.registers.pc = cpu.read_hl();
                4
            },
        }
    }
}

#[derive(Clone, Copy, PartialEq, Eq, Structural, Debug)]
pub enum JR {
    Offset(u8),
    ConditionalOffset(FlagCondition, u8),
}

impl JR {
    pub open spec fn spec_execute(self, cpu: CpuView) -> (CpuView, u8) {
        match self {
            JR::Offset(offset) => (cpu.with_pc(offset_address(cpu.registers.pc, offset)), 12),
            JR::ConditionalOffset(condition, offset) => if condition.holds(cpu.registers.f) {
                (cpu.with_pc(offset_address(cpu.registers.pc, offset)), 12)
            } else {
                (cpu, 8)
            },
        }
    }

    pub fn execute(&self, cpu: &mut CPU) -> (cycles: u8)
        ensures
            final(cpu)@ == self.spec_execute(old(cpu)@).0,
            cycles == self.spec_execute(old(cpu)@).1,
    {
        match self {
            JR::Offset(offset) => {
                cpu.registers.pc = add_signed_offset(cpu.registers.pc, *offset);
                12
            },
            JR::ConditionalOffset(condition, offset) => {
                if condition.is_true(cpu) {
                    cpu.registers.pc = add_signed_offset(cpu.registers.pc, *offset);
                    12
                } else {
                    8
                }
            },
        }
    }
}

#[derive(Clone, Copy, PartialEq, Eq, Structural, Debug)]
pub enum CALL {
    Constant(u16),
    ConditionalConstant(FlagCondition, u16),
}

impl CALL {
    /// Whether the call is taken.
    pub open spec fn taken(self, cpu: CpuView) -> bool {
        match self {
            CALL::Constant(_) => true,
            CALL::ConditionalConstant(condition, _) => condition.holds(cpu.registers.f),
        }
    }

    pub open spec fn target(self) -> u16 {
        match self {
            CALL::Constant(address) => address,
            CALL::ConditionalConstant(_, address) => address,
        }
    }

    pub open spec fn defined(self, cpu: CpuView) -> bool {
        self.taken(cpu) ==> cpu.stack_writable()
    }

    pub open spec fn spec_execute(self, cpu: CpuView) -> (CpuView, u8) {
        if self.taken(cpu) {
            (cpu.call(self.target()), 24)
        } else {
            (cpu, 12)
        }
    }

    pub fn can_execute(&self, cpu: &CPU) -> (b: bool)
        ensures
            b == self.defined(cpu@),
    {
        match self {
            CALL::Constant(_) => cpu.stack_is_writable(),
            CALL::ConditionalConstant(condition, _) => !condition.is_true(cpu)
                || cpu.stack_is_writable(),
        }
    }

    pub fn execute(&self, cpu: &mut CPU) -> (cycles: u8)
        requires
            self.defined(old(cpu)@),
        ensures
            final(cpu)@ == self.spec_execute(old(cpu)@).0,
            cycles == self.spec_execute(old(cpu)@).1,
    {
        match self {
            CALL::Constant(address) => {
                cpu.call_address(*address);
                24
            },
            CALL::ConditionalConstant(condition, address) => {
                if condition.is_true(cpu) {
                    cpu.call_address(*address);
                    24
                } else {
                    12
                }
            },
        }
    }
}

/// A call to one of eight fixed addresses.
#[derive(Clone, Copy, PartialEq, Eq, Structural, Debug)]
pub enum RST {
    V0,
    V8,
    V10,
    V18,
    V20,
    V28,
    V30,
    V38,
}

impl RST {
    pub open spec fn spec_address(self) -> u16 {
        match self {
            RST::V0 => 0x00,
            RST::V8 => 0x08,
            RST::V10 => 0x10,
            RST::V18 => 0x18,
            RST::V20 => 0x20,
            RST::V28 => 0x28,
            RST::V30 => 0x30,
            RST::V38 => 0x38,
        }
    }

    pub open spec fn defined(self, cpu: CpuView) -> bool {
        cpu.stack_writable()
    }

    pub open spec fn spec_execute(self, cpu: CpuView) -> (CpuView, u8) {
        (cpu.call(self.spec_address()), 16)
    }

    pub fn address(&self) -> (r: u16)
        ensures
            r == self.spec_address(),
    {
        match self {
            RST::V0 => 0x00,
            RST::V8 => 0x08,
            RST::V10 => 0x10,
            RST::V18 => 0x18,
            RST::V20 => 0x20,
            RST::V28 => 0x28,
            RST::V30 => 0x30,
            RST::V38 => 0x38,
        }
    }

    pub fn execute(&self, cpu: &mut CPU) -> (cycles: u8)
        requires
            self.defined(old(cpu)@),
        ensures
            final(cpu)@ == self.spec_execute(old(cpu)@).0,
            cycles == self.spec_execute(old(cpu)@).1,
    {
        cpu.call_address(self.address());
        16
    }
}

#[derive(Clone, Copy, PartialEq, Eq, Structural, Debug)]
pub enum RET {
    RET,
    Conditional(FlagCondition),
    /// Returns and enables the interrupts at once.
    EI,
}

impl RET {
    pub open spec fn taken(self, cpu: CpuView) -> bool {
        match self {
            RET::Conditional(condition) => condition.holds(cpu.registers.f),
            _ => true,
        }
    }

    pub open spec fn defined(self, cpu: CpuView) -> bool {
        self.taken(cpu) ==> cpu.stack_readable()
    }

    pub open spec fn spec_execute(self, cpu: CpuView) -> (CpuView, u8) {
        match self {
            RET::RET => (cpu.ret(), 16),
            RET::Conditional(condition) => if condition.holds(cpu.registers.f) {
                (cpu.ret(), 20)
            } else {
                (cpu, 8)
            },
            RET::EI => (CpuView { interrupt_state: InterruptState::Enabled, ..cpu.ret() }, 16),
        }
    }

    pub fn can_execute(&self, cpu: &CPU) -> (b: bool)
        ensures
            b == self.defined(cpu@),
    {
        match self {
            RET::Conditional(condition) => !condition.is_true(cpu) || cpu.stack_is_readable(),
            _ => cpu.stack_is_readable(),
        }
    }

    pub fn execute(&self, cpu: &mut CPU) -> (cycles: u8)
        requires
            self.defined(old(cpu)@),
        ensures
            final(cpu)@ == self.spec_execute(old(cpu)@).0,
            cycles == self.spec_execute(old(cpu)@).1,
    {
        match self {
            RET::RET => {
                cpu.registers.pc = cpu.pop_from_stack();
                16
            },
            RET::Conditional(condition) => {
                if condition.is_true(cpu) {
                    cpu.registers.pc = cpu.pop_from_stack();
                    20
                } else {
                    8
                }
            },
            RET::EI => {
                cpu.registers.pc = cpu.pop_from_stack();
                cpu.interrupt_state = InterruptState::Enabled;
                16
            },
        }
    }
}

#[derive(Clone, Copy, PartialEq, Eq, Structural, Debug)]
pub enum PUSH {
    AF,
    R16(R16),
}

impl PUSH {
    pub open spec fn value(self, cpu: CpuView) -> u16 {
        match self {
            PUSH::AF => cpu.registers.af(),
            PUSH::R16(register) => cpu.registers.r16(register),
        }
    }

    pub open spec fn defined(self, cpu: CpuView) -> bool {
        cpu.stack_writable()
    }

    pub open spec fn spec_execute(self, cpu: CpuView) -> (CpuView, u8) {
        (cpu.push(self.value(cpu)), 16)
    }

    pub fn execute(&self, cpu: &mut CPU) -> (cycles: u8)
        requires
            self.defined(old(cpu)@),
        ensures
            final(cpu)@ == self.spec_execute(old(cpu)@).0,
            cycles == self.spec_execute(old(cpu)@).1,
    {
        match self {
            PUSH::AF => cpu.push_to_stack(cpu.read_af()),
            PUSH::R16(register) => cpu.push_to_stack(cpu.read_r16(register)),
        };
        16
    }
}

#[derive(Clone, Copy, PartialEq, Eq, Structural, Debug)]
pub enum POP {
    AF,
    R16(R16),
}

impl POP {
    pub open spec fn defined(self, cpu: CpuView) -> bool {
        cpu.stack_readable()
    }

    /// The low nibble of what is popped into the flags is dropped.
    pub open spec fn spec_execute(self, cpu: CpuView) -> (CpuView, u8) {
        match self {
            POP::AF => (
                cpu.pop().with_registers(
                    Registers {
                        a: high_byte(cpu.top()),
                        f: Flags::spec_from_byte(low_byte(cpu.top())),
                        ..cpu.pop().registers
                    },
                ),
                12,
            ),
            POP::R16(register) => (cpu.pop().with_r16(register, cpu.top()), 12),
        }
    }

    pub fn execute(&self, cpu: &mut CPU) -> (cycles: u8)
        requires
            self.defined(old(cpu)@),
        ensures
            final(cpu)@ == self.spec_execute(old(cpu)@).0,
            cycles == self.spec_execute(old(cpu)@).1,
    {
        match self {
            POP::AF => {
                let value = cpu.pop_from_stack();
                cpu.registers.a = (value / 256) as u8;
                cpu.registers.f = Flags::from_byte((value % 256) as u8);
            },
            POP::R16(register) => {
                let value = cpu.pop_from_stack();
                cpu.write_r16(register, value);
            },
        };
        12
    }
}

#[derive(Clone, Copy, PartialEq, Eq, Structural, Debug)]
pub enum LD {
    LoadToA(R16Mem),
    LoadToADirectly(u16),
    LoadToR8(R8, ByteTarget),
    LoadToR16(R16, u16),
    LoadToSP(u16),
    LoadHLToSP,
    LoadSPToHL(u8),
    StoreA(R16Mem),
    StoreADirectly(u16),
    StoreHLRegister(R8),
    StoreHLConstant(u8),
    StoreSP(u16),
}

impl LD {
    pub open spec fn defined(self, cpu: CpuView) -> bool {
        match self {
            LD::LoadToA(target) => !is_prohibited(cpu.registers.r16m(target)),
            LD::LoadToADirectly(address) => !is_prohibited(address),
            LD::LoadToR8(_, target) => target.readable(cpu),
            LD::StoreA(target) => !is_prohibited(cpu.registers.r16m(target)),
            LD::StoreADirectly(address) => !is_prohibited(address),
            LD::StoreHLRegister(_) => cpu.hl_accessible(),
            LD::StoreHLConstant(_) => cpu.hl_accessible(),
            LD::StoreSP(address) => !is_prohibited(address) && !is_prohibited(
                BusView::next(address),
            ),
            _ => true,
        }
    }

    pub open spec fn spec_execute(self, cpu: CpuView) -> (CpuView, u8) {
        match self {
            LD::LoadToA(target) => (
                cpu.with_registers(
                    Registers { a: cpu.read_from(target), ..cpu.registers.after_r16m(target) },
                ),
                8,
            ),
            LD::LoadToADirectly(address) => (cpu.with_a(cpu.bus.read(address)), 16),
            LD::LoadToR8(register, target) => (
                cpu.with_r8(register, target.value(cpu)),
                target.spec_cycles(),
            ),
            LD::LoadToR16(register, value) => (cpu.with_r16(register, value), 12),
            LD::LoadToSP(value) => (cpu.with_sp(value), 12),
            LD::LoadHLToSP => (cpu.with_sp(cpu.registers.hl()), 8),
            LD::LoadSPToHL(offset) => {
                let (hl, f) = alu_add_sp(cpu.registers.sp, offset);
                (cpu.with_flags(f).with_hl(hl), 12)
            },
            LD::StoreA(target) => (cpu.store_at(target, cpu.registers.a), 8),
            LD::StoreADirectly(address) => (cpu.write_byte(address, cpu.registers.a), 16),
            LD::StoreHLRegister(register) => (cpu.write_hl_ptr(cpu.registers.r8(register)), 8),
            LD::StoreHLConstant(value) => (cpu.write_hl_ptr(value), 12),
            LD::StoreSP(address) => (cpu.write_word(address, cpu.registers.sp), 20),
        }
    }

    pub fn can_execute(&self, cpu: &CPU) -> (b: bool)
        ensures
            b == self.defined(cpu@),
    {
        match self {
            LD::LoadToA(target) => !address_is_prohibited(cpu.peek_r16m(target)),
            LD::LoadToADirectly(address) => !address_is_prohibited(*address),
            LD::LoadToR8(_, target) => target.is_readable(cpu),
            LD::StoreA(target) => !address_is_prohibited(cpu.peek_r16m(target)),
            LD::StoreADirectly(address) => !address_is_prohibited(*address),
            LD::StoreHLRegister(_) => cpu.hl_is_accessible(),
            LD::StoreHLConstant(_) => cpu.hl_is_accessible(),
            LD::StoreSP(address) => !address_is_prohibited(*address) && !address_is_prohibited(
                address.wrapping_add(1),
            ),
            _ => true,
        }
    }

    pub fn execute(&self, cpu: &mut CPU) -> (cycles: u8)
        requires
            self.defined(old(cpu)@),
        ensures
            final(cpu)@ == self.spec_execute(old(cpu)@).0,
            cycles == self.spec_execute(old(cpu)@).1,
    {
        match self {
            LD::LoadToA(target) => {
                cpu.registers.a = cpu.read_from(target);
                8
            },
            LD::LoadToADirectly(address) => {
                cpu.registers.a = cpu.bus.read_byte(*address);
                16
            },
            LD::LoadToR8(register, target) => {
                let value = cpu.read_bytetarget(target);
                cpu.write_r8(register, value);
                target.cycles()
            },
            LD::LoadToR16(register, value) => {
                cpu.write_r16(register, *value);
                12
            },
            LD::LoadToSP(value) => {
                cpu.registers.sp = *value;
                12
            },
            LD::LoadHLToSP => {
                cpu.registers.sp = cpu.read_hl();
                8
            },
            LD::LoadSPToHL(offset) => {
                let (result, flags) = add_to_stack_pointer(cpu.registers.sp, *offset);
                cpu.registers.f = flags;
                cpu.write_hl(result);
                12
            },
            LD::StoreA(target) => {
                cpu.store_at(target, cpu.registers.a);
                8
            },
            LD::StoreADirectly(address) => {
                cpu.write_byte(*address, cpu.registers.a);
                16
            },
            LD::StoreHLRegister(register) => {
                cpu.write_hl_ptr(cpu.read_r8(register));
                8
            },
            LD::StoreHLConstant(value) => {
                cpu.write_hl_ptr(*value);
                12
            },
            LD::StoreSP(value) => {
                cpu.write_word(*value, cpu.registers.sp);
                20
            },
        }
    }
}

/// Loads and stores in the page of the I/O registers and the high RAM.
#[derive(Clone, Copy, PartialEq, Eq, Structural, Debug)]
pub enum LDH {
    LoadConstant(u8),
    LoadOffset,
    StoreConstant(u8),
    StoreOffset,
}

/// The address in the last page that `offset` names.
pub open spec fn high_page(offset: u8) -> u16 {
    (0xFF00 + offset) as u16
}

impl LDH {
    pub open spec fn spec_execute(self, cpu: CpuView) -> (CpuView, u8) {
        match self {
            LDH::LoadConstant(offset) => (cpu.with_a(cpu.bus.read(high_page(offset))), 12),
            LDH::LoadOffset => (cpu.with_a(cpu.bus.read(high_page(cpu.registers.c))), 8),
            LDH::StoreConstant(offset) => (
                cpu.write_byte(high_page(offset), cpu.registers.a),
                12,
            ),
            LDH::StoreOffset => (cpu.write_byte(high_page(cpu.registers.c), cpu.registers.a), 8),
        }
    }

    pub fn execute(&self, cpu: &mut CPU) -> (cycles: u8)
        ensures
            final(cpu)@ == self.spec_execute(old(cpu)@).0,
            cycles == self.spec_execute(old(cpu)@).1,
    {
        match self {
            LDH::LoadConstant(offset) => {
                cpu.registers.a = cpu.bus.read_byte_at_offset(*offset);
                12
            },
            LDH::LoadOffset => {
                cpu.registers.a = cpu.bus.read_byte_at_offset(cpu.registers.c);
                8
            },
            LDH::StoreConstant(offset) => {
                cpu.write_byte(0xFF00 + *offset as u16, cpu.registers.a);
                12
            },
            LDH::StoreOffset => {
                cpu.write_byte(0xFF00 + cpu.registers.c as u16, cpu.registers.a);
                8
            },
        }
    }
}

#[derive(Clone, Copy, PartialEq, Eq, Structural, Debug)]
pub struct NOP;

impl NOP {
    pub open spec fn spec_execute(self, cpu: CpuView) -> (CpuView, u8) {
        (cpu, 4)
    }

    pub fn execute(&self, cpu: &mut CPU) -> (cycles: u8)
        ensures
            final(cpu)@ == self.spec_execute(old(cpu)@).0,
            cycles == self.spec_execute(old(cpu)@).1,
    {
        4
    }
}

/// Does nothing but take its time and its operand byte.
#[derive(Clone, Copy, PartialEq, Eq, Structural, Debug)]
pub struct STOP(pub u8);

impl STOP {
    pub open spec fn spec_execute(self, cpu: CpuView) -> (CpuView, u8) {
        (cpu, 4)
    }

    pub fn execute(&self, cpu: &mut CPU) -> (cycles: u8)
        ensures
            final(cpu)@ == self.spec_execute(old(cpu)@).0,
            cycles == self.spec_execute(old(cpu)@).1,
    {
        4
    }
}

#[derive(Clone, Copy, PartialEq, Eq, Structural, Debug)]
pub struct HALT;

impl HALT {
    pub open spec fn spec_execute(self, cpu: CpuView) -> (CpuView, u8) {
        (cpu.halt(), 4)
    }

    pub fn execute(&self, cpu: &mut CPU) -> (cycles: u8)
        ensures
            final(cpu)@ == self.spec_execute(old(cpu)@).0,
            cycles == self.spec_execute(old(cpu)@).1,
    {
        cpu.update_halt_state();
        4
    }
}

#[derive(Clone, Copy, PartialEq, Eq, Structural, Debug)]
pub struct DI;

impl DI {
    pub open spec fn spec_execute(self, cpu: CpuView) -> (CpuView, u8) {
        (CpuView { interrupt_state: InterruptState::Disabled, ..cpu }, 4)
    }

    pub fn execute(&self, cpu: &mut CPU) -> (cycles: u8)
        ensures
            final(cpu)@ == self.spec_execute(old(cpu)@).0,
            cycles == self.spec_execute(old(cpu)@).1,
    {
        cpu.interrupt_state = InterruptState::Disabled;
        4
    }
}

/// Asks for the interrupts to be enabled once the next instruction has
/// run.
#[derive(Clone, Copy, PartialEq, Eq, Structural, Debug)]
pub struct EI;

impl EI {
    pub open spec fn spec_execute(self, cpu: CpuView) -> (CpuView, u8) {
        (CpuView { interrupt_state: InterruptState::EnableRequested, ..cpu }, 4)
    }

    pub fn execute(&self, cpu: &mut CPU) -> (cycles: u8)
        ensures
            final(cpu)@ == self.spec_execute(old(cpu)@).0,
            cycles == self.spec_execute(old(cpu)@).1,
    {
        cpu.interrupt_state = InterruptState::EnableRequested;
        4
    }
}

impl CpuView {
    /// Whether the two bytes below the stack pointer lie in a memory that
    /// stores what is written.
    pub open spec fn stack_stores(self) -> bool {
        &&& self.bus.stores(offset_address(self.registers.sp, 0xFE))
        &&& self.bus.stores(offset_address(self.registers.sp, 0xFF))
    }

    /// What is pushed is on top of the stack and can be popped, and the pop
    /// puts the stack pointer back where it was, when the stack lies in a
    /// memory that stores.
    pub proof fn lemma_push_pop(self, value: u16)
        requires
            self.bus.wf(),
            self.stack_stores(),
        ensures
            self.stack_writable(),
            self.push(value).stack_readable(),
            self.push(value).top() == value,
            self.push(value).pop().registers == self.registers,
            self.push(value).bus.io == self.bus.io,
    {
        let sp = offset_address(self.registers.sp, 0xFE);
        assert(BusView::next(sp) == offset_address(self.registers.sp, 0xFF));
        assert(offset_address(sp, 2) == self.registers.sp);
        self.bus.lemma_write_word_then_read_word(sp, value);
        assert(self.push(value).bus == self.bus.write_word(sp, value));
    }
}

/// PUSH of a register pair and POP into the same pair leave the registers
/// as they were, when the stack lies in a memory that stores.
pub proof fn lemma_push_then_pop(cpu: CpuView, register: R16)
    requires
        cpu.bus.wf(),
        cpu.stack_stores(),
    ensures
        PUSH::R16(register).defined(cpu),
        POP::R16(register).defined(PUSH::R16(register).spec_execute(cpu).0),
        POP::R16(register).spec_execute(PUSH::R16(register).spec_execute(cpu).0).0.registers
            == cpu.registers,
{
    cpu.lemma_push_pop(cpu.registers.r16(register));
    cpu.registers.lemma_pairs(0);
}

/// PUSH AF and POP AF leave the accumulator and the flags as they were,
/// when the stack lies in a memory that stores.
pub proof fn lemma_push_then_pop_af(cpu: CpuView)
    requires
        cpu.bus.wf(),
        cpu.stack_stores(),
    ensures
        PUSH::AF.defined(cpu),
        POP::AF.defined(PUSH::AF.spec_execute(cpu).0),
        POP::AF.spec_execute(PUSH::AF.spec_execute(cpu).0).0.registers == cpu.registers,
{
    cpu.lemma_push_pop(cpu.registers.af());
    cpu.registers.f.lemma_pack_unpack();
}

/// Whatever lies on the stack, after POP AF the low nibble of the flag
/// register is zero.
pub proof fn lemma_pop_af_clears_low_nibble(cpu: CpuView)
    ensures
        POP::AF.spec_execute(cpu).0.registers.f.spec_to_byte() % 16 == 0,
        POP::AF.spec_execute(cpu).0.registers.af() % 16 == 0,
        POP::AF.spec_execute(cpu).0.registers.af() == cpu.top() - cpu.top() % 16,
{
    Flags::lemma_unpack_pack(low_byte(cpu.top()));
}

} // verus!
