//! The instruction set: one type for each family of instructions, with what
//! an instruction of it does to the processor and how many cycles it takes.
pub mod prefixed;
pub mod primary;

use vstd::prelude::*;
use crate::cpu::instructions::prefixed::{BIT, RES, RL, RLC, RR, RRC, SET, SLA, SRA, SRL, SWAP};
use crate::cpu::instructions::primary::{
    ADC,
    ADD,
    AND,
    CALL,
    CCF,
    CP,
    CPL,
    DAA,
    DEC,
    DI,
    EI,
    HALT,
    INC,
    JP,
    JR,
    LD,
    LDH,
    NOP,
    OR,
    POP,
    PUSH,
    RET,
    RLA,
    RLCA,
    RRA,
    RRCA,
    RST,
    SBC,
    SCF,
    STOP,
    SUB,
    XOR,
};
use crate::cpu::processor::{CPU, CpuView};

verus! {

/// A decoded instruction. `Invalid` stands for the opcodes that the
/// processor does not have.
#[derive(Clone, Copy, PartialEq, Eq, Structural, Debug)]
pub enum Instruction {
    Add(ADD),
    Adc(ADC),
    Sub(SUB),
    Sbc(SBC),
    And(AND),
    Xor(XOR),
    Or(OR),
    Cp(CP),
    Inc(INC),
    Dec(DEC),
    Rrca(RRCA),
    Rra(RRA),
    Rlca(RLCA),
    Rla(RLA),
    Daa(DAA),
    Cpl(CPL),
    Scf(SCF),
    Ccf(CCF),
    Ld(LD),
    Ldh(LDH),
    Nop(NOP),
    Halt(HALT),
    Stop(STOP),
    Di(DI),
    Ei(EI),
    Jp(JP),
    Jr(JR),
    Call(CALL),
    Push(PUSH),
    Pop(POP),
    Rst(RST),
    Ret(RET),
    Rlc(RLC),
    Rrc(RRC),
    Rl(RL),
    Rr(RR),
    Sla(SLA),
    Sra(SRA),
    Swap(SWAP),
    Srl(SRL),
    Bit(BIT),
    Res(RES),
    SetBit(SET),
    Invalid(u8),
}

impl Instruction {
    /// Whether the instruction can run on `cpu`: it is one that the
    /// processor has, and it takes the bus to no prohibited address.
    pub open spec fn defined(self, cpu: CpuView) -> bool {
        match self {
            Instruction::Add(i) => i.defined(cpu),
            Instruction::Adc(i) => i.defined(cpu),
            Instruction::Sub(i) => i.defined(cpu),
            Instruction::Sbc(i) => i.defined(cpu),
            Instruction::And(i) => i.defined(cpu),
            Instruction::Xor(i) => i.defined(cpu),
            Instruction::Or(i) => i.defined(cpu),
            Instruction::Cp(i) => i.defined(cpu),
            Instruction::Inc(i) => i.defined(cpu),
            Instruction::Dec(i) => i.defined(cpu),
            Instruction::Ld(i) => i.defined(cpu),
            Instruction::Call(i) => i.defined(cpu),
            Instruction::Push(i) => i.defined(cpu),
            Instruction::Pop(i) => i.defined(cpu),
            Instruction::Rst(i) => i.defined(cpu),
            Instruction::Ret(i) => i.defined(cpu),
            Instruction::Rlc(i) => i.defined(cpu),
            Instruction::Rrc(i) => i.defined(cpu),
            Instruction::Rl(i) => i.defined(cpu),
            Instruction::Rr(i) => i.defined(cpu),
            Instruction::Sla(i) => i.defined(cpu),
            Instruction::Sra(i) => i.defined(cpu),
            Instruction::Swap(i) => i.defined(cpu),
            Instruction::Srl(i) => i.defined(cpu),
            Instruction::Bit(i) => i.defined(cpu),
            Instruction::Res(i) => i.defined(cpu),
            Instruction::SetBit(i) => i.defined(cpu),
            Instruction::Invalid(_) => false,
            _ => true,
        }
    }

    /// The processor after the instruction, and the cycles that it took.
    pub open spec fn spec_execute(self, cpu: CpuView) -> (CpuView, u8) {
        match self {
            Instruction::Add(i) => i.spec_execute(cpu),
            Instruction::Adc(i) => i.spec_execute(cpu),
            Instruction::Sub(i) => i.spec_execute(cpu),
            Instruction::Sbc(i) => i.spec_execute(cpu),
            Instruction::And(i) => i.spec_execute(cpu),
            Instruction::Xor(i) => i.spec_execute(cpu),
            Instruction::Or(i) => i.spec_execute(cpu),
            Instruction::Cp(i) => i.spec_execute(cpu),
            Instruction::Inc(i) => i.spec_execute(cpu),
            Instruction::Dec(i) => i.spec_execute(cpu),
            Instruction::Rrca(i) => i.spec_execute(cpu),
            Instruction::Rra(i) => i.spec_execute(cpu),
            Instruction::Rlca(i) => i.spec_execute(cpu),
            Instruction::Rla(i) => i.spec_execute(cpu),
            Instruction::Daa(i) => i.spec_execute(cpu),
            Instruction::Cpl(i) => i.spec_execute(cpu),
            Instruction::Scf(i) => i.spec_execute(cpu),
            Instruction::Ccf(i) => i.spec_execute(cpu),
            Instruction::Ld(i) => i.spec_execute(cpu),
            Instruction::Ldh(i) => i.spec_execute(cpu),
            Instruction::Nop(i) => i.spec_execute(cpu),
            Instruction::Halt(i) => i.spec_execute(cpu),
            Instruction::Stop(i) => i.spec_execute(cpu),
            Instruction::Di(i) => i.spec_execute(cpu),
            Instruction::Ei(i) => i.spec_execute(cpu),
            Instruction::Jp(i) => i.spec_execute(cpu),
            Instruction::Jr(i) => i.spec_execute(cpu),
            Instruction::Call(i) => i.spec_execute(cpu),
            Instruction::Push(i) => i.spec_execute(cpu),
            Instruction::Pop(i) => i.spec_execute(cpu),
            Instruction::Rst(i) => i.spec_execute(cpu),
            Instruction::Ret(i) => i.spec_execute(cpu),
            Instruction::Rlc(i) => i.spec_execute(cpu),
            Instruction::Rrc(i) => i.spec_execute(cpu),
            Instruction::Rl(i) => i.spec_execute(cpu),
            Instruction::Rr(i) => i.spec_execute(cpu),
            Instruction::Sla(i) => i.spec_execute(cpu),
            Instruction::Sra(i) => i.spec_execute(cpu),
            Instruction::Swap(i) => i.spec_execute(cpu),
            Instruction::Srl(i) => i.spec_execute(cpu),
            Instruction::Bit(i) => i.spec_execute(cpu),
            Instruction::Res(i) => i.spec_execute(cpu),
            Instruction::SetBit(i) => i.spec_execute(cpu),
            Instruction::Invalid(_) => (cpu, 0),
        }
    }

    /// Whether the instruction is one of the sums, differences, bitwise operations and comparisons.
    pub open spec fn is_arithmetic(self) -> bool {
        self is Add || self is Adc || self is Sub || self is Sbc || self is And || self is Xor || self is Or || self is Cp
    }

    /// Whether the instruction is one of the increments, decrements and adjustments of the accumulator and the flags.
    pub open spec fn is_adjusting(self) -> bool {
        self is Inc || self is Dec || self is Rrca || self is Rra || self is Rlca || self is Rla || self is Daa || self is Cpl || self is Scf || self is Ccf
    }

    /// Whether the instruction is one of the loads, stores and control.
    pub open spec fn is_loading(self) -> bool {
        self is Ld || self is Ldh || self is Nop || self is Halt || self is Stop || self is Di || self is Ei
    }

    /// Whether the instruction is one of the jumps, calls, returns and stack instructions.
    pub open spec fn is_branching(self) -> bool {
        self is Jp || self is Jr || self is Call || self is Push || self is Pop || self is Rst || self is Ret
    }

    /// Whether the instruction is one of the rotations and shifts of the extended table.
    pub open spec fn is_shifting(self) -> bool {
        self is Rlc || self is Rrc || self is Rl || self is Rr || self is Sla || self is Sra || self is Swap || self is Srl
    }

    /// Whether the instruction is one of the bit instructions of the extended table.
    pub open spec fn is_bitwise(self) -> bool {
        self is Bit || self is Res || self is SetBit
    }

    fn can_execute_arithmetic(&self, cpu: &CPU) -> (b: bool)
        requires
            self.is_arithmetic(),
        ensures
            b == self.defined(cpu@),
    {
        match self {
            Self::Add(instruction) => instruction.can_execute(cpu),
            Self::Adc(instruction) => instruction.0.is_readable(cpu),
            Self::Sub(instruction) => instruction.0.is_readable(cpu),
            Self::Sbc(instruction) => instruction.0.is_readable(cpu),
            Self::And(instruction) => instruction.0.is_readable(cpu),
            Self::Xor(instruction) => instruction.0.is_readable(cpu),
            Self::Or(instruction) => instruction.0.is_readable(cpu),
            Self::Cp(instruction) => instruction.0.is_readable(cpu),
            _ => true,
        }
    }

    fn execute_arithmetic(&self, cpu: &mut CPU) -> (cycles: u8)
        requires
            self.is_arithmetic(),
            self.defined(old(cpu)@),
        ensures
            final(cpu)@ == self.spec_execute(old(cpu)@).0,
            cycles == self.spec_execute(old(cpu)@).1,
            cycles % 4 == 0,
            4 <= cycles <= 24,
    {
        match self {
            Self::Add(instruction) => instruction.execute(cpu),
            Self::Adc(instruction) => instruction.execute(cpu),
            Self::Sub(instruction) => instruction.execute(cpu),
            Self::Sbc(instruction) => instruction.execute(cpu),
            Self::And(instruction) => instruction.execute(cpu),
            Self::Xor(instruction) => instruction.execute(cpu),
            Self::Or(instruction) => instruction.execute(cpu),
            Self::Cp(instruction) => instruction.execute(cpu),
            _ => 4,
        }
    }

    fn can_execute_adjusting(&self, cpu: &CPU) -> (b: bool)
        requires
            self.is_adjusting(),
        ensures
            b == self.defined(cpu@),
    {
        match self {
            Self::Inc(instruction) => !matches!(instruction, INC::HL) || cpu.hl_is_accessible(),
            Self::Dec(instruction) => !matches!(instruction, DEC::HL) || cpu.hl_is_accessible(),
            _ => true,
        }
    }

    fn execute_adjusting(&self, cpu: &mut CPU) -> (cycles: u8)
        requires
            self.is_adjusting(),
            self.defined(old(cpu)@),
        ensures
            final(cpu)@ == self.spec_execute(old(cpu)@).0,
            cycles == self.spec_execute(old(cpu)@).1,
            cycles % 4 == 0,
            4 <= cycles <= 24,
    {
        match self {
            Self::Inc(instruction) => instruction.execute(cpu),
            Self::Dec(instruction) => instruction.execute(cpu),
            Self::Rrca(instruction) => instruction.execute(cpu),
            Self::Rra(instruction) => instruction.execute(cpu),
            Self::Rlca(instruction) => instruction.execute(cpu),
            Self::Rla(instruction) => instruction.execute(cpu),
            Self::Daa(instruction) => instruction.execute(cpu),
            Self::Cpl(instruction) => instruction.execute(cpu),
            Self::Scf(instruction) => instruction.execute(cpu),
            Self::Ccf(instruction) => instruction.execute(cpu),
            _ => 4,
        }
    }

    fn can_execute_loading(&self, cpu: &CPU) -> (b: bool)
        requires
            self.is_loading(),
        ensures
            b == self.defined(cpu@),
    {
        match self {
            Self::Ld(instruction) => instruction.can_execute(cpu),
            _ => true,
        }
    }

    fn execute_loading(&self, cpu: &mut CPU) -> (cycles: u8)
        requires
            self.is_loading(),
            self.defined(old(cpu)@),
        ensures
            final(cpu)@ == self.spec_execute(old(cpu)@).0,
            cycles == self.spec_execute(old(cpu)@).1,
            cycles % 4 == 0,
            4 <= cycles <= 24,
    {
        match self {
            Self::Ld(instruction) => instruction.execute(cpu),
            Self::Ldh(instruction) => instruction.execute(cpu),
            Self::Nop(instruction) => instruction.execute(cpu),
            Self::Halt(instruction) => instruction.execute(cpu),
            Self::Stop(instruction) => instruction.execute(cpu),
            Self::Di(instruction) => instruction.execute(cpu),
            Self::Ei(instruction) => instruction.execute(cpu),
            _ => 4,
        }
    }

    fn can_execute_branching(&self, cpu: &CPU) -> (b: bool)
        requires
            self.is_branching(),
        ensures
            b == self.defined(cpu@),
    {
        match self {
            Self::Call(instruction) => instruction.can_execute(cpu),
            Self::Push(_) => cpu.stack_is_writable(),
            Self::Pop(_) => cpu.stack_is_readable(),
            Self::Rst(_) => cpu.stack_is_writable(),
            Self::Ret(instruction) => instruction.can_execute(cpu),
            _ => true,
        }
    }

    fn execute_branching(&self, cpu: &mut CPU) -> (cycles: u8)
        requires
            self.is_branching(),
            self.defined(old(cpu)@),
        ensures
            final(cpu)@ == self.spec_execute(old(cpu)@).0,
            cycles == self.spec_execute(old(cpu)@).1,
            cycles % 4 == 0,
            4 <= cycles <= 24,
    {
        match self {
            Self::Jp(instruction) => instruction.execute(cpu),
            Self::Jr(instruction) => instruction.execute(cpu),
            Self::Call(instruction) => instruction.execute(cpu),
            Self::Push(instruction) => instruction.execute(cpu),
            Self::Pop(instruction) => instruction.execute(cpu),
            Self::Rst(instruction) => instruction.execute(cpu),
            Self::Ret(instruction) => instruction.execute(cpu),
            _ => 4,
        }
    }

    fn can_execute_shifting(&self, cpu: &CPU) -> (b: bool)
        requires
            self.is_shifting(),
        ensures
            b == self.defined(cpu@),
    {
        match self {
            Self::Rlc(instruction) => cpu.operand_is_defined(&instruction.target()),
            Self::Rrc(instruction) => cpu.operand_is_defined(&instruction.target()),
            Self::Rl(instruction) => cpu.operand_is_defined(&instruction.target()),
            Self::Rr(instruction) => cpu.operand_is_defined(&instruction.target()),
            Self::Sla(instruction) => cpu.operand_is_defined(&instruction.target()),
            Self::Sra(instruction) => cpu.operand_is_defined(&instruction.target()),
            Self::Swap(instruction) => cpu.operand_is_defined(&instruction.target()),
            Self::Srl(instruction) => cpu.operand_is_defined(&instruction.target()),
            _ => true,
        }
    }

    fn execute_shifting(&self, cpu: &mut CPU) -> (cycles: u8)
        requires
            self.is_shifting(),
            self.defined(old(cpu)@),
        ensures
            final(cpu)@ == self.spec_execute(old(cpu)@).0,
            cycles == self.spec_execute(old(cpu)@).1,
            cycles % 4 == 0,
            4 <= cycles <= 24,
    {
        match self {
            Self::Rlc(instruction) => instruction.execute(cpu),
            Self::Rrc(instruction) => instruction.execute(cpu),
            Self::Rl(instruction) => instruction.execute(cpu),
            Self::Rr(instruction) => instruction.execute(cpu),
            Self::Sla(instruction) => instruction.execute(cpu),
            Self::Sra(instruction) => instruction.execute(cpu),
            Self::Swap(instruction) => instruction.execute(cpu),
            Self::Srl(instruction) => instruction.execute(cpu),
            _ => 4,
        }
    }

    fn can_execute_bitwise(&self, cpu: &CPU) -> (b: bool)
        requires
            self.is_bitwise(),
        ensures
            b == self.defined(cpu@),
    {
        match self {
            Self::Bit(instruction) => !matches!(instruction, BIT::HLAddress(_)) || cpu.hl_is_accessible(),
            Self::Res(instruction) => !matches!(instruction, RES::HLAddress(_)) || cpu.hl_is_accessible(),
            Self::SetBit(instruction) => !matches!(instruction, SET::HLAddress(_)) || cpu.hl_is_accessible(),
            _ => true,
        }
    }

    fn execute_bitwise(&self, cpu: &mut CPU) -> (cycles: u8)
        requires
            self.is_bitwise(),
            self.defined(old(cpu)@),
        ensures
            final(cpu)@ == self.spec_execute(old(cpu)@).0,
            cycles == self.spec_execute(old(cpu)@).1,
            cycles % 4 == 0,
            4 <= cycles <= 24,
    {
        match self {
            Self::Bit(instruction) => instruction.execute(cpu),
            Self::Res(instruction) => instruction.execute(cpu),
            Self::SetBit(instruction) => instruction.execute(cpu),
            _ => 4,
        }
    }

    /// Whether `execute` may be called.
    pub fn can_execute(&self, cpu: &CPU) -> (b: bool)
        ensures
            b == self.defined(cpu@),
    {
        match self {
            Self::Add(_) | Self::Adc(_) | Self::Sub(_) | Self::Sbc(_) | Self::And(_) | Self::Xor(_) | Self::Or(_) | Self::Cp(_) => self.can_execute_arithmetic(cpu),
            Self::Inc(_) | Self::Dec(_) | Self::Rrca(_) | Self::Rra(_) | Self::Rlca(_) | Self::Rla(_) | Self::Daa(_) | Self::Cpl(_) | Self::Scf(_) | Self::Ccf(_) => self.can_execute_adjusting(cpu),
            Self::Ld(_) | Self::Ldh(_) | Self::Nop(_) | Self::Halt(_) | Self::Stop(_) | Self::Di(_) | Self::Ei(_) => self.can_execute_loading(cpu),
            Self::Jp(_) | Self::Jr(_) | Self::Call(_) | Self::Push(_) | Self::Pop(_) | Self::Rst(_) | Self::Ret(_) => self.can_execute_branching(cpu),
            Self::Rlc(_) | Self::Rrc(_) | Self::Rl(_) | Self::Rr(_) | Self::Sla(_) | Self::Sra(_) | Self::Swap(_) | Self::Srl(_) => self.can_execute_shifting(cpu),
            Self::Bit(_) | Self::Res(_) | Self::SetBit(_) => self.can_execute_bitwise(cpu),
            Self::Invalid(_) => false,
        }
    }

    /// Runs the instruction and returns the cycles that it took, always a
    /// multiple of four.
    pub fn execute(&self, cpu: &mut CPU) -> (cycles: u8)
        requires
            self.defined(old(cpu)@),
        ensures
            final(cpu)@ == self.spec_execute(old(cpu)@).0,
            cycles == self.spec_execute(old(cpu)@).1,
            cycles % 4 == 0,
            4 <= cycles <= 24,
    {
        match self {
            Self::Add(_) | Self::Adc(_) | Self::Sub(_) | Self::Sbc(_) | Self::And(_) | Self::Xor(_) | Self::Or(_) | Self::Cp(_) => self.execute_arithmetic(cpu),
            Self::Inc(_) | Self::Dec(_) | Self::Rrca(_) | Self::Rra(_) | Self::Rlca(_) | Self::Rla(_) | Self::Daa(_) | Self::Cpl(_) | Self::Scf(_) | Self::Ccf(_) => self.execute_adjusting(cpu),
            Self::Ld(_) | Self::Ldh(_) | Self::Nop(_) | Self::Halt(_) | Self::Stop(_) | Self::Di(_) | Self::Ei(_) => self.execute_loading(cpu),
            Self::Jp(_) | Self::Jr(_) | Self::Call(_) | Self::Push(_) | Self::Pop(_) | Self::Rst(_) | Self::Ret(_) => self.execute_branching(cpu),
            Self::Rlc(_) | Self::Rrc(_) | Self::Rl(_) | Self::Rr(_) | Self::Sla(_) | Self::Sra(_) | Self::Swap(_) | Self::Srl(_) => self.execute_shifting(cpu),
            Self::Bit(_) | Self::Res(_) | Self::SetBit(_) => self.execute_bitwise(cpu),
            Self::Invalid(_) => vstd::pervasive::unreached(),
        }
    }
}

} // verus!
