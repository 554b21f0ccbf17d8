use vstd::prelude::*;
use crate::cpu::alu::{
    spec_rlc,
    spec_rrc,
    spec_rl,
    spec_rr,
    spec_sla,
    spec_sra,
    spec_srl,
    spec_swap,
    rotate_left,
    rotate_right,
    rotate_left_through_carry,
    rotate_right_through_carry,
    shift_left,
    shift_right_arithmetic,
    shift_right_logical,
    swap_nibbles,
};
use crate::cpu::processor::{CPU, CpuView};
use crate::cpu::registers::{Flags, R8};

verus! {

/// What an instruction of the extended table works on: a register, or the
/// byte that HL points at.
#[derive(Clone, Copy, PartialEq, Eq, Structural, Debug)]
pub enum Operand {
    Register8(R8),
    HLAddress,
}

impl Operand {
    /// Cycles of a rotation, a shift or a bit change on this operand.
    pub open spec fn spec_cycles(self) -> u8 {
        match self {
            Operand::Register8(_) => 8,
            Operand::HLAddress => 16,
        }
    }

    pub fn cycles(&self) -> (r: u8)
        ensures
            r == self.spec_cycles(),
    {
        match self {
            Operand::Register8(_) => 8,
            Operand::HLAddress => 16,
        }
    }
}

impl CpuView {
    /// The operand can be used unless HL points into the prohibited range.
    pub open spec fn operand_defined(self, operand: Operand) -> bool {
        operand is HLAddress ==> self.hl_accessible()
    }

    pub open spec fn operand(self, operand: Operand) -> u8 {
        match operand {
            Operand::Register8(register) => self.registers.r8(register),
            Operand::HLAddress => self.hl_ptr(),
        }
    }

    pub open spec fn with_operand(self, operand: Operand, value: u8) -> CpuView {
        match operand {
            Operand::Register8(register) => self.with_r8(register, value),
            Operand::HLAddress => self.write_hl_ptr(value),
        }
    }

    /// The CPU after a rotation or a shift of `operand` gave `result`: the
    /// byte written back, the carry as it left the byte, zero where the
    /// byte is 0.
    pub open spec fn shifted(self, operand: Operand, result: (u8, bool)) -> CpuView {
        self.with_flags(
            Flags { zero: result.0 == 0, negative: false, half_carry: false, carry: result.1 },
        ).with_operand(operand, result.0)
    }
}

impl CPU {
    pub fn operand_is_defined(&self, operand: &Operand) -> (b: bool)
        ensures
            b == self@.operand_defined(*operand),
    {
        match operand {
            Operand::Register8(_) => true,
            Operand::HLAddress => self.hl_is_accessible(),
        }
    }

    pub fn read_operand(&self, operand: &Operand) -> (r: u8)
        requires
            self@.operand_defined(*operand),
        ensures
            r == self@.operand(*operand),
    {
        match operand {
            Operand::Register8(register) => self.read_r8(register),
            Operand::HLAddress => self.read_hl_ptr(),
        }
    }

    pub fn write_operand(&mut self, operand: &Operand, value: u8)
        requires
            old(self)@.operand_defined(*operand),
        ensures
            final(self)@ == old(self)@.with_operand(*operand, value),
    {
        match operand {
            Operand::Register8(register) => self.write_r8(register, value),
            Operand::HLAddress => self.write_hl_ptr(value),
        }
    }

    fn store_shifted(&mut self, operand: &Operand, result: (u8, bool))
        requires
            old(self)@.operand_defined(*operand),
        ensures
            final(self)@ == old(self)@.shifted(*operand, result),
    {
        self.registers.f.carry = result.1;
        self.registers.f.zero = result.0 == 0;
        self.registers.f.negative = false;
        self.registers.f.half_carry = false;
        self.write_operand(operand, result.0);
    }
}

#[derive(Clone, Copy, PartialEq, Eq, Structural, Debug)]
pub enum RLC {
    Register8(R8),
    HLAddress,
}

impl RLC {
    /// The instruction on `operand`.
    pub open spec fn spec_on(operand: Operand) -> RLC {
        match operand {
            Operand::Register8(register) => RLC::Register8(register),
            Operand::HLAddress => RLC::HLAddress,
        }
    }

    pub fn on(operand: Operand) -> (r: Self)
        ensures
            r == Self::spec_on(operand),
            r.operand() == operand,
    {
        match operand {
            Operand::Register8(register) => RLC::Register8(register),
            Operand::HLAddress => RLC::HLAddress,
        }
    }

    pub open spec fn operand(self) -> Operand {
        match self {
            RLC::Register8(register) => Operand::Register8(register),
            RLC::HLAddress => Operand::HLAddress,
        }
    }

    pub open spec fn defined(self, cpu: CpuView) -> bool {
        cpu.operand_defined(self.operand())
    }

    pub open spec fn spec_execute(self, cpu: CpuView) -> (CpuView, u8) {
        (
            cpu.shifted(self.operand(), spec_rlc(cpu.operand(self.operand()))),
            self.operand().spec_cycles(),
        )
    }

    pub fn target(&self) -> (r: Operand)
        ensures
            r == self.operand(),
    {
        match self {
            RLC::Register8(register) => Operand::Register8(*register),
            RLC::HLAddress => Operand::HLAddress,
        }
    }

    pub fn execute(&self, cpu: &mut CPU) -> (cycles: u8)
        requires
            self.defined(old(cpu)@),
        ensures
            final(cpu)@ == self.spec_execute(old(cpu)@).0,
            cycles == self.spec_execute(old(cpu)@).1,
    {
        let operand = self.target();
        let value = cpu.read_operand(&operand);
        cpu.store_shifted(&operand, rotate_left(value));
        operand.cycles()
    }
}

#[derive(Clone, Copy, PartialEq, Eq, Structural, Debug)]
pub enum RRC {
    Register8(R8),
    HLAddress,
}

impl RRC {
    /// The instruction on `operand`.
    pub open spec fn spec_on(operand: Operand) -> RRC {
        match operand {
            Operand::Register8(register) => RRC::Register8(register),
            Operand::HLAddress => RRC::HLAddress,
        }
    }

    pub fn on(operand: Operand) -> (r: Self)
        ensures
            r == Self::spec_on(operand),
            r.operand() == operand,
    {
        match operand {
            Operand::Register8(register) => RRC::Register8(register),
            Operand::HLAddress => RRC::HLAddress,
        }
    }

    pub open spec fn operand(self) -> Operand {
        match self {
            RRC::Register8(register) => Operand::Register8(register),
            RRC::HLAddress => Operand::HLAddress,
        }
    }

    pub open spec fn defined(self, cpu: CpuView) -> bool {
        cpu.operand_defined(self.operand())
    }

    pub open spec fn spec_execute(self, cpu: CpuView) -> (CpuView, u8) {
        (
            cpu.shifted(self.operand(), spec_rrc(cpu.operand(self.operand()))),
            self.operand().spec_cycles(),
        )
    }

    pub fn target(&self) -> (r: Operand)
        ensures
            r == self.operand(),
    {
        match self {
            RRC::Register8(register) => Operand::Register8(*register),
            RRC::HLAddress => Operand::HLAddress,
        }
    }

    pub fn execute(&self, cpu: &mut CPU) -> (cycles: u8)
        requires
            self.defined(old(cpu)@),
        ensures
            final(cpu)@ == self.spec_execute(old(cpu)@).0,
            cycles == self.spec_execute(old(cpu)@).1,
    {
        let operand = self.target();
        let value = cpu.read_operand(&operand);
        cpu.store_shifted(&operand, rotate_right(value));
        operand.cycles()
    }
}

#[derive(Clone, Copy, PartialEq, Eq, Structural, Debug)]
pub enum RL {
    Register8(R8),
    HLAddress,
}

impl RL {
    /// The instruction on `operand`.
    pub open spec fn spec_on(operand: Operand) -> RL {
        match operand {
            Operand::Register8(register) => RL::Register8(register),
            Operand::HLAddress => RL::HLAddress,
        }
    }

    pub fn on(operand: Operand) -> (r: Self)
        ensures
            r == Self::spec_on(operand),
            r.operand() == operand,
    {
        match operand {
            Operand::Register8(register) => RL::Register8(register),
            Operand::HLAddress => RL::HLAddress,
        }
    }

    pub open spec fn operand(self) -> Operand {
        match self {
            RL::Register8(register) => Operand::Register8(register),
            RL::HLAddress => Operand::HLAddress,
        }
    }

    pub open spec fn defined(self, cpu: CpuView) -> bool {
        cpu.operand_defined(self.operand())
    }

    pub open spec fn spec_execute(self, cpu: CpuView) -> (CpuView, u8) {
        (
            cpu.shifted(
                self.operand(),
                spec_rl(cpu.operand(self.operand()), cpu.registers.f.carry),
            ),
            self.operand().spec_cycles(),
        )
    }

    pub fn target(&self) -> (r: Operand)
        ensures
            r == self.operand(),
    {
        match self {
            RL::Register8(register) => Operand::Register8(*register),
            RL::HLAddress => Operand::HLAddress,
        }
    }

    pub fn execute(&self, cpu: &mut CPU) -> (cycles: u8)
        requires
            self.defined(old(cpu)@),
        ensures
            final(cpu)@ == self.spec_execute(old(cpu)@).0,
            cycles == self.spec_execute(old(cpu)@).1,
    {
        let operand = self.target();
        let value = cpu.read_operand(&operand);
        cpu.store_shifted(&operand, rotate_left_through_carry(value, cpu.registers.f.carry));
        operand.cycles()
    }
}

#[derive(Clone, Copy, PartialEq, Eq, Structural, Debug)]
pub enum RR {
    Register8(R8),
    HLAddress,
}

impl RR {
    /// The instruction on `operand`.
    pub open spec fn spec_on(operand: Operand) -> RR {
        match operand {
            Operand::Register8(register) => RR::Register8(register),
            Operand::HLAddress => RR::HLAddress,
        }
    }

    pub fn on(operand: Operand) -> (r: Self)
        ensures
            r == Self::spec_on(operand),
            r.operand() == operand,
    {
        match operand {
            Operand::Register8(register) => RR::Register8(register),
            Operand::HLAddress => RR::HLAddress,
        }
    }

    pub open spec fn operand(self) -> Operand {
        match self {
            RR::Register8(register) => Operand::Register8(register),
            RR::HLAddress => Operand::HLAddress,
        }
    }

    pub open spec fn defined(self, cpu: CpuView) -> bool {
        cpu.operand_defined(self.operand())
    }

    pub open spec fn spec_execute(self, cpu: CpuView) -> (CpuView, u8) {
        (
            cpu.shifted(
                self.operand(),
                spec_rr(cpu.operand(self.operand()), cpu.registers.f.carry),
            ),
            self.operand().spec_cycles(),
        )
    }

    pub fn target(&self) -> (r: Operand)
        ensures
            r == self.operand(),
    {
        match self {
            RR::Register8(register) => Operand::Register8(*register),
            RR::HLAddress => Operand::HLAddress,
        }
    }

    pub fn execute(&self, cpu: &mut CPU) -> (cycles: u8)
        requires
            self.defined(old(cpu)@),
        ensures
            final(cpu)@ == self.spec_execute(old(cpu)@).0,
            cycles == self.spec_execute(old(cpu)@).1,
    {
        let operand = self.target();
        let value = cpu.read_operand(&operand);
        cpu.store_shifted(&operand, rotate_right_through_carry(value, cpu.registers.f.carry));
        operand.cycles()
    }
}

#[derive(Clone, Copy, PartialEq, Eq, Structural, Debug)]
pub enum SLA {
    Register8(R8),
    HLAddress,
}

impl SLA {
    /// The instruction on `operand`.
    pub open spec fn spec_on(operand: Operand) -> SLA {
        match operand {
            Operand::Register8(register) => SLA::Register8(register),
            Operand::HLAddress => SLA::HLAddress,
        }
    }

    pub fn on(operand: Operand) -> (r: Self)
        ensures
            r == Self::spec_on(operand),
            r.operand() == operand,
    {
        match operand {
            Operand::Register8(register) => SLA::Register8(register),
            Operand::HLAddress => SLA::HLAddress,
        }
    }

    pub open spec fn operand(self) -> Operand {
        match self {
            SLA::Register8(register) => Operand::Register8(register),
            SLA::HLAddress => Operand::HLAddress,
        }
    }

    pub open spec fn defined(self, cpu: CpuView) -> bool {
        cpu.operand_defined(self.operand())
    }

    pub open spec fn spec_execute(self, cpu: CpuView) -> (CpuView, u8) {
        (
            cpu.shifted(self.operand(), spec_sla(cpu.operand(self.operand()))),
            self.operand().spec_cycles(),
        )
    }

    pub fn target(&self) -> (r: Operand)
        ensures
            r == self.operand(),
    {
        match self {
            SLA::Register8(register) => Operand::Register8(*register),
            SLA::HLAddress => Operand::HLAddress,
        }
    }

    pub fn execute(&self, cpu: &mut CPU) -> (cycles: u8)
        requires
            self.defined(old(cpu)@),
        ensures
            final(cpu)@ == self.spec_execute(old(cpu)@).0,
            cycles == self.spec_execute(old(cpu)@).1,
    {
        let operand = self.target();
        let value = cpu.read_operand(&operand);
        cpu.store_shifted(&operand, shift_left(value));
        operand.cycles()
    }
}

#[derive(Clone, Copy, PartialEq, Eq, Structural, Debug)]
pub enum SRA {
    Register8(R8),
    HLAddress,
}

impl SRA {
    /// The instruction on `operand`.
    pub open spec fn spec_on(operand: Operand) -> SRA {
        match operand {
            Operand::Register8(register) => SRA::Register8(register),
            Operand::HLAddress => SRA::HLAddress,
        }
    }

    pub fn on(operand: Operand) -> (r: Self)
        ensures
            r == Self::spec_on(operand),
            r.operand() == operand,
    {
        match operand {
            Operand::Register8(register) => SRA::Register8(register),
            Operand::HLAddress => SRA::HLAddress,
        }
    }

    pub open spec fn operand(self) -> Operand {
        match self {
            SRA::Register8(register) => Operand::Register8(register),
            SRA::HLAddress => Operand::HLAddress,
        }
    }

    pub open spec fn defined(self, cpu: CpuView) -> bool {
        cpu.operand_defined(self.operand())
    }

    pub open spec fn spec_execute(self, cpu: CpuView) -> (CpuView, u8) {
        (
            cpu.shifted(self.operand(), spec_sra(cpu.operand(self.operand()))),
            self.operand().spec_cycles(),
        )
    }

    pub fn target(&self) -> (r: Operand)
        ensures
            r == self.operand(),
    {
        match self {
            SRA::Register8(register) => Operand::Register8(*register),
            SRA::HLAddress => Operand::HLAddress,
        }
    }

    pub fn execute(&self, cpu: &mut CPU) -> (cycles: u8)
        requires
            self.defined(old(cpu)@),
        ensures
            final(cpu)@ == self.spec_execute(old(cpu)@).0,
            cycles == self.spec_execute(old(cpu)@).1,
    {
        let operand = self.target();
        let value = cpu.read_operand(&operand);
        cpu.store_shifted(&operand, shift_right_arithmetic(value));
        operand.cycles()
    }
}

#[derive(Clone, Copy, PartialEq, Eq, Structural, Debug)]
pub enum SWAP {
    Register8(R8),
    HLAddress,
}

impl SWAP {
    /// The instruction on `operand`.
    pub open spec fn spec_on(operand: Operand) -> SWAP {
        match operand {
            Operand::Register8(register) => SWAP::Register8(register),
            Operand::HLAddress => SWAP::HLAddress,
        }
    }

    pub fn on(operand: Operand) -> (r: Self)
        ensures
            r == Self::spec_on(operand),
            r.operand() == operand,
    {
        match operand {
            Operand::Register8(register) => SWAP::Register8(register),
            Operand::HLAddress => SWAP::HLAddress,
        }
    }

    pub open spec fn operand(self) -> Operand {
        match self {
            SWAP::Register8(register) => Operand::Register8(register),
            SWAP::HLAddress => Operand::HLAddress,
        }
    }

    pub open spec fn defined(self, cpu: CpuView) -> bool {
        cpu.operand_defined(self.operand())
    }

    pub open spec fn spec_execute(self, cpu: CpuView) -> (CpuView, u8) {
        (
            cpu.shifted(self.operand(), (spec_swap(cpu.operand(self.operand())), false)),
            self.operand().spec_cycles(),
        )
    }

    pub fn target(&self) -> (r: Operand)
        ensures
            r == self.operand(),
    {
        match self {
            SWAP::Register8(register) => Operand::Register8(*register),
            SWAP::HLAddress => Operand::HLAddress,
        }
    }

    pub fn execute(&self, cpu: &mut CPU) -> (cycles: u8)
        requires
            self.defined(old(cpu)@),
        ensures
            final(cpu)@ == self.spec_execute(old(cpu)@).0,
            cycles == self.spec_execute(old(cpu)@).1,
    {
        let operand = self.target();
        let value = cpu.read_operand(&operand);
        cpu.store_shifted(&operand, (swap_nibbles(value), false));
        operand.cycles()
    }
}

#[derive(Clone, Copy, PartialEq, Eq, Structural, Debug)]
pub enum SRL {
    Register8(R8),
    HLAddress,
}

impl SRL {
    /// The instruction on `operand`.
    pub open spec fn spec_on(operand: Operand) -> SRL {
        match operand {
            Operand::Register8(register) => SRL::Register8(register),
            Operand::HLAddress => SRL::HLAddress,
        }
    }

    pub fn on(operand: Operand) -> (r: Self)
        ensures
            r == Self::spec_on(operand),
            r.operand() == operand,
    {
        match operand {
            Operand::Register8(register) => SRL::Register8(register),
            Operand::HLAddress => SRL::HLAddress,
        }
    }

    pub open spec fn operand(self) -> Operand {
        match self {
            SRL::Register8(register) => Operand::Register8(register),
            SRL::HLAddress => Operand::HLAddress,
        }
    }

    pub open spec fn defined(self, cpu: CpuView) -> bool {
        cpu.operand_defined(self.operand())
    }

    pub open spec fn spec_execute(self, cpu: CpuView) -> (CpuView, u8) {
        (
            cpu.shifted(self.operand(), spec_srl(cpu.operand(self.operand()))),
            self.operand().spec_cycles(),
        )
    }

    pub fn target(&self) -> (r: Operand)
        ensures
            r == self.operand(),
    {
        match self {
            SRL::Register8(register) => Operand::Register8(*register),
            SRL::HLAddress => Operand::HLAddress,
        }
    }

    pub fn execute(&self, cpu: &mut CPU) -> (cycles: u8)
        requires
            self.defined(old(cpu)@),
        ensures
            final(cpu)@ == self.spec_execute(old(cpu)@).0,
            cycles == self.spec_execute(old(cpu)@).1,
    {
        let operand = self.target();
        let value = cpu.read_operand(&operand);
        cpu.store_shifted(&operand, shift_right_logical(value));
        operand.cycles()
    }
}

/// The number of a bit in a byte.
#[derive(Clone, Copy, PartialEq, Eq, Structural, Debug)]
pub enum U3 {
    B0,
    B1,
    B2,
    B3,
    B4,
    B5,
    B6,
    B7,
}

impl U3 {
    pub open spec fn index(self) -> u8 {
        match self {
            U3::B0 => 0,
            U3::B1 => 1,
            U3::B2 => 2,
            U3::B3 => 3,
            U3::B4 => 4,
            U3::B5 => 5,
            U3::B6 => 6,
            U3::B7 => 7,
        }
    }

    /// The byte in which this bit alone is set.
    pub open spec fn mask(self) -> u8 {
        1u8 << self.index()
    }

    pub fn as_bit_mask(&self) -> (r: u8)
        ensures
            r == self.mask(),
    {
        match self {
            U3::B0 => 1u8 << 0u8,
            U3::B1 => 1u8 << 1u8,
            U3::B2 => 1u8 << 2u8,
            U3::B3 => 1u8 << 3u8,
            U3::B4 => 1u8 << 4u8,
            U3::B5 => 1u8 << 5u8,
            U3::B6 => 1u8 << 6u8,
            U3::B7 => 1u8 << 7u8,
        }
    }
}

/// Tests a bit: the zero flag says that it is clear.
#[derive(Clone, Copy, PartialEq, Eq, Structural, Debug)]
pub enum BIT {
    Register8(U3, R8),
    HLAddress(U3),
}

impl BIT {
    /// The instruction on bit `bit` of `operand`.
    pub open spec fn spec_on(bit: U3, operand: Operand) -> BIT {
        match operand {
            Operand::Register8(register) => BIT::Register8(bit, register),
            Operand::HLAddress => BIT::HLAddress(bit),
        }
    }

    pub fn on(bit: U3, operand: Operand) -> (r: Self)
        ensures
            r == Self::spec_on(bit, operand),
            r.operand() == operand,
            r.bit() == bit,
    {
        match operand {
            Operand::Register8(register) => BIT::Register8(bit, register),
            Operand::HLAddress => BIT::HLAddress(bit),
        }
    }

    pub open spec fn operand(self) -> Operand {
        match self {
            BIT::Register8(_, register) => Operand::Register8(register),
            BIT::HLAddress(_) => Operand::HLAddress,
        }
    }

    pub open spec fn bit(self) -> U3 {
        match self {
            BIT::Register8(bit, _) => bit,
            BIT::HLAddress(bit) => bit,
        }
    }

    pub open spec fn defined(self, cpu: CpuView) -> bool {
        cpu.operand_defined(self.operand())
    }

    pub open spec fn spec_execute(self, cpu: CpuView) -> (CpuView, u8) {
        (
            cpu.with_flags(
                Flags {
                    zero: self.bit().mask() & cpu.operand(self.operand()) == 0,
                    negative: false,
                    half_carry: true,
                    carry: cpu.registers.f.carry,
                },
            ),
            match self {
                BIT::Register8(_, _) => 8,
                BIT::HLAddress(_) => 12,
            },
        )
    }

    pub fn execute(&self, cpu: &mut CPU) -> (cycles: u8)
        requires
            self.defined(old(cpu)@),
        ensures
            final(cpu)@ == self.spec_execute(old(cpu)@).0,
            cycles == self.spec_execute(old(cpu)@).1,
    {
        let (bit, value, cycles): (&U3, u8, u8) = match self {
            BIT::Register8(bit, register) => (bit, cpu.read_r8(register), 8),
            BIT::HLAddress(bit) => (bit, cpu.read_hl_ptr(), 12),
        };
        cpu.registers.f.zero = bit.as_bit_mask() & value == 0;
        cpu.registers.f.negative = false;
        cpu.registers.f.half_carry = true;
        cycles
    }
}

/// Clears a bit.
#[derive(Clone, Copy, PartialEq, Eq, Structural, Debug)]
pub enum RES {
    Register8(U3, R8),
    HLAddress(U3),
}

impl RES {
    /// The instruction on bit `bit` of `operand`.
    pub open spec fn spec_on(bit: U3, operand: Operand) -> RES {
        match operand {
            Operand::Register8(register) => RES::Register8(bit, register),
            Operand::HLAddress => RES::HLAddress(bit),
        }
    }

    pub fn on(bit: U3, operand: Operand) -> (r: Self)
        ensures
            r == Self::spec_on(bit, operand),
            r.operand() == operand,
            r.bit() == bit,
    {
        match operand {
            Operand::Register8(register) => RES::Register8(bit, register),
            Operand::HLAddress => RES::HLAddress(bit),
        }
    }

    pub open spec fn operand(self) -> Operand {
        match self {
            RES::Register8(_, register) => Operand::Register8(register),
            RES::HLAddress(_) => Operand::HLAddress,
        }
    }

    pub open spec fn bit(self) -> U3 {
        match self {
            RES::Register8(bit, _) => bit,
            RES::HLAddress(bit) => bit,
        }
    }

    pub open spec fn defined(self, cpu: CpuView) -> bool {
        cpu.operand_defined(self.operand())
    }

    pub open spec fn spec_execute(self, cpu: CpuView) -> (CpuView, u8) {
        (
            cpu.with_operand(self.operand(), cpu.operand(self.operand()) & !self.bit().mask()),
            self.operand().spec_cycles(),
        )
    }

    pub fn execute(&self, cpu: &mut CPU) -> (cycles: u8)
        requires
            self.defined(old(cpu)@),
        ensures
            final(cpu)@ == self.spec_execute(old(cpu)@).0,
            cycles == self.spec_execute(old(cpu)@).1,
    {
        match self {
            RES::Register8(bit, register) => {
                cpu.write_r8(register, cpu.read_r8(register) & !bit.as_bit_mask());
                8
            },
            RES::HLAddress(bit) => {
                cpu.write_hl_ptr(cpu.read_hl_ptr() & !bit.as_bit_mask());
                16
            },
        }
    }
}

/// Sets a bit.
#[derive(Clone, Copy, PartialEq, Eq, Structural, Debug)]
pub enum SET {
    Register8(U3, R8),
    HLAddress(U3),
}

impl SET {
    /// The instruction on bit `bit` of `operand`.
    pub open spec fn spec_on(bit: U3, operand: Operand) -> SET {
        match operand {
            Operand::Register8(register) => SET::Register8(bit, register),
            Operand::HLAddress => SET::HLAddress(bit),
        }
    }

    pub fn on(bit: U3, operand: Operand) -> (r: Self)
        ensures
            r == Self::spec_on(bit, operand),
            r.operand() == operand,
            r.bit() == bit,
    {
        match operand {
            Operand::Register8(register) => SET::Register8(bit, register),
            Operand::HLAddress => SET::HLAddress(bit),
        }
    }

    pub open spec fn operand(self) -> Operand {
        match self {
            SET::Register8(_, register) => Operand::Register8(register),
            SET::HLAddress(_) => Operand::HLAddress,
        }
    }

    pub open spec fn bit(self) -> U3 {
        match self {
            SET::Register8(bit, _) => bit,
            SET::HLAddress(bit) => bit,
        }
    }

    pub open spec fn defined(self, cpu: CpuView) -> bool {
        cpu.operand_defined(self.operand())
    }

    pub open spec fn spec_execute(self, cpu: CpuView) -> (CpuView, u8) {
        (
            cpu.with_operand(self.operand(), cpu.operand(self.operand()) | self.bit().mask()),
            self.operand().spec_cycles(),
        )
    }

    pub fn execute(&self, cpu: &mut CPU) -> (cycles: u8)
        requires
            self.defined(old(cpu)@),
        ensures
            final(cpu)@ == self.spec_execute(old(cpu)@).0,
            cycles == self.spec_execute(old(cpu)@).1,
    {
        match self {
            SET::Register8(bit, register) => {
                cpu.write_r8(register, cpu.read_r8(register) | bit.as_bit_mask());
                8
            },
            SET::HLAddress(bit) => {
                cpu.write_hl_ptr(cpu.read_hl_ptr() | bit.as_bit_mask());
                16
            },
        }
    }
}

} // verus!
