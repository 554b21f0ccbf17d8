use vstd::prelude::*;
use crate::cpu::processor::{CPU, CpuView};
use crate::memory::bus::is_prohibited;

verus! {

pub const ZERO_FLAG_BYTE_POSITION: u8 = 7;

pub const NEGATIVE_FLAG_BYTE_POSITION: u8 = 6;

pub const HALF_CARRY_FLAG_BYTE_POSITION: u8 = 5;

pub const CARRY_FLAG_BYTE_POSITION: u8 = 4;

/// The four flags. As a byte they lie in bits 7, 6, 5 and 4, over a low
/// nibble that is always zero.
#[derive(Clone, Copy, PartialEq, Eq, Structural, Debug)]
pub struct Flags {
    pub zero: bool,
    pub negative: bool,
    pub half_carry: bool,
    pub carry: bool,
}

pub open spec fn bool_to_int(b: bool) -> int {
    if b {
        1
    } else {
        0
    }
}

impl Flags {
    pub open spec fn cleared() -> Flags {
        Flags { zero: false, negative: false, half_carry: false, carry: false }
    }

    /// The flags packed into the register F.
    pub open spec fn spec_to_byte(self) -> u8 {
        (128 * bool_to_int(self.zero) + 64 * bool_to_int(self.negative) + 32 * bool_to_int(
            self.half_carry,
        ) + 16 * bool_to_int(self.carry)) as u8
    }

    /// The flags that a byte holds in its high nibble.
    pub open spec fn spec_from_byte(value: u8) -> Flags {
        Flags {
            zero: (value / 128) % 2 == 1,
            negative: (value / 64) % 2 == 1,
            half_carry: (value / 32) % 2 == 1,
            carry: (value / 16) % 2 == 1,
        }
    }

    pub fn to_byte(&self) -> (r: u8)
        ensures
            r == self.spec_to_byte(),
    {
        let z: u8 = if self.zero {
            1
        } else {
            0
        };
        let n: u8 = if self.negative {
            1
        } else {
            0
        };
        let h: u8 = if self.half_carry {
            1
        } else {
            0
        };
        let c: u8 = if self.carry {
            1
        } else {
            0
        };
        let r = z << ZERO_FLAG_BYTE_POSITION | n << NEGATIVE_FLAG_BYTE_POSITION | h
            << HALF_CARRY_FLAG_BYTE_POSITION | c << CARRY_FLAG_BYTE_POSITION;
        proof {
            lemma_pack(z, n, h, c);
        }
        r
    }

    pub fn from_byte(value: u8) -> (r: Flags)
        ensures
            r == Flags::spec_from_byte(value),
    {
        proof {
            lemma_unpack(value);
        }
        Flags {
            zero: ((value >> ZERO_FLAG_BYTE_POSITION) & 0b1) != 0,
            negative: ((value >> NEGATIVE_FLAG_BYTE_POSITION) & 0b1) != 0,
            half_carry: ((value >> HALF_CARRY_FLAG_BYTE_POSITION) & 0b1) != 0,
            carry: ((value >> CARRY_FLAG_BYTE_POSITION) & 0b1) != 0,
        }
    }

    /// Unpacking what was packed gives the same flags.
    pub proof fn lemma_pack_unpack(self)
        ensures
            Flags::spec_from_byte(self.spec_to_byte()) == self,
            self.spec_to_byte() % 16 == 0,
    {
    }

    /// Packing what was unpacked gives the byte with its low nibble cleared.
    pub proof fn lemma_unpack_pack(value: u8)
        ensures
            Flags::spec_from_byte(value).spec_to_byte() == value - value % 16,
            Flags::spec_from_byte(value).spec_to_byte() == value & 0xF0,
    {
        assert(value & 0xF0 == value - value % 16) by (bit_vector);
    }
}

proof fn lemma_pack(z: u8, n: u8, h: u8, c: u8)
    by (bit_vector)
    requires
        z <= 1,
        n <= 1,
        h <= 1,
        c <= 1,
    ensures
        z << 7u8 | n << 6u8 | h << 5u8 | c << 4u8 == 128 * z + 64 * n + 32 * h + 16 * c,
{
}

proof fn lemma_unpack(value: u8)
    by (bit_vector)
    ensures
        (((value >> 7u8) & 1) != 0) == ((value / 128) % 2 == 1),
        (((value >> 6u8) & 1) != 0) == ((value / 64) % 2 == 1),
        (((value >> 5u8) & 1) != 0) == ((value / 32) % 2 == 1),
        (((value >> 4u8) & 1) != 0) == ((value / 16) % 2 == 1),
{
}

impl Default for Flags {
    fn default() -> (r: Self)
        ensures
            r == Flags::cleared(),
    {
        Flags { zero: false, negative: false, half_carry: false, carry: false }
    }
}

impl From<u8> for Flags {
    fn from(value: u8) -> (r: Flags) {
        Flags::from_byte(value)
    }
}

impl vstd::std_specs::convert::FromSpecImpl<u8> for Flags {
    open spec fn obeys_from_spec() -> bool {
        true
    }

    open spec fn from_spec(value: u8) -> Flags {
        Flags::spec_from_byte(value)
    }
}

/// The register file.
#[derive(Clone, Copy, PartialEq, Eq, Structural, Debug)]
pub struct Registers {
    pub a: u8,
    pub b: u8,
    pub c: u8,
    pub d: u8,
    pub e: u8,
    pub f: Flags,
    pub h: u8,
    pub l: u8,
    pub sp: u16,
    pub pc: u16,
}

/// The 16-bit value with the high byte `high` and the low byte `low`.
pub open spec fn word(high: u8, low: u8) -> u16 {
    (high * 256 + low) as u16
}

pub open spec fn high_byte(value: u16) -> u8 {
    (value / 256) as u8
}

pub open spec fn low_byte(value: u16) -> u8 {
    (value % 256) as u8
}

impl Registers {
    /// The registers after power-on: all zero, the stack at the top of the
    /// high RAM.
    pub open spec fn initial() -> Registers {
        Registers {
            a: 0,
            b: 0,
            c: 0,
            d: 0,
            e: 0,
            f: Flags::cleared(),
            h: 0,
            l: 0,
            sp: 0xFFFE,
            pc: 0,
        }
    }

    pub open spec fn af(self) -> u16 {
        word(self.a, self.f.spec_to_byte())
    }

    pub open spec fn bc(self) -> u16 {
        word(self.b, self.c)
    }

    pub open spec fn de(self) -> u16 {
        word(self.d, self.e)
    }

    pub open spec fn hl(self) -> u16 {
        word(self.h, self.l)
    }

    pub open spec fn with_bc(self, value: u16) -> Registers {
        Registers { b: high_byte(value), c: low_byte(value), ..self }
    }

    pub open spec fn with_de(self, value: u16) -> Registers {
        Registers { d: high_byte(value), e: low_byte(value), ..self }
    }

    pub open spec fn with_hl(self, value: u16) -> Registers {
        Registers { h: high_byte(value), l: low_byte(value), ..self }
    }

    pub open spec fn r8(self, register: R8) -> u8 {
        match register {
            R8::A => self.a,
            R8::B => self.b,
            R8::C => self.c,
            R8::D => self.d,
            R8::E => self.e,
            R8::H => self.h,
            R8::L => self.l,
        }
    }

    pub open spec fn with_r8(self, register: R8, value: u8) -> Registers {
        match register {
            R8::A => Registers { a: value, ..self },
            R8::B => Registers { b: value, ..self },
            R8::C => Registers { c: value, ..self },
            R8::D => Registers { d: value, ..self },
            R8::E => Registers { e: value, ..self },
            R8::H => Registers { h: value, ..self },
            R8::L => Registers { l: value, ..self },
        }
    }

    pub open spec fn r16(self, register: R16) -> u16 {
        match register {
            R16::BC => self.bc(),
            R16::DE => self.de(),
            R16::HL => self.hl(),
        }
    }

    pub open spec fn with_r16(self, register: R16, value: u16) -> Registers {
        match register {
            R16::BC => self.with_bc(value),
            R16::DE => self.with_de(value),
            R16::HL => self.with_hl(value),
        }
    }

    /// The address that an indirect operand names.
    pub open spec fn r16m(self, register: R16Mem) -> u16 {
        match register {
            R16Mem::BC => self.bc(),
            R16Mem::DE => self.de(),
            R16Mem::HLI => self.hl(),
            R16Mem::HLD => self.hl(),
        }
    }

    /// The registers after an indirect operand was used: HL one up or one
    /// down, going round at the ends, where the operand says so.
    pub open spec fn after_r16m(self, register: R16Mem) -> Registers {
        match register {
            R16Mem::BC => self,
            R16Mem::DE => self,
            R16Mem::HLI => self.with_hl(((self.hl() + 1) % 0x1_0000) as u16),
            R16Mem::HLD => self.with_hl(((self.hl() - 1) % 0x1_0000) as u16),
        }
    }

    /// A register pair reads as it was written, and the other registers
    /// stay.
    pub proof fn lemma_pairs(self, value: u16)
        ensures
            self.with_bc(value).bc() == value,
            self.with_de(value).de() == value,
            self.with_hl(value).hl() == value,
            self.with_bc(self.bc()) == self,
            self.with_de(self.de()) == self,
            self.with_hl(self.hl()) == self,
    {
    }
}

impl Default for Registers {
    fn default() -> (r: Self)
        ensures
            r == Registers::initial(),
    {
        Self {
            a: 0,
            b: 0,
            c: 0,
            d: 0,
            e: 0,
            f: Flags::default(),
            h: 0,
            l: 0,
            sp: 0xFFFE,
            pc: 0,
        }
    }
}

#[derive(Clone, Copy, PartialEq, Eq, Structural, Debug)]
pub enum R8 {
    A,
    B,
    C,
    D,
    E,
    H,
    L,
}

#[derive(Clone, Copy, PartialEq, Eq, Structural, Debug)]
pub enum R16 {
    BC,
    DE,
    HL,
}

/// A register pair used as an address; HL may count up or down after the
/// access.
#[derive(Clone, Copy, PartialEq, Eq, Structural, Debug)]
pub enum R16Mem {
    BC,
    DE,
    HLI,
    HLD,
}

impl CpuView {
    pub open spec fn with_registers(self, registers: Registers) -> CpuView {
        CpuView { registers, ..self }
    }

    pub open spec fn with_flags(self, f: Flags) -> CpuView {
        CpuView { registers: Registers { f, ..self.registers }, ..self }
    }

    pub open spec fn with_pc(self, pc: u16) -> CpuView {
        CpuView { registers: Registers { pc, ..self.registers }, ..self }
    }

    pub open spec fn with_sp(self, sp: u16) -> CpuView {
        CpuView { registers: Registers { sp, ..self.registers }, ..self }
    }

    pub open spec fn with_a(self, a: u8) -> CpuView {
        CpuView { registers: Registers { a, ..self.registers }, ..self }
    }

    pub open spec fn with_r8(self, register: R8, value: u8) -> CpuView {
        self.with_registers(self.registers.with_r8(register, value))
    }

    pub open spec fn with_r16(self, register: R16, value: u16) -> CpuView {
        self.with_registers(self.registers.with_r16(register, value))
    }

    pub open spec fn with_hl(self, value: u16) -> CpuView {
        self.with_registers(self.registers.with_hl(value))
    }

    /// The byte that HL points at.
    pub open spec fn hl_ptr(self) -> u8 {
        self.bus.read(self.registers.hl())
    }

    /// The CPU after a write through HL.
    pub open spec fn write_hl_ptr(self, value: u8) -> CpuView {
        self.write_byte(self.registers.hl(), value)
    }

    /// The byte that an indirect operand names.
    pub open spec fn read_from(self, register: R16Mem) -> u8 {
        self.bus.read(self.registers.r16m(register))
    }

    /// The CPU after a write through an indirect operand.
    pub open spec fn store_at(self, register: R16Mem, value: u8) -> CpuView {
        self.with_registers(self.registers.after_r16m(register)).write_byte(
            self.registers.r16m(register),
            value,
        )
    }
}

impl CPU {
    pub fn read_af(&self) -> (r: u16)
        ensures
            r == self.registers.af(),
    {
        let flags: u8 = self.registers.f.to_byte();
        (self.registers.a as u16) * 256 + flags as u16
    }

    pub fn read_bc(&self) -> (r: u16)
        ensures
            r == self.registers.bc(),
    {
        (self.registers.b as u16) * 256 + self.registers.c as u16
    }

    pub fn write_bc(&mut self, value: u16)
        ensures
            final(self)@ == old(self)@.with_registers(old(self).registers.with_bc(value)),
    {
        self.registers.b = (value / 256) as u8;
        self.registers.c = (value % 256) as u8;
    }

    pub fn read_de(&self) -> (r: u16)
        ensures
            r == self.registers.de(),
    {
        (self.registers.d as u16) * 256 + self.registers.e as u16
    }

    pub fn write_de(&mut self, value: u16)
        ensures
            final(self)@ == old(self)@.with_registers(old(self).registers.with_de(value)),
    {
        self.registers.d = (value / 256) as u8;
        self.registers.e = (value % 256) as u8;
    }

    pub fn read_hl(&self) -> (r: u16)
        ensures
            r == self.registers.hl(),
    {
        (self.registers.h as u16) * 256 + self.registers.l as u16
    }

    pub fn write_hl(&mut self, value: u16)
        ensures
            final(self)@ == old(self)@.with_hl(value),
    {
        self.registers.h = (value / 256) as u8;
        self.registers.l = (value % 256) as u8;
    }

    pub fn read_hl_ptr(&self) -> (r: u8)
        requires
            !is_prohibited(self.registers.hl()),
        ensures
            r == self@.hl_ptr(),
    {
        self.read_byte(self.read_hl())
    }

    pub fn write_hl_ptr(&mut self, value: u8)
        requires
            !is_prohibited(old(self).registers.hl()),
        ensures
            final(self)@ == old(self)@.write_hl_ptr(value),
    {
        self.write_byte(self.read_hl(), value);
    }

    pub fn read_r8(&self, register: &R8) -> (r: u8)
        ensures
            r == self.registers.r8(*register),
    {
        match register {
            R8::A => self.registers.a,
            R8::B => self.registers.b,
            R8::C => self.registers.c,
            R8::D => self.registers.d,
            R8::E => self.registers.e,
            R8::H => self.registers.h,
            R8::L => self.registers.l,
        }
    }

    pub fn write_r8(&mut self, register: &R8, value: u8)
        ensures
            final(self)@ == old(self)@.with_r8(*register, value),
    {
        match register {
            R8::A => self.registers.a = value,
            R8::B => self.registers.b = value,
            R8::C => self.registers.c = value,
            R8::D => self.registers.d = value,
            R8::E => self.registers.e = value,
            R8::H => self.registers.h = value,
            R8::L => self.registers.l = value,
        };
    }

    pub fn read_r16(&self, register: &R16) -> (r: u16)
        ensures
            r == self.registers.r16(*register),
    {
        match register {
            R16::BC => self.read_bc(),
            R16::DE => self.read_de(),
            R16::HL => self.read_hl(),
        }
    }

    pub fn write_r16(&mut self, register: &R16, value: u16)
        ensures
            final(self)@ == old(self)@.with_r16(*register, value),
    {
        match register {
            R16::BC => self.write_bc(value),
            R16::DE => self.write_de(value),
            R16::HL => self.write_hl(value),
        }
    }

    /// The address that an indirect operand names, HL left as it is.
    pub fn peek_r16m(&self, register: &R16Mem) -> (r: u16)
        ensures
            r == self.registers.r16m(*register),
    {
        match register {
            R16Mem::BC => self.read_bc(),
            R16Mem::DE => self.read_de(),
            _ => self.read_hl(),
        }
    }

    /// The address that an indirect operand names; HL counts on where the
    /// operand says so.
    pub fn read_r16m(&mut self, register: &R16Mem) -> (r: u16)
        ensures
            r == old(self).registers.r16m(*register),
            final(self)@ == old(self)@.with_registers(old(self).registers.after_r16m(*register)),
    {
        match register {
            R16Mem::BC => self.read_bc(),
            R16Mem::DE => self.read_de(),
            R16Mem::HLI => {
                let hl = self.read_hl();
                self.write_hl(hl.wrapping_add(1));
                hl
            },
            R16Mem::HLD => {
                let hl = self.read_hl();
                self.write_hl(hl.wrapping_sub(1));
                hl
            },
        }
    }

    pub fn read_from(&mut self, register: &R16Mem) -> (r: u8)
        requires
            !is_prohibited(old(self).registers.r16m(*register)),
        ensures
            r == old(self)@.read_from(*register),
            final(self)@ == old(self)@.with_registers(old(self).registers.after_r16m(*register)),
    {
        let address = self.read_r16m(register);
        self.bus.read_byte(address)
    }

    pub fn store_at(&mut self, register: &R16Mem, value: u8)
        requires
            !is_prohibited(old(self).registers.r16m(*register)),
        ensures
            final(self)@ == old(self)@.store_at(*register, value),
    {
        let address = self.read_r16m(register);
        self.write_byte(address, value);
    }
}

} // verus!
