use vstd::prelude::*;
use crate::cpu::instructions::Instruction;
use crate::cpu::instructions::prefixed::{
    Operand,
    BIT,
    RES,
    RL,
    RLC,
    RR,
    RRC,
    SET,
    SLA,
    SRA,
    SRL,
    SWAP,
    U3,
};
use crate::cpu::instructions::primary::{
    ByteTarget,
    FlagCondition,
    WordTarget,
    ADC,
    ADD,
    AND,
    CALL,
    CCF,
    CP,
    CPL,
    DAA,
    DEC,
    DI,
    EI,
    HALT,
    INC,
    JP,
    JR,
    LD,
    LDH,
    NOP,
    OR,
    POP,
    PUSH,
    RET,
    RLA,
    RLCA,
    RRA,
    RRCA,
    RST,
    SBC,
    SCF,
    STOP,
    SUB,
    XOR,
};
use crate::cpu::processor::InstructionData;
use crate::cpu::registers::{R8, R16, R16Mem, word};

verus! {

/// The register that a three-bit field of an opcode names. The code 6
/// names no register but the byte at HL.
pub open spec fn register_of(code: u8) -> R8 {
    if code == 0 {
        R8::B
    } else if code == 1 {
        R8::C
    } else if code == 2 {
        R8::D
    } else if code == 3 {
        R8::E
    } else if code == 4 {
        R8::H
    } else if code == 5 {
        R8::L
    } else {
        R8::A
    }
}

/// The byte operand that a three-bit field of an opcode names.
pub open spec fn byte_target_of(code: u8) -> ByteTarget {
    if code == 6 {
        ByteTarget::HLAddress
    } else {
        ByteTarget::Register8(register_of(code))
    }
}

/// The operand that a three-bit field of an extended opcode names.
pub open spec fn operand_of(code: u8) -> Operand {
    if code == 6 {
        Operand::HLAddress
    } else {
        Operand::Register8(register_of(code))
    }
}

/// The register pair that a two-bit field of an opcode names, below 3.
pub open spec fn pair_of(code: u8) -> R16 {
    if code == 0 {
        R16::BC
    } else if code == 1 {
        R16::DE
    } else {
        R16::HL
    }
}

/// The word operand that a two-bit field of an opcode names.
pub open spec fn word_target_of(code: u8) -> WordTarget {
    if code == 3 {
        WordTarget::SP
    } else {
        WordTarget::Register16(pair_of(code))
    }
}

/// The indirect operand that a two-bit field of an opcode names.
pub open spec fn indirect_of(code: u8) -> R16Mem {
    if code == 0 {
        R16Mem::BC
    } else if code == 1 {
        R16Mem::DE
    } else if code == 2 {
        R16Mem::HLI
    } else {
        R16Mem::HLD
    }
}

/// The condition that a two-bit field of an opcode names.
pub open spec fn condition_of(code: u8) -> FlagCondition {
    if code == 0 {
        FlagCondition::NotZero
    } else if code == 1 {
        FlagCondition::Zero
    } else if code == 2 {
        FlagCondition::NotCarry
    } else {
        FlagCondition::Carry
    }
}

/// The bit that a three-bit field of an extended opcode names.
pub open spec fn bit_of(code: u8) -> U3 {
    if code == 0 {
        U3::B0
    } else if code == 1 {
        U3::B1
    } else if code == 2 {
        U3::B2
    } else if code == 3 {
        U3::B3
    } else if code == 4 {
        U3::B4
    } else if code == 5 {
        U3::B5
    } else if code == 6 {
        U3::B6
    } else {
        U3::B7
    }
}

/// The restart whose address is eight times `code`.
pub open spec fn restart_of(code: u8) -> RST {
    if code == 0 {
        RST::V0
    } else if code == 1 {
        RST::V8
    } else if code == 2 {
        RST::V10
    } else if code == 3 {
        RST::V18
    } else if code == 4 {
        RST::V20
    } else if code == 5 {
        RST::V28
    } else if code == 6 {
        RST::V30
    } else {
        RST::V38
    }
}

/// The operation of the accumulator that a three-bit field of an opcode
/// names, on `target`.
pub open spec fn arithmetic_of(code: u8, target: ByteTarget) -> Instruction {
    if code == 0 {
        Instruction::Add(ADD::Byte(target))
    } else if code == 1 {
        Instruction::Adc(ADC(target))
    } else if code == 2 {
        Instruction::Sub(SUB(target))
    } else if code == 3 {
        Instruction::Sbc(SBC(target))
    } else if code == 4 {
        Instruction::And(AND(target))
    } else if code == 5 {
        Instruction::Xor(XOR(target))
    } else if code == 6 {
        Instruction::Or(OR(target))
    } else {
        Instruction::Cp(CP(target))
    }
}

/// The rotation or shift that a three-bit field of an extended opcode
/// names, on `operand`.
pub open spec fn rotation_of(code: u8, operand: Operand) -> Instruction {
    if code == 0 {
        Instruction::Rlc(RLC::spec_on(operand))
    } else if code == 1 {
        Instruction::Rrc(RRC::spec_on(operand))
    } else if code == 2 {
        Instruction::Rl(RL::spec_on(operand))
    } else if code == 3 {
        Instruction::Rr(RR::spec_on(operand))
    } else if code == 4 {
        Instruction::Sla(SLA::spec_on(operand))
    } else if code == 5 {
        Instruction::Sra(SRA::spec_on(operand))
    } else if code == 6 {
        Instruction::Swap(SWAP::spec_on(operand))
    } else {
        Instruction::Srl(SRL::spec_on(operand))
    }
}

/// The instruction of the extended table that `opcode` names: the two high
/// bits choose between the rotations and shifts, the test, the clearing and
/// the setting of a bit, the three bits below them the rotation or the bit,
/// and the three low bits the operand.
pub open spec fn decode_prefixed(opcode: u8) -> Instruction {
    let kind = opcode / 64;
    let y = (opcode / 8) % 8;
    let operand = operand_of(opcode % 8);
    if kind == 1 {
        Instruction::Bit(BIT::spec_on(bit_of(y), operand))
    } else if kind == 2 {
        Instruction::Res(RES::spec_on(bit_of(y), operand))
    } else if kind == 3 {
        Instruction::SetBit(SET::spec_on(bit_of(y), operand))
    } else {
        rotation_of(y, operand)
    }
}

/// The instructions with an opcode below 0x40, by the three low bits `z`
/// and the three bits `y` above them.
pub open spec fn decode_first_quarter(y: u8, z: u8, param1: u8, a16: u16) -> (Instruction, u16) {
    if z == 0 {
        if y == 0 {
            (Instruction::Nop(NOP), 1)
        } else if y == 1 {
            (Instruction::Ld(LD::StoreSP(a16)), 3)
        } else if y == 2 {
            (Instruction::Stop(STOP(param1)), 2)
        } else if y == 3 {
            (Instruction::Jr(JR::Offset(param1)), 2)
        } else {
            (Instruction::Jr(JR::ConditionalOffset(condition_of((y - 4) as u8), param1)), 2)
        }
    } else if z == 1 {
        if y % 2 == 1 {
            (Instruction::Add(ADD::Word(word_target_of(y / 2))), 1)
        } else if y == 6 {
            (Instruction::Ld(LD::LoadToSP(a16)), 3)
        } else {
            (Instruction::Ld(LD::LoadToR16(pair_of(y / 2), a16)), 3)
        }
    } else if z == 2 {
        if y % 2 == 0 {
            (Instruction::Ld(LD::StoreA(indirect_of(y / 2))), 1)
        } else {
            (Instruction::Ld(LD::LoadToA(indirect_of(y / 2))), 1)
        }
    } else if z == 3 {
        if y % 2 == 0 {
            if y == 6 {
                (Instruction::Inc(INC::SP), 1)
            } else {
                (Instruction::Inc(INC::R16(pair_of(y / 2))), 1)
            }
        } else {
            if y == 7 {
                (Instruction::Dec(DEC::SP), 1)
            } else {
                (Instruction::Dec(DEC::R16(pair_of(y / 2))), 1)
            }
        }
    } else if z == 4 {
        if y == 6 {
            (Instruction::Inc(INC::HL), 1)
        } else {
            (Instruction::Inc(INC::R8(register_of(y))), 1)
        }
    } else if z == 5 {
        if y == 6 {
            (Instruction::Dec(DEC::HL), 1)
        } else {
            (Instruction::Dec(DEC::R8(register_of(y))), 1)
        }
    } else if z == 6 {
        if y == 6 {
            (Instruction::Ld(LD::StoreHLConstant(param1)), 2)
        } else {
            (Instruction::Ld(LD::LoadToR8(register_of(y), ByteTarget::Constant(param1))), 2)
        }
    } else {
        if y == 0 {
            (Instruction::Rlca(RLCA), 1)
        } else if y == 1 {
            (Instruction::Rrca(RRCA), 1)
        } else if y == 2 {
            (Instruction::Rla(RLA), 1)
        } else if y == 3 {
            (Instruction::Rra(RRA), 1)
        } else if y == 4 {
            (Instruction::Daa(DAA), 1)
        } else if y == 5 {
            (Instruction::Cpl(CPL), 1)
        } else if y == 6 {
            (Instruction::Scf(SCF), 1)
        } else {
            (Instruction::Ccf(CCF), 1)
        }
    }
}

/// The instructions with an opcode from 0x40 to 0x7F: loads from the
/// operand `z` into the operand `y`, and HALT where both would be the byte
/// at HL.
pub open spec fn decode_second_quarter(y: u8, z: u8) -> (Instruction, u16) {
    if y == 6 && z == 6 {
        (Instruction::Halt(HALT), 1)
    } else if y == 6 {
        (Instruction::Ld(LD::StoreHLRegister(register_of(z))), 1)
    } else {
        (Instruction::Ld(LD::LoadToR8(register_of(y), byte_target_of(z))), 1)
    }
}

/// The instructions with an opcode from 0xC0 on.
pub open spec fn decode_fourth_quarter(
    opcode: u8,
    y: u8,
    z: u8,
    param1: u8,
    a16: u16,
) -> (Instruction, u16) {
    if z == 0 {
        if y < 4 {
            (Instruction::Ret(RET::Conditional(condition_of(y))), 1)
        } else if y == 4 {
            (Instruction::Ldh(LDH::StoreConstant(param1)), 2)
        } else if y == 5 {
            (Instruction::Add(ADD::StackPointer(param1)), 2)
        } else if y == 6 {
            (Instruction::Ldh(LDH::LoadConstant(param1)), 2)
        } else {
            (Instruction::Ld(LD::LoadSPToHL(param1)), 2)
        }
    } else if z == 1 {
        if y == 6 {
            (Instruction::Pop(POP::AF), 1)
        } else if y % 2 == 0 {
            (Instruction::Pop(POP::R16(pair_of(y / 2))), 1)
        } else if y == 1 {
            (Instruction::Ret(RET::RET), 1)
        } else if y == 3 {
            (Instruction::Ret(RET::EI), 1)
        } else if y == 5 {
            (Instruction::Jp(JP::HLAddress), 1)
        } else {
            (Instruction::Ld(LD::LoadHLToSP), 1)
        }
    } else if z == 2 {
        if y < 4 {
            (Instruction::Jp(JP::ConditionalConstant(condition_of(y), a16)), 3)
        } else if y == 4 {
            (Instruction::Ldh(LDH::StoreOffset), 1)
        } else if y == 5 {
            (Instruction::Ld(LD::StoreADirectly(a16)), 3)
        } else if y == 6 {
            (Instruction::Ldh(LDH::LoadOffset), 1)
        } else {
            (Instruction::Ld(LD::LoadToADirectly(a16)), 3)
        }
    } else if z == 3 {
        if y == 0 {
            (Instruction::Jp(JP::Constant(a16)), 3)
        } else if y == 1 {
            (decode_prefixed(param1), 2)
        } else if y == 6 {
            (Instruction::Di(DI), 1)
        } else if y == 7 {
            (Instruction::Ei(EI), 1)
        } else {
            (Instruction::Invalid(opcode), 1)
        }
    } else if z == 4 {
        if y < 4 {
            (Instruction::Call(CALL::ConditionalConstant(condition_of(y), a16)), 3)
        } else {
            (Instruction::Invalid(opcode), 1)
        }
    } else if z == 5 {
        if y == 6 {
            (Instruction::Push(PUSH::AF), 1)
        } else if y % 2 == 0 {
            (Instruction::Push(PUSH::R16(pair_of(y / 2))), 1)
        } else if y == 1 {
            (Instruction::Call(CALL::Constant(a16)), 3)
        } else {
            (Instruction::Invalid(opcode), 1)
        }
    } else if z == 6 {
        (arithmetic_of(y, ByteTarget::Constant(param1)), 2)
    } else {
        (Instruction::Rst(restart_of(y)), 1)
    }
}

/// The instruction that three fetched bytes stand for, and its length in
/// bytes. The opcode is read as three fields: its two high bits choose the
/// quarter of the table, `y` is made of the three bits below them and `z`
/// of the three low bits. A 16-bit operand has its low byte first.
pub open spec fn decode(data: InstructionData) -> (Instruction, u16) {
    let quarter = data.opcode / 64;
    let y = (data.opcode / 8) % 8;
    let z = data.opcode % 8;
    let a16 = word(data.param2, data.param1);
    if quarter == 0 {
        decode_first_quarter(y, z, data.param1, a16)
    } else if quarter == 1 {
        decode_second_quarter(y, z)
    } else if quarter == 2 {
        (arithmetic_of(y, byte_target_of(z)), 1)
    } else {
        decode_fourth_quarter(data.opcode, y, z, data.param1, a16)
    }
}

/// Every instruction is one, two or three bytes long.
pub proof fn lemma_decode_length(data: InstructionData)
    ensures
        1 <= decode(data).1 <= 3,
{
}

fn get_register(code: u8) -> (r: R8)
    ensures
        r == register_of(code),
{
    match code {
        0 => R8::B,
        1 => R8::C,
        2 => R8::D,
        3 => R8::E,
        4 => R8::H,
        5 => R8::L,
        _ => R8::A,
    }
}

fn get_operand(code: u8) -> (r: Operand)
    ensures
        r == operand_of(code),
{
    if code == 6 {
        Operand::HLAddress
    } else {
        Operand::Register8(get_register(code))
    }
}

fn get_bit(code: u8) -> (r: U3)
    ensures
        r == bit_of(code),
{
    match code {
        0 => U3::B0,
        1 => U3::B1,
        2 => U3::B2,
        3 => U3::B3,
        4 => U3::B4,
        5 => U3::B5,
        6 => U3::B6,
        _ => U3::B7,
    }
}

fn get_rotation(code: u8, operand: Operand) -> (r: Instruction)
    ensures
        r == rotation_of(code, operand),
{
    match code {
        0 => Instruction::Rlc(RLC::on(operand)),
        1 => Instruction::Rrc(RRC::on(operand)),
        2 => Instruction::Rl(RL::on(operand)),
        3 => Instruction::Rr(RR::on(operand)),
        4 => Instruction::Sla(SLA::on(operand)),
        5 => Instruction::Sra(SRA::on(operand)),
        6 => Instruction::Swap(SWAP::on(operand)),
        _ => Instruction::Srl(SRL::on(operand)),
    }
}

/// Maps an opcode of the extended table to its instruction.
pub fn get_prefixed_instruction(opcode: u8) -> (r: Instruction)
    ensures
        r == decode_prefixed(opcode),
{
    let operand = get_operand(opcode % 8);
    let y = (opcode / 8) % 8;
    match opcode / 64 {
        0 => get_rotation(y, operand),
        1 => Instruction::Bit(BIT::on(get_bit(y), operand)),
        2 => Instruction::Res(RES::on(get_bit(y), operand)),
        _ => Instruction::SetBit(SET::on(get_bit(y), operand)),
    }
}

/// The 16-bit operand of an instruction: the first byte behind the opcode
/// is the low one.
pub fn get_a16(param1: u8, param2: u8) -> (r: u16)
    ensures
        r == word(param2, param1),
{
    (param2 as u16) * 256 + param1 as u16
}

/// Opcodes 0x00 to 0x3F: loads of constants, 16-bit arithmetic, increments, relative jumps and the operations on the accumulator.
fn get_first_quarter(opcode: u8, param1: u8, param2: u8) -> (r: (Instruction, u16))
    requires
        opcode / 64 == 0,
    ensures
        r == decode(InstructionData { opcode, param1, param2 }),
{
    let a16 = get_a16(param1, param2);
    match opcode {
        0x00 => (Instruction::Nop(NOP), 1),
        0x01 => (Instruction::Ld(LD::LoadToR16(R16::BC, a16)), 3),
        0x02 => (Instruction::Ld(LD::StoreA(R16Mem::BC)), 1),
        0x03 => (Instruction::Inc(INC::R16(R16::BC)), 1),
        0x04 => (Instruction::Inc(INC::R8(R8::B)), 1),
        0x05 => (Instruction::Dec(DEC::R8(R8::B)), 1),
        0x06 => (Instruction::Ld(LD::LoadToR8(R8::B, ByteTarget::Constant(param1))), 2),
        0x07 => (Instruction::Rlca(RLCA), 1),
        0x08 => (Instruction::Ld(LD::StoreSP(a16)), 3),
        0x09 => (Instruction::Add(ADD::Word(WordTarget::Register16(R16::BC))), 1),
        0x0A => (Instruction::Ld(LD::LoadToA(R16Mem::BC)), 1),
        0x0B => (Instruction::Dec(DEC::R16(R16::BC)), 1),
        0x0C => (Instruction::Inc(INC::R8(R8::C)), 1),
        0x0D => (Instruction::Dec(DEC::R8(R8::C)), 1),
        0x0E => (Instruction::Ld(LD::LoadToR8(R8::C, ByteTarget::Constant(param1))), 2),
        0x0F => (Instruction::Rrca(RRCA), 1),
        0x10 => (Instruction::Stop(STOP(param1)), 2),
        0x11 => (Instruction::Ld(LD::LoadToR16(R16::DE, a16)), 3),
        0x12 => (Instruction::Ld(LD::StoreA(R16Mem::DE)), 1),
        0x13 => (Instruction::Inc(INC::R16(R16::DE)), 1),
        0x14 => (Instruction::Inc(INC::R8(R8::D)), 1),
        0x15 => (Instruction::Dec(DEC::R8(R8::D)), 1),
        0x16 => (Instruction::Ld(LD::LoadToR8(R8::D, ByteTarget::Constant(param1))), 2),
        0x17 => (Instruction::Rla(RLA), 1),
        0x18 => (Instruction::Jr(JR::Offset(param1)), 2),
        0x19 => (Instruction::Add(ADD::Word(WordTarget::Register16(R16::DE))), 1),
        0x1A => (Instruction::Ld(LD::LoadToA(R16Mem::DE)), 1),
        0x1B => (Instruction::Dec(DEC::R16(R16::DE)), 1),
        0x1C => (Instruction::Inc(INC::R8(R8::E)), 1),
        0x1D => (Instruction::Dec(DEC::R8(R8::E)), 1),
        0x1E => (Instruction::Ld(LD::LoadToR8(R8::E, ByteTarget::Constant(param1))), 2),
        0x1F => (Instruction::Rra(RRA), 1),
        0x20 => (Instruction::Jr(JR::ConditionalOffset(FlagCondition::NotZero, param1)), 2),
        0x21 => (Instruction::Ld(LD::LoadToR16(R16::HL, a16)), 3),
        0x22 => (Instruction::Ld(LD::StoreA(R16Mem::HLI)), 1),
        0x23 => (Instruction::Inc(INC::R16(R16::HL)), 1),
        0x24 => (Instruction::Inc(INC::R8(R8::H)), 1),
        0x25 => (Instruction::Dec(DEC::R8(R8::H)), 1),
        0x26 => (Instruction::Ld(LD::LoadToR8(R8::H, ByteTarget::Constant(param1))), 2),
        0x27 => (Instruction::Daa(DAA), 1),
        0x28 => (Instruction::Jr(JR::ConditionalOffset(FlagCondition::Zero, param1)), 2),
        0x29 => (Instruction::Add(ADD::Word(WordTarget::Register16(R16::HL))), 1),
        0x2A => (Instruction::Ld(LD::LoadToA(R16Mem::HLI)), 1),
        0x2B => (Instruction::Dec(DEC::R16(R16::HL)), 1),
        0x2C => (Instruction::Inc(INC::R8(R8::L)), 1),
        0x2D => (Instruction::Dec(DEC::R8(R8::L)), 1),
        0x2E => (Instruction::Ld(LD::LoadToR8(R8::L, ByteTarget::Constant(param1))), 2),
        0x2F => (Instruction::Cpl(CPL), 1),
        0x30 => (Instruction::Jr(JR::ConditionalOffset(FlagCondition::NotCarry, param1)), 2),
        0x31 => (Instruction::Ld(LD::LoadToSP(a16)), 3),
        0x32 => (Instruction::Ld(LD::StoreA(R16Mem::HLD)), 1),
        0x33 => (Instruction::Inc(INC::SP), 1),
        0x34 => (Instruction::Inc(INC::HL), 1),
        0x35 => (Instruction::Dec(DEC::HL), 1),
        0x36 => (Instruction::Ld(LD::StoreHLConstant(param1)), 2),
        0x37 => (Instruction::Scf(SCF), 1),
        0x38 => (Instruction::Jr(JR::ConditionalOffset(FlagCondition::Carry, param1)), 2),
        0x39 => (Instruction::Add(ADD::Word(WordTarget::SP)), 1),
        0x3A => (Instruction::Ld(LD::LoadToA(R16Mem::HLD)), 1),
        0x3B => (Instruction::Dec(DEC::SP), 1),
        0x3C => (Instruction::Inc(INC::R8(R8::A)), 1),
        0x3D => (Instruction::Dec(DEC::R8(R8::A)), 1),
        0x3E => (Instruction::Ld(LD::LoadToR8(R8::A, ByteTarget::Constant(param1))), 2),
        _ => (Instruction::Ccf(CCF), 1),
    }
}

/// Opcodes 0x40 to 0x7F: loads between registers and through HL, and HALT.
fn get_second_quarter(opcode: u8, param1: u8, param2: u8) -> (r: (Instruction, u16))
    requires
        opcode / 64 == 1,
    ensures
        r == decode(InstructionData { opcode, param1, param2 }),
{
    let a16 = get_a16(param1, param2);
    match opcode {
        0x40 => (Instruction::Ld(LD::LoadToR8(R8::B, ByteTarget::Register8(R8::B))), 1),
        0x41 => (Instruction::Ld(LD::LoadToR8(R8::B, ByteTarget::Register8(R8::C))), 1),
        0x42 => (Instruction::Ld(LD::LoadToR8(R8::B, ByteTarget::Register8(R8::D))), 1),
        0x43 => (Instruction::Ld(LD::LoadToR8(R8::B, ByteTarget::Register8(R8::E))), 1),
        0x44 => (Instruction::Ld(LD::LoadToR8(R8::B, ByteTarget::Register8(R8::H))), 1),
        0x45 => (Instruction::Ld(LD::LoadToR8(R8::B, ByteTarget::Register8(R8::L))), 1),
        0x46 => (Instruction::Ld(LD::LoadToR8(R8::B, ByteTarget::HLAddress)), 1),
        0x47 => (Instruction::Ld(LD::LoadToR8(R8::B, ByteTarget::Register8(R8::A))), 1),
        0x48 => (Instruction::Ld(LD::LoadToR8(R8::C, ByteTarget::Register8(R8::B))), 1),
        0x49 => (Instruction::Ld(LD::LoadToR8(R8::C, ByteTarget::Register8(R8::C))), 1),
        0x4A => (Instruction::Ld(LD::LoadToR8(R8::C, ByteTarget::Register8(R8::D))), 1),
        0x4B => (Instruction::Ld(LD::LoadToR8(R8::C, ByteTarget::Register8(R8::E))), 1),
        0x4C => (Instruction::Ld(LD::LoadToR8(R8::C, ByteTarget::Register8(R8::H))), 1),
        0x4D => (Instruction::Ld(LD::LoadToR8(R8::C, ByteTarget::Register8(R8::L))), 1),
        0x4E => (Instruction::Ld(LD::LoadToR8(R8::C, ByteTarget::HLAddress)), 1),
        0x4F => (Instruction::Ld(LD::LoadToR8(R8::C, ByteTarget::Register8(R8::A))), 1),
        0x50 => (Instruction::Ld(LD::LoadToR8(R8::D, ByteTarget::Register8(R8::B))), 1),
        0x51 => (Instruction::Ld(LD::LoadToR8(R8::D, ByteTarget::Register8(R8::C))), 1),
        0x52 => (Instruction::Ld(LD::LoadToR8(R8::D, ByteTarget::Register8(R8::D))), 1),
        0x53 => (Instruction::Ld(LD::LoadToR8(R8::D, ByteTarget::Register8(R8::E))), 1),
        0x54 => (Instruction::Ld(LD::LoadToR8(R8::D, ByteTarget::Register8(R8::H))), 1),
        0x55 => (Instruction::Ld(LD::LoadToR8(R8::D, ByteTarget::Register8(R8::L))), 1),
        0x56 => (Instruction::Ld(LD::LoadToR8(R8::D, ByteTarget::HLAddress)), 1),
        0x57 => (Instruction::Ld(LD::LoadToR8(R8::D, ByteTarget::Register8(R8::A))), 1),
        0x58 => (Instruction::Ld(LD::LoadToR8(R8::E, ByteTarget::Register8(R8::B))), 1),
        0x59 => (Instruction::Ld(LD::LoadToR8(R8::E, ByteTarget::Register8(R8::C))), 1),
        0x5A => (Instruction::Ld(LD::LoadToR8(R8::E, ByteTarget::Register8(R8::D))), 1),
        0x5B => (Instruction::Ld(LD::LoadToR8(R8::E, ByteTarget::Register8(R8::E))), 1),
        0x5C => (Instruction::Ld(LD::LoadToR8(R8::E, ByteTarget::Register8(R8::H))), 1),
        0x5D => (Instruction::Ld(LD::LoadToR8(R8::E, ByteTarget::Register8(R8::L))), 1),
        0x5E => (Instruction::Ld(LD::LoadToR8(R8::E, ByteTarget::HLAddress)), 1),
        0x5F => (Instruction::Ld(LD::LoadToR8(R8::E, ByteTarget::Register8(R8::A))), 1),
        0x60 => (Instruction::Ld(LD::LoadToR8(R8::H, ByteTarget::Register8(R8::B))), 1),
        0x61 => (Instruction::Ld(LD::LoadToR8(R8::H, ByteTarget::Register8(R8::C))), 1),
        0x62 => (Instruction::Ld(LD::LoadToR8(R8::H, ByteTarget::Register8(R8::D))), 1),
        0x63 => (Instruction::Ld(LD::LoadToR8(R8::H, ByteTarget::Register8(R8::E))), 1),
        0x64 => (Instruction::Ld(LD::LoadToR8(R8::H, ByteTarget::Register8(R8::H))), 1),
        0x65 => (Instruction::Ld(LD::LoadToR8(R8::H, ByteTarget::Register8(R8::L))), 1),
        0x66 => (Instruction::Ld(LD::LoadToR8(R8::H, ByteTarget::HLAddress)), 1),
        0x67 => (Instruction::Ld(LD::LoadToR8(R8::H, ByteTarget::Register8(R8::A))), 1),
        0x68 => (Instruction::Ld(LD::LoadToR8(R8::L, ByteTarget::Register8(R8::B))), 1),
        0x69 => (Instruction::Ld(LD::LoadToR8(R8::L, ByteTarget::Register8(R8::C))), 1),
        0x6A => (Instruction::Ld(LD::LoadToR8(R8::L, ByteTarget::Register8(R8::D))), 1),
        0x6B => (Instruction::Ld(LD::LoadToR8(R8::L, ByteTarget::Register8(R8::E))), 1),
        0x6C => (Instruction::Ld(LD::LoadToR8(R8::L, ByteTarget::Register8(R8::H))), 1),
        0x6D => (Instruction::Ld(LD::LoadToR8(R8::L, ByteTarget::Register8(R8::L))), 1),
        0x6E => (Instruction::Ld(LD::LoadToR8(R8::L, ByteTarget::HLAddress)), 1),
        0x6F => (Instruction::Ld(LD::LoadToR8(R8::L, ByteTarget::Register8(R8::A))), 1),
        0x70 => (Instruction::Ld(LD::StoreHLRegister(R8::B)), 1),
        0x71 => (Instruction::Ld(LD::StoreHLRegister(R8::C)), 1),
        0x72 => (Instruction::Ld(LD::StoreHLRegister(R8::D)), 1),
        0x73 => (Instruction::Ld(LD::StoreHLRegister(R8::E)), 1),
        0x74 => (Instruction::Ld(LD::StoreHLRegister(R8::H)), 1),
        0x75 => (Instruction::Ld(LD::StoreHLRegister(R8::L)), 1),
        0x76 => (Instruction::Halt(HALT), 1),
        0x77 => (Instruction::Ld(LD::StoreHLRegister(R8::A)), 1),
        0x78 => (Instruction::Ld(LD::LoadToR8(R8::A, ByteTarget::Register8(R8::B))), 1),
        0x79 => (Instruction::Ld(LD::LoadToR8(R8::A, ByteTarget::Register8(R8::C))), 1),
        0x7A => (Instruction::Ld(LD::LoadToR8(R8::A, ByteTarget::Register8(R8::D))), 1),
        0x7B => (Instruction::Ld(LD::LoadToR8(R8::A, ByteTarget::Register8(R8::E))), 1),
        0x7C => (Instruction::Ld(LD::LoadToR8(R8::A, ByteTarget::Register8(R8::H))), 1),
        0x7D => (Instruction::Ld(LD::LoadToR8(R8::A, ByteTarget::Register8(R8::L))), 1),
        0x7E => (Instruction::Ld(LD::LoadToR8(R8::A, ByteTarget::HLAddress)), 1),
        _ => (Instruction::Ld(LD::LoadToR8(R8::A, ByteTarget::Register8(R8::A))), 1),
    }
}

/// Opcodes 0x80 to 0xBF: arithmetic of the accumulator with a register or the byte at HL.
fn get_third_quarter(opcode: u8, param1: u8, param2: u8) -> (r: (Instruction, u16))
    requires
        opcode / 64 == 2,
    ensures
        r == decode(InstructionData { opcode, param1, param2 }),
{
    let a16 = get_a16(param1, param2);
    match opcode {
        0x80 => (Instruction::Add(ADD::Byte(ByteTarget::Register8(R8::B))), 1),
        0x81 => (Instruction::Add(ADD::Byte(ByteTarget::Register8(R8::C))), 1),
        0x82 => (Instruction::Add(ADD::Byte(ByteTarget::Register8(R8::D))), 1),
        0x83 => (Instruction::Add(ADD::Byte(ByteTarget::Register8(R8::E))), 1),
        0x84 => (Instruction::Add(ADD::Byte(ByteTarget::Register8(R8::H))), 1),
        0x85 => (Instruction::Add(ADD::Byte(ByteTarget::Register8(R8::L))), 1),
        0x86 => (Instruction::Add(ADD::Byte(ByteTarget::HLAddress)), 1),
        0x87 => (Instruction::Add(ADD::Byte(ByteTarget::Register8(R8::A))), 1),
        0x88 => (Instruction::Adc(ADC(ByteTarget::Register8(R8::B))), 1),
        0x89 => (Instruction::Adc(ADC(ByteTarget::Register8(R8::C))), 1),
        0x8A => (Instruction::Adc(ADC(ByteTarget::Register8(R8::D))), 1),
        0x8B => (Instruction::Adc(ADC(ByteTarget::Register8(R8::E))), 1),
        0x8C => (Instruction::Adc(ADC(ByteTarget::Register8(R8::H))), 1),
        0x8D => (Instruction::Adc(ADC(ByteTarget::Register8(R8::L))), 1),
        0x8E => (Instruction::Adc(ADC(ByteTarget::HLAddress)), 1),
        0x8F => (Instruction::Adc(ADC(ByteTarget::Register8(R8::A))), 1),
        0x90 => (Instruction::Sub(SUB(ByteTarget::Register8(R8::B))), 1),
        0x91 => (Instruction::Sub(SUB(ByteTarget::Register8(R8::C))), 1),
        0x92 => (Instruction::Sub(SUB(ByteTarget::Register8(R8::D))), 1),
        0x93 => (Instruction::Sub(SUB(ByteTarget::Register8(R8::E))), 1),
        0x94 => (Instruction::Sub(SUB(ByteTarget::Register8(R8::H))), 1),
        0x95 => (Instruction::Sub(SUB(ByteTarget::Register8(R8::L))), 1),
        0x96 => (Instruction::Sub(SUB(ByteTarget::HLAddress)), 1),
        0x97 => (Instruction::Sub(SUB(ByteTarget::Register8(R8::A))), 1),
        0x98 => (Instruction::Sbc(SBC(ByteTarget::Register8(R8::B))), 1),
        0x99 => (Instruction::Sbc(SBC(ByteTarget::Register8(R8::C))), 1),
        0x9A => (Instruction::Sbc(SBC(ByteTarget::Register8(R8::D))), 1),
        0x9B => (Instruction::Sbc(SBC(ByteTarget::Register8(R8::E))), 1),
        0x9C => (Instruction::Sbc(SBC(ByteTarget::Register8(R8::H))), 1),
        0x9D => (Instruction::Sbc(SBC(ByteTarget::Register8(R8::L))), 1),
        0x9E => (Instruction::Sbc(SBC(ByteTarget::HLAddress)), 1),
        0x9F => (Instruction::Sbc(SBC(ByteTarget::Register8(R8::A))), 1),
        0xA0 => (Instruction::And(AND(ByteTarget::Register8(R8::B))), 1),
        0xA1 => (Instruction::And(AND(ByteTarget::Register8(R8::C))), 1),
        0xA2 => (Instruction::And(AND(ByteTarget::Register8(R8::D))), 1),
        0xA3 => (Instruction::And(AND(ByteTarget::Register8(R8::E))), 1),
        0xA4 => (Instruction::And(AND(ByteTarget::Register8(R8::H))), 1),
        0xA5 => (Instruction::And(AND(ByteTarget::Register8(R8::L))), 1),
        0xA6 => (Instruction::And(AND(ByteTarget::HLAddress)), 1),
        0xA7 => (Instruction::And(AND(ByteTarget::Register8(R8::A))), 1),
        0xA8 => (Instruction::Xor(XOR(ByteTarget::Register8(R8::B))), 1),
        0xA9 => (Instruction::Xor(XOR(ByteTarget::Register8(R8::C))), 1),
        0xAA => (Instruction::Xor(XOR(ByteTarget::Register8(R8::D))), 1),
        0xAB => (Instruction::Xor(XOR(ByteTarget::Register8(R8::E))), 1),
        0xAC => (Instruction::Xor(XOR(ByteTarget::Register8(R8::H))), 1),
        0xAD => (Instruction::Xor(XOR(ByteTarget::Register8(R8::L))), 1),
        0xAE => (Instruction::Xor(XOR(ByteTarget::HLAddress)), 1),
        0xAF => (Instruction::Xor(XOR(ByteTarget::Register8(R8::A))), 1),
        0xB0 => (Instruction::Or(OR(ByteTarget::Register8(R8::B))), 1),
        0xB1 => (Instruction::Or(OR(ByteTarget::Register8(R8::C))), 1),
        0xB2 => (Instruction::Or(OR(ByteTarget::Register8(R8::D))), 1),
        0xB3 => (Instruction::Or(OR(ByteTarget::Register8(R8::E))), 1),
        0xB4 => (Instruction::Or(OR(ByteTarget::Register8(R8::H))), 1),
        0xB5 => (Instruction::Or(OR(ByteTarget::Register8(R8::L))), 1),
        0xB6 => (Instruction::Or(OR(ByteTarget::HLAddress)), 1),
        0xB7 => (Instruction::Or(OR(ByteTarget::Register8(R8::A))), 1),
        0xB8 => (Instruction::Cp(CP(ByteTarget::Register8(R8::B))), 1),
        0xB9 => (Instruction::Cp(CP(ByteTarget::Register8(R8::C))), 1),
        0xBA => (Instruction::Cp(CP(ByteTarget::Register8(R8::D))), 1),
        0xBB => (Instruction::Cp(CP(ByteTarget::Register8(R8::E))), 1),
        0xBC => (Instruction::Cp(CP(ByteTarget::Register8(R8::H))), 1),
        0xBD => (Instruction::Cp(CP(ByteTarget::Register8(R8::L))), 1),
        0xBE => (Instruction::Cp(CP(ByteTarget::HLAddress)), 1),
        _ => (Instruction::Cp(CP(ByteTarget::Register8(R8::A))), 1),
    }
}

/// Opcodes 0xC0 to 0xFF: returns, jumps, calls, the stack, arithmetic with a constant, and the loads of the last page.
fn get_fourth_quarter(opcode: u8, param1: u8, param2: u8) -> (r: (Instruction, u16))
    requires
        opcode / 64 == 3,
    ensures
        r == decode(InstructionData { opcode, param1, param2 }),
{
    let a16 = get_a16(param1, param2);
    match opcode {
        0xC0 => (Instruction::Ret(RET::Conditional(FlagCondition::NotZero)), 1),
        0xC1 => (Instruction::Pop(POP::R16(R16::BC)), 1),
        0xC2 => (Instruction::Jp(JP::ConditionalConstant(FlagCondition::NotZero, a16)), 3),
        0xC3 => (Instruction::Jp(JP::Constant(a16)), 3),
        0xC4 => (Instruction::Call(CALL::ConditionalConstant(FlagCondition::NotZero, a16)), 3),
        0xC5 => (Instruction::Push(PUSH::R16(R16::BC)), 1),
        0xC6 => (Instruction::Add(ADD::Byte(ByteTarget::Constant(param1))), 2),
        0xC7 => (Instruction::Rst(RST::V0), 1),
        0xC8 => (Instruction::Ret(RET::Conditional(FlagCondition::Zero)), 1),
        0xC9 => (Instruction::Ret(RET::RET), 1),
        0xCA => (Instruction::Jp(JP::ConditionalConstant(FlagCondition::Zero, a16)), 3),
        0xCB => (get_prefixed_instruction(param1), 2),
        0xCC => (Instruction::Call(CALL::ConditionalConstant(FlagCondition::Zero, a16)), 3),
        0xCD => (Instruction::Call(CALL::Constant(a16)), 3),
        0xCE => (Instruction::Adc(ADC(ByteTarget::Constant(param1))), 2),
        0xCF => (Instruction::Rst(RST::V8), 1),
        0xD0 => (Instruction::Ret(RET::Conditional(FlagCondition::NotCarry)), 1),
        0xD1 => (Instruction::Pop(POP::R16(R16::DE)), 1),
        0xD2 => (Instruction::Jp(JP::ConditionalConstant(FlagCondition::NotCarry, a16)), 3),
        0xD3 => (Instruction::Invalid(opcode), 1),
        0xD4 => (Instruction::Call(CALL::ConditionalConstant(FlagCondition::NotCarry, a16)), 3),
        0xD5 => (Instruction::Push(PUSH::R16(R16::DE)), 1),
        0xD6 => (Instruction::Sub(SUB(ByteTarget::Constant(param1))), 2),
        0xD7 => (Instruction::Rst(RST::V10), 1),
        0xD8 => (Instruction::Ret(RET::Conditional(FlagCondition::Carry)), 1),
        0xD9 => (Instruction::Ret(RET::EI), 1),
        0xDA => (Instruction::Jp(JP::ConditionalConstant(FlagCondition::Carry, a16)), 3),
        0xDB => (Instruction::Invalid(opcode), 1),
        0xDC => (Instruction::Call(CALL::ConditionalConstant(FlagCondition::Carry, a16)), 3),
        0xDD => (Instruction::Invalid(opcode), 1),
        0xDE => (Instruction::Sbc(SBC(ByteTarget::Constant(param1))), 2),
        0xDF => (Instruction::Rst(RST::V18), 1),
        0xE0 => (Instruction::Ldh(LDH::StoreConstant(param1)), 2),
        0xE1 => (Instruction::Pop(POP::R16(R16::HL)), 1),
        0xE2 => (Instruction::Ldh(LDH::StoreOffset), 1),
        0xE3 => (Instruction::Invalid(opcode), 1),
        0xE4 => (Instruction::Invalid(opcode), 1),
        0xE5 => (Instruction::Push(PUSH::R16(R16::HL)), 1),
        0xE6 => (Instruction::And(AND(ByteTarget::Constant(param1))), 2),
        0xE7 => (Instruction::Rst(RST::V20), 1),
        0xE8 => (Instruction::Add(ADD::StackPointer(param1)), 2),
        0xE9 => (Instruction::Jp(JP::HLAddress), 1),
        0xEA => (Instruction::Ld(LD::StoreADirectly(a16)), 3),
        0xEB => (Instruction::Invalid(opcode), 1),
        0xEC => (Instruction::Invalid(opcode), 1),
        0xED => (Instruction::Invalid(opcode), 1),
        0xEE => (Instruction::Xor(XOR(ByteTarget::Constant(param1))), 2),
        0xEF => (Instruction::Rst(RST::V28), 1),
        0xF0 => (Instruction::Ldh(LDH::LoadConstant(param1)), 2),
        0xF1 => (Instruction::Pop(POP::AF), 1),
        0xF2 => (Instruction::Ldh(LDH::LoadOffset), 1),
        0xF3 => (Instruction::Di(DI), 1),
        0xF4 => (Instruction::Invalid(opcode), 1),
        0xF5 => (Instruction::Push(PUSH::AF), 1),
        0xF6 => (Instruction::Or(OR(ByteTarget::Constant(param1))), 2),
        0xF7 => (Instruction::Rst(RST::V30), 1),
        0xF8 => (Instruction::Ld(LD::LoadSPToHL(param1)), 2),
        0xF9 => (Instruction::Ld(LD::LoadHLToSP), 1),
        0xFA => (Instruction::Ld(LD::LoadToADirectly(a16)), 3),
        0xFB => (Instruction::Ei(EI), 1),
        0xFC => (Instruction::Invalid(opcode), 1),
        0xFD => (Instruction::Invalid(opcode), 1),
        0xFE => (Instruction::Cp(CP(ByteTarget::Constant(param1))), 2),
        _ => (Instruction::Rst(RST::V38), 1),
    }
}

/// Maps the opcode to an instruction to execute and returns the instruction
/// with the number of bytes that it takes.
pub fn get_instruction(data: &InstructionData) -> (r: (Instruction, u16))
    ensures
        r == decode(*data),
        1 <= r.1 <= 3,
{
    let InstructionData { opcode, param1, param2 } = *data;
    match opcode / 64 {
        0 => get_first_quarter(opcode, param1, param2),
        1 => get_second_quarter(opcode, param1, param2),
        2 => get_third_quarter(opcode, param1, param2),
        _ => get_fourth_quarter(opcode, param1, param2),
    }
}

} // verus!
