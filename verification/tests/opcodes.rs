use gameboy_core::cpu::instructions::prefixed::{BIT, RES, RLC, RR, SET, SRL, SWAP, U3};
use gameboy_core::cpu::instructions::primary::{
    ByteTarget, FlagCondition, WordTarget, ADD, CALL, CP, DEC, HALT, INC, JP, JR, LD, LDH, NOP,
    POP, PUSH, RET, RST, STOP, XOR,
};
use gameboy_core::cpu::instructions::Instruction;
use gameboy_core::cpu::opcodes::{get_a16, get_instruction, get_prefixed_instruction};
use gameboy_core::cpu::processor::InstructionData;
use gameboy_core::cpu::registers::{R16Mem, R16, R8};

fn decode(opcode: u8, param1: u8, param2: u8) -> (Instruction, u16) {
    get_instruction(&InstructionData { opcode, param1, param2 })
}

#[test]
fn sixteen_bit_operands_have_the_low_byte_first() {
    assert_eq!(get_a16(0x34, 0x12), 0x1234);
    assert_eq!(decode(0xC3, 0x50, 0x01), (Instruction::Jp(JP::Constant(0x0150)), 3));
    assert_eq!(decode(0x21, 0xCD, 0xAB), (Instruction::Ld(LD::LoadToR16(R16::HL, 0xABCD)), 3));
    assert_eq!(decode(0x31, 0xFE, 0xFF), (Instruction::Ld(LD::LoadToSP(0xFFFE)), 3));
    assert_eq!(decode(0x08, 0x00, 0xC0), (Instruction::Ld(LD::StoreSP(0xC000)), 3));
    assert_eq!(decode(0xEA, 0x46, 0xFF), (Instruction::Ld(LD::StoreADirectly(0xFF46)), 3));
    assert_eq!(decode(0xFA, 0x00, 0x80), (Instruction::Ld(LD::LoadToADirectly(0x8000)), 3));
    assert_eq!(
        decode(0xCC, 0x00, 0x40),
        (Instruction::Call(CALL::ConditionalConstant(FlagCondition::Zero, 0x4000)), 3)
    );
}

#[test]
fn decodes_the_first_quarter() {
    assert_eq!(decode(0x00, 0, 0), (Instruction::Nop(NOP), 1));
    assert_eq!(decode(0x10, 7, 0), (Instruction::Stop(STOP(7)), 2));
    assert_eq!(decode(0x18, 0xFE, 0), (Instruction::Jr(JR::Offset(0xFE)), 2));
    assert_eq!(
        decode(0x20, 0x05, 0),
        (Instruction::Jr(JR::ConditionalOffset(FlagCondition::NotZero, 0x05)), 2)
    );
    assert_eq!(
        decode(0x38, 0x05, 0),
        (Instruction::Jr(JR::ConditionalOffset(FlagCondition::Carry, 0x05)), 2)
    );
    assert_eq!(decode(0x06, 0x42, 0), (Instruction::Ld(LD::LoadToR8(R8::B, ByteTarget::Constant(0x42))), 2));
    assert_eq!(decode(0x36, 0x42, 0), (Instruction::Ld(LD::StoreHLConstant(0x42)), 2));
    assert_eq!(decode(0x22, 0, 0), (Instruction::Ld(LD::StoreA(R16Mem::HLI)), 1));
    assert_eq!(decode(0x3A, 0, 0), (Instruction::Ld(LD::LoadToA(R16Mem::HLD)), 1));
    assert_eq!(decode(0x39, 0, 0), (Instruction::Add(ADD::Word(WordTarget::SP)), 1));
    assert_eq!(decode(0x19, 0, 0), (Instruction::Add(ADD::Word(WordTarget::Register16(R16::DE))), 1));
    assert_eq!(decode(0x34, 0, 0), (Instruction::Inc(INC::HL), 1));
    assert_eq!(decode(0x3D, 0, 0), (Instruction::Dec(DEC::R8(R8::A)), 1));
    assert_eq!(decode(0x33, 0, 0), (Instruction::Inc(INC::SP), 1));
    assert_eq!(decode(0x1B, 0, 0), (Instruction::Dec(DEC::R16(R16::DE)), 1));
}

#[test]
fn decodes_loads_and_arithmetic() {
    assert_eq!(decode(0x76, 0, 0), (Instruction::Halt(HALT), 1));
    assert_eq!(decode(0x70, 0, 0), (Instruction::Ld(LD::StoreHLRegister(R8::B)), 1));
    assert_eq!(decode(0x7E, 0, 0), (Instruction::Ld(LD::LoadToR8(R8::A, ByteTarget::HLAddress)), 1));
    assert_eq!(
        decode(0x41, 0, 0),
        (Instruction::Ld(LD::LoadToR8(R8::B, ByteTarget::Register8(R8::C))), 1)
    );
    assert_eq!(decode(0x86, 0, 0), (Instruction::Add(ADD::Byte(ByteTarget::HLAddress)), 1));
    assert_eq!(decode(0xAF, 0, 0), (Instruction::Xor(XOR(ByteTarget::Register8(R8::A))), 1));
    assert_eq!(decode(0xBB, 0, 0), (Instruction::Cp(CP(ByteTarget::Register8(R8::E))), 1));
    assert_eq!(decode(0xFE, 0x90, 0), (Instruction::Cp(CP(ByteTarget::Constant(0x90))), 2));
    assert_eq!(decode(0xC6, 0x01, 0), (Instruction::Add(ADD::Byte(ByteTarget::Constant(0x01))), 2));
    assert_eq!(decode(0xE8, 0xFF, 0), (Instruction::Add(ADD::StackPointer(0xFF)), 2));
}

#[test]
fn decodes_the_last_quarter() {
    assert_eq!(decode(0xC9, 0, 0), (Instruction::Ret(RET::RET), 1));
    assert_eq!(decode(0xD9, 0, 0), (Instruction::Ret(RET::EI), 1));
    assert_eq!(decode(0xD0, 0, 0), (Instruction::Ret(RET::Conditional(FlagCondition::NotCarry)), 1));
    assert_eq!(decode(0xE9, 0, 0), (Instruction::Jp(JP::HLAddress), 1));
    assert_eq!(decode(0xF9, 0, 0), (Instruction::Ld(LD::LoadHLToSP), 1));
    assert_eq!(decode(0xF8, 0x02, 0), (Instruction::Ld(LD::LoadSPToHL(0x02)), 2));
    assert_eq!(decode(0xE0, 0x46, 0), (Instruction::Ldh(LDH::StoreConstant(0x46)), 2));
    assert_eq!(decode(0xF0, 0x44, 0), (Instruction::Ldh(LDH::LoadConstant(0x44)), 2));
    assert_eq!(decode(0xE2, 0, 0), (Instruction::Ldh(LDH::StoreOffset), 1));
    assert_eq!(decode(0xF2, 0, 0), (Instruction::Ldh(LDH::LoadOffset), 1));
    assert_eq!(decode(0xF1, 0, 0), (Instruction::Pop(POP::AF), 1));
    assert_eq!(decode(0xC5, 0, 0), (Instruction::Push(PUSH::R16(R16::BC)), 1));
    assert_eq!(decode(0xEF, 0, 0), (Instruction::Rst(RST::V28), 1));
    assert_eq!(decode(0xFF, 0, 0), (Instruction::Rst(RST::V38), 1));
    assert_eq!(RST::V38.address(), 0x38);
    assert_eq!(RST::V10.address(), 0x10);
}

#[test]
fn opcodes_without_an_instruction() {
    let missing = [0xD3u8, 0xDB, 0xDD, 0xE3, 0xE4, 0xEB, 0xEC, 0xED, 0xF4, 0xFC, 0xFD];
    for opcode in 0..=255u8 {
        let (instruction, length) = decode(opcode, 0, 0);
        assert!((1..=3).contains(&length));
        assert_eq!(
            instruction == Instruction::Invalid(opcode),
            missing.contains(&opcode),
            "opcode {opcode:02X}"
        );
    }
}

#[test]
fn decodes_the_extended_table() {
    assert_eq!(decode(0xCB, 0x00, 0), (Instruction::Rlc(RLC::Register8(R8::B)), 2));
    assert_eq!(get_prefixed_instruction(0x06), Instruction::Rlc(RLC::HLAddress));
    assert_eq!(get_prefixed_instruction(0x1F), Instruction::Rr(RR::Register8(R8::A)));
    assert_eq!(get_prefixed_instruction(0x37), Instruction::Swap(SWAP::Register8(R8::A)));
    assert_eq!(get_prefixed_instruction(0x3E), Instruction::Srl(SRL::HLAddress));
    assert_eq!(get_prefixed_instruction(0x7C), Instruction::Bit(BIT::Register8(U3::B7, R8::H)));
    assert_eq!(get_prefixed_instruction(0x46), Instruction::Bit(BIT::HLAddress(U3::B0)));
    assert_eq!(get_prefixed_instruction(0x87), Instruction::Res(RES::Register8(U3::B0, R8::A)));
    assert_eq!(get_prefixed_instruction(0xBE), Instruction::Res(RES::HLAddress(U3::B7)));
    assert_eq!(get_prefixed_instruction(0xC0), Instruction::SetBit(SET::Register8(U3::B0, R8::B)));
    assert_eq!(get_prefixed_instruction(0xFE), Instruction::SetBit(SET::HLAddress(U3::B7)));
}
