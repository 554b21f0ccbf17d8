use gameboy_core::cpu::alu::{
    add_bytes, add_signed_offset, add_to_stack_pointer, add_words, decimal_adjust, decrement,
    half_carry_set_adc_u8, half_carry_set_add_u16, half_carry_set_add_u8, half_carry_set_sbc_u8,
    half_carry_set_sub_u8, increment, rotate_left, rotate_left_through_carry, rotate_right,
    rotate_right_through_carry, shift_left, shift_right_arithmetic, shift_right_logical,
    sub_bytes, swap_nibbles,
};
use gameboy_core::cpu::instructions::prefixed::{Operand, BIT, RES, RL, RLC, SET, SRA, SWAP, U3};
use gameboy_core::cpu::instructions::primary::{
    ByteTarget, FlagCondition, WordTarget, ADC, ADD, AND, CALL, CCF, CP, CPL, DAA, DEC, DI, EI,
    HALT, INC, JP, JR, LD, LDH, OR, POP, PUSH, RET, RLA, RLCA, RRA, RRCA, RST, SBC, SCF, SUB, XOR,
};
use gameboy_core::cpu::instructions::Instruction;
use gameboy_core::cpu::interrupts::{HaltState, InterruptState};
use gameboy_core::cpu::processor::CPU;
use gameboy_core::cpu::registers::{Flags, R16Mem, R16, R8};

fn flags(zero: bool, negative: bool, half_carry: bool, carry: bool) -> Flags {
    Flags { zero, negative, half_carry, carry }
}

#[test]
fn add_constant_and_flags() {
    let mut cpu = CPU::default();

    assert_eq!(cpu.registers.a, 0);

    Instruction::Add(ADD::Byte(ByteTarget::Constant(0xFF))).execute(&mut cpu);

    assert_eq!(cpu.registers.a, 0xFF);
    assert_eq!(cpu.registers.f.zero, false);
    assert_eq!(cpu.registers.f.negative, false);
    assert_eq!(cpu.registers.f.carry, false);
    assert_eq!(cpu.registers.f.half_carry, false);

    Instruction::Add(ADD::Byte(ByteTarget::Constant(1))).execute(&mut cpu);

    assert_eq!(cpu.registers.a, 0);
    assert_eq!(cpu.registers.f.zero, true);
    assert_eq!(cpu.registers.f.negative, false);
    assert_eq!(cpu.registers.f.carry, true);
    assert_eq!(cpu.registers.f.half_carry, true);

    Instruction::Add(ADD::Byte(ByteTarget::Constant(0x0F))).execute(&mut cpu);

    assert_eq!(cpu.registers.a, 0x0F);
    assert_eq!(cpu.registers.f.zero, false);
    assert_eq!(cpu.registers.f.negative, false);
    assert_eq!(cpu.registers.f.carry, false);
    assert_eq!(cpu.registers.f.half_carry, false);

    Instruction::Add(ADD::Byte(ByteTarget::Constant(1))).execute(&mut cpu);

    assert_eq!(cpu.registers.a, 0x10);
    assert_eq!(cpu.registers.f.zero, false);
    assert_eq!(cpu.registers.f.negative, false);
    assert_eq!(cpu.registers.f.carry, false);
    assert_eq!(cpu.registers.f.half_carry, true);
}

#[test]
fn add_ff_then_one_sets_zero_carry_and_half_carry() {
    let mut cpu = CPU::default();
    let first = ADD::Byte(ByteTarget::Constant(0xFF)).execute(&mut cpu);
    let second = ADD::Byte(ByteTarget::Constant(0x01)).execute(&mut cpu);
    assert_eq!(first, 8);
    assert_eq!(second, 8);
    assert_eq!(cpu.registers.a, 0x00);
    assert_eq!(cpu.registers.f, flags(true, false, true, true));
}

#[test]
fn sums_follow_the_nibble_and_byte_rule() {
    for a in 0..=255u8 {
        for b in [0u8, 1, 0x0F, 0x10, 0x7F, 0x80, 0xF0, 0xFF] {
            for carry in [false, true] {
                let c = carry as u16;
                let (sum, f) = add_bytes(a, b, carry);
                let wide = a as u16 + b as u16 + c;
                assert_eq!(sum, (wide & 0xFF) as u8);
                assert_eq!(f.carry, wide > 0xFF);
                assert_eq!(f.half_carry, (a & 0xF) as u16 + (b & 0xF) as u16 + c > 0xF);
                assert_eq!(f.half_carry, (a ^ b ^ sum) & 0x10 != 0);
                assert_eq!(f.zero, sum == 0);
                assert!(!f.negative);

                let (difference, f) = sub_bytes(a, b, carry);
                assert_eq!(difference, a.wrapping_sub(b).wrapping_sub(carry as u8));
                assert_eq!(f.carry, (a as u16) < b as u16 + c);
                assert_eq!(f.half_carry, ((a & 0xF) as u16) < (b & 0xF) as u16 + c);
                assert_eq!(f.half_carry, (a ^ b ^ difference) & 0x10 != 0);
                assert_eq!(f.zero, difference == 0);
                assert!(f.negative);
            }
        }
    }
}

#[test]
fn half_carry_helpers() {
    assert!(half_carry_set_add_u8(0x0F, 0x01));
    assert!(!half_carry_set_add_u8(0x0E, 0x01));
    assert!(half_carry_set_adc_u8(0x0E, 0x01, 1));
    assert!(!half_carry_set_adc_u8(0x0E, 0x00, 1));
    assert!(half_carry_set_sub_u8(0x10, 0x01));
    assert!(!half_carry_set_sub_u8(0x11, 0x01));
    assert!(half_carry_set_sbc_u8(0x11, 0x01, 1));
    assert!(!half_carry_set_sbc_u8(0x12, 0x01, 1));
    assert!(half_carry_set_add_u16(0x0FFF, 0x0001));
    assert!(!half_carry_set_add_u16(0x0FFE, 0x0001));
}

#[test]
fn adc_sbc_and_cp() {
    let mut cpu = CPU::default();
    cpu.registers.a = 0x0F;
    cpu.registers.f.carry = true;
    assert_eq!(ADC(ByteTarget::Constant(0xF0)).execute(&mut cpu), 8);
    assert_eq!(cpu.registers.a, 0x00);
    assert_eq!(cpu.registers.f, flags(true, false, true, true));

    cpu.registers.a = 0x10;
    cpu.registers.b = 0x01;
    assert_eq!(SUB(ByteTarget::Register8(R8::B)).execute(&mut cpu), 4);
    assert_eq!(cpu.registers.a, 0x0F);
    assert_eq!(cpu.registers.f, flags(false, true, true, false));

    cpu.registers.a = 0x00;
    cpu.registers.f.carry = true;
    assert_eq!(SBC(ByteTarget::Constant(0x00)).execute(&mut cpu), 8);
    assert_eq!(cpu.registers.a, 0xFF);
    assert_eq!(cpu.registers.f, flags(false, true, true, true));

    cpu.registers.a = 0x42;
    assert_eq!(CP(ByteTarget::Constant(0x42)).execute(&mut cpu), 8);
    assert_eq!(cpu.registers.a, 0x42);
    assert_eq!(cpu.registers.f, flags(true, true, false, false));
    CP(ByteTarget::Constant(0x43)).execute(&mut cpu);
    assert_eq!(cpu.registers.f, flags(false, true, true, true));
}

#[test]
fn bitwise_operations() {
    let mut cpu = CPU::default();
    cpu.registers.a = 0b1100_1010;
    AND(ByteTarget::Constant(0b1010_0110)).execute(&mut cpu);
    assert_eq!(cpu.registers.a, 0b1000_0010);
    assert_eq!(cpu.registers.f, flags(false, false, true, false));
    XOR(ByteTarget::Register8(R8::A)).execute(&mut cpu);
    assert_eq!(cpu.registers.a, 0);
    assert_eq!(cpu.registers.f, flags(true, false, false, false));
    OR(ByteTarget::Constant(0x5A)).execute(&mut cpu);
    assert_eq!(cpu.registers.a, 0x5A);
    assert_eq!(cpu.registers.f, flags(false, false, false, false));
    CPL.execute(&mut cpu);
    assert_eq!(cpu.registers.a, 0xA5);
    assert_eq!(cpu.registers.f, flags(false, true, true, false));
    SCF.execute(&mut cpu);
    assert_eq!(cpu.registers.f, flags(false, false, false, true));
    CCF.execute(&mut cpu);
    assert_eq!(cpu.registers.f, flags(false, false, false, false));
}

#[test]
fn increments_and_decrements() {
    assert_eq!(increment(0xFF, flags(false, true, false, true)), (0x00, flags(true, false, true, true)));
    assert_eq!(increment(0x0F, Flags::default()), (0x10, flags(false, false, true, false)));
    assert_eq!(decrement(0x00, Flags::default()), (0xFF, flags(false, true, true, false)));
    assert_eq!(decrement(0x01, flags(false, false, false, true)), (0x00, flags(true, true, false, true)));

    let mut cpu = CPU::default();
    cpu.write_bc(0xFFFF);
    assert_eq!(INC::R16(R16::BC).execute(&mut cpu), 8);
    assert_eq!(cpu.read_bc(), 0x0000);
    assert_eq!(DEC::R16(R16::BC).execute(&mut cpu), 8);
    assert_eq!(cpu.read_bc(), 0xFFFF);
    cpu.registers.sp = 0x0000;
    DEC::SP.execute(&mut cpu);
    assert_eq!(cpu.registers.sp, 0xFFFF);
    INC::SP.execute(&mut cpu);
    assert_eq!(cpu.registers.sp, 0x0000);

    cpu.write_hl(0xC000);
    cpu.write_hl_ptr(0x0F);
    assert_eq!(INC::HL.execute(&mut cpu), 12);
    assert_eq!(cpu.read_hl_ptr(), 0x10);
    assert!(cpu.registers.f.half_carry);
    assert_eq!(DEC::HL.execute(&mut cpu), 12);
    assert_eq!(cpu.read_hl_ptr(), 0x0F);
    assert_eq!(INC::R8(R8::C).execute(&mut cpu), 4);
}

#[test]
fn sixteen_bit_sums() {
    assert_eq!(
        add_words(0x0FFF, 0x0001, flags(true, true, false, false)),
        (0x1000, flags(true, false, true, false))
    );
    assert_eq!(add_words(0xFFFF, 0x0001, Flags::default()), (0x0000, flags(false, false, true, true)));
    assert_eq!(add_to_stack_pointer(0xFFF8, 0x08), (0x0000, flags(false, false, true, true)));
    assert_eq!(add_to_stack_pointer(0x0001, 0xFF), (0x0000, flags(false, false, true, true)));
    assert_eq!(add_to_stack_pointer(0x0000, 0xFF), (0xFFFF, flags(false, false, false, false)));
    assert_eq!(add_signed_offset(0x0100, 0xFE), 0x00FE);
    assert_eq!(add_signed_offset(0x0100, 0x7F), 0x017F);
    assert_eq!(add_signed_offset(0x0000, 0x80), 0xFF80);

    let mut cpu = CPU::default();
    cpu.write_hl(0x8A23);
    cpu.write_bc(0x0605);
    assert_eq!(ADD::Word(WordTarget::Register16(R16::BC)).execute(&mut cpu), 8);
    assert_eq!(cpu.read_hl(), 0x9028);
    assert_eq!(cpu.registers.f, flags(false, false, true, false));
    cpu.registers.sp = 0x0002;
    assert_eq!(ADD::StackPointer(0xFE).execute(&mut cpu), 16);
    assert_eq!(cpu.registers.sp, 0x0000);
    cpu.registers.sp = 0xFFF8;
    assert_eq!(LD::LoadSPToHL(0x02).execute(&mut cpu), 12);
    assert_eq!(cpu.read_hl(), 0xFFFA);
    assert_eq!(cpu.registers.f, flags(false, false, false, false));
    assert_eq!(ADD::Word(WordTarget::SP).execute(&mut cpu), 8);
    assert_eq!(cpu.read_hl(), 0xFFF2);
}

#[test]
fn daa_after_five_plus_five() {
    let mut cpu = CPU::default();
    cpu.registers.a = 0x05;
    ADD::Byte(ByteTarget::Constant(0x05)).execute(&mut cpu);
    assert_eq!(cpu.registers.a, 0x0A);
    assert_eq!(DAA.execute(&mut cpu), 4);
    assert_eq!(cpu.registers.a, 0x10);
    assert!(!cpu.registers.f.half_carry);
    assert!(!cpu.registers.f.carry);
    assert!(!cpu.registers.f.zero);
}

#[test]
fn daa_corrections() {
    // 0x99 + 0x01 = 0x9A, which stands for 100: the carry is the hundred
    assert_eq!(decimal_adjust(0x9A, Flags::default()), (0x00, flags(true, false, false, true)));
    // 0x19 + 0x28 = 0x41 with a half-carry: 47
    assert_eq!(decimal_adjust(0x41, flags(false, false, true, false)), (0x47, Flags::default()));
    // 0x42 - 0x09 = 0x39 with a half-carry: 33
    assert_eq!(
        decimal_adjust(0x39, flags(false, true, true, false)),
        (0x33, flags(false, true, false, false))
    );
    // after a subtraction a digit above 9 alone is not corrected
    assert_eq!(
        decimal_adjust(0x0A, flags(false, true, false, false)),
        (0x0A, flags(false, true, false, false))
    );
    assert_eq!(
        decimal_adjust(0x00, flags(false, true, false, true)),
        (0xA0, flags(false, true, false, true))
    );
}

#[test]
fn push_then_pop_restores_the_value() {
    let mut cpu = CPU::default();
    cpu.registers.sp = 0xD000;
    cpu.write_bc(0x1234);
    assert_eq!(PUSH::R16(R16::BC).execute(&mut cpu), 16);
    assert_eq!(cpu.registers.sp, 0xCFFE);
    assert_eq!(cpu.read_byte(0xCFFE), 0x34);
    assert_eq!(cpu.read_byte(0xCFFF), 0x12);
    assert_eq!(POP::R16(R16::DE).execute(&mut cpu), 12);
    assert_eq!(cpu.read_de(), 0x1234);
    assert_eq!(cpu.registers.sp, 0xD000);
}

#[test]
fn pop_af_drops_the_low_nibble() {
    let mut cpu = CPU::default();
    cpu.registers.sp = 0xD000;
    cpu.write_hl(0xABFF);
    PUSH::R16(R16::HL).execute(&mut cpu);
    POP::AF.execute(&mut cpu);
    assert_eq!(cpu.registers.a, 0xAB);
    assert_eq!(cpu.registers.f, flags(true, true, true, true));
    assert_eq!(cpu.read_af(), 0xABF0);

    cpu.registers.f = flags(true, false, false, true);
    cpu.registers.a = 0x12;
    PUSH::AF.execute(&mut cpu);
    cpu.registers.f = Flags::default();
    cpu.registers.a = 0;
    POP::AF.execute(&mut cpu);
    assert_eq!(cpu.read_af(), 0x1290);
    for byte in 0..=255u8 {
        assert_eq!(Flags::from_byte(byte).to_byte(), byte & 0xF0);
        assert_eq!(Flags::from(byte), Flags::from_byte(byte));
    }
}

#[test]
fn rotations_of_the_accumulator() {
    let mut cpu = CPU::default();
    cpu.registers.a = 0x85;
    cpu.registers.f = flags(true, true, true, false);
    assert_eq!(RLCA.execute(&mut cpu), 4);
    assert_eq!(cpu.registers.a, 0x0B);
    assert_eq!(cpu.registers.f, flags(false, false, false, true));
    RRCA.execute(&mut cpu);
    assert_eq!(cpu.registers.a, 0x85);
    assert_eq!(cpu.registers.f, flags(false, false, false, true));
    RLA.execute(&mut cpu);
    assert_eq!(cpu.registers.a, 0x0B);
    assert!(cpu.registers.f.carry);
    cpu.registers.a = 0x01;
    cpu.registers.f.carry = false;
    RRA.execute(&mut cpu);
    assert_eq!(cpu.registers.a, 0x00);
    assert_eq!(cpu.registers.f, flags(false, false, false, true));
    RRA.execute(&mut cpu);
    assert_eq!(cpu.registers.a, 0x80);
    assert!(!cpu.registers.f.carry);
}

#[test]
fn rotations_and_shifts() {
    assert_eq!(rotate_left(0x80), (0x01, true));
    assert_eq!(rotate_left(0x41), (0x82, false));
    assert_eq!(rotate_right(0x01), (0x80, true));
    assert_eq!(rotate_left_through_carry(0x80, false), (0x00, true));
    assert_eq!(rotate_left_through_carry(0x01, true), (0x03, false));
    assert_eq!(rotate_right_through_carry(0x01, false), (0x00, true));
    assert_eq!(rotate_right_through_carry(0x02, true), (0x81, false));
    assert_eq!(shift_left(0xC1), (0x82, true));
    assert_eq!(shift_right_arithmetic(0x81), (0xC0, true));
    assert_eq!(shift_right_arithmetic(0x7E), (0x3F, false));
    assert_eq!(shift_right_logical(0x81), (0x40, true));
    assert_eq!(swap_nibbles(0xA5), 0x5A);
    for value in 0..=255u8 {
        assert_eq!(rotate_left(value).0, value.rotate_left(1));
        assert_eq!(rotate_right(value).0, value.rotate_right(1));
        assert_eq!(swap_nibbles(value), value.rotate_right(4));
        assert_eq!(shift_right_arithmetic(value).0, ((value as i8) >> 1) as u8);
    }
}

#[test]
fn extended_instructions() {
    let mut cpu = CPU::default();
    cpu.registers.b = 0x80;
    assert_eq!(RLC::Register8(R8::B).execute(&mut cpu), 8);
    assert_eq!(cpu.registers.b, 0x01);
    assert_eq!(cpu.registers.f, flags(false, false, false, true));
    assert_eq!(RL::on(Operand::Register8(R8::B)).execute(&mut cpu), 8);
    assert_eq!(cpu.registers.b, 0x03);
    assert_eq!(cpu.registers.f, flags(false, false, false, false));

    cpu.write_hl(0xC100);
    cpu.write_hl_ptr(0xF0);
    assert_eq!(SWAP::HLAddress.execute(&mut cpu), 16);
    assert_eq!(cpu.read_hl_ptr(), 0x0F);
    assert_eq!(SRA::HLAddress.execute(&mut cpu), 16);
    assert_eq!(cpu.read_hl_ptr(), 0x07);
    assert!(cpu.registers.f.carry);

    assert_eq!(BIT::HLAddress(U3::B3).execute(&mut cpu), 12);
    assert_eq!(cpu.registers.f, flags(true, false, true, true));
    assert_eq!(BIT::Register8(U3::B0, R8::B).execute(&mut cpu), 8);
    assert!(!cpu.registers.f.zero);
    assert_eq!(SET::HLAddress(U3::B7).execute(&mut cpu), 16);
    assert_eq!(cpu.read_hl_ptr(), 0x87);
    assert_eq!(RES::HLAddress(U3::B0).execute(&mut cpu), 16);
    assert_eq!(cpu.read_hl_ptr(), 0x86);
    assert_eq!(RES::Register8(U3::B1, R8::B).execute(&mut cpu), 8);
    assert_eq!(cpu.registers.b, 0x01);
    assert_eq!(U3::B5.as_bit_mask(), 0x20);
}

#[test]
fn jumps_calls_and_returns() {
    let mut cpu = CPU::default();
    cpu.registers.pc = 0x0150;
    cpu.registers.sp = 0xD000;
    assert_eq!(JP::Constant(0x1234).execute(&mut cpu), 16);
    assert_eq!(cpu.registers.pc, 0x1234);
    assert_eq!(JP::ConditionalConstant(FlagCondition::Zero, 0x2000).execute(&mut cpu), 12);
    assert_eq!(cpu.registers.pc, 0x1234);
    assert_eq!(JP::ConditionalConstant(FlagCondition::NotZero, 0x2000).execute(&mut cpu), 16);
    assert_eq!(cpu.registers.pc, 0x2000);
    assert_eq!(JR::Offset(0xFE).execute(&mut cpu), 12);
    assert_eq!(cpu.registers.pc, 0x1FFE);
    assert_eq!(JR::ConditionalOffset(FlagCondition::Carry, 0x10).execute(&mut cpu), 8);
    assert_eq!(JR::ConditionalOffset(FlagCondition::NotCarry, 0x10).execute(&mut cpu), 12);
    assert_eq!(cpu.registers.pc, 0x200E);

    assert_eq!(CALL::Constant(0x3000).execute(&mut cpu), 24);
    assert_eq!(cpu.registers.pc, 0x3000);
    assert_eq!(cpu.registers.sp, 0xCFFE);
    assert_eq!(cpu.bus.read_word(0xCFFE), 0x200E);
    assert_eq!(CALL::ConditionalConstant(FlagCondition::Zero, 0x4000).execute(&mut cpu), 12);
    assert_eq!(RST::V28.execute(&mut cpu), 16);
    assert_eq!(cpu.registers.pc, 0x0028);
    assert_eq!(RET::Conditional(FlagCondition::Carry).execute(&mut cpu), 8);
    assert_eq!(RET::Conditional(FlagCondition::NotCarry).execute(&mut cpu), 20);
    assert_eq!(cpu.registers.pc, 0x3000);
    assert_eq!(RET::RET.execute(&mut cpu), 16);
    assert_eq!(cpu.registers.pc, 0x200E);
    assert_eq!(cpu.registers.sp, 0xD000);

    cpu.push_to_stack(0x0456);
    assert_eq!(RET::EI.execute(&mut cpu), 16);
    assert_eq!(cpu.registers.pc, 0x0456);
    assert_eq!(cpu.interrupt_state, InterruptState::Enabled);
    cpu.write_hl(0x8000);
    assert_eq!(JP::HLAddress.execute(&mut cpu), 4);
    assert_eq!(cpu.registers.pc, 0x8000);
}

#[test]
fn loads_and_stores() {
    let mut cpu = CPU::default();
    assert_eq!(LD::LoadToR16(R16::HL, 0xC000).execute(&mut cpu), 12);
    assert_eq!(LD::LoadToR8(R8::A, ByteTarget::Constant(0x42)).execute(&mut cpu), 8);
    assert_eq!(LD::StoreA(R16Mem::HLI).execute(&mut cpu), 8);
    assert_eq!(cpu.read_hl(), 0xC001);
    assert_eq!(cpu.read_byte(0xC000), 0x42);
    assert_eq!(LD::StoreHLConstant(0x99).execute(&mut cpu), 12);
    assert_eq!(LD::LoadToA(R16Mem::HLD).execute(&mut cpu), 8);
    assert_eq!(cpu.registers.a, 0x99);
    assert_eq!(cpu.read_hl(), 0xC000);
    assert_eq!(LD::LoadToR8(R8::B, ByteTarget::HLAddress).execute(&mut cpu), 8);
    assert_eq!(cpu.registers.b, 0x42);
    assert_eq!(LD::LoadToR8(R8::C, ByteTarget::Register8(R8::B)).execute(&mut cpu), 4);
    assert_eq!(cpu.registers.c, 0x42);
    assert_eq!(LD::StoreHLRegister(R8::A).execute(&mut cpu), 8);
    assert_eq!(cpu.read_byte(0xC000), 0x99);
    assert_eq!(LD::StoreADirectly(0xC123).execute(&mut cpu), 16);
    cpu.registers.a = 0;
    assert_eq!(LD::LoadToADirectly(0xC123).execute(&mut cpu), 16);
    assert_eq!(cpu.registers.a, 0x99);
    assert_eq!(LD::LoadToSP(0xBEEF).execute(&mut cpu), 12);
    assert_eq!(LD::StoreSP(0xC200).execute(&mut cpu), 20);
    assert_eq!(cpu.read_byte(0xC200), 0xEF);
    assert_eq!(cpu.read_byte(0xC201), 0xBE);
    assert_eq!(LD::LoadHLToSP.execute(&mut cpu), 8);
    assert_eq!(cpu.registers.sp, 0xC000);
    cpu.write_de(0xC300);
    assert_eq!(LD::StoreA(R16Mem::DE).execute(&mut cpu), 8);
    assert_eq!(cpu.read_byte(0xC300), 0x99);

    cpu.registers.a = 0x77;
    assert_eq!(LDH::StoreConstant(0x80).execute(&mut cpu), 12);
    assert_eq!(cpu.read_byte(0xFF80), 0x77);
    cpu.registers.c = 0x81;
    assert_eq!(LDH::StoreOffset.execute(&mut cpu), 8);
    cpu.registers.a = 0;
    assert_eq!(LDH::LoadOffset.execute(&mut cpu), 8);
    assert_eq!(cpu.registers.a, 0x77);
    cpu.registers.a = 0;
    assert_eq!(LDH::LoadConstant(0x80).execute(&mut cpu), 12);
    assert_eq!(cpu.registers.a, 0x77);
}

#[test]
fn control_instructions() {
    let mut cpu = CPU::default();
    assert_eq!(EI.execute(&mut cpu), 4);
    assert_eq!(cpu.interrupt_state, InterruptState::EnableRequested);
    assert_eq!(DI.execute(&mut cpu), 4);
    assert_eq!(cpu.interrupt_state, InterruptState::Disabled);
    assert_eq!(HALT.execute(&mut cpu), 4);
    assert_eq!(cpu.halt_state, HaltState::Halted);
}

#[test]
fn instructions_that_cannot_run_say_so() {
    let mut cpu = CPU::default();
    assert!(!Instruction::Invalid(0xD3).can_execute(&cpu));
    cpu.write_hl(0xE000);
    assert!(!Instruction::Inc(INC::HL).can_execute(&cpu));
    assert!(!Instruction::Add(ADD::Byte(ByteTarget::HLAddress)).can_execute(&cpu));
    assert!(Instruction::Add(ADD::Byte(ByteTarget::Constant(1))).can_execute(&cpu));
    assert!(!Instruction::Swap(SWAP::HLAddress).can_execute(&cpu));
    assert!(!Instruction::Ld(LD::StoreADirectly(0xFDFF)).can_execute(&cpu));
    assert!(Instruction::Ld(LD::StoreADirectly(0xFE00)).can_execute(&cpu));
    assert!(!Instruction::Ld(LD::StoreSP(0xDFFF)).can_execute(&cpu));
    cpu.registers.sp = 0xE001;
    assert!(!Instruction::Push(PUSH::AF).can_execute(&cpu));
    assert!(!Instruction::Pop(POP::AF).can_execute(&cpu));
    assert!(!Instruction::Rst(RST::V0).can_execute(&cpu));
    assert!(Instruction::Call(CALL::ConditionalConstant(FlagCondition::Zero, 0)).can_execute(&cpu));
    assert!(!Instruction::Call(CALL::ConditionalConstant(FlagCondition::NotZero, 0)).can_execute(&cpu));
    cpu.registers.sp = 0xE000;
    assert!(Instruction::Push(PUSH::AF).can_execute(&cpu));
    assert!(!Instruction::Ret(RET::RET).can_execute(&cpu));
    cpu.write_hl(0xC000);
    assert!(Instruction::Inc(INC::HL).can_execute(&cpu));
}
