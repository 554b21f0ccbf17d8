use gameboy_core::cpu::dma::DmaState;
use gameboy_core::cpu::interrupts::{get_source_from_bits, HaltState, InterruptSource, InterruptState};
use gameboy_core::cpu::processor::CPU;
use gameboy_core::cpu::registers::{Flags, Registers};
use gameboy_core::cpu::timers::Clock;
use gameboy_core::graphics::ppu::PPUMode;
use gameboy_core::memory::bus::{
    INTERRUPT_ENABLE, INTERRUPT_REQUESTS, SERIAL_TRANSFER_CONTROL, SERIAL_TRANSFER_DATA,
    TIMER_CONTROL, TIMER_COUNTER, TIMER_MODULO,
};

const PROGRAM: u16 = 0xC000;

/// A processor that runs `program` from the work RAM.
fn cpu_with(program: &[u8]) -> CPU {
    let mut cpu = CPU::default();
    for (offset, byte) in program.iter().enumerate() {
        cpu.write_byte(PROGRAM + offset as u16, *byte);
    }
    cpu.registers.pc = PROGRAM;
    cpu.registers.sp = 0xDFF0;
    cpu
}

fn cartridge() -> Vec<u8> {
    vec![0u8; 0x8000]
}

#[test]
fn a_step_runs_one_instruction() {
    // LD A,0x12; ADD A,0x34; JP 0xC000
    let mut cpu = cpu_with(&[0x3E, 0x12, 0xC6, 0x34, 0xC3, 0x00, 0xC0]);
    assert!(cpu.can_step());
    assert_eq!(cpu.step(), 8);
    assert_eq!(cpu.registers.a, 0x12);
    assert_eq!(cpu.registers.pc, PROGRAM + 2);
    assert_eq!(cpu.current_instruction.opcode, 0x3E);
    assert_eq!(cpu.step(), 8);
    assert_eq!(cpu.registers.a, 0x46);
    assert_eq!(cpu.step(), 16);
    assert_eq!(cpu.registers.pc, PROGRAM);
    assert_eq!(cpu.clock, Clock { t: 32, m: 8 });
    assert_eq!(cpu.try_step(), Some(8));
}

#[test]
fn a_step_that_cannot_be_made() {
    let mut cpu = cpu_with(&[0xD3]);
    assert!(!cpu.can_step());
    assert_eq!(cpu.try_step(), None);

    let mut cpu = cpu_with(&[0x00]);
    cpu.registers.pc = 0xE000;
    assert!(!cpu.can_step());
    assert_eq!(cpu.try_step(), None);
    cpu.registers.pc = 0xDFFE;
    assert!(!cpu.can_step());
    cpu.registers.pc = 0xDFFD;
    assert!(cpu.can_step());

    // PUSH BC with the stack in the prohibited range
    let mut cpu = cpu_with(&[0xC5]);
    cpu.registers.sp = 0xF000;
    assert!(!cpu.can_step());
    assert_eq!(cpu.try_step(), None);

    // an interrupt that would push into the prohibited range
    let mut cpu = cpu_with(&[0x00]);
    cpu.registers.sp = 0xF000;
    assert!(cpu.can_step());
    cpu.interrupt_state = InterruptState::Enabled;
    cpu.write_byte(INTERRUPT_ENABLE, 0x01);
    cpu.write_byte(INTERRUPT_REQUESTS, 0x01);
    assert!(!cpu.can_step());
}

#[test]
fn the_interrupt_of_highest_priority_is_dispatched() {
    let mut cpu = cpu_with(&[0x00]);
    cpu.interrupt_state = InterruptState::Enabled;
    cpu.write_byte(INTERRUPT_ENABLE, 0x1F);
    cpu.write_byte(INTERRUPT_REQUESTS, 0x1F);
    assert_eq!(cpu.handle_interrupts(), 20);
    assert_eq!(cpu.registers.pc, 0x0040);
    assert_eq!(cpu.read_byte(INTERRUPT_REQUESTS) & 0x1F, 0x1E);
    assert_eq!(cpu.interrupt_state, InterruptState::Disabled);
    assert_eq!(cpu.registers.sp, 0xDFEE);
    assert_eq!(cpu.bus.read_word(0xDFEE), PROGRAM);
    // with the interrupts disabled nothing more is dispatched
    assert_eq!(cpu.handle_interrupts(), 0);
    assert_eq!(cpu.registers.pc, 0x0040);
}

#[test]
fn interrupts_are_served_in_order() {
    let mut cpu = cpu_with(&[0x00]);
    cpu.write_byte(INTERRUPT_ENABLE, 0x1F);
    cpu.write_byte(INTERRUPT_REQUESTS, 0x1F);
    for (handler, left) in [(0x40u16, 0x1Eu8), (0x48, 0x1C), (0x50, 0x18), (0x58, 0x10), (0x60, 0x00)] {
        cpu.interrupt_state = InterruptState::Enabled;
        assert_eq!(cpu.handle_interrupts(), 20);
        assert_eq!(cpu.registers.pc, handler);
        assert_eq!(cpu.read_byte(INTERRUPT_REQUESTS) & 0x1F, left);
    }
    cpu.interrupt_state = InterruptState::Enabled;
    assert_eq!(cpu.handle_interrupts(), 0);

    assert_eq!(get_source_from_bits(0x00), None);
    assert_eq!(get_source_from_bits(0xE0), None);
    assert_eq!(get_source_from_bits(0x1F), Some(InterruptSource::VBLANK));
    assert_eq!(get_source_from_bits(0x1E), Some(InterruptSource::STAT));
    assert_eq!(get_source_from_bits(0x14), Some(InterruptSource::TIMER));
    assert_eq!(get_source_from_bits(0x18), Some(InterruptSource::SERIAL));
    assert_eq!(get_source_from_bits(0x10), Some(InterruptSource::JOYPAD));
    assert_eq!(InterruptSource::JOYPAD.handler(), 0x60);
    assert_eq!(InterruptSource::SERIAL.bit(), 0x08);
}

#[test]
fn only_enabled_sources_are_dispatched() {
    let mut cpu = cpu_with(&[0x00, 0x00]);
    cpu.interrupt_state = InterruptState::Enabled;
    cpu.write_byte(INTERRUPT_ENABLE, 0x04);
    cpu.write_byte(INTERRUPT_REQUESTS, 0x03);
    assert_eq!(cpu.step(), 4);
    assert_eq!(cpu.registers.pc, PROGRAM + 1);
    cpu.write_byte(INTERRUPT_REQUESTS, 0x07);
    assert_eq!(cpu.step(), 24);
    assert_eq!(cpu.registers.pc, 0x0050);
    assert_eq!(cpu.read_byte(INTERRUPT_REQUESTS), 0xE3);
    assert_eq!(cpu.bus.read_word(cpu.registers.sp), PROGRAM + 2);
}

#[test]
fn the_halt_bug_fetches_a_byte_twice() {
    // HALT; INC A; NOP
    let mut cpu = cpu_with(&[0x76, 0x3C, 0x00]);
    cpu.interrupt_state = InterruptState::Disabled;
    cpu.write_byte(INTERRUPT_ENABLE, 0x01);
    cpu.write_byte(INTERRUPT_REQUESTS, 0x01);
    assert_eq!(cpu.step(), 4);
    assert_eq!(cpu.halt_state, HaltState::HaltBug);
    assert_eq!(cpu.registers.pc, PROGRAM + 1);

    assert_eq!(cpu.step(), 4);
    assert_eq!(cpu.current_instruction.opcode, 0x3C);
    assert_eq!(cpu.current_instruction.param1, 0x3C);
    assert_eq!(cpu.registers.a, 1);
    assert_eq!(cpu.registers.pc, PROGRAM + 1);
    assert_eq!(cpu.halt_state, HaltState::NotHalted);

    assert_eq!(cpu.step(), 4);
    assert_eq!(cpu.current_instruction.opcode, 0x3C);
    assert_eq!(cpu.current_instruction.param1, 0x00);
    assert_eq!(cpu.registers.a, 2);
    assert_eq!(cpu.registers.pc, PROGRAM + 2);
}

#[test]
fn halt_states() {
    let mut cpu = cpu_with(&[0x76]);
    cpu.interrupt_state = InterruptState::Enabled;
    cpu.write_byte(INTERRUPT_ENABLE, 0x01);
    cpu.write_byte(INTERRUPT_REQUESTS, 0x01);
    cpu.update_halt_state();
    assert_eq!(cpu.halt_state, HaltState::Halted);
    cpu.interrupt_state = InterruptState::EnableRequested;
    cpu.update_halt_state();
    assert_eq!(cpu.halt_state, HaltState::HaltBug);
    cpu.write_byte(INTERRUPT_REQUESTS, 0x02);
    cpu.update_halt_state();
    assert_eq!(cpu.halt_state, HaltState::Halted);
    cpu.interrupt_state = InterruptState::Disabled;
    cpu.update_halt_state();
    assert_eq!(cpu.halt_state, HaltState::Halted);
}

#[test]
fn a_halted_processor_waits_for_an_interrupt() {
    // HALT; INC A
    let mut cpu = cpu_with(&[0x76, 0x3C]);
    assert_eq!(cpu.step(), 4);
    assert_eq!(cpu.halt_state, HaltState::Halted);
    for _ in 0..5 {
        assert_eq!(cpu.step(), 4);
        assert_eq!(cpu.registers.pc, PROGRAM + 1);
        assert_eq!(cpu.registers.a, 0);
    }
    assert_eq!(cpu.clock.t, 24);
    // a pending source wakes it; with the interrupts disabled it goes on
    cpu.write_byte(INTERRUPT_ENABLE, 0x04);
    cpu.write_byte(INTERRUPT_REQUESTS, 0x04);
    assert_eq!(cpu.step(), 4);
    assert_eq!(cpu.halt_state, HaltState::NotHalted);
    assert_eq!(cpu.registers.a, 0);
    assert_eq!(cpu.step(), 4);
    assert_eq!(cpu.registers.a, 1);

    // with the interrupts enabled it is dispatched in the step that wakes
    let mut cpu = cpu_with(&[0x76, 0x3C]);
    cpu.interrupt_state = InterruptState::Enabled;
    assert_eq!(cpu.step(), 4);
    assert_eq!(cpu.step(), 4);
    cpu.write_byte(INTERRUPT_ENABLE, 0x04);
    cpu.write_byte(INTERRUPT_REQUESTS, 0x04);
    assert_eq!(cpu.step(), 24);
    assert_eq!(cpu.halt_state, HaltState::NotHalted);
    assert_eq!(cpu.registers.pc, 0x0050);
    assert_eq!(cpu.bus.read_word(cpu.registers.sp), PROGRAM + 1);
}

#[test]
fn interrupts_are_enabled_one_instruction_late() {
    // EI; INC A; INC A
    let mut cpu = cpu_with(&[0xFB, 0x3C, 0x3C]);
    cpu.write_byte(INTERRUPT_ENABLE, 0x01);
    cpu.write_byte(INTERRUPT_REQUESTS, 0x01);
    assert_eq!(cpu.step(), 4);
    assert_eq!(cpu.interrupt_state, InterruptState::EnableRequested);
    assert_eq!(cpu.registers.pc, PROGRAM + 1);
    assert_eq!(cpu.step(), 24);
    assert_eq!(cpu.registers.a, 1);
    assert_eq!(cpu.registers.pc, 0x0040);
    assert_eq!(cpu.interrupt_state, InterruptState::Disabled);
    assert_eq!(cpu.bus.read_word(cpu.registers.sp), PROGRAM + 2);

    // EI; DI leaves the interrupts disabled
    let mut cpu = cpu_with(&[0xFB, 0xF3, 0x00]);
    cpu.write_byte(INTERRUPT_ENABLE, 0x01);
    cpu.write_byte(INTERRUPT_REQUESTS, 0x01);
    cpu.step();
    cpu.step();
    assert_eq!(cpu.interrupt_state, InterruptState::Disabled);
    assert_eq!(cpu.step(), 4);
    assert_eq!(cpu.registers.pc, PROGRAM + 3);

    // RETI enables at once
    let mut cpu = cpu_with(&[0xD9]);
    cpu.push_to_stack(PROGRAM + 0x10);
    cpu.write_byte(INTERRUPT_ENABLE, 0x02);
    cpu.write_byte(INTERRUPT_REQUESTS, 0x02);
    assert_eq!(cpu.step(), 36);
    assert_eq!(cpu.registers.pc, 0x0048);
    assert_eq!(cpu.bus.read_word(cpu.registers.sp), PROGRAM + 0x10);
}

#[test]
fn a_transfer_copies_160_bytes_in_160_steps() {
    let mut cpu = cpu_with(&[0x3C, 0x3C]);
    cpu.bus.update_ppu_mode(PPUMode::VerticalBlank);
    for offset in 0..0xA0u16 {
        cpu.write_byte(0xC000 + offset, (offset as u8) ^ 0x5A);
    }
    cpu.write_byte(0xFE00 + 0xA0, 0x77);
    cpu.registers.pc = 0xC100;
    cpu.write_byte(0xFF46, 0xC0);
    assert_eq!(cpu.dma_state, DmaState::Active { src: 0xC000, index: 0 });
    let registers = cpu.registers;
    let clock = cpu.clock;
    let mut cycles = 0u32;
    for step in 0..160u16 {
        assert_eq!(cpu.dma_state, DmaState::Active { src: 0xC000, index: step });
        assert_eq!(cpu.step(), 4);
        cycles += 4;
        assert_eq!(cpu.registers, registers);
    }
    assert_eq!(cycles, 640);
    assert_eq!(cpu.clock, clock);
    assert_eq!(cpu.dma_state, DmaState::Inactive);
    for offset in 0..0xA0u16 {
        assert_eq!(cpu.read_byte(0xFE00 + offset), (offset as u8) ^ 0x5A);
    }
    assert_eq!(cpu.read_byte(0xFE00 + 0xA0), 0x77);
    // then the instructions go on
    cpu.registers.pc = PROGRAM;
    cpu.write_byte(PROGRAM, 0x3C);
    assert_eq!(cpu.step(), 4);
    assert_eq!(cpu.registers.a, 1);
}

#[test]
fn a_transfer_is_started_by_any_write_to_its_register() {
    // LD A,0xC1; LDH (0x46),A
    let mut cpu = cpu_with(&[0x3E, 0xC1, 0xE0, 0x46, 0x3C]);
    cpu.step();
    assert_eq!(cpu.dma_state, DmaState::Inactive);
    assert_eq!(cpu.step(), 12);
    assert_eq!(cpu.dma_state, DmaState::Active { src: 0xC100, index: 0 });
    assert_eq!(cpu.step(), 4);
    assert_eq!(cpu.registers.a, 0xC1);
    assert_eq!(cpu.dma_state, DmaState::Active { src: 0xC100, index: 1 });
    assert_eq!(DmaState::init_dma_transfer(0xFF), DmaState::Active { src: 0xFF00, index: 0 });
    assert!(DmaState::init_dma_transfer(0xDF).can_step());
    assert!(!DmaState::init_dma_transfer(0xE0).can_step());
    assert!(!DmaState::init_dma_transfer(0xFD).can_step());
    assert!(DmaState::init_dma_transfer(0xFE).can_step());
    let mut blocked = cpu_with(&[0x00]);
    blocked.write_byte(0xFF46, 0xE0);
    assert!(!blocked.can_step());
    assert_eq!(blocked.try_step(), None);
}

#[test]
fn a_transfer_into_blocked_object_memory_is_dropped() {
    let mut cpu = cpu_with(&[0x00]);
    cpu.write_byte(0xC000, 0x99);
    cpu.bus.update_ppu_mode(PPUMode::OBJSearch);
    cpu.write_byte(0xFF46, 0xC0);
    cpu.step();
    cpu.bus.update_ppu_mode(PPUMode::VerticalBlank);
    assert_eq!(cpu.read_byte(0xFE00), 0x00);
}

#[test]
fn the_timer_counts_and_overflows() {
    // a tick every 4 machine cycles
    let mut cpu = cpu_with(&[0x00; 16]);
    cpu.write_byte(TIMER_CONTROL, 0x05);
    cpu.write_byte(TIMER_COUNTER, 0xFE);
    cpu.write_byte(TIMER_MODULO, 0xAB);
    for _ in 0..3 {
        cpu.step();
    }
    assert_eq!(cpu.read_byte(TIMER_COUNTER), 0xFE);
    cpu.step();
    assert_eq!(cpu.read_byte(TIMER_COUNTER), 0xFF);
    assert_eq!(cpu.last_timer_update, 4);
    assert_eq!(cpu.read_byte(INTERRUPT_REQUESTS), 0x00);
    for _ in 0..4 {
        cpu.step();
    }
    assert_eq!(cpu.read_byte(TIMER_COUNTER), 0xAB);
    assert_eq!(cpu.read_byte(INTERRUPT_REQUESTS), 0xE4);
    assert_eq!(cpu.last_timer_update, 8);
    assert_eq!(cpu.clock, Clock { t: 32, m: 8 });
}

#[test]
fn the_timer_keeps_the_part_of_a_tick() {
    // a tick every 16 machine cycles; a call takes 6 of them
    let mut cpu = cpu_with(&[0xCD, 0x00, 0xC0]);
    cpu.write_byte(TIMER_CONTROL, 0x06);
    for _ in 0..2 {
        assert_eq!(cpu.step(), 24);
    }
    assert_eq!(cpu.read_byte(TIMER_COUNTER), 0);
    cpu.step();
    assert_eq!(cpu.clock.m, 18);
    assert_eq!(cpu.read_byte(TIMER_COUNTER), 1);
    assert_eq!(cpu.last_timer_update, 16);
    for _ in 0..3 {
        cpu.step();
    }
    assert_eq!(cpu.clock.m, 36);
    assert_eq!(cpu.read_byte(TIMER_COUNTER), 2);
    assert_eq!(cpu.last_timer_update, 32);

    // the stopped timer does not count
    let mut stopped = cpu_with(&[0x00; 8]);
    stopped.write_byte(TIMER_CONTROL, 0x01);
    for _ in 0..8 {
        stopped.step();
    }
    assert_eq!(stopped.read_byte(TIMER_COUNTER), 0);
    assert_eq!(stopped.last_timer_update, 0);
    assert!(!stopped.is_timer_enabled());
    assert_eq!(stopped.get_timer_m_frequency(), 4);
}

#[test]
fn timer_frequencies() {
    let mut cpu = CPU::default();
    for (control, frequency) in [(0x04u8, 256u64), (0x05, 4), (0x06, 16), (0x07, 64)] {
        cpu.write_byte(TIMER_CONTROL, control);
        assert!(cpu.is_timer_enabled());
        assert_eq!(cpu.get_timer_m_frequency(), frequency);
        assert_eq!(cpu.read_tac(), control);
    }
    cpu.write_tima(7);
    assert_eq!(cpu.read_tima(), 7);
    cpu.write_byte(TIMER_MODULO, 9);
    assert_eq!(cpu.read_tma(), 9);
    let mut clock = Clock::default();
    clock.increment(12);
    assert_eq!(clock, Clock { t: 12, m: 3 });
    clock.t = u64::MAX - 3;
    clock.increment(8);
    assert_eq!(clock, Clock { t: 4, m: 1 });
}

#[test]
fn the_serial_port_is_drained() {
    let mut cpu = cpu_with(&[0x00, 0x00, 0x00]);
    cpu.write_byte(SERIAL_TRANSFER_DATA, 0x41);
    assert_eq!(cpu.step(), 4);
    assert_eq!(cpu.serial_output, None);
    assert_eq!(cpu.read_byte(SERIAL_TRANSFER_DATA), 0x41);
    cpu.write_byte(SERIAL_TRANSFER_CONTROL, 0x81);
    cpu.step();
    assert_eq!(cpu.serial_output, Some(0x41));
    assert_eq!(cpu.read_byte(SERIAL_TRANSFER_DATA), 0x00);
    cpu.step();
    assert_eq!(cpu.serial_output, None);
}

#[test]
fn the_state_after_the_boot_rom() {
    let mut bytes = cartridge();
    bytes[0x100] = 0x3C;
    let mut cpu = CPU::init(None, &bytes);
    assert_eq!(
        cpu.registers,
        Registers {
            a: 0x01,
            b: 0x00,
            c: 0x13,
            d: 0x00,
            e: 0xD8,
            f: Flags { zero: true, negative: false, half_carry: true, carry: true },
            h: 0x01,
            l: 0x4D,
            sp: 0xFFFE,
            pc: 0x0100,
        }
    );
    assert_eq!(cpu.calculate_cartridge_header_checksum(), 231);
    assert!(cpu.bus.boot_rom_disabled);
    for (address, byte) in [
        (0xFF00u16, 0xCFu8),
        (0xFF01, 0x00),
        (0xFF02, 0x7E),
        (0xFF05, 0x00),
        (0xFF06, 0x00),
        (0xFF07, 0xF8),
        (0xFF0F, 0xE1),
        (0xFF40, 0x91),
        (0xFF41, 0x85),
        (0xFF42, 0x00),
        (0xFF43, 0x00),
        (0xFF44, 0x00),
        (0xFF45, 0x00),
        (0xFF4A, 0x00),
        (0xFF4B, 0x00),
        (0xFFFF, 0x00),
    ] {
        assert_eq!(cpu.read_byte(address), byte, "register {address:04X}");
    }
    assert_eq!(cpu.step(), 4);
    assert_eq!(cpu.registers.a, 0x02);

    bytes[0x134] = 231;
    let cpu = CPU::init(None, &bytes);
    assert_eq!(cpu.calculate_cartridge_header_checksum(), 0);
    assert_eq!(cpu.registers.f, Flags { zero: true, negative: false, half_carry: false, carry: false });
    bytes[0x14C] = 0xFF;
    assert_eq!(CPU::init(None, &bytes).calculate_cartridge_header_checksum(), 1);
}

#[test]
fn a_start_with_a_boot_rom() {
    let mut boot = vec![0u8; 256];
    boot[0] = 0x3E;
    boot[1] = 0x99;
    let mut bytes = cartridge();
    bytes[0] = 0x3C;
    assert!(CPU::accepts(Some(&boot), &bytes));
    assert!(!CPU::accepts(Some(&boot[..255]), &bytes));
    assert!(!CPU::accepts(None, &bytes[..0x100]));
    let mut cpu = CPU::init(Some(&boot), &bytes);
    assert_eq!(cpu.registers, Registers::default());
    assert_eq!(cpu.read_byte(0xFF00), 0xCF);
    assert!(!cpu.bus.boot_rom_disabled);
    assert_eq!(cpu.step(), 8);
    assert_eq!(cpu.registers.a, 0x99);
}

#[test]
fn a_log_of_the_state() {
    let mut cpu = cpu_with(&[0x01, 0x02, 0x03, 0x04]);
    cpu.registers.f = Flags { zero: true, negative: false, half_carry: false, carry: true };
    let log = cpu.log_state();
    assert_eq!(log.registers, cpu.registers);
    assert_eq!(log.f, 0x90);
    assert_eq!(log.next_bytes, [0x01, 0x02, 0x03, 0x04]);
}
