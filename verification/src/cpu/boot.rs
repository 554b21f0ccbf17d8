use vstd::prelude::*;
use crate::cpu::processor::{CPU, CpuView};
use crate::cpu::registers::{Flags, Registers};
use crate::memory::bus::{Bus, BusView, IORegisters, BOOT_ROM_LENGTH};
use crate::memory::mem::{MemoryView, header_is_valid};

verus! {

/// First byte of the cartridge header that the checksum covers.
pub const HEADER_CHECKSUM_START: u16 = 0x0134;

/// Last byte of the cartridge header that the checksum covers.
pub const HEADER_CHECKSUM_END: u16 = 0x014C;

impl BusView {
    /// The checksum of the header bytes from 0x0134 up to, not including,
    /// `end`: from 0, each byte and one more are taken away, modulo 256.
    pub open spec fn header_checksum_upto(self, end: int) -> u8
        decreases end,
    {
        if end <= HEADER_CHECKSUM_START {
            0
        } else {
            ((self.header_checksum_upto(end - 1) - self.read((end - 1) as u16) - 1) % 256) as u8
        }
    }

    /// The checksum of the cartridge header.
    pub open spec fn header_checksum(self) -> u8 {
        self.header_checksum_upto(HEADER_CHECKSUM_END + 1)
    }
}

impl CpuView {
    /// The CPU after a boot ROM was installed: its first 256 bytes lie over
    /// the start of the cartridge, and the joypad register reads as no key
    /// pressed.
    pub open spec fn load_boot_rom(self, rom: Seq<u8>) -> CpuView {
        self.with_bus(
            BusView {
                boot_rom: rom.subrange(0, BOOT_ROM_LENGTH as int),
                io: IORegisters { joypad: 0xCF, ..self.bus.io },
                ..self.bus
            },
        )
    }

    /// The CPU as the boot ROM would leave it: the boot ROM unmapped, the
    /// registers and the I/O registers at their documented values, half-carry
    /// and carry set unless the header checksum is 0.
    pub open spec fn boot_handoff(self) -> CpuView {
        let bus = BusView { boot_rom_disabled: true, ..self.bus };
        let checksum = bus.header_checksum();
        CpuView {
            registers: Registers {
                a: 0x01,
                b: 0x00,
                c: 0x13,
                d: 0x00,
                e: 0xD8,
                f: Flags {
                    zero: true,
                    negative: false,
                    half_carry: checksum != 0,
                    carry: checksum != 0,
                },
                h: 0x01,
                l: 0x4D,
                sp: 0xFFFE,
                pc: 0x0100,
            },
            bus: BusView {
                io: IORegisters {
                    joypad: 0xCF,
                    serial_data: 0x00,
                    serial_control: 0x7E,
                    timer_counter: 0x00,
                    timer_modulo: 0x00,
                    timer_control: 0xF8,
                    interrupt_requests: 0xE1,
                    interrupt_enable: 0x00,
                    lcd_control: 0x91,
                    lcd_stat: 0x85,
                    lcd_y: 0x00,
                    lcd_y_compare: 0x00,
                    window_y: 0x00,
                    window_x: 0x00,
                    scroll_y: 0x00,
                    scroll_x: 0x00,
                    ..self.bus.io
                },
                ..bus
            },
            ..self
        }
    }

    /// The CPU that starts on a cartridge: with the boot ROM mapped where
    /// one is given, else in the state in which the boot ROM hands over.
    pub open spec fn init(boot_rom: Option<Seq<u8>>, cartridge_contents: Seq<u8>) -> CpuView {
        let cpu = CpuView::around(
            BusView::with_cartridge(MemoryView::from_cartridge(cartridge_contents)),
        );
        match boot_rom {
            Some(rom) => cpu.load_boot_rom(rom),
            None => cpu.boot_handoff(),
        }
    }
}

/// The bytes of an optional slice.
pub open spec fn optional_bytes(bytes: Option<&[u8]>) -> Option<Seq<u8>> {
    match bytes {
        Some(bytes) => Some(bytes@),
        None => None,
    }
}

impl CPU {
    pub fn load_boot_rom(&mut self, boot_rom: &[u8])
        requires
            boot_rom@.len() >= BOOT_ROM_LENGTH,
        ensures
            final(self)@ == old(self)@.load_boot_rom(boot_rom@),
    {
        self.bus.write_boot_rom(boot_rom);
        // no key is pressed
        self.bus.io.joypad = 0xCF;
    }

    /// Sets the state in which the boot ROM hands over to the cartridge.
    pub fn init_boot_handoff(&mut self)
        ensures
            final(self)@ == old(self)@.boot_handoff(),
    {
        self.bus.boot_rom_disabled = true;
        self.registers.a = 0x01;
        self.registers.b = 0x00;
        self.registers.c = 0x13;
        self.registers.d = 0x00;
        self.registers.e = 0xD8;
        self.registers.h = 0x01;
        self.registers.l = 0x4D;
        self.registers.pc = 0x0100;
        self.registers.sp = 0xFFFE;
        let header_checksum = self.calculate_cartridge_header_checksum();
        self.registers.f.zero = true;
        self.registers.f.negative = false;
        self.registers.f.half_carry = header_checksum != 0;
        self.registers.f.carry = header_checksum != 0;
        self.bus.io.joypad = 0xCF;
        self.bus.io.serial_data = 0x00;
        self.bus.io.serial_control = 0x7E;
        self.bus.io.timer_counter = 0x00;
        self.bus.io.timer_modulo = 0x00;
        self.bus.io.timer_control = 0xF8;
        self.bus.io.interrupt_requests = 0xE1;
        self.bus.io.lcd_control = 0x91;
        self.bus.io.lcd_stat = 0x85;
        self.bus.io.scroll_y = 0x00;
        self.bus.io.scroll_x = 0x00;
        self.bus.io.lcd_y = 0x00;
        self.bus.io.lcd_y_compare = 0x00;
        self.bus.io.window_y = 0x00;
        self.bus.io.window_x = 0x00;
        self.bus.io.interrupt_enable = 0x00;
    }

    pub fn calculate_cartridge_header_checksum(&self) -> (checksum: u8)
        ensures
            checksum == self@.bus.header_checksum(),
    {
        let mut checksum: u8 = 0;
        let mut address: u16 = HEADER_CHECKSUM_START;
        while address <= HEADER_CHECKSUM_END
            invariant
                HEADER_CHECKSUM_START <= address <= HEADER_CHECKSUM_END + 1,
                checksum == self@.bus.header_checksum_upto(address as int),
            decreases HEADER_CHECKSUM_END + 1 - address,
        {
            checksum = checksum.wrapping_sub(self.bus.read_byte(address)).wrapping_sub(1);
            address += 1;
        }
        checksum
    }

    fn from_cartridge(cartridge_contents: &[u8]) -> (r: Self)
        requires
            header_is_valid(cartridge_contents@),
        ensures
            r@ == CpuView::around(
                BusView::with_cartridge(MemoryView::from_cartridge(cartridge_contents@)),
            ),
    {
        let mut cpu = CPU::default();
        cpu.bus = Bus::from_cartridge(cartridge_contents);
        cpu
    }

    /// Whether `init` accepts the two images: the cartridge has a valid
    /// header, and a boot ROM has at least 256 bytes.
    pub fn accepts(boot_rom: Option<&[u8]>, cartridge_contents: &[u8]) -> (b: bool)
        ensures
            b == (header_is_valid(cartridge_contents@) && (boot_rom matches Some(rom)
                ==> rom@.len() >= BOOT_ROM_LENGTH)),
    {
        Bus::accepts(cartridge_contents) && match boot_rom {
            Some(rom) => rom.len() >= BOOT_ROM_LENGTH as usize,
            None => true,
        }
    }

    /// A processor on a cartridge, with or without a boot ROM.
    pub fn init(boot_rom: Option<&[u8]>, cartridge_contents: &[u8]) -> (r: Self)
        requires
            header_is_valid(cartridge_contents@),
            boot_rom matches Some(rom) ==> rom@.len() >= BOOT_ROM_LENGTH,
        ensures
            r@ == CpuView::init(optional_bytes(boot_rom), cartridge_contents@),
    {
        let mut cpu = Self::from_cartridge(cartridge_contents);
        match boot_rom {
            Some(rom) => cpu.load_boot_rom(rom),
            None => cpu.init_boot_handoff(),
        }
        cpu
    }
}

} // verus!
