use vstd::prelude::*;
use crate::graphics::ppu::PPUMode;
use crate::memory::mem::{Addressible, Memory, MemoryView, header_is_valid, BYTE_INVALID_READ};

verus! {

pub const BUS_SIZE: usize = 0x1_0000;

pub const ROM_BANK_0_START: u16 = 0x0000;

pub const ROM_BANK_1_END: u16 = 0x7FFF;

pub const VRAM_START: u16 = 0x8000;

pub const VRAM_END: u16 = 0x9FFF;

pub const VRAM_SIZE: usize = 0x2000;

pub const EXTERNAL_RAM_START: u16 = 0xA000;

pub const EXTERNAL_RAM_END: u16 = 0xBFFF;

pub const WRAM_START: u16 = 0xC000;

pub const WRAM_END: u16 = 0xDFFF;

pub const WRAM_SIZE: usize = 0x2000;

/// First address of the range that mirrors the work RAM on the hardware and
/// that no access may reach here.
pub const PROHIBITED_START: u16 = 0xE000;

pub const PROHIBITED_END: u16 = 0xFDFF;

pub const OAM_START: u16 = 0xFE00;

pub const OAM_END: u16 = 0xFEFF;

pub const OAM_SIZE: usize = 0x100;

pub const HRAM_START: u16 = 0xFF80;

pub const HRAM_END: u16 = 0xFFFE;

pub const HRAM_SIZE: usize = 0x7F;

pub const BOOT_ROM_LENGTH: u16 = 0x0100;

pub const BOOT_ROM_SIZE: usize = 0x100;

/// JOYPAD input register address
pub const JOYP: u16 = 0xFF00;

/// SB register address
pub const SERIAL_TRANSFER_DATA: u16 = 0xFF01;

/// SC register address
pub const SERIAL_TRANSFER_CONTROL: u16 = 0xFF02;

/// DIV register address
pub const TIMER_DIVIDER: u16 = 0xFF04;

/// TIMA register address
pub const TIMER_COUNTER: u16 = 0xFF05;

/// TMA register address
pub const TIMER_MODULO: u16 = 0xFF06;

/// TAC register address
pub const TIMER_CONTROL: u16 = 0xFF07;

/// IF register address
pub const INTERRUPT_REQUESTS: u16 = 0xFF0F;

/// IE register address
pub const INTERRUPT_ENABLE: u16 = 0xFFFF;

/// LCDC register address
pub const LCD_CONTROL: u16 = 0xFF40;

/// STAT register address
pub const LCD_STAT: u16 = 0xFF41;

/// SCY register address
pub const SCROLL_Y: u16 = 0xFF42;

/// SCX register address
pub const SCROLL_X: u16 = 0xFF43;

/// LY register address
pub const LCD_Y: u16 = 0xFF44;

/// LYC register address
pub const LCD_Y_COMPARE: u16 = 0xFF45;

/// Register whose write starts a transfer into the object memory
pub const DMA_START: u16 = 0xFF46;

/// WY register address
pub const WINDOW_Y: u16 = 0xFF4A;

/// WX register address
pub const WINDOW_X: u16 = 0xFF4B;

/// Register whose write unmaps the boot ROM
pub const BOOT_DISABLE: u16 = 0xFF50;

/// Number of scanlines, the ten of the vertical blank included.
pub const SCANLINES: u8 = 154;

/// Bit of the interrupt registers that stands for the LCD status source.
pub const INTERRUPT_STAT_BIT: u8 = 0b10;

/// Whether bit `position` of `byte` is set.
pub open spec fn bit_is_set(byte: u8, position: u8) -> bool {
    byte & (1u8 << position) != 0
}

/// `byte` with bit `position` set or cleared.
pub open spec fn with_bit(byte: u8, position: u8, status: bool) -> u8 {
    if status {
        byte | (1u8 << position)
    } else {
        byte & !(1u8 << position)
    }
}

pub fn get_bit_status(byte: u8, position: u8) -> (b: bool)
    requires
        position < 8,
    ensures
        b == bit_is_set(byte, position),
{
    byte & (1u8 << position) != 0
}

pub fn set_bit_status(byte: u8, position: u8, status: bool) -> (r: u8)
    requires
        position < 8,
    ensures
        r == with_bit(byte, position, status),
{
    if status {
        byte | (1u8 << position)
    } else {
        byte & !(1u8 << position)
    }
}

/// After `with_bit` the bit reads as it was set, and every other bit as
/// before.
pub proof fn lemma_with_bit(byte: u8, position: u8, status: bool, other: u8)
    requires
        position < 8,
        other < 8,
    ensures
        bit_is_set(with_bit(byte, position, status), position) == status,
        other != position ==> bit_is_set(with_bit(byte, position, status), other) == bit_is_set(
            byte,
            other,
        ),
{
    assert(position < 8 ==> (byte | (1u8 << position)) & (1u8 << position) != 0) by (bit_vector);
    assert((byte & !(1u8 << position)) & (1u8 << position) == 0) by (bit_vector);
    assert(position < 8 && other < 8 && other != position ==> ((byte | (1u8 << position)) & (1u8
        << other) != 0) == (byte & (1u8 << other) != 0)) by (bit_vector);
    assert(position < 8 && other < 8 && other != position ==> ((byte & !(1u8 << position)) & (1u8
        << other) != 0) == (byte & (1u8 << other) != 0)) by (bit_vector);
}

/// The named bytes of the I/O register file.
#[derive(Clone, Copy, Debug)]
pub struct IORegisters {
    pub joypad: u8,
    pub serial_data: u8,
    pub serial_control: u8,
    pub timer_divider: u8,
    pub timer_counter: u8,
    pub timer_modulo: u8,
    pub timer_control: u8,
    pub interrupt_requests: u8,
    pub interrupt_enable: u8,
    pub boot_rom_disable: u8,
    pub lcd_control: u8,
    pub lcd_stat: u8,
    pub lcd_y: u8,
    pub lcd_y_compare: u8,
    pub window_y: u8,
    pub window_x: u8,
    pub scroll_y: u8,
    pub scroll_x: u8,
}

impl IORegisters {
    /// Every register zero.
    pub open spec fn zeroed() -> IORegisters {
        IORegisters {
            joypad: 0,
            serial_data: 0,
            serial_control: 0,
            timer_divider: 0,
            timer_counter: 0,
            timer_modulo: 0,
            timer_control: 0,
            interrupt_requests: 0,
            interrupt_enable: 0,
            boot_rom_disable: 0,
            lcd_control: 0,
            lcd_stat: 0,
            lcd_y: 0,
            lcd_y_compare: 0,
            window_y: 0,
            window_x: 0,
            scroll_y: 0,
            scroll_x: 0,
        }
    }

    /// The interrupt-enable register with its three unused bits read as set.
    pub open spec fn interrupt_enabled(self) -> u8 {
        self.interrupt_enable | 0xE0
    }

    /// The interrupt-flag register with its three unused bits read as set.
    pub open spec fn interrupt_flags(self) -> u8 {
        self.interrupt_requests | 0xE0
    }

    /// The sources that are both enabled and requested, one bit each.
    pub open spec fn pending(self) -> u8 {
        self.interrupt_enabled() & self.interrupt_flags() & 0x1F
    }

    /// The registers after the sources in `bit` were requested.
    pub open spec fn request(self, bit: u8) -> IORegisters {
        IORegisters { interrupt_requests: self.interrupt_flags() | bit, ..self }
    }

    /// The registers after the requests in `bit` were taken back.
    pub open spec fn acknowledge(self, bit: u8) -> IORegisters {
        IORegisters { interrupt_requests: self.interrupt_flags() & !bit, ..self }
    }

    /// Whether the scanline is the one that the compare register names.
    pub open spec fn lines_coincide(self) -> bool {
        self.lcd_y == self.lcd_y_compare
    }

    /// The registers after the coincidence of scanline and compare register
    /// was looked at: bit 2 of the status register says whether they are
    /// equal, and where they are and bit 6 of it is set, the LCD status
    /// interrupt is requested.
    pub open spec fn update_stat_lyc(self) -> IORegisters {
        let marked = IORegisters {
            lcd_stat: with_bit(self.lcd_stat, 2, self.lines_coincide()),
            ..self
        };
        if bit_is_set(marked.lcd_stat, 6) && marked.lines_coincide() {
            marked.request(INTERRUPT_STAT_BIT)
        } else {
            marked
        }
    }

    /// The registers after the scanline register was set: it counts modulo
    /// the number of scanlines.
    pub open spec fn set_lcd_y(self, value: u8) -> IORegisters {
        IORegisters { lcd_y: value % SCANLINES, ..self }
    }

    /// The registers after the PPU went on to the next scanline.
    pub open spec fn next_line(self) -> IORegisters {
        IORegisters {
            lcd_y: ((self.lcd_y + 1) % (SCANLINES as int)) as u8,
            ..self
        }.update_stat_lyc()
    }
}

impl Default for IORegisters {
    fn default() -> (r: Self)
        ensures
            r == IORegisters::zeroed(),
    {
        IORegisters {
            joypad: 0,
            serial_data: 0,
            serial_control: 0,
            timer_divider: 0,
            timer_counter: 0,
            timer_modulo: 0,
            timer_control: 0,
            interrupt_requests: 0,
            interrupt_enable: 0,
            boot_rom_disable: 0,
            lcd_control: 0,
            lcd_stat: 0,
            lcd_y: 0,
            lcd_y_compare: 0,
            window_y: 0,
            window_x: 0,
            scroll_y: 0,
            scroll_x: 0,
        }
    }
}

/// Whether `address` lies in the range that no access may reach.
pub open spec fn is_prohibited(address: u16) -> bool {
    PROHIBITED_START <= address <= PROHIBITED_END
}

pub open spec fn in_vram(address: u16) -> bool {
    VRAM_START <= address <= VRAM_END
}

pub open spec fn in_oam(address: u16) -> bool {
    OAM_START <= address <= OAM_END
}

/// The video RAM is closed to the CPU while the PPU sends pixels.
pub open spec fn vram_blocked(mode: PPUMode) -> bool {
    mode == PPUMode::SendPixels
}

/// The object memory is closed to the CPU while the PPU searches it and
/// while it sends pixels.
pub open spec fn oam_blocked(mode: PPUMode) -> bool {
    mode == PPUMode::OBJSearch || mode == PPUMode::SendPixels
}

/// Everything that can be addressed, as plain values.
pub ghost struct BusView {
    pub cartridge: MemoryView,
    pub vram: Seq<u8>,
    pub wram: Seq<u8>,
    pub oam: Seq<u8>,
    pub io: IORegisters,
    pub hram: Seq<u8>,
    pub ppu_mode: PPUMode,
    pub boot_rom: Seq<u8>,
    pub boot_rom_disabled: bool,
}

impl BusView {
    /// Every memory has its size.
    pub open spec fn wf(self) -> bool {
        &&& self.cartridge.wf()
        &&& self.vram.len() == VRAM_SIZE
        &&& self.wram.len() == WRAM_SIZE
        &&& self.oam.len() == OAM_SIZE
        &&& self.hram.len() == HRAM_SIZE
        &&& self.boot_rom.len() == BOOT_ROM_SIZE
    }

    /// The bus right after a cartridge was put in: memories zeroed, the
    /// boot ROM mapped and empty.
    pub open spec fn with_cartridge(cartridge: MemoryView) -> BusView {
        BusView {
            cartridge,
            vram: Seq::new(VRAM_SIZE as nat, |i: int| 0u8),
            wram: Seq::new(WRAM_SIZE as nat, |i: int| 0u8),
            oam: Seq::new(OAM_SIZE as nat, |i: int| 0u8),
            io: IORegisters::zeroed(),
            hram: Seq::new(HRAM_SIZE as nat, |i: int| 0u8),
            ppu_mode: PPUMode::VerticalBlank,
            boot_rom: Seq::new(BOOT_ROM_SIZE as nat, |i: int| 0u8),
            boot_rom_disabled: false,
        }
    }

    /// What a register of the I/O file reads as; 0xFF where there is none.
    pub open spec fn read_io(self, address: u16) -> u8 {
        if address == JOYP {
            self.io.joypad
        } else if address == SERIAL_TRANSFER_DATA {
            self.io.serial_data
        } else if address == SERIAL_TRANSFER_CONTROL {
            self.io.serial_control
        } else if address == TIMER_DIVIDER {
            self.io.timer_divider
        } else if address == TIMER_COUNTER {
            self.io.timer_counter
        } else if address == TIMER_MODULO {
            self.io.timer_modulo
        } else if address == TIMER_CONTROL {
            self.io.timer_control
        } else if address == INTERRUPT_REQUESTS {
            self.io.interrupt_requests
        } else if address == INTERRUPT_ENABLE {
            self.io.interrupt_enable
        } else if address == LCD_CONTROL {
            self.io.lcd_control
        } else if address == LCD_STAT {
            self.io.lcd_stat
        } else if address == LCD_Y {
            self.io.lcd_y
        } else if address == LCD_Y_COMPARE {
            self.io.lcd_y_compare
        } else if address == WINDOW_Y {
            self.io.window_y
        } else if address == WINDOW_X {
            self.io.window_x
        } else if address == SCROLL_Y {
            self.io.scroll_y
        } else if address == SCROLL_X {
            self.io.scroll_x
        } else if address == BOOT_DISABLE {
            self.io.boot_rom_disable
        } else {
            BYTE_INVALID_READ
        }
    }

    /// What the ROM area reads as: the boot ROM over the first 256 bytes
    /// while it is mapped, the cartridge elsewhere.
    pub open spec fn read_rom_area(self, address: u16) -> u8 {
        if !self.boot_rom_disabled && address < BOOT_ROM_LENGTH {
            self.boot_rom[address as int]
        } else {
            self.cartridge.read_rom(address)
        }
    }

    /// What the bus holds at `address`, whatever the PPU is doing.
    pub open spec fn read_debug(self, address: u16) -> u8 {
        if address <= ROM_BANK_1_END {
            self.read_rom_area(address)
        } else if address <= VRAM_END {
            self.vram[address - VRAM_START]
        } else if address <= EXTERNAL_RAM_END {
            self.cartridge.read_ram((address - EXTERNAL_RAM_START) as u16)
        } else if address <= WRAM_END {
            self.wram[address - WRAM_START]
        } else if address <= PROHIBITED_END {
            BYTE_INVALID_READ
        } else if address <= OAM_END {
            self.oam[address - OAM_START]
        } else if HRAM_START <= address <= HRAM_END {
            self.hram[address - HRAM_START]
        } else {
            self.read_io(address)
        }
    }

    /// Whether the PPU keeps the CPU from what lies at `address`.
    pub open spec fn blocked(self, address: u16) -> bool {
        ||| in_vram(address) && vram_blocked(self.ppu_mode)
        ||| in_oam(address) && oam_blocked(self.ppu_mode)
    }

    /// What the CPU reads at `address`: 0xFF where the PPU blocks the
    /// access, what the bus holds elsewhere.
    pub open spec fn read(self, address: u16) -> u8 {
        if self.blocked(address) {
            BYTE_INVALID_READ
        } else {
            self.read_debug(address)
        }
    }

    /// What the PPU reads at an address in the video RAM or the object
    /// memory.
    pub open spec fn ppu_read(self, address: u16) -> u8 {
        if in_vram(address) {
            self.vram[address - VRAM_START]
        } else {
            self.oam[address - OAM_START]
        }
    }

    /// The bus after a write to a register of the I/O file.
    pub open spec fn write_io(self, address: u16, byte: u8) -> BusView {
        if address == JOYP {
            BusView { io: IORegisters { joypad: byte, ..self.io }, ..self }
        } else if address == SERIAL_TRANSFER_DATA {
            BusView { io: IORegisters { serial_data: byte, ..self.io }, ..self }
        } else if address == SERIAL_TRANSFER_CONTROL {
            BusView { io: IORegisters { serial_control: byte, ..self.io }, ..self }
        } else if address == TIMER_DIVIDER {
            BusView { io: IORegisters { timer_divider: byte, ..self.io }, ..self }
        } else if address == TIMER_COUNTER {
            BusView { io: IORegisters { timer_counter: byte, ..self.io }, ..self }
        } else if address == TIMER_MODULO {
            BusView { io: IORegisters { timer_modulo: byte, ..self.io }, ..self }
        } else if address == TIMER_CONTROL {
            BusView { io: IORegisters { timer_control: byte, ..self.io }, ..self }
        } else if address == INTERRUPT_REQUESTS {
            BusView { io: IORegisters { interrupt_requests: byte, ..self.io }, ..self }
        } else if address == INTERRUPT_ENABLE {
            BusView { io: IORegisters { interrupt_enable: byte, ..self.io }, ..self }
        } else if address == LCD_CONTROL {
            BusView { io: IORegisters { lcd_control: byte, ..self.io }, ..self }
        } else if address == LCD_STAT {
            BusView { io: IORegisters { lcd_stat: byte, ..self.io }, ..self }
        } else if address == LCD_Y {
            BusView { io: self.io.set_lcd_y(byte), ..self }
        } else if address == LCD_Y_COMPARE {
            BusView {
                io: IORegisters { lcd_y_compare: byte, ..self.io }.update_stat_lyc(),
                ..self
            }
        } else if address == WINDOW_Y {
            BusView { io: IORegisters { window_y: byte, ..self.io }, ..self }
        } else if address == WINDOW_X {
            BusView { io: IORegisters { window_x: byte, ..self.io }, ..self }
        } else if address == SCROLL_Y {
            BusView { io: IORegisters { scroll_y: byte, ..self.io }, ..self }
        } else if address == SCROLL_X {
            BusView { io: IORegisters { scroll_x: byte, ..self.io }, ..self }
        } else if address == BOOT_DISABLE {
            BusView {
                io: IORegisters { boot_rom_disable: byte, ..self.io },
                boot_rom_disabled: self.boot_rom_disabled || byte != 0,
                ..self
            }
        } else {
            self
        }
    }

    /// The bus after the CPU wrote `byte` to `address`. A write into the
    /// ROM area reaches the bank controller only, and one that the PPU
    /// blocks is dropped.
    pub open spec fn write(self, address: u16, byte: u8) -> BusView {
        if address <= ROM_BANK_1_END {
            BusView { cartridge: self.cartridge.write_rom(address, byte), ..self }
        } else if self.blocked(address) {
            self
        } else if address <= VRAM_END {
            BusView { vram: self.vram.update(address - VRAM_START, byte), ..self }
        } else if address <= EXTERNAL_RAM_END {
            BusView {
                cartridge: self.cartridge.write_ram((address - EXTERNAL_RAM_START) as u16, byte),
                ..self
            }
        } else if address <= WRAM_END {
            BusView { wram: self.wram.update(address - WRAM_START, byte), ..self }
        } else if address <= PROHIBITED_END {
            self
        } else if address <= OAM_END {
            BusView { oam: self.oam.update(address - OAM_START, byte), ..self }
        } else if HRAM_START <= address <= HRAM_END {
            BusView { hram: self.hram.update(address - HRAM_START, byte), ..self }
        } else {
            self.write_io(address, byte)
        }
    }

    /// The address after `address`, going round at the end.
    pub open spec fn next(address: u16) -> u16 {
        if address == 0xFFFF {
            0
        } else {
            (address + 1) as u16
        }
    }

    /// The 16-bit value whose low byte lies at `address` and whose high
    /// byte lies behind it.
    pub open spec fn read_word(self, address: u16) -> u16 {
        (self.read(Self::next(address)) * 256 + self.read(address)) as u16
    }

    /// The bus after `word` was written low byte first.
    pub open spec fn write_word(self, address: u16, word: u16) -> BusView {
        self.write(address, (word % 256) as u8).write(Self::next(address), (word / 256) as u8)
    }

    /// The bytes from `address` on that a reader for debugging is shown:
    /// `length` of them and one more, as far as the bus reaches.
    pub open spec fn read_range_debug(self, address: u16, length: u16) -> Seq<u8> {
        let last: int = if address + length > 0xFFFF {
            0xFFFF
        } else {
            address + length
        };
        Seq::new((last - address + 1) as nat, |i: int| self.read_debug((address + i) as u16))
    }
}

/// The memory bus. It owns all storage; every component reaches it through
/// `read_byte` and `write_byte`, the PPU also through `ppu_read`.
#[derive(Debug)]
pub struct Bus {
    pub cartridge: Memory,
    pub vram: Addressible<VRAM_SIZE>,
    pub wram: Addressible<WRAM_SIZE>,
    pub oam: Addressible<OAM_SIZE>,
    pub io: IORegisters,
    pub hram: Addressible<HRAM_SIZE>,
    pub ppu_mode: PPUMode,
    /// The boot ROM lies over the first 256 bytes until it is unmapped.
    pub boot_rom: [u8; BOOT_ROM_SIZE],
    pub boot_rom_disabled: bool,
}

impl View for Bus {
    type V = BusView;

    open spec fn view(&self) -> BusView {
        BusView {
            cartridge: self.cartridge@,
            vram: self.vram@,
            wram: self.wram@,
            oam: self.oam@,
            io: self.io,
            hram: self.hram@,
            ppu_mode: self.ppu_mode,
            boot_rom: self.boot_rom@,
            boot_rom_disabled: self.boot_rom_disabled,
        }
    }
}

pub fn address_is_prohibited(address: u16) -> (b: bool)
    ensures
        b == is_prohibited(address),
{
    PROHIBITED_START <= address && address <= PROHIBITED_END
}

impl Clone for Bus {
    fn clone(&self) -> (r: Self)
        ensures
            r@ == self@,
    {
        Self {
            cartridge: self.cartridge.clone(),
            vram: self.vram.clone(),
            wram: self.wram.clone(),
            oam: self.oam.clone(),
            io: self.io,
            hram: self.hram.clone(),
            ppu_mode: self.ppu_mode,
            boot_rom: self.boot_rom,
            boot_rom_disabled: self.boot_rom_disabled,
        }
    }
}

impl Default for Bus {
    /// A bus with a blank cartridge of 32 KiB.
    fn default() -> (r: Self)
        ensures
            r@ == BusView::with_cartridge(MemoryView::blank()),
            r@.wf(),
    {
        let r = Self {
            cartridge: Memory::blank(),
            vram: Addressible::default(),
            wram: Addressible::default(),
            oam: Addressible::default(),
            io: IORegisters::default(),
            hram: Addressible::default(),
            ppu_mode: PPUMode::VerticalBlank,
            boot_rom: [0; BOOT_ROM_SIZE],
            boot_rom_disabled: false,
        };
        assert(r.boot_rom@ =~= Seq::new(BOOT_ROM_SIZE as nat, |i: int| 0u8));
        r
    }
}

impl Bus {
    /// Whether `cartridge_contents` has a header that `from_cartridge`
    /// accepts.
    pub fn accepts(cartridge_contents: &[u8]) -> (b: bool)
        ensures
            b == header_is_valid(cartridge_contents@),
    {
        Memory::accepts(cartridge_contents)
    }

    pub fn from_cartridge(cartridge_contents: &[u8]) -> (r: Self)
        requires
            header_is_valid(cartridge_contents@),
        ensures
            r@ == BusView::with_cartridge(MemoryView::from_cartridge(cartridge_contents@)),
            r@.wf(),
    {
        let r = Self {
            cartridge: Memory::init(cartridge_contents),
            vram: Addressible::default(),
            wram: Addressible::default(),
            oam: Addressible::default(),
            io: IORegisters::default(),
            hram: Addressible::default(),
            ppu_mode: PPUMode::VerticalBlank,
            boot_rom: [0; BOOT_ROM_SIZE],
            boot_rom_disabled: false,
        };
        assert(r.boot_rom@ =~= Seq::new(BOOT_ROM_SIZE as nat, |i: int| 0u8));
        r
    }

    /// Looks at the memories of the bus and finds each of its size, as it
    /// must be: a bus is always well formed.
    pub fn well_formed(&self)
        ensures
            self@.wf(),
    {
        let _ = self.cartridge.read_rom(0);
        let _ = self.vram.read(0);
        let _ = self.wram.read(0);
        let _ = self.oam.read(0);
        let _ = self.hram.read(0);
    }

    fn read_io(&self, address: u16) -> (b: u8)
        ensures
            b == self@.read_io(address),
    {
        match address {
            JOYP => self.io.joypad,
            SERIAL_TRANSFER_DATA => self.io.serial_data,
            SERIAL_TRANSFER_CONTROL => self.io.serial_control,
            TIMER_DIVIDER => self.io.timer_divider,
            TIMER_COUNTER => self.io.timer_counter,
            TIMER_MODULO => self.io.timer_modulo,
            TIMER_CONTROL => self.io.timer_control,
            INTERRUPT_REQUESTS => self.io.interrupt_requests,
            INTERRUPT_ENABLE => self.io.interrupt_enable,
            LCD_CONTROL => self.io.lcd_control,
            LCD_STAT => self.io.lcd_stat,
            LCD_Y => self.io.lcd_y,
            LCD_Y_COMPARE => self.io.lcd_y_compare,
            WINDOW_Y => self.io.window_y,
            WINDOW_X => self.io.window_x,
            SCROLL_Y => self.io.scroll_y,
            SCROLL_X => self.io.scroll_x,
            BOOT_DISABLE => self.io.boot_rom_disable,
            _ => BYTE_INVALID_READ,
        }
    }

    fn read_rom_area(&self, address: u16) -> (b: u8)
        requires
            address <= ROM_BANK_1_END,
        ensures
            b == self@.read_rom_area(address),
    {
        if !self.boot_rom_disabled && address < BOOT_ROM_LENGTH {
            self.boot_rom[address as usize]
        } else {
            self.cartridge.read_rom(address)
        }
    }

    /// Reads for the CPU. Where the PPU blocks the access the result is
    /// 0xFF, whatever is stored.
    pub fn read_byte(&self, address: u16) -> (b: u8)
        requires
            !is_prohibited(address),
        ensures
            b == self@.read(address),
    {
        match address {
            ROM_BANK_0_START..=ROM_BANK_1_END => self.read_rom_area(address),
            VRAM_START..=VRAM_END => {
                if matches!(self.ppu_mode, PPUMode::SendPixels) {
                    BYTE_INVALID_READ
                } else {
                    self.vram.read(address - VRAM_START)
                }
            },
            EXTERNAL_RAM_START..=EXTERNAL_RAM_END => self.cartridge.read_ram(
                address - EXTERNAL_RAM_START,
            ),
            WRAM_START..=WRAM_END => self.wram.read(address - WRAM_START),
            PROHIBITED_START..=PROHIBITED_END => BYTE_INVALID_READ,
            OAM_START..=OAM_END => {
                if matches!(self.ppu_mode, PPUMode::OBJSearch | PPUMode::SendPixels) {
                    BYTE_INVALID_READ
                } else {
                    self.oam.read(address - OAM_START)
                }
            },
            HRAM_START..=HRAM_END => self.hram.read(address - HRAM_START),
            _ => self.read_io(address),
        }
    }

    fn write_io(&mut self, address: u16, byte: u8)
        ensures
            final(self)@ == old(self)@.write_io(address, byte),
    {
        match address {
            JOYP => self.io.joypad = byte,
            SERIAL_TRANSFER_DATA => self.io.serial_data = byte,
            SERIAL_TRANSFER_CONTROL => self.io.serial_control = byte,
            TIMER_DIVIDER => self.io.timer_divider = byte,
            TIMER_COUNTER => self.io.timer_counter = byte,
            TIMER_MODULO => self.io.timer_modulo = byte,
            TIMER_CONTROL => self.io.timer_control = byte,
            INTERRUPT_REQUESTS => self.io.interrupt_requests = byte,
            INTERRUPT_ENABLE => self.io.interrupt_enable = byte,
            LCD_CONTROL => self.set_lcd_control(byte),
            LCD_STAT => self.set_lcd_stat(byte),
            LCD_Y => self.set_lcd_y(byte),
            LCD_Y_COMPARE => {
                self.io.lcd_y_compare = byte;
                self.update_stat_lyc();
            },
            WINDOW_Y => self.io.window_y = byte,
            WINDOW_X => self.io.window_x = byte,
            SCROLL_Y => self.io.scroll_y = byte,
            SCROLL_X => self.io.scroll_x = byte,
            BOOT_DISABLE => {
                self.boot_rom_disabled = self.boot_rom_disabled || byte != 0;
                self.io.boot_rom_disable = byte;
            },
            _ => {},
        }
    }

    /// Writes for the CPU. A write that the PPU blocks is dropped, and so
    /// is one to an address where nothing is mapped. Once the boot ROM is
    /// unmapped no write maps it again.
    pub fn write_byte(&mut self, address: u16, byte: u8)
        requires
            !is_prohibited(address),
        ensures
            final(self)@ == old(self)@.write(address, byte),
            old(self).boot_rom_disabled ==> final(self).boot_rom_disabled,
    {
        match address {
            ROM_BANK_0_START..=ROM_BANK_1_END => self.cartridge.write_rom(address, byte),
            VRAM_START..=VRAM_END => {
                if !matches!(self.ppu_mode, PPUMode::SendPixels) {
                    self.vram.write(address - VRAM_START, byte)
                }
            },
            EXTERNAL_RAM_START..=EXTERNAL_RAM_END => self.cartridge.write_ram(
                address - EXTERNAL_RAM_START,
                byte,
            ),
            WRAM_START..=WRAM_END => self.wram.write(address - WRAM_START, byte),
            PROHIBITED_START..=PROHIBITED_END => {},
            OAM_START..=OAM_END => {
                if !matches!(self.ppu_mode, PPUMode::OBJSearch | PPUMode::SendPixels) {
                    self.oam.write(address - OAM_START, byte)
                }
            },
            HRAM_START..=HRAM_END => self.hram.write(address - HRAM_START, byte),
            _ => self.write_io(address, byte),
        }
    }

    /// Reads for the PPU, which sees the video RAM and the object memory at
    /// any time.
    pub fn ppu_read(&self, address: u16) -> (b: u8)
        requires
            in_vram(address) || in_oam(address),
        ensures
            b == self@.ppu_read(address),
    {
        if address <= VRAM_END {
            self.vram.read(address - VRAM_START)
        } else {
            self.oam.read(address - OAM_START)
        }
    }

    pub fn read_byte_at_offset(&self, offset: u8) -> (b: u8)
        ensures
            b == self@.read((0xFF00 + offset) as u16),
    {
        let address = 0xFF00 + offset as u16;
        self.read_byte(address)
    }

    pub fn write_byte_at_offset(&mut self, offset: u8, byte: u8)
        ensures
            final(self)@ == old(self)@.write((0xFF00 + offset) as u16, byte),
    {
        let address = 0xFF00 + offset as u16;
        self.write_byte(address, byte);
    }

    /// Writes `word` with its low byte at `address` and its high byte at
    /// the address behind it.
    pub fn write_word(&mut self, address: u16, word: u16)
        requires
            !is_prohibited(address),
            !is_prohibited(BusView::next(address)),
        ensures
            final(self)@ == old(self)@.write_word(address, word),
    {
        let lsb = (word % 256) as u8;
        let msb = (word / 256) as u8;
        self.write_byte(address, lsb);
        self.write_byte(address.wrapping_add(1), msb);
    }

    /// Reads the word whose low byte lies at `address`.
    pub fn read_word(&self, address: u16) -> (w: u16)
        requires
            !is_prohibited(address),
            !is_prohibited(BusView::next(address)),
        ensures
            w == self@.read_word(address),
    {
        let lsb = self.read_byte(address);
        let msb = self.read_byte(address.wrapping_add(1));
        (msb as u16) * 256 + lsb as u16
    }

    pub fn update_ppu_mode(&mut self, mode: PPUMode)
        ensures
            final(self)@ == (BusView { ppu_mode: mode, ..old(self)@ }),
    {
        self.ppu_mode = mode;
    }

    /// Installs the first 256 bytes of `rom` as the boot ROM.
    pub fn write_boot_rom(&mut self, rom: &[u8])
        requires
            rom@.len() >= BOOT_ROM_LENGTH,
        ensures
            final(self)@ == (BusView {
                boot_rom: rom@.subrange(0, BOOT_ROM_LENGTH as int),
                ..old(self)@
            }),
    {
        let mut i: usize = 0;
        while i < BOOT_ROM_SIZE
            invariant
                i <= BOOT_ROM_SIZE,
                rom@.len() >= BOOT_ROM_LENGTH,
                forall|j: int| 0 <= j < i ==> self.boot_rom@[j] == rom@[j],
                self@ == (BusView { boot_rom: self.boot_rom@, ..old(self)@ }),
            decreases BOOT_ROM_SIZE - i,
        {
            self.boot_rom[i] = rom[i];
            i += 1;
        }
        assert(self.boot_rom@ =~= rom@.subrange(0, BOOT_ROM_LENGTH as int));
    }

    /// Reads without regard to the PPU and without any address being
    /// refused: for display.
    pub fn read_debug(&self, address: u16) -> (b: u8)
        ensures
            b == self@.read_debug(address),
    {
        match address {
            ROM_BANK_0_START..=ROM_BANK_1_END => self.read_rom_area(address),
            VRAM_START..=VRAM_END => self.vram.read(address - VRAM_START),
            EXTERNAL_RAM_START..=EXTERNAL_RAM_END => self.cartridge.read_ram(
                address - EXTERNAL_RAM_START,
            ),
            WRAM_START..=WRAM_END => self.wram.read(address - WRAM_START),
            PROHIBITED_START..=PROHIBITED_END => BYTE_INVALID_READ,
            OAM_START..=OAM_END => self.oam.read(address - OAM_START),
            HRAM_START..=HRAM_END => self.hram.read(address - HRAM_START),
            _ => self.read_io(address),
        }
    }

    pub fn read_range_debug(&self, address: u16, length: u16) -> (bytes: Vec<u8>)
        ensures
            bytes@ == self@.read_range_debug(address, length),
    {
        let last = address.saturating_add(length);
        let mut bytes: Vec<u8> = Vec::new();
        let mut current = address;
        while current < last
            invariant
                address <= current <= last,
                bytes@.len() == current - address,
                forall|i: int|
                    0 <= i < bytes@.len() ==> bytes@[i] == self@.read_debug((address + i) as u16),
            decreases last - current,
        {
            bytes.push(self.read_debug(current));
            current += 1;
        }
        bytes.push(self.read_debug(last));
        assert(bytes@ =~= self@.read_range_debug(address, length));
        bytes
    }
}

impl BusView {
    /// Whether `address` lies in a memory that stores what the CPU writes,
    /// and the CPU can reach it: the video RAM and the object memory while
    /// the PPU leaves them open, the external RAM while it is there and
    /// unlocked, the work RAM and the high RAM.
    pub open spec fn stores(self, address: u16) -> bool {
        ||| in_vram(address) && !vram_blocked(self.ppu_mode)
        ||| EXTERNAL_RAM_START <= address <= EXTERNAL_RAM_END && self.cartridge.ram_accessible()
        ||| WRAM_START <= address <= WRAM_END
        ||| in_oam(address) && !oam_blocked(self.ppu_mode)
        ||| HRAM_START <= address <= HRAM_END
    }

    /// A read that the PPU blocks gives 0xFF whatever is stored, and a read
    /// that it does not block gives what is stored: the mode decides, not
    /// the reads that came before.
    pub proof fn lemma_mode_decides_read(self, address: u16, mode: PPUMode)
        ensures
            self.blocked(address) ==> self.read(address) == BYTE_INVALID_READ,
            !self.blocked(address) ==> self.read(address) == self.read_debug(address),
            (BusView { ppu_mode: mode, ..self }).read_debug(address) == self.read_debug(address),
            !self.blocked(address) && !(BusView { ppu_mode: mode, ..self }).blocked(address) ==> (
            BusView { ppu_mode: mode, ..self }).read(address) == self.read(address),
    {
    }

    /// A write leaves every memory at its size and the bank controller
    /// within the banks that exist. Once the boot ROM is unmapped it stays
    /// so.
    pub proof fn lemma_write_keeps_well_formed(self, address: u16, byte: u8)
        requires
            self.wf(),
        ensures
            self.write(address, byte).wf(),
            self.boot_rom_disabled ==> self.write(address, byte).boot_rom_disabled,
            self.write(address, byte).ppu_mode == self.ppu_mode,
    {
        let banks = self.cartridge.rom_size.spec_banks();
        let mask: u16 = if banks == 0 {
            0
        } else {
            (banks - 1) as u16
        };
        assert((byte as u16) & (0x1F & mask) <= mask) by (bit_vector);
        let ram_banks = self.cartridge.ram_size.spec_banks();
        let ram_mask: u16 = if ram_banks == 0 {
            0
        } else {
            (ram_banks - 1) as u16
        };
        assert((byte as u16) & (0x03 & ram_mask) <= 3) by (bit_vector);
    }

    /// A byte written to a memory that stores is read back.
    pub proof fn lemma_write_then_read(self, address: u16, byte: u8)
        requires
            self.wf(),
            self.stores(address),
        ensures
            self.write(address, byte).read(address) == byte,
            self.write(address, byte).io == self.io,
            forall|other: u16| self.write(address, byte).stores(other) == self.stores(other),
    {
    }

    /// A word written to a memory that stores is read back.
    pub proof fn lemma_write_word_then_read_word(self, address: u16, word: u16)
        requires
            self.wf(),
            self.stores(address),
            self.stores(Self::next(address)),
        ensures
            self.write_word(address, word).read_word(address) == word,
            self.write_word(address, word).io == self.io,
    {
        let low = (word % 256) as u8;
        let high = (word / 256) as u8;
        let first = self.write(address, low);
        self.lemma_write_keeps_well_formed(address, low);
        self.lemma_write_then_read(address, low);
        first.lemma_write_then_read(Self::next(address), high);
        if EXTERNAL_RAM_START <= address < EXTERNAL_RAM_END {
            lemma_neighbours_distinct(
                (address - EXTERNAL_RAM_START) + self.cartridge.ram_bank * 0x2000,
                self.cartridge.ram.len() as int,
            );
        }
        assert(first.write(Self::next(address), high).read(address) == low);
    }
}

proof fn lemma_neighbours_distinct(x: int, length: int)
    requires
        0 <= x,
        length == 0x800 || length == 0x2000 || length == 0x8000 || length == 0x1_0000 || length
            == 0x2_0000,
    ensures
        x % length != (x + 1) % length,
{
}

impl BusView {
    /// A write into the object memory, while the PPU leaves it open, is
    /// read back, and nothing else that can be read changes.
    pub proof fn lemma_write_object_memory(self, address: u16, byte: u8)
        requires
            self.wf(),
            in_oam(address),
            !oam_blocked(self.ppu_mode),
        ensures
            self.write(address, byte).read(address) == byte,
            forall|other: u16|
                other != address ==> #[trigger] self.write(address, byte).read(other) == self.read(
                    other,
                ),
            self.write(address, byte).wf(),
            self.write(address, byte).ppu_mode == self.ppu_mode,
            self.write(address, byte).io == self.io,
    {
    }
}

impl BusView {
    /// No write changes what the ROM or the boot ROM hold: a write into the
    /// ROM area reaches the bank controller only, and there it changes
    /// nothing but the selected banks and the lock of the RAM.
    pub proof fn lemma_rom_is_never_written(self, address: u16, byte: u8)
        ensures
            self.write(address, byte).cartridge.rom == self.cartridge.rom,
            self.write(address, byte).cartridge.rom_size == self.cartridge.rom_size,
            self.write(address, byte).cartridge.ram_size == self.cartridge.ram_size,
            self.write(address, byte).boot_rom == self.boot_rom,
            address <= ROM_BANK_1_END ==> self.write(address, byte) == (BusView {
                cartridge: MemoryView {
                    rom_bank: self.write(address, byte).cartridge.rom_bank,
                    ram_bank: self.write(address, byte).cartridge.ram_bank,
                    ram_enabled: self.write(address, byte).cartridge.ram_enabled,
                    ..self.cartridge
                },
                ..self
            }),
    {
    }
}

} // verus!
