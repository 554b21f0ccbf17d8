use vstd::prelude::*;

verus! {

/// Byte that the bus yields where nothing can be read.
pub const BYTE_INVALID_READ: u8 = 0xFF;

/// Offset of the ROM size code in the cartridge header.
pub const CARTRIDGE_ROM_SIZE: u16 = 0x0148;

/// Offset of the RAM size code in the cartridge header.
pub const CARTRIDGE_RAM_SIZE: u16 = 0x0149;

pub const RAM_ENABLE_END: u16 = 0x1FFF;

pub const RAM_ENABLE_VALUE: u8 = 0x0A;

pub const ROM_BANK_NUMBER_START: u16 = 0x2000;

pub const ROM_BANK_NUMBER_END: u16 = 0x3FFF;

pub const RAM_BANK_NUMBER_START: u16 = 0x4000;

pub const RAM_BANK_NUMBER_END: u16 = 0x5FFF;

/// Size of one switchable ROM bank (16 KiB).
pub const ROM_BANK_SIZE: u16 = 0x4000;

/// Size of a cartridge without a bank controller (32 KiB).
pub const ROM_DEFAULT_SIZE: u32 = 0x8000;

/// Size of one switchable RAM bank (8 KiB).
pub const RAM_BANK_SIZE: u16 = 0x2000;

/// Number of 16 KiB banks that a ROM size code stands for: two for code 0,
/// doubling with each step.
pub open spec fn rom_banks(code: u8) -> int
    decreases code,
{
    if code == 0 {
        2
    } else {
        2 * rom_banks((code - 1) as u8)
    }
}

/// Number of bytes of external RAM that a RAM size code stands for.
pub open spec fn ram_bytes(code: u8) -> int {
    if code == 1 {
        0x800
    } else if code == 2 {
        0x2000
    } else if code == 3 {
        0x8000
    } else if code == 4 {
        0x2_0000
    } else if code == 5 {
        0x1_0000
    } else {
        0
    }
}

/// A header names a ROM size code below 8 and a RAM size code of at most 5.
pub open spec fn header_is_valid(contents: Seq<u8>) -> bool {
    &&& contents.len() > CARTRIDGE_RAM_SIZE
    &&& contents[CARTRIDGE_ROM_SIZE as int] < 8
    &&& contents[CARTRIDGE_RAM_SIZE as int] <= 5
}

#[derive(Clone, Copy, PartialEq, Eq, Structural, Debug)]
pub enum RomSize {
    /// 32 KiB, no banking.
    Unset,
    /// Total size in bytes and number of 16 KiB banks.
    Extended(u32, u16),
}

impl RomSize {
    pub open spec fn spec_from_header(value: u8) -> RomSize {
        if value == 0 {
            RomSize::Unset
        } else {
            RomSize::Extended(
                (rom_banks(value) * ROM_BANK_SIZE) as u32,
                rom_banks(value) as u16,
            )
        }
    }

    pub open spec fn spec_bytes(self) -> u32 {
        match self {
            RomSize::Unset => ROM_DEFAULT_SIZE,
            RomSize::Extended(size, _) => size,
        }
    }

    pub open spec fn spec_banks(self) -> u16 {
        match self {
            RomSize::Unset => 0,
            RomSize::Extended(_, banks) => banks,
        }
    }

    /// The size is that of a whole number of banks, between 4 and 256.
    pub open spec fn wf(self) -> bool {
        match self {
            RomSize::Unset => true,
            RomSize::Extended(size, banks) => 4 <= banks <= 256 && size == banks * ROM_BANK_SIZE,
        }
    }

    pub fn from_header(value: u8) -> (r: Self)
        requires
            value < 8,
        ensures
            r == Self::spec_from_header(value),
            r.wf(),
    {
        proof {
            reveal_with_fuel(rom_banks, 9);
        }
        match value {
            0 => Self::Unset,
            1 => Self::Extended(0x1_0000, 4),
            2 => Self::Extended(0x2_0000, 8),
            3 => Self::Extended(0x4_0000, 16),
            4 => Self::Extended(0x8_0000, 32),
            5 => Self::Extended(0x10_0000, 64),
            6 => Self::Extended(0x20_0000, 128),
            _ => Self::Extended(0x40_0000, 256),
        }
    }

    pub fn bytes(&self) -> (r: u32)
        ensures
            r == self.spec_bytes(),
    {
        match self {
            Self::Unset => ROM_DEFAULT_SIZE,
            Self::Extended(size, _) => *size,
        }
    }

    pub fn banks(&self) -> (r: u16)
        ensures
            r == self.spec_banks(),
    {
        match self {
            Self::Unset => 0,
            Self::Extended(_, banks) => *banks,
        }
    }
}

#[derive(Clone, Copy, PartialEq, Eq, Structural, Debug)]
pub enum RamSize {
    /// No external RAM.
    Unset,
    /// Total size in bytes and number of 8 KiB banks.
    Extended(u32, u16),
}

impl RamSize {
    pub open spec fn spec_from_header(value: u8) -> RamSize {
        if value == 0 || value > 5 {
            RamSize::Unset
        } else {
            RamSize::Extended(
                ram_bytes(value) as u32,
                if ram_bytes(value) <= RAM_BANK_SIZE {
                    1
                } else {
                    (ram_bytes(value) / (RAM_BANK_SIZE as int)) as u16
                },
            )
        }
    }

    pub open spec fn spec_bytes(self) -> u32 {
        match self {
            RamSize::Unset => 0,
            RamSize::Extended(size, _) => size,
        }
    }

    pub open spec fn spec_banks(self) -> u16 {
        match self {
            RamSize::Unset => 0,
            RamSize::Extended(_, banks) => banks,
        }
    }

    /// The size is one of those that a header can name.
    pub open spec fn wf(self) -> bool {
        ||| self == RamSize::Unset
        ||| self == RamSize::Extended(0x800, 1)
        ||| self == RamSize::Extended(0x2000, 1)
        ||| self == RamSize::Extended(0x8000, 4)
        ||| self == RamSize::Extended(0x2_0000, 16)
        ||| self == RamSize::Extended(0x1_0000, 8)
    }

    pub fn from_header(value: u8) -> (r: Self)
        requires
            value <= 5,
        ensures
            r == Self::spec_from_header(value),
            r.wf(),
    {
        match value {
            0 => Self::Unset,
            1 => Self::Extended(0x800, 1),
            2 => Self::Extended(0x2000, 1),
            3 => Self::Extended(0x8000, 4),
            4 => Self::Extended(0x2_0000, 16),
            _ => Self::Extended(0x1_0000, 8),
        }
    }

    pub fn bytes(&self) -> (r: u32)
        ensures
            r == self.spec_bytes(),
    {
        match self {
            Self::Unset => 0,
            Self::Extended(size, _) => *size,
        }
    }

    pub fn banks(&self) -> (r: u16)
        ensures
            r == self.spec_banks(),
    {
        match self {
            Self::Unset => 0,
            Self::Extended(_, banks) => *banks,
        }
    }
}

/// Bank that a write of `byte` to the ROM bank register selects, with
/// `banks` banks on the cartridge: the low five bits, kept below the bank
/// count, and 1 where that gives 0.
pub open spec fn selected_rom_bank(byte: u8, banks: u16) -> u16 {
    let mask: u16 = if banks == 0 {
        0
    } else {
        (banks - 1) as u16
    };
    let number = (byte as u16) & (0x1F & mask);
    if number == 0 {
        1
    } else {
        number
    }
}

/// Bank that a write of `byte` to the RAM bank register selects: the low
/// two bits, kept below the bank count.
pub open spec fn selected_ram_bank(byte: u8, banks: u16) -> u16 {
    let mask: u16 = if banks == 0 {
        0
    } else {
        (banks - 1) as u16
    };
    (byte as u16) & (0x03 & mask)
}

proof fn lemma_masked_below(value: u16, limit: u16, mask: u16)
    by (bit_vector)
    ensures
        value & (limit & mask) <= mask,
        value & (limit & mask) <= limit,
{
}

/// What the cartridge holds, as plain values.
pub ghost struct MemoryView {
    pub rom: Seq<u8>,
    pub rom_size: RomSize,
    pub rom_bank: u16,
    pub ram: Seq<u8>,
    pub ram_size: RamSize,
    pub ram_bank: u16,
    pub ram_enabled: bool,
}

impl MemoryView {
    /// The storage has the size that the header announced, and the selected
    /// banks exist.
    pub open spec fn wf(self) -> bool {
        &&& self.rom_size.wf()
        &&& self.ram_size.wf()
        &&& self.rom.len() == self.rom_size.spec_bytes()
        &&& self.ram.len() == self.ram_size.spec_bytes()
        &&& 1 <= self.rom_bank
        &&& self.rom_size is Extended ==> self.rom_bank < self.rom_size.spec_banks()
        &&& self.ram_bank < 16
    }

    /// The state right after the cartridge image was loaded: the image
    /// copied into a ROM of the announced size, the rest and the RAM filled
    /// with 0xFF, bank 1 selected, RAM locked.
    pub open spec fn from_cartridge(contents: Seq<u8>) -> MemoryView {
        let rom_size = RomSize::spec_from_header(contents[CARTRIDGE_ROM_SIZE as int]);
        let ram_size = RamSize::spec_from_header(contents[CARTRIDGE_RAM_SIZE as int]);
        MemoryView {
            rom: Seq::new(
                rom_size.spec_bytes() as nat,
                |i: int|
                    if i < contents.len() {
                        contents[i]
                    } else {
                        BYTE_INVALID_READ
                    },
            ),
            rom_size,
            rom_bank: 1,
            ram: Seq::new(ram_size.spec_bytes() as nat, |i: int| BYTE_INVALID_READ),
            ram_size,
            ram_bank: 0,
            ram_enabled: false,
        }
    }

    /// A cartridge of 32 KiB that holds 0xFF everywhere, without RAM.
    pub open spec fn blank() -> MemoryView {
        MemoryView {
            rom: Seq::new(ROM_DEFAULT_SIZE as nat, |i: int| BYTE_INVALID_READ),
            rom_size: RomSize::Unset,
            rom_bank: 1,
            ram: Seq::<u8>::empty(),
            ram_size: RamSize::Unset,
            ram_bank: 0,
            ram_enabled: false,
        }
    }

    /// Index into the ROM that a bus address in 0x0000..=0x7FFF stands for.
    pub open spec fn rom_index(self, address: u16) -> int {
        if self.rom_size is Extended && address >= ROM_BANK_SIZE {
            (address - ROM_BANK_SIZE) + self.rom_bank * ROM_BANK_SIZE
        } else {
            address as int
        }
    }

    pub open spec fn read_rom(self, address: u16) -> u8 {
        if address < 0x8000 {
            self.rom[self.rom_index(address)]
        } else {
            BYTE_INVALID_READ
        }
    }

    /// Writes into the ROM area change the banking state only.
    pub open spec fn write_rom(self, address: u16, byte: u8) -> MemoryView {
        if address <= RAM_ENABLE_END {
            MemoryView { ram_enabled: byte & 0x0F == RAM_ENABLE_VALUE, ..self }
        } else if address <= ROM_BANK_NUMBER_END {
            MemoryView {
                rom_bank: selected_rom_bank(byte, self.rom_size.spec_banks()),
                ..self
            }
        } else if address <= RAM_BANK_NUMBER_END {
            MemoryView {
                ram_bank: selected_ram_bank(byte, self.ram_size.spec_banks()),
                ..self
            }
        } else {
            self
        }
    }

    /// Whether the external RAM answers: it exists and is unlocked.
    pub open spec fn ram_accessible(self) -> bool {
        self.ram_size is Extended && self.ram_enabled
    }

    /// Index into the RAM that an offset into the external RAM window
    /// stands for.
    pub open spec fn ram_index(self, address: u16) -> int {
        (address + self.ram_bank * RAM_BANK_SIZE) % (self.ram.len() as int)
    }

    pub open spec fn read_ram(self, address: u16) -> u8 {
        if self.ram_accessible() {
            self.ram[self.ram_index(address)]
        } else {
            BYTE_INVALID_READ
        }
    }

    pub open spec fn write_ram(self, address: u16, byte: u8) -> MemoryView {
        if self.ram_accessible() {
            MemoryView { ram: self.ram.update(self.ram_index(address), byte), ..self }
        } else {
            self
        }
    }
}

/// The cartridge: ROM, external RAM and the state of the bank controller.
#[derive(Debug)]
pub struct Memory {
    rom: Vec<u8>,
    rom_size: RomSize,
    rom_bank: u16,
    ram: Vec<u8>,
    ram_size: RamSize,
    ram_bank: u16,
    ram_enabled: bool,
}

impl View for Memory {
    type V = MemoryView;

    closed spec fn view(&self) -> MemoryView {
        MemoryView {
            rom: self.rom@,
            rom_size: self.rom_size,
            rom_bank: self.rom_bank,
            ram: self.ram@,
            ram_size: self.ram_size,
            ram_bank: self.ram_bank,
            ram_enabled: self.ram_enabled,
        }
    }
}

/// A vector of `size` bytes: the first of them those of `cartridge_contents`,
/// as far as it reaches, the others 0xFF.
pub fn write_cartridge_to_rom(size: usize, cartridge_contents: &[u8]) -> (rom: Vec<u8>)
    ensures
        rom@ == Seq::new(
            size as nat,
            |i: int|
                if i < cartridge_contents@.len() {
                    cartridge_contents@[i]
                } else {
                    BYTE_INVALID_READ
                },
        ),
{
    let mut rom: Vec<u8> = Vec::new();
    let mut i: usize = 0;
    while i < size
        invariant
            i <= size,
            rom@.len() == i,
            forall|j: int|
                0 <= j < i ==> rom@[j] == if j < cartridge_contents@.len() {
                    cartridge_contents@[j]
                } else {
                    BYTE_INVALID_READ
                },
        decreases size - i,
    {
        let byte = if i < cartridge_contents.len() {
            cartridge_contents[i]
        } else {
            BYTE_INVALID_READ
        };
        rom.push(byte);
        i += 1;
    }
    assert(rom@ =~= Seq::new(
        size as nat,
        |i: int|
            if i < cartridge_contents@.len() {
                cartridge_contents@[i]
            } else {
                BYTE_INVALID_READ
            },
    ));
    rom
}

impl Clone for Memory {
    fn clone(&self) -> (r: Self)
        ensures
            r@ == self@,
    {
        proof {
            use_type_invariant(self);
        }
        Self {
            rom: self.rom.clone(),
            rom_size: self.rom_size,
            rom_bank: self.rom_bank,
            ram: self.ram.clone(),
            ram_size: self.ram_size,
            ram_bank: self.ram_bank,
            ram_enabled: self.ram_enabled,
        }
    }
}

impl Memory {
    #[verifier::type_invariant]
    spec fn inv(self) -> bool {
        self@.wf()
    }

    /// Whether `cartridge_contents` has a header that `init` accepts.
    pub fn accepts(cartridge_contents: &[u8]) -> (b: bool)
        ensures
            b == header_is_valid(cartridge_contents@),
    {
        cartridge_contents.len() > CARTRIDGE_RAM_SIZE as usize
            && cartridge_contents[CARTRIDGE_ROM_SIZE as usize] < 8
            && cartridge_contents[CARTRIDGE_RAM_SIZE as usize] <= 5
    }

    /// Loads a cartridge image: ROM and RAM get the sizes that the header
    /// names.
    pub fn init(cartridge_contents: &[u8]) -> (r: Self)
        requires
            header_is_valid(cartridge_contents@),
        ensures
            r@ == MemoryView::from_cartridge(cartridge_contents@),
            r@.wf(),
    {
        let rom_size = RomSize::from_header(cartridge_contents[CARTRIDGE_ROM_SIZE as usize]);
        let ram_size = RamSize::from_header(cartridge_contents[CARTRIDGE_RAM_SIZE as usize]);
        let rom = write_cartridge_to_rom(rom_size.bytes() as usize, cartridge_contents);
        let no_contents: [u8; 0] = [];
        let ram = write_cartridge_to_rom(ram_size.bytes() as usize, no_contents.as_slice());
        assert(ram@ =~= Seq::new(ram_size.spec_bytes() as nat, |i: int| BYTE_INVALID_READ));
        Self { rom, rom_size, rom_bank: 1, ram, ram_size, ram_bank: 0, ram_enabled: false }
    }

    /// A cartridge of 32 KiB that holds 0xFF everywhere, without RAM.
    pub fn blank() -> (r: Self)
        ensures
            r@ == MemoryView::blank(),
            r@.wf(),
    {
        let no_contents: [u8; 0] = [];
        let rom = write_cartridge_to_rom(ROM_DEFAULT_SIZE as usize, no_contents.as_slice());
        assert(rom@ =~= Seq::new(ROM_DEFAULT_SIZE as nat, |i: int| BYTE_INVALID_READ));
        Self {
            rom,
            rom_size: RomSize::Unset,
            rom_bank: 1,
            ram: Vec::new(),
            ram_size: RamSize::Unset,
            ram_bank: 0,
            ram_enabled: false,
        }
    }

    /// Reads the ROM through the bank that is selected.
    pub fn read_rom(&self, address: u16) -> (b: u8)
        ensures
            b == self@.read_rom(address),
            self@.wf(),
    {
        proof {
            use_type_invariant(self);
        }
        if address >= 0x8000 {
            return BYTE_INVALID_READ;
        }
        match self.rom_size {
            RomSize::Unset => self.rom[address as usize],
            RomSize::Extended(_, _) => {
                if address < ROM_BANK_SIZE {
                    self.rom[address as usize]
                } else {
                    let bank = self.rom_bank as usize;
                    assert(bank < 256);
                    assert(bank + 1 <= self.rom_size.spec_banks());
                    assert((bank + 1) * 0x4000 <= self.rom@.len());
                    let index = (address - ROM_BANK_SIZE) as usize + bank * 0x4000;
                    self.rom[index]
                }
            },
        }
    }

    /// Takes a write into the ROM area: it switches banks or locks the RAM,
    /// and never changes what the ROM holds.
    pub fn write_rom(&mut self, address: u16, byte: u8)
        ensures
            final(self)@ == old(self)@.write_rom(address, byte),
            final(self)@.wf(),
    {
        proof {
            use_type_invariant(&*self);
        }
        if address <= RAM_ENABLE_END {
            self.ram_enabled = (byte & 0x0F) == RAM_ENABLE_VALUE;
        } else if address <= ROM_BANK_NUMBER_END {
            let bank_mask = self.rom_size.banks().saturating_sub(1);
            let bank_number = (byte as u16) & (0x1F & bank_mask);
            proof {
                lemma_masked_below(byte as u16, 0x1F, bank_mask);
            }
            self.rom_bank = if bank_number == 0 {
                1
            } else {
                bank_number
            };
        } else if address <= RAM_BANK_NUMBER_END {
            let bank_mask = self.ram_size.banks().saturating_sub(1);
            proof {
                lemma_masked_below(byte as u16, 0x03, bank_mask);
            }
            self.ram_bank = (byte as u16) & (0x03 & bank_mask);
        }
    }

    /// Reads the external RAM through the bank that is selected; 0xFF where
    /// there is none or it is locked.
    pub fn read_ram(&self, address: u16) -> (b: u8)
        ensures
            b == self@.read_ram(address),
    {
        proof {
            use_type_invariant(self);
        }
        match self.ram_size {
            RamSize::Unset => BYTE_INVALID_READ,
            RamSize::Extended(_, _) => {
                if self.ram_enabled {
                    let index = (address as usize + (self.ram_bank as usize) * (
                    RAM_BANK_SIZE as usize)) % self.ram.len();
                    self.ram[index]
                } else {
                    BYTE_INVALID_READ
                }
            },
        }
    }

    /// Writes the external RAM through the bank that is selected; dropped
    /// where there is none or it is locked.
    pub fn write_ram(&mut self, address: u16, byte: u8)
        ensures
            final(self)@ == old(self)@.write_ram(address, byte),
            final(self)@.wf(),
    {
        proof {
            use_type_invariant(&*self);
        }
        match self.ram_size {
            RamSize::Unset => {},
            RamSize::Extended(_, _) => {
                if self.ram_enabled {
                    let index = (address as usize + (self.ram_bank as usize) * (
                    RAM_BANK_SIZE as usize)) % self.ram.len();
                    self.ram[index] = byte;
                }
            },
        }
    }
}

/// A memory of `S` bytes, addressed from 0.
#[derive(Debug)]
pub struct Addressible<const S: usize> {
    memory: [u8; S],
}

impl<const S: usize> Clone for Addressible<S> {
    fn clone(&self) -> (r: Self)
        ensures
            r@ == self@,
    {
        Self { memory: self.memory }
    }
}

impl<const S: usize> View for Addressible<S> {
    type V = Seq<u8>;

    closed spec fn view(&self) -> Seq<u8> {
        self.memory@
    }
}

impl<const S: usize> Default for Addressible<S> {
    fn default() -> (r: Self)
        ensures
            r@ == Seq::new(S as nat, |i: int| 0u8),
    {
        let r = Self { memory: [0; S] };
        assert(r.memory@ =~= Seq::new(S as nat, |i: int| 0u8));
        r
    }
}

impl<const S: usize> Addressible<S> {
    pub fn read(&self, address: u16) -> (b: u8)
        requires
            (address as int) < S,
        ensures
            b == self@[address as int],
            self@.len() == S,
    {
        self.memory[address as usize]
    }

    pub fn write(&mut self, address: u16, byte: u8)
        requires
            (address as int) < S,
        ensures
            final(self)@ == old(self)@.update(address as int, byte),
            final(self)@.len() == S,
    {
        self.memory[address as usize] = byte;
    }
}

} // verus!
