use gameboy_core::graphics::memory::{TileDataArea, TileMapArea};
use gameboy_core::graphics::ppu::PPUMode;
use gameboy_core::memory::bus::{
    address_is_prohibited, get_bit_status, set_bit_status, Bus, BOOT_DISABLE, INTERRUPT_REQUESTS,
    LCD_CONTROL, LCD_STAT, LCD_Y, LCD_Y_COMPARE, WINDOW_X,
};
use gameboy_core::memory::mem::{Addressible, Memory, RamSize, RomSize};

fn cartridge(rom_code: u8, ram_code: u8) -> Vec<u8> {
    let mut bytes = vec![0u8; 0x8000usize << rom_code];
    for (index, byte) in bytes.iter_mut().enumerate() {
        *byte = (index / 0x4000) as u8;
    }
    bytes[0x148] = rom_code;
    bytes[0x149] = ram_code;
    bytes
}

#[test]
fn header_sizes() {
    assert_eq!(RomSize::from_header(0), RomSize::Unset);
    assert_eq!(RomSize::from_header(0).bytes(), 0x8000);
    assert_eq!(RomSize::from_header(1), RomSize::Extended(0x1_0000, 4));
    assert_eq!(RomSize::from_header(5), RomSize::Extended(0x10_0000, 64));
    assert_eq!(RomSize::from_header(7), RomSize::Extended(0x40_0000, 256));
    assert_eq!(RomSize::from_header(7).banks(), 256);
    assert_eq!(RamSize::from_header(0), RamSize::Unset);
    assert_eq!(RamSize::from_header(1).bytes(), 0x800);
    assert_eq!(RamSize::from_header(2), RamSize::Extended(0x2000, 1));
    assert_eq!(RamSize::from_header(3), RamSize::Extended(0x8000, 4));
    assert_eq!(RamSize::from_header(4), RamSize::Extended(0x2_0000, 16));
    assert_eq!(RamSize::from_header(5), RamSize::Extended(0x1_0000, 8));
    assert_eq!(RamSize::from_header(5).banks(), 8);
}

#[test]
fn headers_that_are_refused() {
    assert!(Bus::accepts(&cartridge(0, 0)));
    assert!(Bus::accepts(&cartridge(7, 5)));
    assert!(!Bus::accepts(&cartridge(0, 0)[..0x149]));
    let mut bytes = cartridge(0, 0);
    bytes[0x148] = 8;
    assert!(!Memory::accepts(&bytes));
    bytes[0x148] = 0;
    bytes[0x149] = 6;
    assert!(!Memory::accepts(&bytes));
}

#[test]
fn a_short_image_is_filled_up() {
    let mut bytes = cartridge(1, 0);
    bytes.truncate(0x8000);
    let bus_with_boot = Bus::from_cartridge(&bytes);
    assert!(!bus_with_boot.boot_rom_disabled);
    let mut bus = bus_with_boot;
    bus.write_byte(BOOT_DISABLE, 1);
    assert_eq!(bus.read_byte(0x0000), 0);
    assert_eq!(bus.read_byte(0x4000), 1);
    bus.write_byte(0x2000, 2);
    assert_eq!(bus.read_byte(0x4000), 0xFF);
}

#[test]
fn rom_banks_are_switched_and_masked() {
    let mut bus = Bus::from_cartridge(&cartridge(1, 0));
    bus.write_byte(BOOT_DISABLE, 1);
    assert_eq!(bus.read_byte(0x3FFF), 0);
    assert_eq!(bus.read_byte(0x4000), 1);
    bus.write_byte(0x2000, 2);
    assert_eq!(bus.read_byte(0x4000), 2);
    assert_eq!(bus.read_byte(0x7FFF), 2);
    bus.write_byte(0x3FFF, 0);
    assert_eq!(bus.read_byte(0x4000), 1);
    bus.write_byte(0x2000, 5);
    assert_eq!(bus.read_byte(0x4000), 1);
    bus.write_byte(0x2000, 0xFF);
    assert_eq!(bus.read_byte(0x4000), 3);
    bus.write_byte(0x2000, 4);
    assert_eq!(bus.read_byte(0x4000), 1);
    // the ROM itself is never written
    bus.write_byte(0x6000, 0x55);
    bus.write_byte(0x7FFF, 0x55);
    assert_eq!(bus.read_byte(0x7FFF), 1);

    let mut large = Bus::from_cartridge(&cartridge(6, 0));
    large.write_byte(0x2000, 0x1F);
    assert_eq!(large.read_byte(0x4000), 0x1F);
    large.write_byte(0x2000, 0x3F);
    assert_eq!(large.read_byte(0x4000), 0x1F);

    let mut plain = Bus::from_cartridge(&cartridge(0, 0));
    plain.write_byte(0x2000, 3);
    assert_eq!(plain.read_byte(0x4000), 1);
    assert_eq!(plain.read_byte(0x7FFF), 1);
}

#[test]
fn external_ram_is_gated_and_banked() {
    let mut bus = Bus::from_cartridge(&cartridge(0, 3));
    bus.write_byte(0xA000, 0x55);
    assert_eq!(bus.read_byte(0xA000), 0xFF);
    bus.write_byte(0x0000, 0x0A);
    assert_eq!(bus.read_byte(0xA000), 0xFF);
    bus.write_byte(0xA000, 0x55);
    bus.write_byte(0xBFFF, 0x66);
    assert_eq!(bus.read_byte(0xA000), 0x55);
    assert_eq!(bus.read_byte(0xBFFF), 0x66);
    bus.write_byte(0x4000, 1);
    assert_eq!(bus.read_byte(0xA000), 0xFF);
    bus.write_byte(0xA000, 0x77);
    bus.write_byte(0x4000, 4);
    assert_eq!(bus.read_byte(0xA000), 0x55);
    bus.write_byte(0x4000, 5);
    assert_eq!(bus.read_byte(0xA000), 0x77);
    bus.write_byte(0x1FFF, 0x1A);
    assert_eq!(bus.read_byte(0xA000), 0x77);
    bus.write_byte(0x0000, 0x0B);
    assert_eq!(bus.read_byte(0xA000), 0xFF);
    bus.write_byte(0xA000, 0x11);
    bus.write_byte(0x0000, 0x0A);
    assert_eq!(bus.read_byte(0xA000), 0x77);

    let mut none = Bus::from_cartridge(&cartridge(0, 0));
    none.write_byte(0x0000, 0x0A);
    none.write_byte(0xA000, 0x55);
    assert_eq!(none.read_byte(0xA000), 0xFF);

    let mut small = Bus::from_cartridge(&cartridge(0, 1));
    small.write_byte(0x0000, 0x0A);
    small.write_byte(0xA000, 0x42);
    assert_eq!(small.read_byte(0xA800), 0x42);
}

#[test]
fn memories_keep_what_is_written() {
    let mut bus = Bus::default();
    for (address, byte) in [(0x8000u16, 1u8), (0x9FFF, 2), (0xC000, 3), (0xDFFF, 4), (0xFE00, 5), (0xFE9F, 6), (0xFF80, 7), (0xFFFE, 8), (0xFFFF, 9)] {
        bus.write_byte(address, byte);
        assert_eq!(bus.read_byte(address), byte);
        assert_eq!(bus.read_debug(address), byte);
    }
    assert_eq!(bus.read_byte(0xFF7F), 0xFF);
    bus.write_byte(0xFF7F, 1);
    assert_eq!(bus.read_byte(0xFF7F), 0xFF);
    bus.write_byte_at_offset(0x80, 0xAA);
    assert_eq!(bus.read_byte_at_offset(0x80), 0xAA);
    bus.write_word(0xC100, 0xBEEF);
    assert_eq!(bus.read_byte(0xC100), 0xEF);
    assert_eq!(bus.read_byte(0xC101), 0xBE);
    assert_eq!(bus.read_word(0xC100), 0xBEEF);
    bus.well_formed();
}

#[test]
fn the_mode_decides_the_sentinel() {
    let mut bus = Bus::default();
    bus.write_byte(0x8123, 0x42);
    bus.write_byte(0xFE10, 0x24);
    for mode in [PPUMode::HorizontalBlank, PPUMode::VerticalBlank] {
        bus.update_ppu_mode(mode);
        for _ in 0..3 {
            assert_eq!(bus.read_byte(0x8123), 0x42);
            assert_eq!(bus.read_byte(0xFE10), 0x24);
        }
    }
    bus.update_ppu_mode(PPUMode::OBJSearch);
    for _ in 0..3 {
        assert_eq!(bus.read_byte(0x8123), 0x42);
        assert_eq!(bus.read_byte(0xFE10), 0xFF);
    }
    bus.write_byte(0xFE10, 0x99);
    bus.update_ppu_mode(PPUMode::SendPixels);
    for _ in 0..3 {
        assert_eq!(bus.read_byte(0x8123), 0xFF);
        assert_eq!(bus.read_byte(0xFE10), 0xFF);
        assert_eq!(bus.ppu_read(0x8123), 0x42);
        assert_eq!(bus.ppu_read(0xFE10), 0x24);
        assert_eq!(bus.read_debug(0x8123), 0x42);
    }
    bus.write_byte(0x8123, 0x99);
    bus.update_ppu_mode(PPUMode::VerticalBlank);
    assert_eq!(bus.read_byte(0x8123), 0x42);
    assert_eq!(bus.read_byte(0xFE10), 0x24);
    assert_eq!(bus.read_byte(0xC000), 0x00);
}

#[test]
fn the_boot_rom_is_unmapped_for_good() {
    let mut bus = Bus::from_cartridge(&cartridge(0, 0));
    let mut boot = vec![0xAAu8; 300];
    boot[0xFF] = 0xBB;
    bus.write_boot_rom(&boot);
    assert_eq!(bus.read_byte(0x0000), 0xAA);
    assert_eq!(bus.read_byte(0x00FF), 0xBB);
    assert_eq!(bus.read_byte(0x0100), 0x00);
    bus.write_byte(BOOT_DISABLE, 0);
    assert_eq!(bus.read_byte(0x0000), 0xAA);
    bus.write_byte(BOOT_DISABLE, 1);
    assert_eq!(bus.read_byte(0x0000), 0x00);
    assert_eq!(bus.read_byte(BOOT_DISABLE), 1);
    bus.write_byte(BOOT_DISABLE, 0);
    assert_eq!(bus.read_byte(0x0000), 0x00);
    assert_eq!(bus.read_byte(BOOT_DISABLE), 0);
}

#[test]
fn scanline_registers() {
    let mut bus = Bus::default();
    bus.write_byte(LCD_Y, 153);
    assert_eq!(bus.read_byte(LCD_Y), 153);
    bus.write_byte(LCD_Y, 154);
    assert_eq!(bus.read_byte(LCD_Y), 0);
    bus.write_byte(LCD_Y, 200);
    assert_eq!(bus.get_lcd_y(), 46);
    bus.set_lcd_y(152);
    bus.update_line();
    assert_eq!(bus.current_line(), 153);
    bus.update_line();
    assert_eq!(bus.current_line(), 0);

    // the compare register marks the coincidence in bit 2 of the status
    bus.write_byte(LCD_STAT, 0x00);
    bus.write_byte(LCD_Y_COMPARE, 0);
    assert_eq!(bus.read_byte(LCD_STAT), 0x04);
    assert_eq!(bus.read_byte(INTERRUPT_REQUESTS), 0x00);
    bus.write_byte(LCD_Y_COMPARE, 1);
    assert_eq!(bus.read_byte(LCD_STAT), 0x00);
    bus.write_byte(LCD_STAT, 0x40);
    bus.update_line();
    assert_eq!(bus.read_byte(LCD_STAT), 0x44);
    assert_eq!(bus.read_byte(INTERRUPT_REQUESTS), 0xE2);
    assert!(bus.lcd_y_compare());
    bus.update_line();
    assert_eq!(bus.read_byte(LCD_STAT), 0x40);
    assert_eq!(bus.get_lcd_y_compare(), 1);
}

#[test]
fn status_modes() {
    let mut bus = Bus::default();
    bus.set_lcd_stat(0xF8);
    bus.lcd_status_set_mode(PPUMode::SendPixels);
    assert_eq!(bus.get_lcd_stat(), 0xFB);
    bus.lcd_status_set_mode(PPUMode::OBJSearch);
    assert_eq!(bus.get_lcd_stat(), 0xFA);
    bus.lcd_status_set_mode(PPUMode::VerticalBlank);
    assert_eq!(bus.get_lcd_stat(), 0xF9);
    bus.lcd_status_set_mode(PPUMode::HorizontalBlank);
    assert_eq!(bus.get_lcd_stat(), 0xF8);
    let conditions = bus.lcd_status_condition();
    assert!(conditions.lyc && conditions.mode2 && conditions.mode1 && conditions.mode0);
    bus.set_lcd_stat(0x20);
    let conditions = bus.lcd_status_condition();
    assert!(!conditions.lyc && conditions.mode2 && !conditions.mode1 && !conditions.mode0);
    bus.lcd_status_set_lyc(true);
    assert_eq!(bus.get_lcd_stat(), 0x24);
}

#[test]
fn control_register_bits() {
    let mut bus = Bus::default();
    assert!(!bus.lcd_enabled());
    bus.write_byte(LCD_CONTROL, 0x91);
    assert!(bus.lcd_enabled());
    assert!(bus.bg_window_enabled());
    assert!(!bus.window_enabled());
    assert!(!bus.objects_enabled());
    assert_eq!(bus.get_obj_size(), 8);
    assert_eq!(bus.get_bg_tile_map(), TileMapArea::Area0);
    assert_eq!(bus.get_window_tile_map(), TileMapArea::Area0);
    assert_eq!(bus.get_bg_window_tile_data_area(), TileDataArea::Method8000);
    assert_eq!(bus.get_object_tile_data_area(), TileDataArea::Method8000);
    bus.set_lcd_control(0x6E);
    assert!(!bus.lcd_enabled());
    assert!(bus.window_enabled());
    assert!(bus.objects_enabled());
    assert_eq!(bus.get_obj_size(), 16);
    assert_eq!(bus.get_bg_tile_map(), TileMapArea::Area1);
    assert_eq!(bus.get_window_tile_map(), TileMapArea::Area1);
    assert_eq!(bus.get_bg_window_tile_data_area(), TileDataArea::Method8800);
    bus.set_bg_window_tile_data_area(true);
    assert_eq!(bus.get_lcd_control(), 0x7E);
    bus.set_lcdc_bit(7, true);
    assert!(bus.get_lcdc_bit(7));
    assert_eq!(TileMapArea::Area0.start(), 0x9800);
    assert_eq!(TileMapArea::Area0.end(), 0x9BFF);
    assert_eq!(TileMapArea::Area1.start(), 0x9C00);
    assert_eq!(TileMapArea::Area1.end(), 0x9FFF);
    assert_eq!(TileDataArea::Method8000.get_tile_address(0), 0x8000);
    assert_eq!(TileDataArea::Method8000.get_tile_address(255), 0x8FF0);
    assert_eq!(TileDataArea::Method8800.get_tile_address(0), 0x9000);
    assert_eq!(TileDataArea::Method8800.get_tile_address(127), 0x97F0);
    assert_eq!(TileDataArea::Method8800.get_tile_address(128), 0x8800);
    assert_eq!(TileDataArea::Method8800.get_tile_address(255), 0x8FF0);
    bus.write_byte(WINDOW_X, 7);
    assert_eq!(bus.get_window_x(), 0);
    bus.write_byte(WINDOW_X, 3);
    assert_eq!(bus.get_window_x(), 252);
}

#[test]
fn bits() {
    assert!(get_bit_status(0x80, 7));
    assert!(!get_bit_status(0x80, 6));
    assert_eq!(set_bit_status(0x00, 3, true), 0x08);
    assert_eq!(set_bit_status(0xFF, 3, false), 0xF7);
    assert_eq!(set_bit_status(0x08, 3, true), 0x08);
}

#[test]
fn interrupt_requests() {
    let mut bus = Bus::default();
    bus.request_vblank_interrupt();
    assert_eq!(bus.read_byte(INTERRUPT_REQUESTS), 0xE1);
    bus.request_timer_interrupt();
    bus.request_joypad_interrupt();
    assert_eq!(bus.read_byte(INTERRUPT_REQUESTS), 0xF5);
    assert!(!bus.is_interrupt_pending());
    bus.write_byte(0xFFFF, 0x04);
    assert!(bus.is_interrupt_pending());
    assert_eq!(bus.get_interrupt_enabled(), 0xE4);
    bus.clear_interrupt_request(0x04);
    assert_eq!(bus.get_interrupt_flags(), 0xF1);
    assert!(!bus.is_interrupt_pending());
    bus.request_serial_interrupt();
    bus.request_stat_interrupt();
    assert_eq!(bus.get_interrupt_flags(), 0xFB);
}

#[test]
fn debug_reads() {
    let mut bus = Bus::default();
    bus.write_byte(0xC000, 1);
    bus.write_byte(0xC001, 2);
    bus.write_byte(0xC002, 3);
    assert_eq!(bus.read_range_debug(0xC000, 2), vec![1, 2, 3]);
    assert_eq!(bus.read_range_debug(0xC001, 0), vec![2]);
    assert_eq!(bus.read_range_debug(0xFFFE, 10).len(), 2);
    assert_eq!(bus.read_debug(0xE000), 0xFF);
    assert!(address_is_prohibited(0xE000));
    assert!(address_is_prohibited(0xFDFF));
    assert!(!address_is_prohibited(0xDFFF));
    assert!(!address_is_prohibited(0xFE00));
}

#[test]
fn addressable_memory() {
    let mut memory: Addressible<16> = Addressible::default();
    assert_eq!(memory.read(15), 0);
    memory.write(15, 0x42);
    assert_eq!(memory.read(15), 0x42);
    assert_eq!(memory.clone().read(15), 0x42);
    let mut cartridge = Memory::blank();
    assert_eq!(cartridge.read_rom(0x1234), 0xFF);
    assert_eq!(cartridge.read_rom(0x8000), 0xFF);
    cartridge.write_ram(0, 1);
    assert_eq!(cartridge.read_ram(0), 0xFF);
}
