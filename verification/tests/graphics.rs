use gameboy_core::cpu::processor::CPU;
use gameboy_core::emulator::EmulatorState;
use gameboy_core::graphics::fifo::Fifo;
use gameboy_core::graphics::object::{DmgPalette, ObjectAttribute, ObjectBuffer, ObjectPriority};
use gameboy_core::graphics::pixel_fetcher::PixelFetcher;
use gameboy_core::graphics::ppu::{PPUMode, PixelData, LCD_HEIGHT, LCD_WIDTH, PPU};
use gameboy_core::memory::bus::{
    Bus, INTERRUPT_REQUESTS, LCD_CONTROL, LCD_STAT, LCD_Y, SCROLL_X, SCROLL_Y, WINDOW_X, WINDOW_Y,
};

const CYCLES_PER_FRAME: u32 = 70224;

fn object(y: u8, x: u8, tile: u8) -> ObjectAttribute {
    ObjectAttribute { y_position: y, x_position: x, tile_index: tile, attributes: 0 }
}

fn write_object(bus: &mut Bus, index: u16, object: ObjectAttribute) {
    bus.write_byte(0xFE00 + index * 4, object.y_position);
    bus.write_byte(0xFE00 + index * 4 + 1, object.x_position);
    bus.write_byte(0xFE00 + index * 4 + 2, object.tile_index);
    bus.write_byte(0xFE00 + index * 4 + 3, object.attributes);
}

/// Writes one row of a tile: the pixels have the palette index `index`.
fn write_tile_row(bus: &mut Bus, tile: u16, row: u16, index: u8) {
    bus.write_byte(0x8000 + tile * 16 + row * 2, if index & 1 != 0 { 0xFF } else { 0x00 });
    bus.write_byte(0x8000 + tile * 16 + row * 2 + 1, if index & 2 != 0 { 0xFF } else { 0x00 });
}

/// Steps until a frame comes out and returns it with the cycles that passed.
fn next_frame(ppu: &mut PPU, bus: &mut Bus) -> (PixelData, u32) {
    let mut cycles = 0;
    loop {
        cycles += 4;
        if let Some(frame) = ppu.step(4, bus) {
            return (frame, cycles);
        }
        assert!(cycles <= 2 * CYCLES_PER_FRAME);
    }
}

#[test]
fn fifo_is_first_in_first_out() {
    let mut fifo = Fifo::new();
    assert!(fifo.is_empty());
    assert!(!fifo.is_full());
    assert_eq!(fifo.len(), 0);
    assert!(fifo.pop().is_err());
    for value in 0..8u8 {
        assert_eq!(fifo.push(value), Ok(()));
    }
    assert!(fifo.is_full());
    assert_eq!(fifo.len(), 8);
    assert_eq!(fifo.push(9), Err("Queue is full"));
    assert_eq!(fifo.pop(), Ok(0));
    assert_eq!(fifo.pop(), Ok(1));
    assert_eq!(fifo.push(8), Ok(()));
    assert_eq!(fifo.push(9), Ok(()));
    for value in 2..10u8 {
        assert_eq!(fifo.pop(), Ok(value));
    }
    assert_eq!(fifo.pop(), Err("Queue is empty"));
    fifo.push(1).unwrap();
    fifo.clear();
    assert!(fifo.is_empty());
    assert_eq!(fifo.pop(), Err("Queue is empty"));
}

#[test]
fn object_attributes() {
    let plain = object(16, 8, 0);
    assert_eq!(plain.get_priority(), ObjectPriority::HIGH);
    assert!(!plain.is_x_flipped());
    assert!(!plain.is_y_flipped());
    assert_eq!(plain.get_dmg_palette(), DmgPalette::OBP0);
    let all = ObjectAttribute { attributes: 0xF0, ..plain };
    assert_eq!(all.get_priority(), ObjectPriority::LOW);
    assert!(all.is_x_flipped());
    assert!(all.is_y_flipped());
    assert_eq!(all.get_dmg_palette(), DmgPalette::OBP1);
    assert!(ObjectAttribute { attributes: 0x20, ..plain }.is_x_flipped());
    assert!(!ObjectAttribute { attributes: 0x20, ..plain }.is_y_flipped());

    // an object at Y 16 begins on the first scanline
    assert!(plain.lies_on_line(0, 8));
    assert!(plain.lies_on_line(7, 8));
    assert!(!plain.lies_on_line(8, 8));
    assert!(plain.lies_on_line(15, 16));
    assert!(!plain.lies_on_line(16, 16));
    assert!(!object(17, 8, 0).lies_on_line(0, 8));
    assert!(object(9, 8, 0).lies_on_line(0, 8));
    assert!(!object(8, 8, 0).lies_on_line(0, 8));
    assert!(object(8, 8, 0).lies_on_line(0, 16));
    assert!(object(255, 8, 0).lies_on_line(239, 8));
    // an object at X 8 begins in the first column
    assert!(plain.is_covering(0));
    assert!(plain.is_covering(7));
    assert!(!plain.is_covering(8));
    assert!(!object(16, 0, 0).is_covering(0));
    assert!(object(16, 168, 0).is_covering(160));
}

#[test]
fn the_scan_keeps_ten_objects_in_the_order_of_the_memory() {
    let mut bus = Bus::default();
    for index in 0..40u16 {
        let y = if index % 3 == 0 { 16 } else { 0 };
        write_object(&mut bus, index, object(y, 200 - index as u8, index as u8));
    }
    let mut buffer = ObjectBuffer::init();
    buffer.step(&bus, 1);
    assert_eq!(buffer.len(), 0);
    buffer.step(&bus, 1);
    assert_eq!(buffer.len(), 1);
    buffer.step(&bus, 4);
    assert_eq!(buffer.len(), 1);
    buffer.step(&bus, 2);
    assert_eq!(buffer.len(), 2);
    buffer.step(&bus, 80);
    assert_eq!(buffer.len(), 10);
    assert!(buffer.is_full());
    for position in 0..10usize {
        assert_eq!(buffer.get(position), object(16, 200 - 3 * position as u8, 3 * position as u8));
    }
    buffer.step(&bus, 80);
    assert_eq!(buffer.len(), 10);
    buffer.reset_line();
    assert_eq!(buffer.len(), 0);

    // on another scanline nothing is found
    bus.set_lcd_y(8);
    buffer.step(&bus, 80);
    assert_eq!(buffer.len(), 0);
    // with objects of two tiles the same objects reach further down
    bus.write_byte(LCD_CONTROL, 0x04);
    buffer.reset_line();
    buffer.step(&bus, 80);
    assert_eq!(buffer.len(), 10);
}

#[test]
fn the_object_buffer_is_a_queue() {
    let mut buffer = ObjectBuffer::init();
    assert_eq!(buffer.pop_front_if(|_| true), None);
    for index in 0..10u8 {
        assert_eq!(buffer.push_back(object(16, 8 + index, index)), Ok(()));
    }
    assert_eq!(buffer.push_back(object(16, 99, 99)), Err(()));
    assert_eq!(buffer.pop_front_if(|object| object.tile_index == 1), None);
    assert_eq!(buffer.len(), 10);
    assert_eq!(buffer.pop_front_if(|object| object.tile_index == 0), Some(object(16, 8, 0)));
    assert_eq!(buffer.pop_front_if(|object| object.tile_index == 1), Some(object(16, 9, 1)));
    assert_eq!(buffer.len(), 8);
    assert_eq!(buffer.push_back(object(16, 99, 99)), Ok(()));
    assert_eq!(buffer.get(0), object(16, 10, 2));
    assert_eq!(buffer.get(8), object(16, 99, 99));
}

#[test]
fn the_first_object_in_the_buffer_wins() {
    let mut buffer = ObjectBuffer::init();
    buffer.push_back(object(16, 20, 1)).unwrap();
    buffer.push_back(object(16, 16, 2)).unwrap();
    buffer.push_back(object(16, 40, 3)).unwrap();
    assert_eq!(buffer.find_covering(7), None);
    assert_eq!(buffer.find_covering(8), Some(object(16, 16, 2)));
    assert_eq!(buffer.find_covering(12), Some(object(16, 20, 1)));
    assert_eq!(buffer.find_covering(15), Some(object(16, 20, 1)));
    assert_eq!(buffer.find_covering(19), Some(object(16, 20, 1)));
    assert_eq!(buffer.find_covering(20), None);
    assert_eq!(buffer.find_covering(39), Some(object(16, 40, 3)));
}

#[test]
fn nothing_happens_while_the_display_is_off() {
    let mut bus = Bus::default();
    let mut ppu = PPU::init();
    assert_eq!(ppu.mode(), PPUMode::VerticalBlank);
    for _ in 0..(CYCLES_PER_FRAME / 4 * 2) {
        assert!(ppu.step(4, &mut bus).is_none());
    }
    assert_eq!(ppu.mode(), PPUMode::VerticalBlank);
    assert_eq!(bus.read_byte(LCD_Y), 0);
    assert_eq!(bus.read_byte(INTERRUPT_REQUESTS), 0);
}

#[test]
fn a_frame_takes_70224_cycles() {
    let mut bus = Bus::default();
    write_tile_row(&mut bus, 0, 0, 3);
    bus.write_byte(0x8000, 0x80);
    write_tile_row(&mut bus, 0, 1, 2);
    write_tile_row(&mut bus, 0, 7, 1);
    bus.write_byte(LCD_CONTROL, 0x91);
    let mut ppu = PPU::init();
    let (first, _) = next_frame(&mut ppu, &mut bus);
    assert!(first.0.iter().all(|pixel| *pixel == 0));

    let mut frames = 0;
    let mut last = None;
    for _ in 0..(CYCLES_PER_FRAME / 4 - 1) {
        assert!(ppu.step(4, &mut bus).is_none());
    }
    if let Some(frame) = ppu.step(4, &mut bus) {
        frames += 1;
        last = Some(frame);
    }
    assert_eq!(frames, 1);
    let frame = last.unwrap();
    assert_eq!(frame.0.len(), LCD_WIDTH * LCD_HEIGHT);
    // the first pixel of tile 0 has both bits set, the others only the high one
    assert_eq!(frame.0[0], 3);
    assert_eq!(frame.0[1], 2);
    assert_eq!(frame.0[7], 2);
    // tile 0 again, as the map holds 0 everywhere
    assert_eq!(frame.0[8], 3);
    assert_eq!(frame.0[LCD_WIDTH], 2);
    assert_eq!(frame.0[2 * LCD_WIDTH], 0);
    assert_eq!(frame.0[7 * LCD_WIDTH + 3], 1);
    assert_eq!(frame.0[8 * LCD_WIDTH], 3);
    assert!(frame.0.iter().all(|pixel| *pixel <= 3));

    let (_, cycles) = next_frame(&mut ppu, &mut bus);
    assert_eq!(cycles, CYCLES_PER_FRAME);
}

#[test]
fn the_modes_follow_each_other() {
    let mut bus = Bus::default();
    bus.write_byte(LCD_CONTROL, 0x91);
    let mut ppu = PPU::init();
    next_frame(&mut ppu, &mut bus);
    // the step that finished the frame began line 0 with the search for objects
    assert_eq!(ppu.mode(), PPUMode::OBJSearch);
    assert_eq!(bus.ppu_mode, PPUMode::OBJSearch);
    assert_eq!(bus.read_byte(LCD_Y), 0);
    assert_eq!(bus.read_byte(LCD_STAT) & 0x03, 2);
    let mut seen = vec![(ppu.mode(), 0u8, 0u32)];
    let mut cycles = 0u32;
    while cycles < 456 * 2 {
        ppu.step(4, &mut bus);
        cycles += 4;
        let line = bus.read_debug(LCD_Y);
        if seen.last().unwrap().0 != ppu.mode() {
            seen.push((ppu.mode(), line, cycles));
        }
    }
    assert_eq!(
        seen,
        vec![
            (PPUMode::OBJSearch, 0, 0),
            (PPUMode::SendPixels, 0, 80),
            (PPUMode::HorizontalBlank, 0, 252),
            (PPUMode::OBJSearch, 1, 456),
            (PPUMode::SendPixels, 1, 536),
            (PPUMode::HorizontalBlank, 1, 708),
            (PPUMode::OBJSearch, 2, 912),
        ]
    );
    assert_eq!(bus.read_byte(LCD_STAT) & 0x03, 2);
}

#[test]
fn the_vertical_blank_requests_its_interrupt() {
    let mut bus = Bus::default();
    bus.write_byte(LCD_CONTROL, 0x91);
    let mut ppu = PPU::init();
    next_frame(&mut ppu, &mut bus);
    bus.write_byte(INTERRUPT_REQUESTS, 0);
    // the status register asks for an interrupt at the vertical blank too
    bus.write_byte(LCD_STAT, 0x10);
    let mut cycles = 0;
    while bus.read_debug(LCD_Y) != 144 {
        assert_eq!(bus.read_debug(INTERRUPT_REQUESTS), 0);
        assert!(ppu.step(4, &mut bus).is_none());
        cycles += 4;
    }
    assert_eq!(cycles, 144 * 456);
    assert_eq!(ppu.mode(), PPUMode::VerticalBlank);
    assert_eq!(bus.read_byte(INTERRUPT_REQUESTS), 0xE3);
    assert_eq!(bus.read_byte(LCD_STAT) & 0x03, 1);
}

#[test]
fn scrolling_moves_the_background() {
    let mut bus = Bus::default();
    // tile 1 is all 1, tile 2 is all 2; the map has tile 1 in its first
    // column and tile 2 everywhere else
    for row in 0..8 {
        write_tile_row(&mut bus, 1, row, 1);
        write_tile_row(&mut bus, 2, row, 2);
    }
    for entry in 0..0x400u16 {
        bus.write_byte(0x9800 + entry, if entry % 32 == 0 { 1 } else { 2 });
    }
    bus.write_byte(LCD_CONTROL, 0x91);
    bus.write_byte(SCROLL_X, 3);
    let mut ppu = PPU::init();
    next_frame(&mut ppu, &mut bus);
    let (frame, cycles) = next_frame(&mut ppu, &mut bus);
    assert_eq!(cycles, CYCLES_PER_FRAME);
    for x in 0..5 {
        assert_eq!(frame.0[x], 1, "column {x}");
        assert_eq!(frame.0[100 * LCD_WIDTH + x], 1, "column {x}");
    }
    for x in 5..100 {
        assert_eq!(frame.0[x], 2, "column {x}");
    }

    bus.write_byte(SCROLL_X, 8);
    bus.write_byte(SCROLL_Y, 0);
    next_frame(&mut ppu, &mut bus);
    let (frame, _) = next_frame(&mut ppu, &mut bus);
    assert_eq!(frame.0[0], 2);
    assert_eq!(frame.0[31 * 8 - 1], 2);
}

#[test]
fn the_background_can_be_switched_off() {
    let mut bus = Bus::default();
    for row in 0..8 {
        write_tile_row(&mut bus, 0, row, 3);
    }
    bus.write_byte(LCD_CONTROL, 0x90);
    let mut ppu = PPU::init();
    next_frame(&mut ppu, &mut bus);
    let (frame, _) = next_frame(&mut ppu, &mut bus);
    assert!(frame.0.iter().all(|pixel| *pixel == 0));
}

#[test]
fn the_window_covers_the_background() {
    let mut bus = Bus::default();
    for row in 0..8 {
        write_tile_row(&mut bus, 1, row, 1);
        write_tile_row(&mut bus, 2, row, 2);
    }
    for entry in 0..0x400u16 {
        bus.write_byte(0x9800 + entry, 1);
        bus.write_byte(0x9C00 + entry, 2);
    }
    // window on, with the second map, from line 40 and column 80 on
    bus.write_byte(LCD_CONTROL, 0xF1);
    bus.write_byte(WINDOW_Y, 40);
    bus.write_byte(WINDOW_X, 87);
    let mut ppu = PPU::init();
    next_frame(&mut ppu, &mut bus);
    let (frame, _) = next_frame(&mut ppu, &mut bus);
    assert_eq!(frame.0[0], 1);
    assert_eq!(frame.0[39 * LCD_WIDTH + 100], 1);
    assert_eq!(frame.0[40 * LCD_WIDTH], 1);
    assert_eq!(frame.0[40 * LCD_WIDTH + 79], 1);
    assert_eq!(frame.0[40 * LCD_WIDTH + 100], 2);
    assert_eq!(frame.0[100 * LCD_WIDTH + 120], 2);
}

#[test]
fn a_fetcher_starts_asleep() {
    let mut bus = Bus::default();
    bus.write_byte(LCD_CONTROL, 0x91);
    write_tile_row(&mut bus, 0, 0, 3);
    let mut fetcher = PixelFetcher::init();
    let buffer = ObjectBuffer::init();
    let mut frame = PixelData::default();
    fetcher.reset_frame(&bus);
    // six cycles of sleep and six of fetching: nothing is drawn yet
    fetcher.step(&bus, &buffer, 12, &mut frame);
    assert!(frame.0.iter().all(|pixel| *pixel == 0));
    // the push takes two cycles, in which two pixels go out
    fetcher.step(&bus, &buffer, 2, &mut frame);
    assert_eq!(&frame.0[..4], &[3, 3, 0, 0]);
    fetcher.step(&bus, &buffer, 6, &mut frame);
    assert_eq!(&frame.0[..9], &[3, 3, 3, 3, 3, 3, 3, 3, 0]);
    fetcher.reset_line(&bus);
    fetcher.step(&bus, &buffer, 255, &mut frame);
    assert_eq!(&frame.0[..9], &[3, 3, 3, 3, 3, 3, 3, 3, 3]);
}

#[test]
fn the_machine_steps_processor_and_display() {
    let mut bytes = vec![0u8; 0x8000];
    // JR -2: a loop of one instruction
    bytes[0x100] = 0x18;
    bytes[0x101] = 0xFE;
    assert!(CPU::accepts(None, &bytes));
    let mut machine = EmulatorState::init(CPU::init(None, &bytes));
    assert!(machine.framebuffer.is_none());
    let mut cycles = 0u32;
    let mut frames = Vec::new();
    while cycles < 3 * CYCLES_PER_FRAME {
        let step = machine.step();
        assert_eq!(step, 12);
        cycles += step as u32;
        if machine.framebuffer.is_some() {
            frames.push(cycles);
        }
    }
    assert_eq!(frames.len(), 3);
    assert_eq!(frames[1] - frames[0], CYCLES_PER_FRAME);
    assert_eq!(frames[2] - frames[1], CYCLES_PER_FRAME);
    assert_eq!(machine.cpu.registers.pc, 0x0100);
    assert_eq!(machine.try_step(), Some(12));

    let mut stuck = EmulatorState::init(CPU::default());
    stuck.cpu.registers.pc = 0xE000;
    assert_eq!(stuck.try_step(), None);
}
