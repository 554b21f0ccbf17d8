use vstd::prelude::*;
use crate::graphics::ppu::PPUMode;
use crate::memory::bus::{
    Bus,
    BusView,
    IORegisters,
    bit_is_set,
    with_bit,
    get_bit_status,
    set_bit_status,
    SCANLINES,
};

verus! {

pub const LCDC_BIT_LCD_ENABLE: u8 = 7;

pub const LCDC_BIT_WINDOW_TILE_MAP: u8 = 6;

pub const LCDC_BIT_WINDOW_ENABLE: u8 = 5;

pub const LCDC_BIT_BG_WINDOW_TILE_DATA_AREA: u8 = 4;

pub const LCDC_BIT_BG_TILE_MAP: u8 = 3;

pub const LCDC_BIT_OBJ_SIZE: u8 = 2;

pub const LCDC_BIT_OBJ_ENABLE: u8 = 1;

pub const LCDC_BIT_BG_WINDOW_ENABLE: u8 = 0;

pub const LCD_STAT_BIT_LYC: u8 = 2;

/// What is added to a scanline to compare it with the Y position of an
/// object.
pub const OBJECT_SIZE: u8 = 16;

/// One of the two 32×32 tile maps in the video RAM.
#[derive(Clone, Copy, PartialEq, Eq, Structural, Debug)]
pub enum TileMapArea {
    Area0,
    Area1,
}

impl TileMapArea {
    pub open spec fn spec_start(self) -> u16 {
        match self {
            TileMapArea::Area0 => 0x9800,
            TileMapArea::Area1 => 0x9C00,
        }
    }

    pub open spec fn spec_end(self) -> u16 {
        (self.spec_start() + 0x3FF) as u16
    }

    pub fn start(&self) -> (r: u16)
        ensures
            r == self.spec_start(),
    {
        match *self {
            Self::Area0 => 0x9800,
            Self::Area1 => 0x9C00,
        }
    }

    pub fn end(&self) -> (r: u16)
        ensures
            r == self.spec_end(),
    {
        match *self {
            Self::Area0 => 0x9BFF,
            Self::Area1 => 0x9FFF,
        }
    }
}

/// The two ways in which a tile number names 16 bytes of tile data.
#[derive(Clone, Copy, PartialEq, Eq, Structural, Debug)]
pub enum TileDataArea {
    /// Tile 0 lies at 0x8000, the numbers count upwards as unsigned bytes.
    Method8000,
    /// Tile 0 lies at 0x9000, the numbers count as signed bytes.
    Method8800,
}

impl TileDataArea {
    pub open spec fn spec_tile_address(self, tile_number: u8) -> u16 {
        match self {
            TileDataArea::Method8000 => (0x8000 + tile_number * 16) as u16,
            TileDataArea::Method8800 => if tile_number < 128 {
                (0x9000 + tile_number * 16) as u16
            } else {
                (0x9000 + (tile_number - 256) * 16) as u16
            },
        }
    }

    /// The address of the first byte of a tile. It lies in the video RAM,
    /// with the other fifteen bytes of the tile behind it.
    pub fn get_tile_address(&self, tile_number: u8) -> (r: u16)
        ensures
            r == self.spec_tile_address(tile_number),
            0x8000 <= r <= 0x97F0,
    {
        match self {
            TileDataArea::Method8000 => 0x8000 + (tile_number as u16) * 16,
            TileDataArea::Method8800 => {
                if tile_number < 128 {
                    0x9000 + (tile_number as u16) * 16
                } else {
                    0x8800 + ((tile_number - 128) as u16) * 16
                }
            },
        }
    }
}

/// The four conditions under which the LCD status interrupt is requested,
/// as the status register enables them.
#[derive(Clone, Copy, Debug)]
pub struct StatCondition {
    pub lyc: bool,
    pub mode2: bool,
    pub mode1: bool,
    pub mode0: bool,
}

/// The two bits by which the status register names a mode.
pub open spec fn mode_bits(mode: PPUMode) -> u8 {
    match mode {
        PPUMode::OBJSearch => 0b10,
        PPUMode::SendPixels => 0b11,
        PPUMode::HorizontalBlank => 0,
        PPUMode::VerticalBlank => 0b1,
    }
}

impl IORegisters {
    pub open spec fn lcdc_bit(self, position: u8) -> bool {
        bit_is_set(self.lcd_control, position)
    }

    pub open spec fn lcd_enabled(self) -> bool {
        self.lcdc_bit(LCDC_BIT_LCD_ENABLE)
    }

    pub open spec fn window_enabled(self) -> bool {
        self.lcdc_bit(LCDC_BIT_WINDOW_ENABLE)
    }

    pub open spec fn objects_enabled(self) -> bool {
        self.lcdc_bit(LCDC_BIT_OBJ_ENABLE)
    }

    pub open spec fn bg_window_enabled(self) -> bool {
        self.lcdc_bit(LCDC_BIT_BG_WINDOW_ENABLE)
    }

    pub open spec fn window_tile_map(self) -> TileMapArea {
        if self.lcdc_bit(LCDC_BIT_WINDOW_TILE_MAP) {
            TileMapArea::Area1
        } else {
            TileMapArea::Area0
        }
    }

    pub open spec fn bg_tile_map(self) -> TileMapArea {
        if self.lcdc_bit(LCDC_BIT_BG_TILE_MAP) {
            TileMapArea::Area1
        } else {
            TileMapArea::Area0
        }
    }

    pub open spec fn bg_window_tile_data_area(self) -> TileDataArea {
        if self.lcdc_bit(LCDC_BIT_BG_WINDOW_TILE_DATA_AREA) {
            TileDataArea::Method8000
        } else {
            TileDataArea::Method8800
        }
    }

    /// Height of the objects in pixels: 8, or 16 where two tiles are
    /// stacked.
    pub open spec fn obj_size(self) -> u8 {
        if self.lcdc_bit(LCDC_BIT_OBJ_SIZE) {
            16
        } else {
            8
        }
    }

    pub open spec fn stat_condition(self) -> StatCondition {
        StatCondition {
            lyc: bit_is_set(self.lcd_stat, 6),
            mode2: bit_is_set(self.lcd_stat, 5),
            mode1: bit_is_set(self.lcd_stat, 4),
            mode0: bit_is_set(self.lcd_stat, 3),
        }
    }

    /// The registers after the status register was told the mode.
    pub open spec fn set_stat_mode(self, mode: PPUMode) -> IORegisters {
        IORegisters { lcd_stat: (self.lcd_stat & 0xFC) | mode_bits(mode), ..self }
    }
}

impl Bus {
    pub fn get_lcdc_bit(&self, position: u8) -> (b: bool)
        requires
            position < 8,
        ensures
            b == self.io.lcdc_bit(position),
    {
        get_bit_status(self.get_lcd_control(), position)
    }

    pub fn set_lcdc_bit(&mut self, position: u8, status: bool)
        requires
            position < 8,
        ensures
            final(self)@ == (BusView {
                io: IORegisters {
                    lcd_control: with_bit(old(self).io.lcd_control, position, status),
                    ..old(self).io
                },
                ..old(self)@
            }),
    {
        let current = self.get_lcd_control();
        let new = set_bit_status(current, position, status);
        self.set_lcd_control(new)
    }

    /// LCDC.7: whether LCD and PPU are enabled
    pub fn lcd_enabled(&self) -> (b: bool)
        ensures
            b == self.io.lcd_enabled(),
    {
        self.get_lcdc_bit(LCDC_BIT_LCD_ENABLE)
    }

    /// LCDC.5: whether the window is enabled
    pub fn window_enabled(&self) -> (b: bool)
        ensures
            b == self.io.window_enabled(),
    {
        self.get_lcdc_bit(LCDC_BIT_WINDOW_ENABLE)
    }

    /// LCDC.6: the tile map of the window
    pub fn get_window_tile_map(&self) -> (r: TileMapArea)
        ensures
            r == self.io.window_tile_map(),
    {
        if self.get_lcdc_bit(LCDC_BIT_WINDOW_TILE_MAP) {
            TileMapArea::Area1
        } else {
            TileMapArea::Area0
        }
    }

    /// LCDC.3: the tile map of the background
    pub fn get_bg_tile_map(&self) -> (r: TileMapArea)
        ensures
            r == self.io.bg_tile_map(),
    {
        if self.get_lcdc_bit(LCDC_BIT_BG_TILE_MAP) {
            TileMapArea::Area1
        } else {
            TileMapArea::Area0
        }
    }

    /// LCDC.4: how window and background name their tile data
    pub fn get_bg_window_tile_data_area(&self) -> (r: TileDataArea)
        ensures
            r == self.io.bg_window_tile_data_area(),
    {
        if self.get_lcdc_bit(LCDC_BIT_BG_WINDOW_TILE_DATA_AREA) {
            TileDataArea::Method8000
        } else {
            TileDataArea::Method8800
        }
    }

    /// LCDC.4: sets how window and background name their tile data
    pub fn set_bg_window_tile_data_area(&mut self, status: bool)
        ensures
            final(self)@ == (BusView {
                io: IORegisters {
                    lcd_control: with_bit(
                        old(self).io.lcd_control,
                        LCDC_BIT_BG_WINDOW_TILE_DATA_AREA,
                        status,
                    ),
                    ..old(self).io
                },
                ..old(self)@
            }),
    {
        self.set_lcdc_bit(LCDC_BIT_BG_WINDOW_TILE_DATA_AREA, status)
    }

    /// Objects always name their tile data from 0x8000 on.
    pub fn get_object_tile_data_area(&self) -> (r: TileDataArea)
        ensures
            r == TileDataArea::Method8000,
    {
        TileDataArea::Method8000
    }

    /// LCDC.2: the height of all objects (one tile, or two stacked)
    pub fn get_obj_size(&self) -> (r: u8)
        ensures
            r == self.io.obj_size(),
    {
        if self.get_lcdc_bit(LCDC_BIT_OBJ_SIZE) {
            16
        } else {
            8
        }
    }

    /// LCDC.1: whether objects are displayed
    pub fn objects_enabled(&self) -> (b: bool)
        ensures
            b == self.io.objects_enabled(),
    {
        self.get_lcdc_bit(LCDC_BIT_OBJ_ENABLE)
    }

    /// LCDC.0: whether background and window are displayed
    pub fn bg_window_enabled(&self) -> (b: bool)
        ensures
            b == self.io.bg_window_enabled(),
    {
        self.get_lcdc_bit(LCDC_BIT_BG_WINDOW_ENABLE)
    }

    pub fn lcd_status_condition(&self) -> (r: StatCondition)
        ensures
            r == self.io.stat_condition(),
    {
        let stat = self.get_lcd_stat();
        StatCondition {
            lyc: get_bit_status(stat, 6),
            mode2: get_bit_status(stat, 5),
            mode1: get_bit_status(stat, 4),
            mode0: get_bit_status(stat, 3),
        }
    }

    pub fn lcd_status_set_lyc(&mut self, condition: bool)
        ensures
            final(self)@ == (BusView {
                io: IORegisters {
                    lcd_stat: with_bit(old(self).io.lcd_stat, LCD_STAT_BIT_LYC, condition),
                    ..old(self).io
                },
                ..old(self)@
            }),
    {
        let value = set_bit_status(self.get_lcd_stat(), LCD_STAT_BIT_LYC, condition);
        self.set_lcd_stat(value);
    }

    /// Writes the mode into the two low bits of the status register.
    pub fn lcd_status_set_mode(&mut self, mode: PPUMode)
        ensures
            final(self)@ == (BusView { io: old(self).io.set_stat_mode(mode), ..old(self)@ }),
    {
        let value: u8 = match mode {
            PPUMode::OBJSearch => 0b10,
            PPUMode::SendPixels => 0b11,
            PPUMode::HorizontalBlank => 0,
            PPUMode::VerticalBlank => 0b1,
        };
        let current = self.get_lcd_stat();
        self.set_lcd_stat((current & 0xFC) | value);
    }

    /// Goes on to the next scanline, round to 0 after the last, and looks
    /// at the coincidence with the compare register.
    pub fn update_line(&mut self)
        ensures
            final(self)@ == (BusView { io: old(self).io.next_line(), ..old(self)@ }),
            final(self).io.lcd_y < SCANLINES,
    {
        let next = ((self.get_lcd_y() as u16 + 1) % (SCANLINES as u16)) as u8;
        self.io.lcd_y = next;
        self.update_stat_lyc();
    }

    pub fn current_line(&self) -> (r: u8)
        ensures
            r == self.io.lcd_y,
    {
        self.get_lcd_y()
    }

    pub fn lcd_y_compare(&self) -> (b: bool)
        ensures
            b == self.io.lines_coincide(),
    {
        self.get_lcd_y() == self.get_lcd_y_compare()
    }

    /// Marks in the status register whether the scanline is the one of the
    /// compare register, and requests the LCD status interrupt where it is
    /// and the register enables that.
    pub fn update_stat_lyc(&mut self)
        ensures
            final(self)@ == (BusView { io: old(self).io.update_stat_lyc(), ..old(self)@ }),
            final(self).io.lcd_y == old(self).io.lcd_y,
    {
        self.lcd_status_set_lyc(self.lcd_y_compare());
        if self.lcd_status_condition().lyc && self.lcd_y_compare() {
            self.request_stat_interrupt();
        }
    }
}

} // verus!
