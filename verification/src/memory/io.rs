use vstd::prelude::*;
use crate::memory::bus::{Bus, BusView, IORegisters, SCANLINES};

verus! {

impl Bus {
    pub fn get_lcd_control(&self) -> (r: u8)
        ensures
            r == self.io.lcd_control,
    {
        self.io.lcd_control
    }

    pub fn set_lcd_control(&mut self, value: u8)
        ensures
            final(self)@ == (BusView {
                io: IORegisters { lcd_control: value, ..old(self).io },
                ..old(self)@
            }),
    {
        self.io.lcd_control = value;
    }

    pub fn get_lcd_stat(&self) -> (r: u8)
        ensures
            r == self.io.lcd_stat,
    {
        self.io.lcd_stat
    }

    pub fn set_lcd_stat(&mut self, value: u8)
        ensures
            final(self)@ == (BusView {
                io: IORegisters { lcd_stat: value, ..old(self).io },
                ..old(self)@
            }),
    {
        self.io.lcd_stat = value;
    }

    pub fn get_lcd_y(&self) -> (r: u8)
        ensures
            r == self.io.lcd_y,
    {
        self.io.lcd_y
    }

    /// Sets the scanline register, which counts modulo 154.
    pub fn set_lcd_y(&mut self, value: u8)
        ensures
            final(self)@ == (BusView { io: old(self).io.set_lcd_y(value), ..old(self)@ }),
            final(self).io.lcd_y < SCANLINES,
    {
        self.io.lcd_y = value % SCANLINES;
    }

    pub fn get_lcd_y_compare(&self) -> (r: u8)
        ensures
            r == self.io.lcd_y_compare,
    {
        self.io.lcd_y_compare
    }

    pub fn get_window_y(&self) -> (r: u8)
        ensures
            r == self.io.window_y,
    {
        self.io.window_y
    }

    /// The screen column where the window begins: the register holds it
    /// plus 7.
    pub fn get_window_x(&self) -> (r: u8)
        ensures
            r as int == (self.io.window_x as int - 7) % 256,
    {
        self.io.window_x.wrapping_sub(7)
    }

    pub fn get_scroll_y(&self) -> (r: u8)
        ensures
            r == self.io.scroll_y,
    {
        self.io.scroll_y
    }

    pub fn get_scroll_x(&self) -> (r: u8)
        ensures
            r == self.io.scroll_x,
    {
        self.io.scroll_x
    }
}

} // verus!
