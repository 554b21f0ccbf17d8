use vstd::prelude::*;
use crate::graphics::object::{ObjectBuffer, ObjectBufferView};
use crate::graphics::pixel_fetcher::{PixelFetcher, PixelFetcherView, is_palette, TILE_SIZE};
use crate::memory::bus::{Bus, BusView, INTERRUPT_STAT_BIT};
use crate::cpu::interrupts::INTERRUPT_VBLANK_BIT;

verus! {

/// Cycles of one scanline.
pub const CYCLES_PER_LINE: u16 = 456;

/// Cycles of the search for objects.
pub const OBJ_SEARCH_CYCLES: u16 = 80;

/// Cycles that sending the pixels takes at least.
pub const SEND_PIXELS_CYCLES: u16 = 172;

/// Cycles that the horizontal blank takes at most.
pub const HORIZONTAL_BLANK_CYCLES: u16 = 204;

/// The first scanline of the vertical blank.
pub const VERTICAL_BLANK_LINE: u8 = 144;

pub const LCD_WIDTH: usize = 160;

pub const LCD_HEIGHT: usize = 144;

/// Number of pixels of a frame.
pub const FRAME_SIZE: usize = 23040;

/// A frame: one palette index for each pixel, row after row.
#[derive(Clone, Copy, Debug)]
pub struct PixelData(pub [u8; FRAME_SIZE]);

impl View for PixelData {
    type V = Seq<u8>;

    open spec fn view(&self) -> Seq<u8> {
        self.0@
    }
}

impl Default for PixelData {
    fn default() -> (r: Self)
        ensures
            r@ == Seq::new(FRAME_SIZE as nat, |i: int| 0u8),
    {
        let r = Self([0; FRAME_SIZE]);
        assert(r.0@ =~= Seq::new(FRAME_SIZE as nat, |i: int| 0u8));
        r
    }
}

/// The four phases that the PPU goes through on the way down the screen.
#[derive(Clone, Copy, PartialEq, Eq, Structural, Debug)]
pub enum PPUMode {
    OBJSearch,
    SendPixels,
    HorizontalBlank,
    VerticalBlank,
}

impl Default for PPUMode {
    fn default() -> (r: Self)
        ensures
            r == PPUMode::OBJSearch,
    {
        PPUMode::OBJSearch
    }
}

/// Whether a frame or nothing came out of a step, as plain values.
pub open spec fn optional_frame(frame: Option<PixelData>) -> Option<Seq<u8>> {
    match frame {
        Some(frame) => Some(frame@),
        None => None,
    }
}

/// The state of the PPU, as plain values.
pub ghost struct PpuView {
    pub mode: PPUMode,
    pub mode_timer: u16,
    pub current_frame: Seq<u8>,
    pub pixel_fetcher: PixelFetcherView,
    pub object_buffer: ObjectBufferView,
    pub screen_finished: bool,
    pub scanline_x_scroll: u8,
}

impl BusView {
    /// The bus after the PPU went over to `mode`: the status register names
    /// the mode, and the LCD status interrupt is requested where the
    /// register enables it for this mode.
    pub open spec fn update_stat_mode(self, mode: PPUMode) -> BusView {
        let io = self.io.set_stat_mode(mode);
        let conditions = io.stat_condition();
        let requested = match mode {
            PPUMode::OBJSearch => conditions.mode2,
            PPUMode::VerticalBlank => conditions.mode1,
            PPUMode::HorizontalBlank => conditions.mode0,
            PPUMode::SendPixels => false,
        };
        BusView {
            io: if requested {
                io.request(INTERRUPT_STAT_BIT)
            } else {
                io
            },
            ..self
        }
    }
}

impl PpuView {
    /// The PPU at power-on: in the vertical blank, at the end of a line.
    pub open spec fn initial() -> PpuView {
        PpuView {
            mode: PPUMode::VerticalBlank,
            mode_timer: CYCLES_PER_LINE,
            current_frame: Seq::new(FRAME_SIZE as nat, |i: int| 0u8),
            pixel_fetcher: PixelFetcherView::initial(),
            object_buffer: ObjectBufferView::empty(),
            screen_finished: false,
            scanline_x_scroll: 0,
        }
    }

    /// Cycles that the mode lasts. Sending pixels takes longer, and the
    /// horizontal blank as much less, by the pixels that the scroll
    /// register makes the output throw away.
    pub open spec fn mode_duration(self) -> u16 {
        match self.mode {
            PPUMode::OBJSearch => OBJ_SEARCH_CYCLES,
            PPUMode::SendPixels => (SEND_PIXELS_CYCLES + self.scanline_x_scroll % TILE_SIZE) as u16,
            PPUMode::HorizontalBlank => (HORIZONTAL_BLANK_CYCLES - self.scanline_x_scroll
                % TILE_SIZE) as u16,
            PPUMode::VerticalBlank => CYCLES_PER_LINE,
        }
    }

    /// Whether the mode is over, and the cycles by which it is.
    pub open spec fn check_mode_change(self) -> (bool, u16) {
        if self.mode_timer >= self.mode_duration() {
            (true, (self.mode_timer - self.mode_duration()) as u16)
        } else {
            (false, 0)
        }
    }

    /// The PPU and the bus after the PPU went over to the next mode: from
    /// the search for objects to sending pixels, with the scroll register
    /// noted; from there to the horizontal blank; from there to the next
    /// scanline, which begins with a search for objects or, at line 144,
    /// starts the vertical blank and requests its interrupt; and from a
    /// line of the vertical blank to the next, or round to line 0, where
    /// the frame is finished.
    pub open spec fn change_mode(self, bus: BusView) -> (PpuView, BusView) {
        let next_line = BusView { io: bus.io.next_line(), ..bus };
        let (ppu, bus) = match self.mode {
            PPUMode::OBJSearch => (
                PpuView {
                    mode: PPUMode::SendPixels,
                    scanline_x_scroll: bus.io.scroll_x,
                    ..self
                },
                bus,
            ),
            PPUMode::SendPixels => (PpuView { mode: PPUMode::HorizontalBlank, ..self }, bus),
            PPUMode::HorizontalBlank => if next_line.io.lcd_y == VERTICAL_BLANK_LINE {
                (
                    PpuView { mode: PPUMode::VerticalBlank, ..self },
                    BusView { io: next_line.io.request(INTERRUPT_VBLANK_BIT), ..next_line },
                )
            } else {
                (
                    PpuView {
                        mode: PPUMode::OBJSearch,
                        pixel_fetcher: self.pixel_fetcher.reset_line(next_line),
                        object_buffer: ObjectBufferView::empty(),
                        ..self
                    },
                    next_line,
                )
            },
            PPUMode::VerticalBlank => if next_line.io.lcd_y == 0 {
                (
                    PpuView {
                        mode: PPUMode::OBJSearch,
                        screen_finished: true,
                        pixel_fetcher: self.pixel_fetcher.reset_frame(next_line),
                        object_buffer: ObjectBufferView::empty(),
                        ..self
                    },
                    next_line,
                )
            } else {
                (
                    PpuView {
                        mode: PPUMode::VerticalBlank,
                        pixel_fetcher: self.pixel_fetcher.reset_line(next_line),
                        ..self
                    },
                    next_line,
                )
            },
        };
        (ppu, bus.update_stat_mode(ppu.mode))
    }

    /// The PPU after the cycles of a step were counted and, during the
    /// search for objects, given to the scan of the object memory.
    pub open spec fn count_cycles(self, t_cycles: u8, bus: BusView) -> PpuView {
        PpuView {
            mode_timer: if self.mode_timer + t_cycles > u16::MAX {
                u16::MAX
            } else {
                (self.mode_timer + t_cycles) as u16
            },
            object_buffer: if self.mode == PPUMode::OBJSearch {
                self.object_buffer.step(bus, t_cycles)
            } else {
                self.object_buffer
            },
            ..self
        }
    }

    /// The PPU after the pixel pipeline ran for `cycles` cycles.
    pub open spec fn send_pixels(self, bus: BusView, cycles: u8) -> PpuView {
        let (pixel_fetcher, current_frame) = self.pixel_fetcher.run(
            bus,
            self.object_buffer,
            self.current_frame,
            cycles as int,
        );
        PpuView { pixel_fetcher, current_frame, ..self }
    }

    /// The PPU after the pixels of the cycles by which the mode is over
    /// were sent.
    pub open spec fn finish_mode(self, bus: BusView) -> PpuView {
        let remaining = self.check_mode_change().1;
        if self.mode == PPUMode::SendPixels && remaining != 0 {
            self.send_pixels(bus, (remaining % 256) as u8)
        } else {
            self
        }
    }

    /// The PPU and the bus after the mode was changed, where it is over:
    /// the cycles by which it is over count for the next mode, and the bus
    /// gates the memories by the new mode.
    pub open spec fn advance_mode(self, bus: BusView) -> (PpuView, BusView) {
        let (should_change, remaining) = self.check_mode_change();
        if should_change {
            let (ppu, bus) = PpuView { mode_timer: remaining, ..self }.change_mode(bus);
            (ppu, BusView { ppu_mode: ppu.mode, ..bus })
        } else {
            (self, bus)
        }
    }

    /// The PPU after a finished frame was handed out, and the frame.
    pub open spec fn take_frame(self) -> (PpuView, Option<Seq<u8>>) {
        if self.screen_finished {
            (
                PpuView {
                    current_frame: Seq::new(FRAME_SIZE as nat, |i: int| 0u8),
                    screen_finished: false,
                    ..self
                },
                Some(self.current_frame),
            )
        } else {
            (self, None)
        }
    }

    /// The PPU and the bus after `t_cycles` cycles, and the frame that was
    /// finished in them, if one was. While the display is switched off
    /// nothing happens.
    pub open spec fn step(self, t_cycles: u8, bus: BusView) -> (PpuView, BusView, Option<Seq<u8>>) {
        if !bus.io.lcd_enabled() {
            (self, bus, None)
        } else {
            let counted = self.count_cycles(t_cycles, bus).finish_mode(bus);
            let (changed, bus) = counted.advance_mode(bus);
            let sent = if changed.mode == PPUMode::SendPixels {
                changed.send_pixels(bus, t_cycles)
            } else {
                changed
            };
            let (ppu, frame) = sent.take_frame();
            (ppu, bus, frame)
        }
    }
}

/// The pixel processing unit.
#[derive(Clone, Copy, Debug)]
pub struct PPU {
    mode: PPUMode,
    mode_timer: u16,
    current_frame: PixelData,
    pixel_fetcher: PixelFetcher,
    object_buffer: ObjectBuffer,
    screen_finished: bool,
    scanline_x_scroll: u8,
}

impl View for PPU {
    type V = PpuView;

    closed spec fn view(&self) -> PpuView {
        PpuView {
            mode: self.mode,
            mode_timer: self.mode_timer,
            current_frame: self.current_frame@,
            pixel_fetcher: self.pixel_fetcher@,
            object_buffer: self.object_buffer@,
            screen_finished: self.screen_finished,
            scanline_x_scroll: self.scanline_x_scroll,
        }
    }
}

impl PPU {
    pub fn init() -> (r: PPU)
        ensures
            r@ == PpuView::initial(),
            r@.pixels_valid(),
    {
        Self {
            mode: PPUMode::VerticalBlank,
            mode_timer: CYCLES_PER_LINE,
            current_frame: PixelData::default(),
            pixel_fetcher: PixelFetcher::init(),
            object_buffer: ObjectBuffer::init(),
            screen_finished: false,
            scanline_x_scroll: 0,
        }
    }

    /// The mode that the PPU is in.
    pub fn mode(&self) -> (r: PPUMode)
        ensures
            r == self@.mode,
    {
        self.mode
    }

    fn check_mode_change(&self) -> (r: (bool, u16))
        ensures
            r == self@.check_mode_change(),
    {
        let send_pixel_timer: u16 = SEND_PIXELS_CYCLES + (self.scanline_x_scroll % TILE_SIZE) as u16;
        let hblank_timer: u16 = HORIZONTAL_BLANK_CYCLES - (self.scanline_x_scroll % TILE_SIZE) as u16;
        let timer = self.mode_timer;
        let duration = match self.mode {
            PPUMode::OBJSearch => OBJ_SEARCH_CYCLES,
            PPUMode::SendPixels => send_pixel_timer,
            PPUMode::HorizontalBlank => hblank_timer,
            PPUMode::VerticalBlank => CYCLES_PER_LINE,
        };
        if timer >= duration {
            (true, timer - duration)
        } else {
            (false, 0)
        }
    }

    fn change_mode(&mut self, bus: &mut Bus)
        ensures
            final(self)@ == old(self)@.change_mode(old(bus)@).0,
            final(bus)@ == old(self)@.change_mode(old(bus)@).1,
    {
        self.mode = match self.mode {
            PPUMode::OBJSearch => {
                self.scanline_x_scroll = bus.get_scroll_x();
                PPUMode::SendPixels
            },
            PPUMode::SendPixels => PPUMode::HorizontalBlank,
            PPUMode::HorizontalBlank => {
                bus.update_line();
                if bus.current_line() == VERTICAL_BLANK_LINE {
                    bus.request_vblank_interrupt();
                    PPUMode::VerticalBlank
                } else {
                    self.pixel_fetcher.reset_line(bus);
                    self.object_buffer.reset_line();
                    PPUMode::OBJSearch
                }
            },
            PPUMode::VerticalBlank => {
                bus.update_line();
                if bus.current_line() == 0 {
                    self.screen_finished = true;
                    self.pixel_fetcher.reset_frame(bus);
                    self.object_buffer.reset_line();
                    PPUMode::OBJSearch
                } else {
                    self.pixel_fetcher.reset_line(bus);
                    PPUMode::VerticalBlank
                }
            },
        };
        self.update_stat_mode(bus);
    }

    fn update_stat_mode(&self, bus: &mut Bus)
        ensures
            final(bus)@ == old(bus)@.update_stat_mode(self@.mode),
    {
        bus.lcd_status_set_mode(self.mode);
        let stat_conditions = bus.lcd_status_condition();
        let trigger_interrupt = match self.mode {
            PPUMode::OBJSearch => stat_conditions.mode2,
            PPUMode::VerticalBlank => stat_conditions.mode1,
            PPUMode::HorizontalBlank => stat_conditions.mode0,
            PPUMode::SendPixels => false,
        };
        if trigger_interrupt {
            bus.request_stat_interrupt();
        }
    }

    fn send_pixels(&mut self, bus: &Bus, cycles: u8)
        ensures
            final(self)@ == old(self)@.send_pixels(bus@, cycles),
    {
        self.pixel_fetcher.step(bus, &self.object_buffer, cycles, &mut self.current_frame);
    }

    fn take_frame(&mut self) -> (r: Option<PixelData>)
        ensures
            final(self)@ == old(self)@.take_frame().0,
            optional_frame(r) == old(self)@.take_frame().1,
    {
        if self.screen_finished {
            let framebuffer = Some(self.current_frame);
            self.current_frame = PixelData::default();
            self.screen_finished = false;
            framebuffer
        } else {
            None
        }
    }

    /// Lets `t_cycles` cycles pass. Returns the frame where one was
    /// finished in them. The pixels of the frame are palette indices of two
    /// bits, as those are that a PPU holds from its start on.
    pub fn step(&mut self, t_cycles: u8, bus: &mut Bus) -> (r: Option<PixelData>)
        ensures
            final(self)@ == old(self)@.step(t_cycles, old(bus)@).0,
            final(bus)@ == old(self)@.step(t_cycles, old(bus)@).1,
            optional_frame(r) == old(self)@.step(t_cycles, old(bus)@).2,
            old(self)@.pixels_valid() ==> final(self)@.pixels_valid(),
            old(self)@.pixels_valid() ==> (r matches Some(frame) ==> is_palette(frame@)),
    {
        proof {
            if self@.pixels_valid() {
                self@.lemma_frames_are_palette(t_cycles, bus@);
            }
        }
        if !bus.lcd_enabled() {
            return None;
        }
        self.mode_timer = self.mode_timer.saturating_add(t_cycles as u16);
        if matches!(self.mode, PPUMode::OBJSearch) {
            self.object_buffer.step(bus, t_cycles);
        }
        let (should_change_mode, remaining_cycles) = self.check_mode_change();
        if matches!(self.mode, PPUMode::SendPixels) && remaining_cycles != 0 {
            self.send_pixels(bus, (remaining_cycles % 256) as u8);
        }
        if should_change_mode {
            self.mode_timer = remaining_cycles;
            self.change_mode(bus);
            bus.update_ppu_mode(self.mode);
        }
        if matches!(self.mode, PPUMode::SendPixels) {
            self.send_pixels(bus, t_cycles);
        }
        self.take_frame()
    }
}

/// A scanline takes 456 cycles whatever the scroll register holds: by what
/// sending the pixels takes longer, the horizontal blank is shorter.
pub proof fn lemma_line_budget(ppu: PpuView)
    ensures
        (PpuView { mode: PPUMode::OBJSearch, ..ppu }).mode_duration() + (PpuView {
            mode: PPUMode::SendPixels,
            ..ppu
        }).mode_duration() + (PpuView { mode: PPUMode::HorizontalBlank, ..ppu }).mode_duration()
            == CYCLES_PER_LINE,
        SEND_PIXELS_CYCLES <= (PpuView { mode: PPUMode::SendPixels, ..ppu }).mode_duration()
            <= SEND_PIXELS_CYCLES + 7,
        (PpuView { mode: PPUMode::VerticalBlank, ..ppu }).mode_duration() == CYCLES_PER_LINE,
{
}

/// While the display is switched off a step changes nothing and gives no
/// frame; and no step gives a frame unless one was finished.
pub proof fn lemma_no_frame(ppu: PpuView, t_cycles: u8, bus: BusView)
    ensures
        !bus.io.lcd_enabled() ==> ppu.step(t_cycles, bus) == (ppu, bus, None::<Seq<u8>>),
        ppu.step(t_cycles, bus).2 is Some ==> !ppu.step(t_cycles, bus).0.screen_finished,
{
}

impl PpuView {
    /// Whether the frame has its size and holds, like the queues of the
    /// pipeline, palette indices of two bits only.
    pub open spec fn pixels_valid(self) -> bool {
        &&& self.current_frame.len() == FRAME_SIZE
        &&& is_palette(self.current_frame)
        &&& self.pixel_fetcher.queues_valid()
    }

    /// Every frame that the PPU gives out has 160 by 144 pixels, each a
    /// palette index of two bits: this holds of the PPU at power-on, and
    /// every step keeps it.
    pub proof fn lemma_frames_are_palette(self, t_cycles: u8, bus: BusView)
        requires
            self.pixels_valid(),
        ensures
            PpuView::initial().pixels_valid(),
            self.step(t_cycles, bus).0.pixels_valid(),
            self.step(t_cycles, bus).2 matches Some(frame) ==> frame.len() == LCD_WIDTH
                * LCD_HEIGHT && is_palette(frame),
    {
        if bus.io.lcd_enabled() {
            let counted = self.count_cycles(t_cycles, bus);
            let remaining = counted.check_mode_change().1;
            counted.pixel_fetcher.lemma_run_is_palette(
                bus,
                counted.object_buffer,
                counted.current_frame,
                ((remaining % 256) as u8) as int,
            );
            let finished = counted.finish_mode(bus);
            assert(finished.pixels_valid());
            let (changed, next_bus) = finished.advance_mode(bus);
            assert(changed.pixels_valid());
            changed.pixel_fetcher.lemma_run_is_palette(
                next_bus,
                changed.object_buffer,
                changed.current_frame,
                t_cycles as int,
            );
        }
    }
}

} // verus!
