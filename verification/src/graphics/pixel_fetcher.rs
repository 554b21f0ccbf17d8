use vstd::prelude::*;
use crate::graphics::fifo::{Fifo, FIFO_CAPACITY};
use crate::graphics::memory::TileDataArea;
use crate::graphics::object::{ObjectAttribute, ObjectBuffer, ObjectBufferView};
use crate::graphics::ppu::{PixelData, FRAME_SIZE, LCD_HEIGHT, LCD_WIDTH};
use crate::memory::bus::{Bus, BusView, VRAM_END, VRAM_START};

verus! {

pub const TILE_SIZE: u8 = 8;

/// Cycles that the fetcher sleeps at the start of a scanline.
pub const INITIAL_SLEEP: u8 = 6;

/// What the fetcher does next.
#[derive(Clone, Copy, PartialEq, Eq, Structural, Debug)]
pub enum PixelFetcherStep {
    GetTile,
    GetTileDataLow,
    GetTileDataHigh,
    Sleep(u8),
    Push,
}

/// What the fetcher fetches tiles for.
#[derive(Clone, Copy, PartialEq, Eq, Structural, Debug)]
pub enum FetchMode {
    Background,
    Window,
    Object(ObjectAttribute),
}

/// The pixel number `i` of a tile row, from the left, out of the two bytes
/// of the row: its high bit from `high`, its low bit from `low`.
pub open spec fn tile_pixel(low: u8, high: u8, i: u8) -> u8 {
    (((high >> ((7 - i) as u8)) & 1) << 1u8) | ((low >> ((7 - i) as u8)) & 1)
}

/// A pixel is a palette index of two bits.
pub proof fn lemma_tile_pixel(low: u8, high: u8, i: u8)
    requires
        i < 8,
    ensures
        tile_pixel(low, high, i) <= 3,
{
    let shift = (7 - i) as u8;
    assert((((high >> shift) & 1) << 1u8) | ((low >> shift) & 1) <= 3) by (bit_vector);
}

/// A queue after `value` was pushed, unless it is full.
pub open spec fn push_bounded(queue: Seq<u8>, value: u8) -> Seq<u8> {
    if queue.len() < FIFO_CAPACITY {
        queue.push(value)
    } else {
        queue
    }
}

/// A queue after the first `count` pixels of a tile row were pushed, as far
/// as there was room.
pub open spec fn push_row(queue: Seq<u8>, low: u8, high: u8, count: nat) -> Seq<u8>
    decreases count,
{
    if count == 0 {
        queue
    } else {
        push_bounded(
            push_row(queue, low, high, (count - 1) as nat),
            tile_pixel(low, high, (count - 1) as u8),
        )
    }
}

/// The state of the pixel pipeline, as plain values.
pub ghost struct PixelFetcherView {
    pub current_step: PixelFetcherStep,
    pub current_line: u8,
    pub fetch_mode: FetchMode,
    pub fetcher_x: u8,
    pub tile_number: u8,
    pub window_line_counter: u8,
    pub tile_data_address: u16,
    pub tile_data_low: u8,
    pub tile_data_high: u8,
    pub discard_counter: u8,
    pub background_queue: Seq<u8>,
    pub sprite_queue: Seq<u8>,
    pub render_x: u8,
}

impl PixelFetcherView {
    /// The pipeline at the start of a frame.
    pub open spec fn initial() -> PixelFetcherView {
        PixelFetcherView {
            current_step: PixelFetcherStep::Sleep(INITIAL_SLEEP),
            current_line: 0,
            fetch_mode: FetchMode::Background,
            fetcher_x: 0,
            tile_number: 0,
            window_line_counter: 0,
            tile_data_address: VRAM_START,
            tile_data_low: 0,
            tile_data_high: 0,
            discard_counter: 0,
            background_queue: Seq::empty(),
            sprite_queue: Seq::empty(),
            render_x: 0,
        }
    }

    /// The pipeline at the start of the first scanline of a frame.
    pub open spec fn reset_frame(self, bus: BusView) -> PixelFetcherView {
        PixelFetcherView {
            current_line: bus.io.lcd_y,
            discard_counter: bus.io.scroll_x % TILE_SIZE,
            ..Self::initial()
        }
    }

    /// The pipeline at the start of another scanline: the window has one
    /// line more behind it if it was drawn on the last one.
    pub open spec fn reset_line(self, bus: BusView) -> PixelFetcherView {
        PixelFetcherView {
            window_line_counter: if self.fetch_mode == FetchMode::Window {
                ((self.window_line_counter + 1) % 256) as u8
            } else {
                self.window_line_counter
            },
            ..self.reset_frame(bus)
        }
    }

    /// The address in the tile map where the number of the next tile
    /// stands. For the background it follows from the position of the
    /// fetcher and the scroll registers, for the window from the lines and
    /// tiles of the window so far; either way it lies in a map of 32 by 32
    /// tiles.
    pub open spec fn tile_map_address(self, bus: BusView) -> u16 {
        if self.fetch_mode == FetchMode::Window {
            (bus.io.window_tile_map().spec_start() + (self.window_line_counter / TILE_SIZE) * 32
                + self.fetcher_x % 32) as u16
        } else {
            (bus.io.bg_tile_map().spec_start() + (((self.current_line + bus.io.scroll_y) % 256)
                / (TILE_SIZE as int)) * 32 + (self.fetcher_x + bus.io.scroll_x / TILE_SIZE) % 32) as u16
        }
    }

    /// The number of the tile that is fetched next.
    pub open spec fn fetch_tile_number(self, bus: BusView) -> u8 {
        match self.fetch_mode {
            FetchMode::Object(object) => object.tile_index,
            _ => bus.ppu_read(self.tile_map_address(bus)),
        }
    }

    /// The row of the tile that the scanline crosses.
    pub open spec fn tile_row(self, bus: BusView) -> u8 {
        match self.fetch_mode {
            FetchMode::Background => (((self.current_line + bus.io.scroll_y) % 256) % (
            TILE_SIZE as int)) as u8,
            FetchMode::Window => self.window_line_counter % TILE_SIZE,
            FetchMode::Object(_) => 0,
        }
    }

    /// The address of the low byte of the tile row that is fetched next.
    pub open spec fn tile_row_address(self, bus: BusView) -> u16 {
        let area = match self.fetch_mode {
            FetchMode::Object(_) => TileDataArea::Method8000,
            _ => bus.io.bg_window_tile_data_area(),
        };
        (area.spec_tile_address(self.tile_number) + 2 * self.tile_row(bus)) as u16
    }

    /// Whether the fetched row can be pushed: a row of an object always, a
    /// row of background or window once the queue has run empty.
    pub open spec fn push_is_allowed(self) -> bool {
        self.fetch_mode is Object || self.background_queue.len() == 0
    }

    /// The pipeline after the fetched row was pushed to the queue that it
    /// is for.
    pub open spec fn push_pixel_data_to_queue(self) -> PixelFetcherView {
        let fetcher_x = ((self.fetcher_x + 1) % 256) as u8;
        if self.fetch_mode is Object {
            PixelFetcherView {
                sprite_queue: push_row(
                    self.sprite_queue,
                    self.tile_data_low,
                    self.tile_data_high,
                    8,
                ),
                fetcher_x,
                ..self
            }
        } else {
            PixelFetcherView {
                background_queue: push_row(
                    self.background_queue,
                    self.tile_data_low,
                    self.tile_data_high,
                    8,
                ),
                fetcher_x,
                ..self
            }
        }
    }

    /// The pipeline after the fetcher did what is next, and the cycles that
    /// this takes: it sleeps, fetches the tile number, the low byte, the
    /// high byte, or pushes the row.
    pub open spec fn step_subtask(self, bus: BusView) -> (PixelFetcherView, u8) {
        match self.current_step {
            PixelFetcherStep::Sleep(counter) => if counter <= 1 {
                (PixelFetcherView { current_step: PixelFetcherStep::GetTile, ..self }, 1)
            } else {
                (
                    PixelFetcherView {
                        current_step: PixelFetcherStep::Sleep((counter - 1) as u8),
                        ..self
                    },
                    1,
                )
            },
            PixelFetcherStep::GetTile => (
                PixelFetcherView {
                    tile_number: self.fetch_tile_number(bus),
                    current_step: PixelFetcherStep::GetTileDataLow,
                    ..self
                },
                2,
            ),
            PixelFetcherStep::GetTileDataLow => (
                PixelFetcherView {
                    tile_data_address: self.tile_row_address(bus),
                    tile_data_low: bus.ppu_read(self.tile_row_address(bus)),
                    current_step: PixelFetcherStep::GetTileDataHigh,
                    ..self
                },
                2,
            ),
            PixelFetcherStep::GetTileDataHigh => (
                PixelFetcherView {
                    tile_data_high: bus.ppu_read((self.tile_data_address + 1) as u16),
                    current_step: PixelFetcherStep::Push,
                    ..self
                },
                2,
            ),
            PixelFetcherStep::Push => if self.push_is_allowed() {
                (
                    PixelFetcherView {
                        current_step: PixelFetcherStep::GetTile,
                        ..self.push_pixel_data_to_queue()
                    },
                    2,
                )
            } else {
                (self, 1)
            },
        }
    }

    /// Whether a pixel can be put on the screen: one is waiting, none is
    /// to be thrown away, and the position lies on the screen.
    pub open spec fn draws(self) -> bool {
        &&& self.background_queue.len() > 0
        &&& self.discard_counter == 0
        &&& self.render_x < LCD_WIDTH
        &&& self.current_line < LCD_HEIGHT
    }

    /// The pixel that goes to the screen: that of the object where one
    /// waits and is not transparent, else that of the background, which is
    /// 0 while background and window are switched off.
    pub open spec fn mixed_pixel(self, bus: BusView) -> u8 {
        if self.sprite_queue.len() > 0 && self.sprite_queue[0] != 0 {
            self.sprite_queue[0]
        } else if bus.io.bg_window_enabled() {
            self.background_queue[0]
        } else {
            0
        }
    }

    /// The position in the frame where the next pixel goes.
    pub open spec fn frame_index(self) -> int {
        self.current_line * LCD_WIDTH + self.render_x
    }

    /// The frame after one cycle of output.
    pub open spec fn frame_after_pixel(self, bus: BusView, frame: Seq<u8>) -> Seq<u8> {
        if self.draws() {
            frame.update(self.frame_index(), self.mixed_pixel(bus))
        } else {
            frame
        }
    }

    /// The pipeline after one cycle of output. A waiting background pixel
    /// leaves its queue: thrown away while pixels are to be thrown away at
    /// the start of the scanline, dropped beyond the screen, else put on
    /// the screen together with the object pixel that waits.
    pub open spec fn try_push_pixel_to_screen(self, bus: BusView) -> PixelFetcherView {
        if self.background_queue.len() == 0 {
            self
        } else if self.discard_counter > 0 {
            PixelFetcherView {
                background_queue: self.background_queue.drop_first(),
                discard_counter: (self.discard_counter - 1) as u8,
                ..self
            }
        } else if !self.draws() {
            PixelFetcherView { background_queue: self.background_queue.drop_first(), ..self }
        } else {
            PixelFetcherView {
                background_queue: self.background_queue.drop_first(),
                sprite_queue: if self.sprite_queue.len() > 0 {
                    self.sprite_queue.drop_first()
                } else {
                    self.sprite_queue
                },
                render_x: (self.render_x + 1) as u8,
                ..self
            }
        }
    }

    /// Whether the output has reached the window: it is switched on, and
    /// scanline and column have come to where it begins.
    pub open spec fn window_reached(self, bus: BusView) -> bool {
        &&& bus.io.window_enabled()
        &&& bus.io.window_y <= self.current_line
        &&& (bus.io.window_x - 7) % 256 <= self.render_x
    }

    /// The pipeline after the fetcher turned to the window, which it does
    /// once: the background queue is emptied and the fetcher starts at the
    /// first tile of the window.
    pub open spec fn set_window_fetch_mode(self) -> PixelFetcherView {
        if self.fetch_mode == FetchMode::Window {
            self
        } else {
            PixelFetcherView {
                fetch_mode: FetchMode::Window,
                fetcher_x: 0,
                current_step: PixelFetcherStep::GetTile,
                background_queue: Seq::empty(),
                ..self
            }
        }
    }

    /// The pipeline after the fetcher turned to an object, unless it is at
    /// one already.
    pub open spec fn set_object_fetch_mode(self, object: ObjectAttribute) -> PixelFetcherView {
        if self.fetch_mode is Object {
            self
        } else {
            PixelFetcherView {
                fetch_mode: FetchMode::Object(object),
                current_step: PixelFetcherStep::GetTile,
                ..self
            }
        }
    }

    /// The pipeline after the fetcher, about to get a tile, looked for an
    /// object at the column of the output: it turns to the first object of
    /// the buffer that covers the column, and back to the background where
    /// there is none.
    pub open spec fn select_object(self, objects: ObjectBufferView) -> PixelFetcherView {
        match objects.first_covering(self.render_x) {
            Some(object) => self.set_object_fetch_mode(object),
            None => if self.fetch_mode is Object {
                PixelFetcherView { fetch_mode: FetchMode::Background, ..self }
            } else {
                self
            },
        }
    }

    /// Whether the cycle of output that begins in this state ends the
    /// cycles of the subtask: a pixel went to the screen and the output has
    /// reached the window.
    pub open spec fn tick_stops(self, bus: BusView, objects: ObjectBufferView) -> bool {
        self.draws() && self.tick_before_window(bus, objects).window_reached(bus)
    }

    /// The pipeline after a cycle of output and the look for an object,
    /// before the look for the window.
    pub open spec fn tick_before_window(
        self,
        bus: BusView,
        objects: ObjectBufferView,
    ) -> PixelFetcherView {
        let pushed = self.try_push_pixel_to_screen(bus);
        if pushed.current_step == PixelFetcherStep::GetTile {
            pushed.select_object(objects)
        } else {
            pushed
        }
    }

    /// The pipeline after one cycle.
    pub open spec fn tick(self, bus: BusView, objects: ObjectBufferView) -> PixelFetcherView {
        if self.tick_stops(bus, objects) {
            self.tick_before_window(bus, objects).set_window_fetch_mode()
        } else {
            self.tick_before_window(bus, objects)
        }
    }

    /// The pipeline and the frame after up to `count` cycles: they end
    /// early where the output reaches the window.
    pub open spec fn ticks(
        self,
        bus: BusView,
        objects: ObjectBufferView,
        frame: Seq<u8>,
        count: nat,
    ) -> (PixelFetcherView, Seq<u8>)
        decreases count,
    {
        if count == 0 {
            (self, frame)
        } else if self.tick_stops(bus, objects) {
            (self.tick(bus, objects), self.frame_after_pixel(bus, frame))
        } else {
            self.tick(bus, objects).ticks(
                bus,
                objects,
                self.frame_after_pixel(bus, frame),
                (count - 1) as nat,
            )
        }
    }

    /// The pipeline and the frame after the fetcher ran for `budget`
    /// cycles: it does what is next, the output runs for the cycles that
    /// this takes, and so on until the budget is used up.
    pub open spec fn run(
        self,
        bus: BusView,
        objects: ObjectBufferView,
        frame: Seq<u8>,
        budget: int,
    ) -> (PixelFetcherView, Seq<u8>)
        decreases budget,
    {
        if budget <= 0 {
            (self, frame)
        } else {
            let (fetched, spent) = self.step_subtask(bus);
            let (after, drawn) = fetched.ticks(bus, objects, frame, spent as nat);
            if 1 <= spent < budget {
                after.run(bus, objects, drawn, budget - spent)
            } else {
                (after, drawn)
            }
        }
    }
}

/// The pixel pipeline: a fetcher that reads tile rows into two queues, and
/// an output that mixes the queues into the frame, one pixel per cycle.
#[derive(Clone, Copy, Debug)]
pub struct PixelFetcher {
    current_step: PixelFetcherStep,
    current_line: u8,
    /// Tile number fetching
    fetch_mode: FetchMode,
    fetcher_x: u8,
    tile_number: u8,
    window_line_counter: u8,
    /// Temporary tile data
    tile_data_address: u16,
    tile_data_low: u8,
    tile_data_high: u8,
    /// Keeps track of how many pixels need to be discarded at the start of scanline
    discard_counter: u8,
    /// FIFO queues
    background_queue: Fifo,
    sprite_queue: Fifo,
    render_x: u8,
}

impl View for PixelFetcher {
    type V = PixelFetcherView;

    closed spec fn view(&self) -> PixelFetcherView {
        PixelFetcherView {
            current_step: self.current_step,
            current_line: self.current_line,
            fetch_mode: self.fetch_mode,
            fetcher_x: self.fetcher_x,
            tile_number: self.tile_number,
            window_line_counter: self.window_line_counter,
            tile_data_address: self.tile_data_address,
            tile_data_low: self.tile_data_low,
            tile_data_high: self.tile_data_high,
            discard_counter: self.discard_counter,
            background_queue: self.background_queue@,
            sprite_queue: self.sprite_queue@,
            render_x: self.render_x,
        }
    }
}

impl PixelFetcher {
    #[verifier::type_invariant]
    spec fn inv(self) -> bool {
        VRAM_START <= self.tile_data_address < VRAM_END && self.render_x <= LCD_WIDTH
    }

    pub fn init() -> (r: Self)
        ensures
            r@ == PixelFetcherView::initial(),
    {
        Self {
            current_step: PixelFetcherStep::Sleep(INITIAL_SLEEP),
            current_line: 0,
            fetch_mode: FetchMode::Background,
            fetcher_x: 0,
            tile_number: 0,
            window_line_counter: 0,
            tile_data_address: VRAM_START,
            tile_data_low: 0,
            tile_data_high: 0,
            discard_counter: 0,
            background_queue: Fifo::new(),
            sprite_queue: Fifo::new(),
            render_x: 0,
        }
    }

    pub fn reset_line(&mut self, bus: &Bus)
        ensures
            final(self)@ == old(self)@.reset_line(bus@),
    {
        let window_line_counter = if matches!(self.fetch_mode, FetchMode::Window) {
            self.window_line_counter.wrapping_add(1)
        } else {
            self.window_line_counter
        };
        *self = Self::init();
        self.current_line = bus.current_line();
        self.window_line_counter = window_line_counter;
        self.discard_counter = bus.get_scroll_x() % TILE_SIZE;
    }

    pub fn reset_frame(&mut self, bus: &Bus)
        ensures
            final(self)@ == old(self)@.reset_frame(bus@),
    {
        *self = Self::init();
        self.current_line = bus.current_line();
        self.discard_counter = bus.get_scroll_x() % TILE_SIZE;
    }

    /// Runs the pipeline for `passed_t_cycles` cycles and draws into
    /// `current_frame`.
    pub fn step(
        &mut self,
        bus: &Bus,
        object_buffer: &ObjectBuffer,
        passed_t_cycles: u8,
        current_frame: &mut PixelData,
    )
        ensures
            final(self)@ == old(self)@.run(
                bus@,
                object_buffer@,
                old(current_frame)@,
                passed_t_cycles as int,
            ).0,
            final(current_frame)@ == old(self)@.run(
                bus@,
                object_buffer@,
                old(current_frame)@,
                passed_t_cycles as int,
            ).1,
    {
        let mut t_counter: u16 = 0;
        while t_counter < passed_t_cycles as u16
            invariant
                t_counter <= passed_t_cycles + 2,
                self@.run(bus@, object_buffer@, current_frame@, passed_t_cycles - t_counter) == old(
                    self,
                )@.run(bus@, object_buffer@, old(current_frame)@, passed_t_cycles as int),
            decreases passed_t_cycles + 2 - t_counter,
        {
            let (next_step, spent_cycles) = self.step_subtask(bus);
            proof {
                use_type_invariant(&*self);
            }
            self.current_step = next_step;
            self.run_output(bus, object_buffer, spent_cycles, current_frame);
            t_counter += spent_cycles as u16;
        }
    }

    /// Runs the output for up to `cycles` cycles.
    fn run_output(
        &mut self,
        bus: &Bus,
        object_buffer: &ObjectBuffer,
        cycles: u8,
        current_frame: &mut PixelData,
    )
        ensures
            final(self)@ == old(self)@.ticks(
                bus@,
                object_buffer@,
                old(current_frame)@,
                cycles as nat,
            ).0,
            final(current_frame)@ == old(self)@.ticks(
                bus@,
                object_buffer@,
                old(current_frame)@,
                cycles as nat,
            ).1,
    {
        let mut done: u8 = 0;
        while done < cycles
            invariant
                done <= cycles,
                self@.ticks(bus@, object_buffer@, current_frame@, (cycles - done) as nat) == old(
                    self,
                )@.ticks(bus@, object_buffer@, old(current_frame)@, cycles as nat),
            decreases cycles - done,
        {
            let ghost before = self@;
            let pixel_pushed = self.try_push_pixel_to_screen(bus, current_frame);
            proof {
                use_type_invariant(&*self);
            }
            if matches!(self.current_step, PixelFetcherStep::GetTile) {
                match self.get_object_for_current_position(object_buffer) {
                    Some(object) => self.set_object_fetch_mode(object),
                    None => {
                        if matches!(self.fetch_mode, FetchMode::Object(_)) {
                            self.fetch_mode = FetchMode::Background;
                        }
                    },
                }
            }
            assert(self@ == before.tick_before_window(bus@, object_buffer@));
            if pixel_pushed && self.window_reached(bus) {
                self.set_window_fetch_mode();
                return ;
            }
            done += 1;
        }
    }

    /// Does what is next for the fetcher. Returns what is next after it and
    /// the cycles that it takes.
    fn step_subtask(&mut self, bus: &Bus) -> (r: (PixelFetcherStep, u8))
        ensures
            (PixelFetcherView { current_step: r.0, ..final(self)@ }) == old(self)@.step_subtask(
                bus@,
            ).0,
            final(self)@.current_step == old(self)@.current_step,
            r.1 == old(self)@.step_subtask(bus@).1,
            1 <= r.1 <= 2,
    {
        proof {
            use_type_invariant(&*self);
        }
        match self.current_step {
            PixelFetcherStep::Sleep(counter) => {
                if counter <= 1 {
                    (PixelFetcherStep::GetTile, 1)
                } else {
                    (PixelFetcherStep::Sleep(counter - 1), 1)
                }
            },
            PixelFetcherStep::GetTile => {
                self.tile_number = self.fetch_tile_number(bus);
                (PixelFetcherStep::GetTileDataLow, 2)
            },
            PixelFetcherStep::GetTileDataLow => {
                let low = self.fetch_tile_data_low(bus);
                proof {
                    use_type_invariant(&*self);
                }
                self.tile_data_low = low;
                (PixelFetcherStep::GetTileDataHigh, 2)
            },
            PixelFetcherStep::GetTileDataHigh => {
                self.tile_data_high = self.fetch_tile_data_high(bus);
                (PixelFetcherStep::Push, 2)
            },
            PixelFetcherStep::Push => {
                let push_is_allowed = match self.fetch_mode {
                    FetchMode::Object(_) => true,
                    FetchMode::Background | FetchMode::Window => self.background_queue.is_empty(),
                };
                if push_is_allowed {
                    self.push_pixel_data_to_queue();
                    (PixelFetcherStep::GetTile, 2)
                } else {
                    (PixelFetcherStep::Push, 1)
                }
            },
        }
    }

    /// Gets the number of the tile whose data the next two steps fetch:
    /// for background and window from the tile map that the control
    /// register selects, at the position of the fetcher; for an object from
    /// its entry in the object memory.
    fn fetch_tile_number(&self, bus: &Bus) -> (r: u8)
        ensures
            r == self@.fetch_tile_number(bus@),
    {
        match self.fetch_mode {
            FetchMode::Background => {
                let x_offset: u16 = ((self.fetcher_x as u16 + (bus.get_scroll_x() / TILE_SIZE) as u16)
                    % 32);
                let y_offset: u16 = ((self.current_line.wrapping_add(bus.get_scroll_y()))
                    / TILE_SIZE) as u16;
                let tilemap_address = bus.get_bg_tile_map().start() + (y_offset * 32) + x_offset;
                bus.ppu_read(tilemap_address)
            },
            FetchMode::Window => {
                let x_offset: u16 = (self.fetcher_x % 32) as u16;
                let y_offset: u16 = (self.window_line_counter / TILE_SIZE) as u16;
                let tilemap_address = bus.get_window_tile_map().start() + (y_offset * 32)
                    + x_offset;
                bus.ppu_read(tilemap_address)
            },
            FetchMode::Object(object_attribute) => object_attribute.tile_index,
        }
    }

    /// Reads the low byte of the row of the tile that the scanline crosses,
    /// and keeps its address for the high byte.
    fn fetch_tile_data_low(&mut self, bus: &Bus) -> (r: u8)
        ensures
            r == bus@.ppu_read(old(self)@.tile_row_address(bus@)),
            final(self)@ == (PixelFetcherView {
                tile_data_address: old(self)@.tile_row_address(bus@),
                ..old(self)@
            }),
    {
        proof {
            use_type_invariant(&*self);
        }
        let address = match self.fetch_mode {
            FetchMode::Background | FetchMode::Window => bus.get_bg_window_tile_data_area().get_tile_address(
                self.tile_number,
            ),
            FetchMode::Object(_) => bus.get_object_tile_data_area().get_tile_address(
                self.tile_number,
            ),
        };
        let row: u8 = match self.fetch_mode {
            FetchMode::Background => self.current_line.wrapping_add(bus.get_scroll_y()),
            FetchMode::Window => self.window_line_counter,
            FetchMode::Object(_) => 0,
        };
        let offset = 2 * (row % TILE_SIZE);
        self.tile_data_address = address + offset as u16;
        bus.ppu_read(self.tile_data_address)
    }

    /// Reads the byte behind the one that `fetch_tile_data_low` read: the
    /// high byte of the same row.
    fn fetch_tile_data_high(&self, bus: &Bus) -> (r: u8)
        ensures
            r == bus@.ppu_read((self@.tile_data_address + 1) as u16),
    {
        proof {
            use_type_invariant(self);
        }
        bus.ppu_read(self.tile_data_address + 1)
    }

    /// Combines the two bytes of the fetched row into eight pixels, from
    /// the left, and pushes them to the queue that the row is for.
    fn push_pixel_data_to_queue(&mut self)
        ensures
            final(self)@ == old(self)@.push_pixel_data_to_queue(),
    {
        proof {
            use_type_invariant(&*self);
        }
        let to_sprites = matches!(self.fetch_mode, FetchMode::Object(_));
        let mut i: u8 = 0;
        while i < TILE_SIZE
            invariant
                i <= TILE_SIZE,
                to_sprites == (old(self)@.fetch_mode is Object),
                to_sprites ==> self@ == (PixelFetcherView {
                    sprite_queue: push_row(
                        old(self)@.sprite_queue,
                        old(self)@.tile_data_low,
                        old(self)@.tile_data_high,
                        i as nat,
                    ),
                    ..old(self)@
                }),
                !to_sprites ==> self@ == (PixelFetcherView {
                    background_queue: push_row(
                        old(self)@.background_queue,
                        old(self)@.tile_data_low,
                        old(self)@.tile_data_high,
                        i as nat,
                    ),
                    ..old(self)@
                }),
            decreases TILE_SIZE - i,
        {
            proof {
                use_type_invariant(&*self);
            }
            let offset = 7 - i;
            let high_byte = self.tile_data_high;
            let high = (high_byte >> offset) & 1;
            let low = (self.tile_data_low >> offset) & 1;
            assert(high <= 1) by (bit_vector)
                requires
                    high == (high_byte >> offset) & 1,
            ;
            let pixel = (high << 1) | low;
            if to_sprites {
                let _ = self.sprite_queue.push(pixel);
            } else {
                let _ = self.background_queue.push(pixel);
            }
            i += 1;
        }
        proof {
            use_type_invariant(&*self);
        }
        self.fetcher_x = self.fetcher_x.wrapping_add(1);
    }

    /// Tries to move a pixel from the queues to the frame. Returns whether
    /// one was put there.
    fn try_push_pixel_to_screen(&mut self, bus: &Bus, frame: &mut PixelData) -> (pushed: bool)
        ensures
            pushed == old(self)@.draws(),
            final(self)@ == old(self)@.try_push_pixel_to_screen(bus@),
            final(frame)@ == old(self)@.frame_after_pixel(bus@, old(frame)@),
    {
        proof {
            use_type_invariant(&*self);
        }
        if self.discard_counter > 0 {
            if self.background_queue.pop().is_ok() {
                proof {
                    use_type_invariant(&*self);
                }
                self.discard_counter -= 1;
            }
            return false;
        }
        let bg_pixel = match self.background_queue.pop() {
            Ok(pixel) => pixel,
            Err(_) => {
                return false;
            },
        };
        proof {
            use_type_invariant(&*self);
        }
        if self.render_x > 159 || self.current_line > 143 {
            return false;
        }
        let bg_pixel = if bus.bg_window_enabled() {
            bg_pixel
        } else {
            0
        };
        let final_pixel = match self.sprite_queue.pop() {
            Ok(sprite_pixel) => {
                if sprite_pixel == 0 {
                    bg_pixel
                } else {
                    sprite_pixel
                }
            },
            Err(_) => bg_pixel,
        };
        proof {
            use_type_invariant(&*self);
        }
        let index = (self.current_line as usize) * LCD_WIDTH + (self.render_x as usize);
        frame.0[index] = final_pixel;
        self.render_x += 1;
        true
    }

    fn window_reached(&self, bus: &Bus) -> (b: bool)
        ensures
            b == self@.window_reached(bus@),
    {
        if !bus.window_enabled() {
            return false;
        }
        if bus.get_window_y() > self.current_line {
            return false;
        }
        if bus.get_window_x() > self.render_x {
            return false;
        }
        true
    }

    fn set_window_fetch_mode(&mut self)
        ensures
            final(self)@ == old(self)@.set_window_fetch_mode(),
    {
        proof {
            use_type_invariant(&*self);
        }
        if matches!(self.fetch_mode, FetchMode::Window) {
            return ;
        }
        self.fetch_mode = FetchMode::Window;
        self.fetcher_x = 0;
        self.current_step = PixelFetcherStep::GetTile;
        self.background_queue.clear();
    }

    /// The first object of the buffer that covers the column of the
    /// output: the order of the object memory decides, not the X position.
    fn get_object_for_current_position(&self, object_buffer: &ObjectBuffer) -> (r: Option<
        ObjectAttribute,
    >)
        ensures
            r == object_buffer@.first_covering(self@.render_x),
    {
        object_buffer.find_covering(self.render_x)
    }

    fn set_object_fetch_mode(&mut self, object_attribute: ObjectAttribute)
        ensures
            final(self)@ == old(self)@.set_object_fetch_mode(object_attribute),
    {
        proof {
            use_type_invariant(&*self);
        }
        if matches!(self.fetch_mode, FetchMode::Object(_)) {
            return ;
        }
        self.fetch_mode = FetchMode::Object(object_attribute);
        self.current_step = PixelFetcherStep::GetTile;
    }
}

/// Whether every pixel of a sequence is a palette index of two bits.
pub open spec fn is_palette(pixels: Seq<u8>) -> bool {
    forall|i: int| 0 <= i < pixels.len() ==> #[trigger] pixels[i] <= 3
}

/// Pushing the pixels of a tile row leaves a queue of palette indices one.
pub proof fn lemma_push_row_is_palette(queue: Seq<u8>, low: u8, high: u8, count: nat)
    requires
        is_palette(queue),
        count <= 8,
    ensures
        is_palette(push_row(queue, low, high, count)),
    decreases count,
{
    if count > 0 {
        lemma_push_row_is_palette(queue, low, high, (count - 1) as nat);
        lemma_tile_pixel(low, high, (count - 1) as u8);
    }
}

impl PixelFetcherView {
    /// Whether both queues hold palette indices only.
    pub open spec fn queues_valid(self) -> bool {
        is_palette(self.background_queue) && is_palette(self.sprite_queue)
    }

    /// One cycle of the pipeline leaves queues and frame made of palette
    /// indices, and the frame at its size.
    pub proof fn lemma_tick_is_palette(self, bus: BusView, objects: ObjectBufferView, frame: Seq<u8>)
        requires
            self.queues_valid(),
            is_palette(frame),
            frame.len() == FRAME_SIZE,
        ensures
            self.tick(bus, objects).queues_valid(),
            is_palette(self.frame_after_pixel(bus, frame)),
            self.frame_after_pixel(bus, frame).len() == FRAME_SIZE,
    {
        let pushed = self.try_push_pixel_to_screen(bus);
        assert(pushed.queues_valid()) by {
            if self.background_queue.len() > 0 {
                assert forall|i: int|
                    0 <= i < self.background_queue.drop_first().len() implies #[trigger] self.background_queue.drop_first()[i]
                    <= 3 by {
                    assert(self.background_queue.drop_first()[i] == self.background_queue[i + 1]);
                }
            }
            if self.sprite_queue.len() > 0 {
                assert forall|i: int|
                    0 <= i < self.sprite_queue.drop_first().len() implies #[trigger] self.sprite_queue.drop_first()[i]
                    <= 3 by {
                    assert(self.sprite_queue.drop_first()[i] == self.sprite_queue[i + 1]);
                }
            }
        }
        if self.draws() {
            assert(self.mixed_pixel(bus) <= 3) by {
                assert(self.background_queue[0] <= 3);
                if self.sprite_queue.len() > 0 {
                    assert(self.sprite_queue[0] <= 3);
                }
            }
        }
    }

    /// The cycles of the output leave queues and frame made of palette
    /// indices.
    pub proof fn lemma_ticks_are_palette(
        self,
        bus: BusView,
        objects: ObjectBufferView,
        frame: Seq<u8>,
        count: nat,
    )
        requires
            self.queues_valid(),
            is_palette(frame),
            frame.len() == FRAME_SIZE,
        ensures
            self.ticks(bus, objects, frame, count).0.queues_valid(),
            is_palette(self.ticks(bus, objects, frame, count).1),
            self.ticks(bus, objects, frame, count).1.len() == FRAME_SIZE,
        decreases count,
    {
        if count > 0 {
            self.lemma_tick_is_palette(bus, objects, frame);
            if !self.tick_stops(bus, objects) {
                self.tick(bus, objects).lemma_ticks_are_palette(
                    bus,
                    objects,
                    self.frame_after_pixel(bus, frame),
                    (count - 1) as nat,
                );
            }
        }
    }

    /// However long the pipeline runs, queues and frame are made of palette
    /// indices of two bits, and the frame keeps its size.
    pub proof fn lemma_run_is_palette(
        self,
        bus: BusView,
        objects: ObjectBufferView,
        frame: Seq<u8>,
        budget: int,
    )
        requires
            self.queues_valid(),
            is_palette(frame),
            frame.len() == FRAME_SIZE,
        ensures
            self.run(bus, objects, frame, budget).0.queues_valid(),
            is_palette(self.run(bus, objects, frame, budget).1),
            self.run(bus, objects, frame, budget).1.len() == FRAME_SIZE,
        decreases budget,
    {
        if budget > 0 {
            let (fetched, spent) = self.step_subtask(bus);
            assert(fetched.queues_valid()) by {
                lemma_push_row_is_palette(
                    self.sprite_queue,
                    self.tile_data_low,
                    self.tile_data_high,
                    8,
                );
                lemma_push_row_is_palette(
                    self.background_queue,
                    self.tile_data_low,
                    self.tile_data_high,
                    8,
                );
            }
            fetched.lemma_ticks_are_palette(bus, objects, frame, spent as nat);
            let (after, drawn) = fetched.ticks(bus, objects, frame, spent as nat);
            if 1 <= spent < budget {
                after.lemma_run_is_palette(bus, objects, drawn, budget - spent);
            }
        }
    }
}

} // verus!
