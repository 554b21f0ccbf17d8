use vstd::prelude::*;
use crate::graphics::memory::OBJECT_SIZE;
use crate::memory::bus::{Bus, BusView, bit_is_set, get_bit_status};

verus! {

/// Number of objects that the PPU draws on one scanline at most.
pub const OBJECT_BUFFER_CAPACITY: usize = 10;

/// Number of entries of the object memory.
pub const OBJECT_COUNT: u8 = 40;

/// Cycles that the scan of one entry takes.
pub const SCAN_CYCLES: u16 = 2;

/// One entry of the object memory.
#[derive(Clone, Copy, PartialEq, Eq, Structural, Debug)]
pub struct ObjectAttribute {
    pub y_position: u8,
    pub x_position: u8,
    pub tile_index: u8,
    pub attributes: u8,
}

impl Default for ObjectAttribute {
    fn default() -> (r: Self)
        ensures
            r == (ObjectAttribute { y_position: 0, x_position: 0, tile_index: 0, attributes: 0 }),
    {
        ObjectAttribute { y_position: 0, x_position: 0, tile_index: 0, attributes: 0 }
    }
}

#[derive(Clone, Copy, PartialEq, Eq, Structural, Debug)]
pub enum ObjectPriority {
    LOW,
    HIGH,
}

#[derive(Clone, Copy, PartialEq, Eq, Structural, Debug)]
pub enum DmgPalette {
    OBP0,
    OBP1,
}

impl ObjectAttribute {
    /// The entry number `index` of the object memory.
    pub open spec fn at(bus: BusView, index: u8) -> ObjectAttribute {
        ObjectAttribute {
            y_position: bus.oam[index * 4],
            x_position: bus.oam[index * 4 + 1],
            tile_index: bus.oam[index * 4 + 2],
            attributes: bus.oam[index * 4 + 3],
        }
    }

    /// Whether the object, `height` pixels high, lies on the scanline. The
    /// Y position of an object is that of its top plus 16.
    pub open spec fn on_line(self, line: u8, height: u8) -> bool {
        self.y_position <= line + OBJECT_SIZE < self.y_position + height
    }

    /// Whether the object covers the screen column `x`. The X position of
    /// an object is that of its left edge plus 8.
    pub open spec fn covers(self, x: u8) -> bool {
        x < self.x_position <= x + 8
    }

    /// Bit 7 set puts the object behind the background.
    pub fn get_priority(&self) -> (r: ObjectPriority)
        ensures
            r == if bit_is_set(self.attributes, 7) {
                ObjectPriority::LOW
            } else {
                ObjectPriority::HIGH
            },
    {
        if get_bit_status(self.attributes, 7) {
            ObjectPriority::LOW
        } else {
            ObjectPriority::HIGH
        }
    }

    pub fn is_y_flipped(&self) -> (b: bool)
        ensures
            b == bit_is_set(self.attributes, 6),
    {
        get_bit_status(self.attributes, 6)
    }

    pub fn is_x_flipped(&self) -> (b: bool)
        ensures
            b == bit_is_set(self.attributes, 5),
    {
        get_bit_status(self.attributes, 5)
    }

    pub fn get_dmg_palette(&self) -> (r: DmgPalette)
        ensures
            r == if bit_is_set(self.attributes, 4) {
                DmgPalette::OBP1
            } else {
                DmgPalette::OBP0
            },
    {
        if get_bit_status(self.attributes, 4) {
            DmgPalette::OBP1
        } else {
            DmgPalette::OBP0
        }
    }

    pub fn lies_on_line(&self, line: u8, height: u8) -> (b: bool)
        ensures
            b == self.on_line(line, height),
    {
        let shifted = line as u16 + OBJECT_SIZE as u16;
        self.y_position as u16 <= shifted && shifted < self.y_position as u16 + height as u16
    }

    pub fn is_covering(&self, x: u8) -> (b: bool)
        ensures
            b == self.covers(x),
    {
        x < self.x_position && self.x_position as u16 <= x as u16 + 8
    }
}

/// The objects found on the scanline so far, in the order of the object
/// memory, with the state of the scan.
pub ghost struct ObjectBufferView {
    pub items: Seq<ObjectAttribute>,
    /// The entry that the scan looks at next.
    pub oam_index: u8,
    /// Cycles given to the scan and not yet used.
    pub t_cycles_elapsed: u16,
}

impl ObjectBufferView {
    pub open spec fn empty() -> ObjectBufferView {
        ObjectBufferView { items: Seq::empty(), oam_index: 0, t_cycles_elapsed: 0 }
    }

    pub open spec fn is_full(self) -> bool {
        self.items.len() >= OBJECT_BUFFER_CAPACITY
    }

    /// The buffer after the scan looked at one entry, which takes two
    /// cycles: an object on the scanline is kept, while there is room.
    pub open spec fn scan_one(self, bus: BusView) -> ObjectBufferView {
        let object = ObjectAttribute::at(bus, self.oam_index);
        let t_cycles_elapsed = (self.t_cycles_elapsed - SCAN_CYCLES) as u16;
        if !object.on_line(bus.io.lcd_y, bus.io.obj_size()) {
            ObjectBufferView {
                oam_index: (self.oam_index + 1) as u8,
                t_cycles_elapsed,
                ..self
            }
        } else if self.is_full() {
            ObjectBufferView { t_cycles_elapsed, ..self }
        } else {
            ObjectBufferView {
                items: self.items.push(object),
                oam_index: (self.oam_index + 1) as u8,
                t_cycles_elapsed,
            }
        }
    }

    /// Whether the scan can look at another entry.
    pub open spec fn can_scan(self) -> bool {
        self.t_cycles_elapsed >= SCAN_CYCLES && self.oam_index < OBJECT_COUNT
    }

    /// The buffer after the scan used up the cycles that it was given.
    pub open spec fn scan(self, bus: BusView) -> ObjectBufferView
        decreases self.t_cycles_elapsed,
    {
        if self.can_scan() {
            self.scan_one(bus).scan(bus)
        } else {
            self
        }
    }

    /// The buffer after `passed_t_cycles` more cycles of the search. A full
    /// buffer takes no more.
    pub open spec fn step(self, bus: BusView, passed_t_cycles: u8) -> ObjectBufferView {
        if self.is_full() {
            self
        } else {
            ObjectBufferView {
                t_cycles_elapsed: if self.t_cycles_elapsed + passed_t_cycles > u16::MAX {
                    u16::MAX
                } else {
                    (self.t_cycles_elapsed + passed_t_cycles) as u16
                },
                ..self
            }.scan(bus)
        }
    }

    /// The first object, in the order in which they were found, that covers
    /// the column `x`.
    pub open spec fn first_covering(self, x: u8) -> Option<ObjectAttribute> {
        Self::first_covering_from(self.items, x, 0)
    }

    pub open spec fn first_covering_from(
        items: Seq<ObjectAttribute>,
        x: u8,
        start: int,
    ) -> Option<ObjectAttribute>
        decreases items.len() - start,
    {
        if start < 0 || start >= items.len() {
            None
        } else if items[start].covers(x) {
            Some(items[start])
        } else {
            Self::first_covering_from(items, x, start + 1)
        }
    }

    /// What `first_covering` finds is an object of the buffer that covers
    /// the column, and no object before it does.
    pub proof fn lemma_first_covering(items: Seq<ObjectAttribute>, x: u8, start: int)
        requires
            0 <= start <= items.len(),
        ensures
            match Self::first_covering_from(items, x, start) {
                Some(object) => exists|i: int|
                    start <= i < items.len() && items[i] == object && object.covers(x) && forall|
                        j: int,
                    |
                        start <= j < i ==> !(#[trigger] items[j]).covers(x),
                None => forall|j: int| start <= j < items.len() ==> !(#[trigger] items[j]).covers(x),
            },
        decreases items.len() - start,
    {
        if start < items.len() && !items[start].covers(x) {
            Self::lemma_first_covering(items, x, start + 1);
            match Self::first_covering_from(items, x, start + 1) {
                Some(object) => {
                    let i = choose|i: int|
                        start + 1 <= i < items.len() && items[i] == object && object.covers(x)
                            && forall|j: int|
                            start + 1 <= j < i ==> !(#[trigger] items[j]).covers(x);
                    assert(start <= i < items.len() && items[i] == object && object.covers(x)
                        && forall|j: int| start <= j < i ==> !(#[trigger] items[j]).covers(x));
                },
                None => {},
            }
        } else if start < items.len() {
            assert(start <= start < items.len() && items[start] == items[start]
                && items[start].covers(x) && forall|j: int|
                start <= j < start ==> !(#[trigger] items[j]).covers(x));
        }
    }
}

/// A queue of at most ten objects, filled by the scan of the object memory.
#[derive(Clone, Copy, Debug)]
pub struct ObjectBuffer {
    buffer: [ObjectAttribute; OBJECT_BUFFER_CAPACITY],
    length: usize,
    head: usize,
    oam_index: u8,
    t_cycles_elapsed: u16,
}

impl View for ObjectBuffer {
    type V = ObjectBufferView;

    closed spec fn view(&self) -> ObjectBufferView {
        ObjectBufferView {
            items: Seq::new(self.length as nat, |i: int| self.buffer@[(self.head + i) % 10]),
            oam_index: self.oam_index,
            t_cycles_elapsed: self.t_cycles_elapsed,
        }
    }
}

impl ObjectBuffer {
    #[verifier::type_invariant]
    spec fn inv(self) -> bool {
        self.head < OBJECT_BUFFER_CAPACITY && self.length <= OBJECT_BUFFER_CAPACITY
    }

    pub fn init() -> (r: Self)
        ensures
            r@ == ObjectBufferView::empty(),
    {
        let r = Self {
            buffer: [ObjectAttribute::default(); OBJECT_BUFFER_CAPACITY],
            length: 0,
            head: 0,
            oam_index: 0,
            t_cycles_elapsed: 0,
        };
        assert(r@.items =~= Seq::empty());
        r
    }

    /// Empties the buffer and starts the scan anew.
    pub fn reset_line(&mut self)
        ensures
            final(self)@ == ObjectBufferView::empty(),
    {
        proof {
            use_type_invariant(&*self);
        }
        self.length = 0;
        self.head = 0;
        self.oam_index = 0;
        self.t_cycles_elapsed = 0;
        assert(self@.items =~= Seq::empty());
    }

    /// Goes on with the scan of the object memory for `passed_t_cycles`
    /// cycles.
    pub fn step(&mut self, bus: &Bus, passed_t_cycles: u8)
        ensures
            final(self)@ == old(self)@.step(bus@, passed_t_cycles),
            final(self)@.items.len() <= OBJECT_BUFFER_CAPACITY,
    {
        proof {
            use_type_invariant(&*self);
        }
        if self.is_full() {
            return ;
        }
        let current_line = bus.current_line();
        let object_size = bus.get_obj_size();
        self.t_cycles_elapsed = self.t_cycles_elapsed.saturating_add(passed_t_cycles as u16);
        let ghost start = self@;
        while self.t_cycles_elapsed >= SCAN_CYCLES && self.oam_index < OBJECT_COUNT
            invariant
                current_line == bus.io.lcd_y,
                object_size == bus.io.obj_size(),
                self@.scan(bus@) == start.scan(bus@),
                self@.items.len() <= OBJECT_BUFFER_CAPACITY,
            decreases self.t_cycles_elapsed,
        {
            proof {
                use_type_invariant(&*self);
            }
            let ghost before = self@;
            self.t_cycles_elapsed -= SCAN_CYCLES;
            let address = (self.oam_index as u16) * 4;
            let object_attribute = ObjectAttribute {
                y_position: bus.oam.read(address),
                x_position: bus.oam.read(address + 1),
                tile_index: bus.oam.read(address + 2),
                attributes: bus.oam.read(address + 3),
            };
            assert(object_attribute == ObjectAttribute::at(bus@, before.oam_index));
            if !object_attribute.lies_on_line(current_line, object_size) {
                self.oam_index += 1;
                assert(self@.items =~= before.items);
            } else {
                let pushed = self.push_back(object_attribute).is_ok();
                proof {
                    use_type_invariant(&*self);
                }
                if pushed {
                    self.oam_index += 1;
                }
            }
            assert(self@ == before.scan_one(bus@));
        }
    }

    /// Puts `obj` at the end, unless the buffer is full.
    pub fn push_back(&mut self, obj: ObjectAttribute) -> (r: Result<(), ()>)
        ensures
            r is Ok <==> !old(self)@.is_full(),
            r is Ok ==> final(self)@ == (ObjectBufferView {
                items: old(self)@.items.push(obj),
                ..old(self)@
            }),
            r is Err ==> final(self)@ == old(self)@,
            final(self)@.items.len() <= OBJECT_BUFFER_CAPACITY,
    {
        proof {
            use_type_invariant(&*self);
        }
        if self.is_full() {
            return Err(());
        }
        let tail = (self.head + self.length) % OBJECT_BUFFER_CAPACITY;
        self.buffer[tail] = obj;
        self.length += 1;
        assert(self@.items =~= old(self)@.items.push(obj));
        Ok(())
    }

    /// Takes the first object out if `condition` holds of it.
    pub fn pop_front_if<F>(&mut self, condition: F) -> (r: Option<ObjectAttribute>) where
        F: Fn(&ObjectAttribute) -> bool,

        requires
            forall|object: ObjectAttribute| condition.requires((&object,)),
        ensures
            r matches Some(object) ==> {
                &&& old(self)@.items.len() > 0
                &&& object == old(self)@.items[0]
                &&& condition.ensures((&object,), true)
                &&& final(self)@ == (ObjectBufferView {
                    items: old(self)@.items.drop_first(),
                    ..old(self)@
                })
            },
            r is None ==> {
                &&& final(self)@ == old(self)@
                &&& old(self)@.items.len() > 0 ==> condition.ensures((&old(self)@.items[0],), false)
            },
    {
        proof {
            use_type_invariant(&*self);
        }
        if self.length == 0 {
            return None;
        }
        let head_obj = self.buffer[self.head];
        assert(head_obj == self@.items[0]);
        if condition(&head_obj) {
            self.head = (self.head + 1) % OBJECT_BUFFER_CAPACITY;
            self.length -= 1;
            assert(self@.items =~= old(self)@.items.drop_first());
            Some(head_obj)
        } else {
            None
        }
    }

    pub fn is_full(&self) -> (b: bool)
        ensures
            b == self@.is_full(),
            self@.items.len() <= OBJECT_BUFFER_CAPACITY,
    {
        proof {
            use_type_invariant(self);
        }
        self.length == OBJECT_BUFFER_CAPACITY
    }

    pub fn len(&self) -> (n: usize)
        ensures
            n == self@.items.len(),
            n <= OBJECT_BUFFER_CAPACITY,
    {
        proof {
            use_type_invariant(self);
        }
        self.length
    }

    /// The object number `index`, in the order in which they were found.
    pub fn get(&self, index: usize) -> (r: ObjectAttribute)
        requires
            index < self@.items.len(),
        ensures
            r == self@.items[index as int],
    {
        proof {
            use_type_invariant(self);
        }
        self.buffer[(self.head + index) % OBJECT_BUFFER_CAPACITY]
    }

    /// The first object, in the order in which they were found, that covers
    /// the screen column `x`.
    pub fn find_covering(&self, x: u8) -> (r: Option<ObjectAttribute>)
        ensures
            r == self@.first_covering(x),
    {
        let mut index: usize = 0;
        while index < self.len()
            invariant
                index <= self@.items.len(),
                self@.first_covering(x) == ObjectBufferView::first_covering_from(
                    self@.items,
                    x,
                    index as int,
                ),
            decreases self@.items.len() - index,
        {
            let object = self.get(index);
            if object.is_covering(x) {
                return Some(object);
            }
            index += 1;
        }
        None
    }
}

} // verus!
