use vstd::prelude::*;

verus! {

/// Number of pixels that a queue holds at most.
pub const FIFO_CAPACITY: usize = 8;

/// A queue of at most eight pixels. Its view is the sequence of the pixels
/// in it, the one that leaves next first.
#[derive(Clone, Copy, Debug)]
pub struct Fifo {
    queue: [u8; FIFO_CAPACITY],
    index: usize,
    length: usize,
}

impl View for Fifo {
    type V = Seq<u8>;

    closed spec fn view(&self) -> Seq<u8> {
        Seq::new(self.length as nat, |i: int| self.queue@[(self.index + i) % 8])
    }
}

impl Fifo {
    #[verifier::type_invariant]
    spec fn inv(self) -> bool {
        self.index < FIFO_CAPACITY && self.length <= FIFO_CAPACITY
    }

    pub fn new() -> (r: Self)
        ensures
            r@ == Seq::<u8>::empty(),
    {
        let r = Self { queue: [0; FIFO_CAPACITY], index: 0, length: 0 };
        assert(r@ =~= Seq::<u8>::empty());
        r
    }

    /// Puts `value` at the end, unless the queue is full.
    pub fn push(&mut self, value: u8) -> (r: Result<(), &'static str>)
        ensures
            r is Ok <==> old(self)@.len() < FIFO_CAPACITY,
            r is Ok ==> final(self)@ == old(self)@.push(value),
            r is Err ==> final(self)@ == old(self)@,
            final(self)@.len() <= FIFO_CAPACITY,
        no_unwind
    {
        proof {
            use_type_invariant(&*self);
        }
        if self.length == FIFO_CAPACITY {
            return Err("Queue is full");
        }
        let insert_pos = (self.index + self.length) % FIFO_CAPACITY;
        self.queue[insert_pos] = value;
        self.length += 1;
        assert(self@ =~= old(self)@.push(value));
        Ok(())
    }

    /// Takes the first value out, unless the queue is empty.
    pub fn pop(&mut self) -> (r: Result<u8, &'static str>)
        ensures
            r is Ok <==> old(self)@.len() > 0,
            r matches Ok(value) ==> value == old(self)@[0] && final(self)@ == old(self)@.drop_first(),
            r is Err ==> final(self)@ == old(self)@,
            final(self)@.len() <= FIFO_CAPACITY,
        no_unwind
    {
        proof {
            use_type_invariant(&*self);
        }
        if self.length == 0 {
            return Err("Queue is empty");
        }
        let value = self.queue[self.index];
        self.index = (self.index + 1) % FIFO_CAPACITY;
        self.length -= 1;
        assert(self@ =~= old(self)@.drop_first());
        Ok(value)
    }

    pub fn is_empty(&self) -> (b: bool)
        ensures
            b == (self@.len() == 0),
    {
        self.length == 0
    }

    pub fn is_full(&self) -> (b: bool)
        ensures
            b == (self@.len() == FIFO_CAPACITY),
            self@.len() <= FIFO_CAPACITY,
    {
        proof {
            use_type_invariant(self);
        }
        self.length == FIFO_CAPACITY
    }

    pub fn len(&self) -> (n: usize)
        ensures
            n == self@.len(),
            n <= FIFO_CAPACITY,
    {
        proof {
            use_type_invariant(self);
        }
        self.length
    }

    pub fn clear(&mut self)
        ensures
            final(self)@ == Seq::<u8>::empty(),
        no_unwind
    {
        proof {
            use_type_invariant(&*self);
        }
        self.index = 0;
        self.length = 0;
        assert(self@ =~= Seq::<u8>::empty());
    }
}

} // verus!
