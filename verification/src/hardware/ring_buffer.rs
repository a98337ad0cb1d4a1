//! A simple ring buffer.

use vstd::prelude::*;

verus! {

/// Number of items that a buffer holds.
pub const BUFFER_SIZE: usize = 10;

/// The queue after `val` was written: at the end, and without the oldest item where the queue
/// was full.
pub open spec fn written<T>(queue: Seq<T>, val: T) -> Seq<T> {
    if queue.len() < BUFFER_SIZE {
        queue.push(val)
    } else {
        queue.drop_first().push(val)
    }
}

/// The item that a write to the queue overwrites: the oldest one of a full queue.
pub open spec fn lost<T>(queue: Seq<T>) -> Option<T> {
    if queue.len() < BUFFER_SIZE {
        None
    } else {
        Some(queue[0])
    }
}

/// The queue after the items were written one by one.
pub open spec fn written_all<T>(queue: Seq<T>, items: Seq<T>) -> Seq<T>
    decreases items.len(),
{
    if items.len() == 0 {
        queue
    } else {
        written_all(written(queue, items[0]), items.drop_first())
    }
}

/// The last `BUFFER_SIZE` items of a sequence, or all of a shorter one.
pub open spec fn most_recent<T>(items: Seq<T>) -> Seq<T> {
    if items.len() <= BUFFER_SIZE {
        items
    } else {
        items.subrange(items.len() - BUFFER_SIZE, items.len() as int)
    }
}

/// A buffer keeps the most recent items in the order in which they were written: after any
/// number of writes it holds the last `BUFFER_SIZE` of what it held and what was written.
pub proof fn law_keeps_most_recent<T>(queue: Seq<T>, items: Seq<T>)
    requires
        queue.len() <= BUFFER_SIZE,
    ensures
        written_all(queue, items) == most_recent(queue + items),
        written_all(queue, items).len() <= BUFFER_SIZE,
    decreases items.len(),
{
    if items.len() > 0 {
        law_keeps_most_recent(written(queue, items[0]), items.drop_first());
    }
}

/// Writing one item more than the buffer holds: the last write overwrites the oldest item,
/// and the buffer then holds all the later ones in order.
pub proof fn law_overflow_loses_oldest<T>(items: Seq<T>)
    requires
        items.len() == BUFFER_SIZE + 1,
    ensures
        lost(written_all(Seq::empty(), items.take(BUFFER_SIZE as int))) == Some(items[0]),
        written_all(Seq::empty(), items) == items.subrange(1, BUFFER_SIZE + 1),
{
    law_keeps_most_recent(Seq::<T>::empty(), items.take(BUFFER_SIZE as int));
    law_keeps_most_recent(Seq::<T>::empty(), items);
}

/// A queue of at most `BUFFER_SIZE` items that forgets the oldest item for a new one.
pub struct RingBuffer<T> {
    buffer: [T; BUFFER_SIZE],
    head: usize,
    tail: usize,
    empty: bool,
}

impl<T> View for RingBuffer<T> {
    type V = Seq<T>;

    /// The items that wait to be read, the oldest first.
    closed spec fn view(&self) -> Seq<T> {
        Seq::new(self.count(), |k: int| self.buffer[wrap(self.tail + k)])
    }
}

/// The index of the buffer that `i` stands for, once round the ring at most.
pub open spec fn wrap(i: int) -> int {
    if i < BUFFER_SIZE {
        i
    } else {
        i - BUFFER_SIZE
    }
}

impl<T> RingBuffer<T> {
    /// Number of items that wait to be read.
    closed spec fn count(&self) -> nat {
        if self.empty {
            0
        } else if self.head > self.tail {
            (self.head - self.tail) as nat
        } else {
            (self.head + BUFFER_SIZE - self.tail) as nat
        }
    }

    /// The indices lie in the buffer, and meet where it is empty.
    pub closed spec fn inv(&self) -> bool {
        &&& self.head < BUFFER_SIZE
        &&& self.tail < BUFFER_SIZE
        &&& self.empty ==> self.head == self.tail
    }

    pub open spec fn wf(&self) -> bool {
        &&& self.inv()
        &&& self@.len() <= BUFFER_SIZE
    }
}

impl<T: Copy> RingBuffer<T> {
    /// An empty buffer. `default` fills the places that hold no item.
    pub fn new(default: T) -> (ring: RingBuffer<T>)
        ensures
            ring.wf(),
            ring@ == Seq::<T>::empty(),
    {
        let ring = RingBuffer { buffer: [default;BUFFER_SIZE], head: 0, tail: 0, empty: true };
        ring
    }

    /// Takes the oldest item out.
    pub fn read(&mut self) -> (val: Option<T>)
        requires
            old(self).wf(),
        ensures
            final(self).wf(),
            old(self)@.len() == 0 ==> val is None && final(self)@ == old(self)@,
            old(self)@.len() > 0 ==> val == Some(old(self)@[0]) && final(self)@ == old(
                self,
            )@.drop_first(),
    {
        if self.empty {
            return None;
        }
        let val = Some(self.buffer[self.tail]);
        Self::increase_idx(&mut self.tail);
        if self.tail == self.head {
            self.empty = true;
        }
        val
    }

    /// Puts an item in, over the oldest one where the buffer is full, and returns the item
    /// that was overwritten.
    pub fn write(&mut self, val: T) -> (previous: Option<T>)
        requires
            old(self).wf(),
        ensures
            final(self).wf(),
            final(self)@ == written(old(self)@, val),
            previous == lost(old(self)@),
    {
        let previous = self.buffer[self.head];
        self.buffer[self.head] = val;
        let mut overwritten = None;
        if !self.empty && self.head == self.tail {
            overwritten = Some(previous);
            Self::increase_idx(&mut self.tail);
        }
        self.empty = false;
        Self::increase_idx(&mut self.head);
        overwritten
    }

    /// Drops the items that wait to be read.
    pub fn clear(&mut self)
        requires
            old(self).wf(),
        ensures
            final(self).wf(),
            final(self)@ == Seq::<T>::empty(),
    {
        self.tail = self.head;
        self.empty = true;
    }

    fn increase_idx(cur_idx: &mut usize)
        requires
            *old(cur_idx) < BUFFER_SIZE,
        ensures
            *final(cur_idx) == wrap(*old(cur_idx) + 1),
    {
        *cur_idx = (*cur_idx + 1) % BUFFER_SIZE;
    }
}

} // verus!
