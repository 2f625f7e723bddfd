//! A container of `i32` values backed by a growable array.

use vstd::prelude::*;

verus! {

/// A container of `i32` values. Values are added at the end of the backing
/// array and are served from that same end, so the value enqueued last is
/// the one dequeued first.
#[derive(Debug)]
pub struct Queue {
    list: Vec<i32>,
    size: usize,
}

impl View for Queue {
    type V = Seq<i32>;

    /// The values in the order in which they were enqueued.
    closed spec fn view(&self) -> Seq<i32> {
        self.list@
    }
}

impl Default for Queue {
    /// An empty queue.
    fn default() -> (queue: Self)
        ensures
            queue.well_formed(),
            queue@ == Seq::<i32>::empty(),
    {
        Queue { list: Vec::new(), size: 0 }
    }
}

impl Queue {
    /// The counter agrees with the backing array.
    pub closed spec fn well_formed(&self) -> bool {
        self.size == self.list@.len()
    }

    /// An empty queue.
    pub fn new() -> (queue: Queue)
        ensures
            queue.well_formed(),
            queue@ == Seq::<i32>::empty(),
    {
        Queue { list: Vec::new(), size: 0 }
    }

    /// A queue that holds the values of `values`, in their order.
    pub fn from(values: &Vec<i32>) -> (queue: Queue)
        ensures
            queue.well_formed(),
            queue@ == values@,
    {
        let list = values.clone();
        assert(list@ =~= values@);
        Queue { list, size: values.len() }
    }

    /// Adds `value` at the end.
    pub fn enqueue(&mut self, value: i32)
        requires
            old(self).well_formed(),
        ensures
            final(self).well_formed(),
            final(self)@ == old(self)@.push(value),
    {
        self.list.push(value);
        // The array's length fits in a `usize`, so the counter does too.
        assert(self.list.len() == self.list@.len());
        self.size += 1;
    }

    /// Removes the value at the end and returns it, or returns `None` when
    /// the queue is empty.
    pub fn dequeue(&mut self) -> (value: Option<i32>)
        requires
            old(self).well_formed(),
        ensures
            final(self).well_formed(),
            old(self)@.len() == 0 ==> value is None && final(self)@ == old(self)@,
            old(self)@.len() > 0 ==> value == Some(old(self)@.last())
                && final(self)@ == old(self)@.drop_last(),
    {
        let result = self.list.pop();
        match result {
            Some(value) => {
                self.size -= 1;
                Some(value)
            },
            None => None,
        }
    }

    /// The number of values.
    pub fn size(&mut self) -> (n: usize)
        requires
            old(self).well_formed(),
        ensures
            *final(self) == *old(self),
            n == old(self)@.len(),
    {
        self.size
    }

    /// The value at the end, or `None` when the queue is empty.
    pub fn peek(&mut self) -> (value: Option<i32>)
        requires
            old(self).well_formed(),
        ensures
            *final(self) == *old(self),
            old(self)@.len() == 0 ==> value is None,
            old(self)@.len() > 0 ==> value == Some(old(self)@.last()),
    {
        match self.size {
            0 => None,
            _ => match self.list.last() {
                Some(value) => Some(*value),
                None => None,
            },
        }
    }
}

} // verus!
