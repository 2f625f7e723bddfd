//! A stack backed by a growable array.

use vstd::prelude::*;

verus! {

/// A last-in, first-out container. The top of the stack is the last element
/// of the backing array.
#[derive(Debug)]
pub struct Stack<T> {
    list: Vec<T>,
    size: usize,
}

impl<T> View for Stack<T> {
    type V = Seq<T>;

    /// The elements from the bottom of the stack to its top.
    closed spec fn view(&self) -> Seq<T> {
        self.list@
    }
}

impl<T> Stack<T> {
    /// The counter agrees with the backing array.
    pub closed spec fn well_formed(&self) -> bool {
        self.size == self.list@.len()
    }
}

impl<T> Default for Stack<T> {
    /// An empty stack.
    fn default() -> (stack: Self)
        ensures
            stack.well_formed(),
            stack@ == Seq::<T>::empty(),
    {
        Stack { list: Vec::new(), size: 0 }
    }
}

impl<T: Clone> Stack<T> {
    /// An empty stack.
    pub fn new() -> (stack: Self)
        ensures
            stack.well_formed(),
            stack@ == Seq::<T>::empty(),
    {
        Stack { list: Vec::new(), size: 0 }
    }

    /// A stack that holds a clone of each value of `values`, the last value
    /// on top.
    pub fn from(values: &mut [T]) -> (stack: Stack<T>)
        ensures
            final(values)@ == old(values)@,
            stack.well_formed(),
            stack@.len() == old(values)@.len(),
            forall|i: int|
                0 <= i < stack@.len() ==> cloned::<T>(#[trigger] old(values)@[i], stack@[i]),
    {
        let mut list = Vec::new();
        list.extend_from_slice(values);
        Stack { size: values.len(), list }
    }

    /// Puts `value` on top of the stack.
    pub fn push(&mut self, value: T)
        requires
            old(self).well_formed(),
        ensures
            final(self).well_formed(),
            final(self)@ == old(self)@.push(value),
    {
        self.list.push(value);
        // The array's length fits in a `usize`, so the counter does too.
        assert(self.list.len() == self.list@.len());
        self.size += 1;
    }

    /// Removes the top of the stack and returns it, or returns `None` when
    /// the stack is empty.
    pub fn pop(&mut self) -> (top: Option<T>)
        requires
            old(self).well_formed(),
        ensures
            final(self).well_formed(),
            old(self)@.len() == 0 ==> top is None && final(self)@ == old(self)@,
            old(self)@.len() > 0 ==> top == Some(old(self)@.last())
                && final(self)@ == old(self)@.drop_last(),
    {
        let result = self.list.pop();
        match result {
            Some(value) => {
                self.size -= 1;
                Some(value)
            },
            None => None,
        }
    }

    /// The number of elements.
    pub fn size(&self) -> (n: usize)
        requires
            self.well_formed(),
        ensures
            n == self@.len(),
    {
        self.size
    }

    /// The top of the stack, or `None` when the stack is empty.
    pub fn peek(&self) -> (top: Option<&T>)
        requires
            self.well_formed(),
        ensures
            self@.len() == 0 ==> top is None,
            self@.len() > 0 ==> top == Some(&self@.last()),
    {
        match self.size {
            0 => None,
            _ => self.list.last(),
        }
    }
}

} // verus!
