//! A singly linked list with constant-time insertion and removal at the
//! front, and three cursors over it.

use crate::model::{front, popped, pushed};
use vstd::prelude::*;

verus! {

type Link<T> = Option<Box<Node<T>>>;

/// One link of the chain: a value and the ownership of what follows it.
///
/// Nothing outside this module can make a node or look into one. The type is
/// public so that the contracts of the exclusive cursor can speak of the
/// part of the chain that the cursor has borrowed.
pub struct Node<T> {
    value: T,
    next: Link<T>,
}

impl<T> Node<T> {
    /// The values held by this node and the nodes behind it, this node's first.
    pub closed spec fn values(self) -> Seq<T>
        decreases self,
    {
        match self.next {
            None => seq![self.value],
            Some(next) => seq![self.value] + next.values(),
        }
    }
}

/// The values held by a chain of nodes, first node first.
spec fn chain_values<T>(link: Link<T>) -> Seq<T> {
    match link {
        None => Seq::empty(),
        Some(node) => node.values(),
    }
}

/// A last-in, first-out list. Each node owns its successor.
pub struct List<T> {
    head: Link<T>,
    size: usize,
}

impl<T> View for List<T> {
    type V = Seq<T>;

    /// The values from the head of the list to its tail.
    closed spec fn view(&self) -> Seq<T> {
        chain_values(self.head)
    }
}

impl<T> List<T> {
    /// The counter agrees with the number of nodes reachable from the head.
    pub closed spec fn well_formed(&self) -> bool {
        self.size == chain_values(self.head).len()
    }

    /// An empty list.
    pub fn new() -> (list: Self)
        ensures
            list.well_formed(),
            list@ == Seq::<T>::empty(),
    {
        List { head: None, size: 0 }
    }

    /// Puts `value` in a new node in front of the current head. The list
    /// must hold fewer than `usize::MAX` values, so that the counter can
    /// count one more.
    pub fn push(&mut self, value: T)
        requires
            old(self).well_formed(),
            old(self)@.len() < usize::MAX,
        ensures
            final(self).well_formed(),
            final(self)@ == pushed(old(self)@, value),
    {
        let node = Box::new(Node { value, next: self.head.take() });
        self.head = Some(node);
        self.size += 1;
    }

    /// Removes the head node and returns its value, or returns `None` when
    /// the list is empty.
    pub fn pop(&mut self) -> (value: Option<T>)
        requires
            old(self).well_formed(),
        ensures
            final(self).well_formed(),
            value == front(old(self)@),
            final(self)@ == popped(old(self)@),
    {
        match self.head.take() {
            None => None,
            Some(node) => {
                let node = *node;
                self.head = node.next;
                self.size -= 1;
                Some(node.value)
            },
        }
    }

    /// The value at the head, or `None` when the list is empty.
    pub fn peek(&self) -> (value: Option<&T>)
        ensures
            value is Some <==> front(self@) is Some,
            value is Some ==> *value.unwrap() == front(self@).unwrap(),
    {
        match &self.head {
            None => None,
            Some(node) => Some(&node.value),
        }
    }

    /// Exclusive access to the value at the head, or `None` when the list
    /// is empty. What the caller writes through it is the new head value.
    pub fn peek_mut(&mut self) -> (value: Option<&mut T>)
        ensures
            value is Some <==> front(old(self)@) is Some,
            value is Some ==> *value.unwrap() == front(old(self)@).unwrap(),
            final(self)@ == (match value {
                None => old(self)@,
                Some(slot) => old(self)@.update(0, *final(slot)),
            }),
            final(self).well_formed() == old(self).well_formed(),
    {
        match &mut self.head {
            None => None,
            Some(node) => Some(&mut node.value),
        }
    }

    /// The number of elements.
    pub fn size(&self) -> (n: usize)
        requires
            self.well_formed(),
        ensures
            n == self@.len(),
    {
        self.size
    }

    /// Hands the whole list over to a cursor that takes the values out.
    pub fn into_iter(self) -> (cursor: IntoIter<T>)
        ensures
            cursor@ == self@,
            cursor.well_formed() == self.well_formed(),
    {
        IntoIter(self)
    }

    /// A cursor over shared references to the values, starting at the head.
    pub fn iter(&self) -> (cursor: Iter<'_, T>)
        ensures
            cursor@ == self@,
    {
        Iter {
            next: match &self.head {
                None => None,
                Some(node) => Some(&**node),
            },
        }
    }

    /// A cursor over exclusive references to the values, starting at the
    /// head. When the cursor is done, the list holds what was written
    /// through it.
    pub fn iter_mut(&mut self) -> (cursor: IterMut<'_, T>)
        ensures
            cursor@ == old(self)@,
            cursor.unvisited() is None <==> cursor@.len() == 0,
            final(self)@ == (match cursor.unvisited() {
                None => Seq::empty(),
                Some(node) => final(node).values(),
            }),
            final(self)@.len() == old(self)@.len()
                ==> final(self).well_formed() == old(self).well_formed(),
    {
        IterMut {
            next: match &mut self.head {
                None => None,
                Some(node) => Some(&mut **node),
            },
        }
    }
}

/// A cursor that owns the list and takes its values out, head first.
pub struct IntoIter<T>(List<T>);

impl<T> View for IntoIter<T> {
    type V = Seq<T>;

    /// The values that are still to come, in the order they will come.
    closed spec fn view(&self) -> Seq<T> {
        self.0@
    }
}

impl<T> IntoIter<T> {
    /// The list inside is well formed.
    pub closed spec fn well_formed(&self) -> bool {
        self.0.well_formed()
    }

    /// Takes the next value out of the list, or returns `None` once the list
    /// is empty.
    pub fn next(&mut self) -> (item: Option<T>)
        requires
            old(self).well_formed(),
        ensures
            final(self).well_formed(),
            item == front(old(self)@),
            final(self)@ == popped(old(self)@),
    {
        self.0.pop()
    }
}

/// A cursor that hands out shared references, from the head to the tail.
pub struct Iter<'a, T> {
    next: Option<&'a Node<T>>,
}

impl<'a, T> View for Iter<'a, T> {
    type V = Seq<T>;

    /// The values that are still to come, in the order they will come.
    closed spec fn view(&self) -> Seq<T> {
        match self.next {
            None => Seq::empty(),
            Some(node) => node.values(),
        }
    }
}

impl<'a, T> Iter<'a, T> {
    /// Yields the next value and moves on, or returns `None` at the end.
    pub fn next(&mut self) -> (item: Option<&'a T>)
        ensures
            item is Some <==> front(old(self)@) is Some,
            item is Some ==> *item.unwrap() == front(old(self)@).unwrap(),
            final(self)@ == popped(old(self)@),
    {
        match self.next {
            None => None,
            Some(node) => {
                self.next = match &node.next {
                    None => None,
                    Some(next) => Some(&**next),
                };
                Some(&node.value)
            },
        }
    }
}

/// A cursor that hands out exclusive references, from the head to the tail.
pub struct IterMut<'a, T> {
    next: Option<&'a mut Node<T>>,
}

impl<'a, T> View for IterMut<'a, T> {
    type V = Seq<T>;

    /// The values that are still to come, in the order they will come.
    closed spec fn view(&self) -> Seq<T> {
        match self.next {
            None => Seq::empty(),
            Some(node) => node.values(),
        }
    }
}

impl<'a, T> IterMut<'a, T> {
    /// The borrow of the part of the chain that is still to come.
    pub closed spec fn unvisited(&self) -> Option<&'a mut Node<T>> {
        self.next
    }

    /// A cursor that is not advanced any more leaves the rest of the chain
    /// as it is.
    pub proof fn lemma_unvisited_unchanged(self)
        requires
            has_resolved(self),
        ensures
            (match self.unvisited() {
                None => true,
                Some(node) => final(node).values() == self@,
            }),
    {
    }

    /// Yields the next value and moves on, or returns `None` at the end.
    pub fn next(&mut self) -> (item: Option<&'a mut T>)
        ensures
            item is Some <==> front(old(self)@) is Some,
            item is Some ==> *item.unwrap() == front(old(self)@).unwrap(),
            final(self)@ == popped(old(self)@),
            final(self).unvisited() is None <==> final(self)@.len() == 0,
            (match old(self).unvisited() {
                None => true,
                Some(node) => final(node).values() == pushed(
                    (match final(self).unvisited() {
                        None => Seq::empty(),
                        Some(rest) => final(rest).values(),
                    }),
                    *final(item.unwrap()),
                ),
            }),
    {
        match self.next.take() {
            None => None,
            Some(node) => {
                self.next = match &mut node.next {
                    None => None,
                    Some(next) => Some(&mut **next),
                };
                Some(&mut node.value)
            },
        }
    }
}

/// Takes the chain out of `link` and leaves `None` in its place. It does what
/// `Option::take` does, and in addition it never unwinds, which a destructor
/// needs.
fn detach<T>(link: &mut Link<T>) -> (chain: Link<T>)
    ensures
        chain == *old(link),
        *final(link) is None,
    opens_invariants none
    no_unwind
{
    let mut chain: Link<T> = None;
    std::mem::swap(&mut chain, link);
    chain
}

impl<T> Drop for List<T> {
    /// Takes the list apart in a loop: each node is detached from its
    /// successor before it is released, so that releasing a node never
    /// releases the nodes behind it in turn, however long the list is.
    fn drop(&mut self)
        ensures
            final(self)@ == Seq::<T>::empty(),
        opens_invariants none
        no_unwind
    {
        let mut temp = detach(&mut self.head);
        loop
            invariant
                self.head is None,
            decreases chain_values(temp).len(),
        {
            match temp {
                Some(mut boxed_node) => {
                    temp = detach(&mut boxed_node.next);
                },
                None => {
                    break ;
                },
            }
        }
    }
}

} // verus!
