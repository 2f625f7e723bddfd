//! The list seen as a sequence of values, head first, and what each
//! operation makes of that sequence. The contracts of the list and of its
//! cursors are stated with these functions.

use vstd::prelude::*;

verus! {

/// The contents after `value` is pushed onto contents `s`.
pub open spec fn pushed<T>(s: Seq<T>, value: T) -> Seq<T> {
    seq![value] + s
}

/// The value at the front of contents `s`, if there is one. This is what a
/// pop takes out, what a peek shows, and what a cursor yields next.
pub open spec fn front<T>(s: Seq<T>) -> Option<T> {
    if s.len() == 0 {
        None
    } else {
        Some(s[0])
    }
}

/// The contents after a pop from contents `s`. Nothing changes when `s` is
/// empty.
pub open spec fn popped<T>(s: Seq<T>) -> Seq<T> {
    if s.len() == 0 {
        s
    } else {
        s.drop_first()
    }
}

/// The contents after each value of `values` is pushed onto contents `s`,
/// `values[0]` first.
pub open spec fn pushed_all<T>(s: Seq<T>, values: Seq<T>) -> Seq<T>
    decreases values.len(),
{
    if values.len() == 0 {
        s
    } else {
        pushed(pushed_all(s, values.drop_last()), values.last())
    }
}

/// The contents after `n` pops from contents `s`.
pub open spec fn popped_times<T>(s: Seq<T>, n: nat) -> Seq<T>
    decreases n,
{
    if n == 0 {
        s
    } else {
        popped(popped_times(s, (n - 1) as nat))
    }
}

/// One operation that changes a list.
pub enum Step<T> {
    Push(T),
    Pop,
}

/// The contents after the operations of `steps` are applied to contents
/// `s`, `steps[0]` first.
pub open spec fn stepped<T>(s: Seq<T>, steps: Seq<Step<T>>) -> Seq<T>
    decreases steps.len(),
{
    if steps.len() == 0 {
        s
    } else {
        let before = stepped(s, steps.drop_last());
        match steps.last() {
            Step::Push(value) => pushed(before, value),
            Step::Pop => popped(before),
        }
    }
}

/// How many of `steps` are pushes.
pub open spec fn pushes<T>(steps: Seq<Step<T>>) -> nat
    decreases steps.len(),
{
    if steps.len() == 0 {
        0
    } else if steps.last() is Push {
        pushes(steps.drop_last()) + 1
    } else {
        pushes(steps.drop_last())
    }
}

/// How many of `steps` are pops.
pub open spec fn pops<T>(steps: Seq<Step<T>>) -> nat
    decreases steps.len(),
{
    if steps.len() == 0 {
        0
    } else if steps.last() is Pop {
        pops(steps.drop_last()) + 1
    } else {
        pops(steps.drop_last())
    }
}

/// How many pops of `steps` find the list empty, when `steps` is applied to
/// contents `s`.
pub open spec fn empty_pops<T>(s: Seq<T>, steps: Seq<Step<T>>) -> nat
    decreases steps.len(),
{
    if steps.len() == 0 {
        0
    } else if steps.last() is Pop && stepped(s, steps.drop_last()).len() == 0 {
        empty_pops(s, steps.drop_last()) + 1
    } else {
        empty_pops(s, steps.drop_last())
    }
}

} // verus!
