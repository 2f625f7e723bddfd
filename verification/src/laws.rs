//! Laws of the list, proved of the sequence model that its contracts use.

use crate::model::{
    empty_pops, front, popped, popped_times, pops, pushed, pushed_all, pushes, stepped, Step,
};
use vstd::prelude::*;

verus! {

/// Pushing `values` one by one puts them in front of what was there, the
/// last one pushed first: from the head to the tail the list holds the
/// values in the reverse of the order in which they were pushed.
pub proof fn lemma_pushed_all_reverses<T>(s: Seq<T>, values: Seq<T>)
    ensures
        pushed_all(s, values) == values.reverse() + s,
    decreases values.len(),
{
    if values.len() > 0 {
        lemma_pushed_all_reverses(s, values.drop_last());
        assert(values.reverse() + s =~= pushed(values.drop_last().reverse() + s, values.last()));
    } else {
        assert(values.reverse() + s =~= s);
    }
}

/// `n` pops take away the first `n` values, and all of them when there are
/// fewer.
proof fn lemma_popped_times_skips<T>(s: Seq<T>, n: nat)
    ensures
        n <= s.len() ==> popped_times(s, n) == s.subrange(n as int, s.len() as int),
        n > s.len() ==> popped_times(s, n) == Seq::<T>::empty(),
    decreases n,
{
    if n > 0 {
        lemma_popped_times_skips(s, (n - 1) as nat);
        if n <= s.len() {
            assert(popped(s.subrange(n - 1, s.len() as int)) =~= s.subrange(
                n as int,
                s.len() as int,
            ));
        } else if n - 1 == s.len() {
            assert(s.subrange(n - 1, s.len() as int) =~= Seq::<T>::empty());
        }
    } else {
        assert(s.subrange(0, s.len() as int) =~= s);
    }
}

/// Taking from the front again and again yields the contents in order, and
/// nothing once they are used up: take number `i`, counted from 0, yields
/// `s[i]`, and each take that finds a value leaves one value fewer. This is
/// the order in which pops and the three cursors hand the values out.
pub proof fn lemma_fronts_in_order<T>(s: Seq<T>, i: nat)
    ensures
        i < s.len() ==> front(popped_times(s, i)) == Some(s[i as int]),
        i <= s.len() ==> popped_times(s, i).len() == s.len() - i,
        i >= s.len() ==> front(popped_times(s, i)) is None && popped_times(s, i)
            == Seq::<T>::empty(),
{
    lemma_popped_times_skips(s, i);
    if i == s.len() {
        assert(s.subrange(i as int, s.len() as int) =~= Seq::<T>::empty());
    }
}

/// Last in, first out. After `values` are pushed onto contents `s`, pop
/// number `i`, counted from 0, yields the value pushed `i` places before the
/// last one; after as many pops as there were pushes the contents are `s`
/// again. On a list that was empty, the pop that follows finds nothing and
/// leaves the list empty.
pub proof fn lemma_pops_yield_pushes_reversed<T>(s: Seq<T>, values: Seq<T>)
    ensures
        forall|i: nat|
            i < values.len() ==> front(#[trigger] popped_times(pushed_all(s, values), i)) == Some(
                values[values.len() - 1 - i],
            ),
        popped_times(pushed_all(s, values), values.len()) == s,
        s.len() == 0 ==> front(popped_times(pushed_all(s, values), values.len())) is None
            && popped_times(pushed_all(s, values), values.len() + 1) == s,
{
    let full = pushed_all(s, values);
    lemma_pushed_all_reverses(s, values);
    assert forall|i: nat| i < values.len() implies front(#[trigger] popped_times(full, i)) == Some(
        values[values.len() - 1 - i],
    ) by {
        lemma_popped_times_skips(full, i);
    }
    lemma_popped_times_skips(full, values.len());
    assert(full.subrange(values.len() as int, full.len() as int) =~= s);
}

/// The size after pushes followed by pops. After `values` are pushed onto an
/// empty list and `j` values are popped, `j` no more than the number of
/// pushes, the list holds as many values as there were pushes less `j`.
pub proof fn lemma_size_after_pushes_then_pops<T>(values: Seq<T>, j: nat)
    requires
        j <= values.len(),
    ensures
        popped_times(pushed_all(Seq::<T>::empty(), values), j).len() == values.len() - j,
{
    lemma_pushed_all_reverses(Seq::<T>::empty(), values);
    lemma_popped_times_skips(pushed_all(Seq::<T>::empty(), values), j);
}

/// The size after pushes and pops in any order. Each push adds one value and
/// each pop takes one away, but for the pops that find the list empty, which
/// change nothing. So where no pop finds the list empty, the size has grown
/// by the number of pushes less the number of pops.
pub proof fn lemma_size_counts_steps<T>(s: Seq<T>, steps: Seq<Step<T>>)
    ensures
        stepped(s, steps).len() == s.len() + pushes(steps) - pops(steps) + empty_pops(s, steps),
        empty_pops(s, steps) == 0 ==> stepped(s, steps).len() == s.len() + pushes(steps) - pops(steps),
    decreases steps.len(),
{
    if steps.len() > 0 {
        lemma_size_counts_steps(s, steps.drop_last());
    }
}

/// A pop from an empty list yields nothing and leaves the list empty, however
/// often it is repeated.
pub proof fn lemma_pop_on_empty<T>(n: nat)
    ensures
        front(Seq::<T>::empty()) is None,
        popped_times(Seq::<T>::empty(), n) == Seq::<T>::empty(),
        popped_times(Seq::<T>::empty(), n).len() == 0,
{
    lemma_popped_times_skips(Seq::<T>::empty(), n);
    assert(Seq::<T>::empty().subrange(0, 0) =~= Seq::<T>::empty());
}

/// A peek and the pop that follows it yield equal values. `peeked` is what
/// `peek` may return on a list that holds `s`, and `taken` is what `pop`
/// returns on that list.
pub proof fn lemma_peek_then_pop<T>(s: Seq<T>, peeked: Option<&T>, taken: Option<T>)
    requires
        peeked is Some <==> front(s) is Some,
        peeked is Some ==> *peeked.unwrap() == front(s).unwrap(),
        taken == front(s),
    ensures
        peeked is Some <==> taken is Some,
        peeked is Some ==> *peeked.unwrap() == taken.unwrap(),
{
}

} // verus!
