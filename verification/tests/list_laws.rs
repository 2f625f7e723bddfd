use containers::list::List;

#[test]
fn pops_reverse_the_pushes() {
    let values: [i64; 7] = [10, -3, 7, 7, 0, 42, -1];
    let mut list = List::new();
    for value in values {
        list.push(value);
    }
    for value in values.iter().rev() {
        assert_eq!(list.pop(), Some(*value));
    }
    assert_eq!(list.pop(), None);
    assert_eq!(list.pop(), None);
}

#[test]
fn pops_return_to_what_was_there() {
    let mut list = List::new();
    list.push('a');
    list.push('b');
    for value in ['x', 'y', 'z'] {
        list.push(value);
    }
    assert_eq!(list.pop(), Some('z'));
    assert_eq!(list.pop(), Some('y'));
    assert_eq!(list.pop(), Some('x'));
    assert_eq!(list.size(), 2);
    assert_eq!(list.pop(), Some('b'));
    assert_eq!(list.pop(), Some('a'));
    assert_eq!(list.pop(), None);
}

#[test]
fn size_counts_pushes_less_pops() {
    let pushes: usize = 9;
    for pops in 0..=pushes {
        let mut list = List::new();
        for value in 0..pushes {
            list.push(value);
        }
        for _ in 0..pops {
            assert!(list.pop().is_some());
        }
        assert_eq!(list.size(), pushes - pops);
    }
}

#[test]
fn size_counts_interleaved_steps() {
    let mut list = List::new();
    list.push(1u8);
    assert_eq!(list.size(), 1);
    list.push(2);
    assert_eq!(list.size(), 2);
    assert_eq!(list.pop(), Some(2));
    assert_eq!(list.size(), 1);
    list.push(3);
    list.push(4);
    list.push(5);
    assert_eq!(list.size(), 4);
    assert_eq!(list.pop(), Some(5));
    assert_eq!(list.pop(), Some(4));
    assert_eq!(list.size(), 2);
}

#[test]
fn pop_from_empty_keeps_size_zero() {
    let mut list: List<u32> = List::new();
    for _ in 0..5 {
        assert_eq!(list.pop(), None);
        assert_eq!(list.size(), 0);
    }
    list.push(8);
    assert_eq!(list.size(), 1);
    assert_eq!(list.pop(), Some(8));
    assert_eq!(list.pop(), None);
    assert_eq!(list.size(), 0);
    list.push(9);
    assert_eq!(list.size(), 1);
}

#[test]
fn empty_pops_do_not_count() {
    let mut list: List<u32> = List::new();
    assert_eq!(list.pop(), None);
    list.push(1);
    list.push(2);
    assert_eq!(list.pop(), Some(2));
    assert_eq!(list.pop(), Some(1));
    assert_eq!(list.pop(), None);
    assert_eq!(list.pop(), None);
    list.push(3);
    // three pushes, five pops, three of them on an empty list
    assert_eq!(list.size(), 3 + 3 - 5);
}

#[test]
fn peek_changes_nothing() {
    let mut list = List::new();
    list.push("a");
    list.push("b");
    list.push("c");
    for _ in 0..4 {
        assert_eq!(list.peek(), Some(&"c"));
        assert_eq!(list.size(), 3);
    }
    assert_eq!(list.pop(), Some("c"));
    assert_eq!(list.pop(), Some("b"));
    assert_eq!(list.pop(), Some("a"));
    assert_eq!(list.pop(), None);
}

#[test]
fn peek_then_pop_agree() {
    let mut list = List::new();
    for value in [5, 6, 7, 8] {
        list.push(value);
    }
    loop {
        let peeked = list.peek().copied();
        let popped = list.pop();
        assert_eq!(peeked, popped);
        if popped.is_none() {
            break;
        }
    }
    assert_eq!(list.size(), 0);
}

#[test]
fn fronts_come_in_order() {
    let mut list = List::new();
    for value in [1, 2, 3, 4, 5] {
        list.push(value);
    }
    let expected = [5, 4, 3, 2, 1];
    let mut shared = list.iter();
    for value in expected.iter() {
        assert_eq!(shared.next(), Some(value));
    }
    assert_eq!(shared.next(), None);
    let mut owned = list.into_iter();
    for value in expected {
        assert_eq!(owned.next(), Some(value));
    }
    assert_eq!(owned.next(), None);
}
