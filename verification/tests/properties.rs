//! Concrete checks of the list's stated laws: peek sees the last push,
//! pops come back in reverse push order, iteration is most-recent-first
//! and exhaustion is terminal, and filtering keeps relative order without
//! touching the list.

use linked_list::LinkedList;

#[test]
fn peek_sees_last_of_many_pushes() {
    let mut list = LinkedList::new();
    list.push(7);
    list.push(8);
    list.push(9);
    assert_eq!(list.peek(), Some(&9));
    // peeking does not change the list
    assert_eq!(list.peek(), Some(&9));
}

#[test]
fn pop_empty_leaves_list_empty() {
    let mut list: LinkedList<u32> = LinkedList::new();
    assert_eq!(list.pop(), None);
    assert_eq!(list.pop(), None);
    assert_eq!(list.peek(), None);
}

#[test]
fn pops_reverse_three_pushes() {
    let mut list = LinkedList::new();
    list.push(1);
    list.push(2);
    list.push(3);
    assert_eq!(list.pop(), Some(3));
    assert_eq!(list.pop(), Some(2));
    assert_eq!(list.pop(), Some(1));
    assert_eq!(list.pop(), None);
}

#[test]
fn lists_with_same_pushes_are_equal() {
    let mut a = LinkedList::new();
    let mut b = LinkedList::new();
    a.push(5);
    a.push(6);
    b.push(5);
    b.push(6);
    assert_eq!(a, b);
    b.push(7);
    assert_ne!(a, b);
}

#[test]
fn exhausted_iterator_stays_exhausted() {
    let mut list = LinkedList::new();
    list.push(11);
    let mut iter = list.iter();
    assert_eq!(iter.next(), Some(&11));
    assert_eq!(iter.next(), None);
    assert_eq!(iter.next(), None);
}

#[test]
fn iteration_is_most_recent_first() {
    let mut list = LinkedList::new();
    list.push(1);
    list.push(2);
    list.push(3);
    let mut iter = list.iter();
    assert_eq!(iter.next(), Some(&3));
    assert_eq!(iter.next(), Some(&2));
    assert_eq!(iter.next(), Some(&1));
    assert_eq!(iter.next(), None);
}

#[test]
fn filter_that_rejects_everything_is_empty() {
    let mut list = LinkedList::new();
    list.push(4);
    list.push(5);
    let mut iter = list.iter().filter(|_: &u32| false);
    assert_eq!(iter.next(), None);
    assert_eq!(iter.next(), None);
}

#[test]
fn filter_leaves_the_list_unchanged() {
    let mut list = LinkedList::new();
    list.push(2);
    list.push(9);
    list.push(4);
    {
        let mut iter = list.iter().filter(|i: &u32| *i % 2 == 0);
        assert_eq!(iter.next(), Some(&4));
        assert_eq!(iter.next(), Some(&2));
        assert_eq!(iter.next(), None);
    }
    assert_eq!(list.pop(), Some(4));
    assert_eq!(list.pop(), Some(9));
    assert_eq!(list.pop(), Some(2));
    assert_eq!(list.pop(), None);
}

#[test]
fn push_after_pop_starts_a_new_head() {
    let mut list = LinkedList::new();
    list.push(1);
    list.push(2);
    assert_eq!(list.pop(), Some(2));
    list.push(3);
    assert_eq!(list.peek(), Some(&3));
    assert_eq!(list.pop(), Some(3));
    assert_eq!(list.pop(), Some(1));
    assert_eq!(list.pop(), None);
}
