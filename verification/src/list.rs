//! The list itself: a chain of exclusively owned nodes, entered only at the
//! head. Pushing prepends a node, popping detaches the head node, peeking
//! borrows the head value. The abstract view of a list is the sequence of its
//! values in head-to-tail order, so index 0 is always the most recently
//! pushed value.

use vstd::prelude::*;

verus! {

/// An owned link to the rest of a chain: either the next node or nothing.
pub type Link<T> = Option<Box<Node<T>>>;

/// One element of the chain: a value and the exclusively owned tail.
#[derive(PartialEq, Debug)]
pub struct Node<T> {
    pub value: T,
    pub next: Link<T>,
}

/// A singly-linked list owning its whole chain through the head link.
#[derive(PartialEq, Debug)]
pub struct LinkedList<T> {
    pub head: Link<T>,
}

/// The sequence of values reachable from a link, nearest first.
pub open spec fn link_view<T>(link: Link<T>) -> Seq<T>
    decreases link,
{
    match link {
        None => Seq::empty(),
        Some(node) => seq![node.value] + link_view(node.next),
    }
}

impl<T> View for LinkedList<T> {
    type V = Seq<T>;

    open spec fn view(&self) -> Seq<T> {
        link_view(self.head)
    }
}

impl<T> LinkedList<T> {
    /// Returns the empty list.
    pub fn new() -> (list: Self)
        ensures
            list@ == Seq::<T>::empty(),
    {
        LinkedList { head: None }
    }

    /// Borrows the most recently pushed value, or returns nothing when the
    /// list is empty. The list is not changed.
    pub fn peek(&self) -> (r: Option<&T>)
        ensures
            match r {
                Some(v) => self@.len() > 0 && *v == self@[0],
                None => self@.len() == 0,
            },
    {
        match &self.head {
            None => None,
            Some(node) => Some(&node.value),
        }
    }

    /// Prepends `item`: the new node takes over the old head as its tail
    /// and becomes the head, so every earlier value keeps its order.
    pub fn push(&mut self, item: T)
        ensures
            final(self)@ == seq![item] + old(self)@,
    {
        self.head = Some(Box::new(Node { value: item, next: self.head.take() }));
    }

    /// Detaches the head node and returns its value, promoting the node's
    /// tail to be the new head; on an empty list returns nothing and leaves
    /// the list empty.
    pub fn pop(&mut self) -> (r: Option<T>)
        ensures
            match r {
                Some(v) => old(self)@.len() > 0 && v == old(self)@[0] && final(self)@ == old(
                    self,
                )@.drop_first(),
                None => old(self)@.len() == 0 && final(self)@ == old(self)@,
            },
    {
        match self.head.take() {
            None => None,
            Some(node) => {
                let node = *node;
                self.head = node.next;
                proof {
                    assert(self@ =~= old(self)@.drop_first());
                }
                Some(node.value)
            },
        }
    }

    /// Returns a fresh iterator positioned just before the head; it borrows
    /// the list read-only and will yield exactly the list's values in
    /// head-to-tail order.
    pub fn iter<'a>(&'a self) -> (it: crate::iter::Iter<'a, T>)
        ensures
            it@ == self@,
    {
        crate::iter::Iter {
            node: match &self.head {
                None => None,
                Some(node) => Some(&**node),
            },
        }
    }
}

} // verus!
