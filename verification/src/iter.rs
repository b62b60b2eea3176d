//! Forward iteration over a list. An iterator borrows the chain read-only
//! and yields references to the values in head-to-tail order; a filtered
//! iterator additionally skips the values its predicate rejects, keeping
//! the relative order of those it accepts.

use vstd::prelude::*;

use crate::list::link_view;
use crate::list::Node;

verus! {

/// A read-only cursor into a chain: the next node to yield, if any.
pub struct Iter<'a, T> {
    pub node: Option<&'a Node<T>>,
}

impl<'a, T> View for Iter<'a, T> {
    type V = Seq<T>;

    open spec fn view(&self) -> Seq<T> {
        match self.node {
            None => Seq::empty(),
            Some(node) => seq![node.value] + link_view(node.next),
        }
    }
}

impl<'a, T> Iter<'a, T> {
    /// Yields a reference to the first remaining value and steps past it,
    /// or returns nothing once the chain is exhausted; an exhausted
    /// iterator stays exhausted.
    pub fn next(&mut self) -> (r: Option<&'a T>)
        ensures
            match r {
                Some(v) => old(self)@.len() > 0 && *v == old(self)@[0] && final(self)@
                    == old(self)@.drop_first(),
                None => old(self)@.len() == 0 && final(self)@ == old(self)@,
            },
    {
        match self.node {
            None => None,
            Some(node) => {
                self.node = match &node.next {
                    None => None,
                    Some(next) => Some(&**next),
                };
                proof {
                    assert(self@ =~= old(self)@.drop_first());
                }
                Some(&node.value)
            },
        }
    }

    /// Wraps this iterator with a predicate: the filtered iterator pulls
    /// values lazily from this one and yields only those the predicate
    /// accepts, in unchanged relative order.
    pub fn filter<F: Fn(&T) -> bool>(self, pred: F) -> (r: Filtered<'a, T, F>)
        ensures
            r.iter@ == self@,
            r.pred == pred,
    {
        Filtered { iter: self, pred }
    }
}

/// A lazily filtering view over an [`Iter`]: values the predicate rejects
/// are skipped, values it accepts come out in their original order.
pub struct Filtered<'a, T, F: Fn(&T) -> bool> {
    pub iter: Iter<'a, T>,
    pub pred: F,
}

impl<'a, T, F: Fn(&T) -> bool> Filtered<'a, T, F> {
    /// Pulls values from the underlying iterator until the predicate
    /// accepts one, yields that value, and leaves the iterator just past
    /// it; once nothing is left to accept, returns nothing forever. Every
    /// value skipped on the way is one the predicate rejected, so the
    /// accepted values keep their relative order.
    pub fn next(&mut self) -> (r: Option<&'a T>)
        requires
            forall|x: &T| call_requires(old(self).pred, (x,)),
        ensures
            final(self).pred == old(self).pred,
            match r {
                Some(v) => exists|k: int|
                    #![trigger old(self).iter@.skip(k + 1)]
                    0 <= k < old(self).iter@.len()
                        && *v == old(self).iter@[k]
                        && final(self).iter@ == old(self).iter@.skip(k + 1)
                        && call_ensures(old(self).pred, (v,), true)
                        && (forall|j: int| 0 <= j < k
                            ==> call_ensures(old(self).pred, (&old(self).iter@[j],), false)),
                None => final(self).iter@.len() == 0
                    && (forall|j: int| 0 <= j < old(self).iter@.len()
                        ==> call_ensures(old(self).pred, (&old(self).iter@[j],), false)),
            },
    {
        let ghost mut c: int = 0;
        loop
            invariant
                forall|x: &T| call_requires(self.pred, (x,)),
                self.pred == old(self).pred,
                0 <= c <= old(self).iter@.len(),
                self.iter@ == old(self).iter@.skip(c),
                forall|j: int|
                    0 <= j < c ==> call_ensures(self.pred, (&old(self).iter@[j],), false),
            decreases self.iter@.len(),
        {
            match self.iter.next() {
                None => {
                    return None;
                },
                Some(v) => {
                    proof {
                        assert(self.iter@ =~= old(self).iter@.skip(c + 1));
                    }
                    if (self.pred)(v) {
                        return Some(v);
                    }
                    proof {
                        c = c + 1;
                    }
                },
            }
        }
    }
}

} // verus!
