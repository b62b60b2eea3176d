//! The stack laws of the list, stated over views and proved once and for
//! all: what any finite sequence of pushes leaves behind, what `peek` sees
//! after it, the LIFO order in which `pop` and the iterator then hand the
//! values back, and that equality of lists is decided by the values alone.

use vstd::prelude::*;

use crate::list::link_view;
use crate::list::Link;
use crate::list::LinkedList;

verus! {

/// A chain is determined by the sequence of values it holds: two links
/// with the same view are the same link.
proof fn lemma_link_view_injective<T>(a: Link<T>, b: Link<T>)
    requires
        link_view(a) == link_view(b),
    ensures
        a == b,
    decreases a,
{
    match (a, b) {
        (None, None) => {},
        (Some(x), Some(y)) => {
            assert(x.value == y.value) by {
                assert(link_view(a)[0] == x.value);
                assert(link_view(b)[0] == y.value);
            }
            assert(link_view(x.next) =~= (seq![x.value] + link_view(x.next)).drop_first());
            assert(link_view(y.next) =~= (seq![y.value] + link_view(y.next)).drop_first());
            lemma_link_view_injective(x.next, y.next);
            assert(*x == *y);
        },
        (None, Some(y)) => {
            assert(link_view(b).len() >= 1);
        },
        (Some(x), None) => {
            assert(link_view(a).len() >= 1);
        },
    }
}

/// Law: two lists are equal exactly when they hold equal values at every
/// position in head-to-tail order — structural equality, decided by the
/// views alone, not by the identity of the nodes.
pub proof fn lemma_eq_iff_views_eq<T>(a: LinkedList<T>, b: LinkedList<T>)
    ensures
        a == b <==> a@ == b@,
{
    if a@ == b@ {
        lemma_link_view_injective(a.head, b.head);
    }
}

/// The view a list reaches after pushing the values of `items` in order
/// (first `items[0]`, last `items.last()`) onto a list whose view was
/// `start`. Each push prepends its value, as `LinkedList::push` ensures.
pub open spec fn after_pushes<T>(start: Seq<T>, items: Seq<T>) -> Seq<T>
    decreases items.len(),
{
    if items.len() == 0 {
        start
    } else {
        after_pushes(seq![items.first()] + start, items.drop_first())
    }
}

/// Law: pushing a sequence of values reverses it on top of what was
/// already there, so the most recently pushed value always stands first.
pub proof fn lemma_after_pushes_reverses<T>(start: Seq<T>, items: Seq<T>)
    ensures
        after_pushes(start, items) == items.reverse() + start,
    decreases items.len(),
{
    if items.len() == 0 {
        assert(items.reverse() + start =~= start);
    } else {
        lemma_after_pushes_reverses(seq![items.first()] + start, items.drop_first());
        assert(items.drop_first().reverse() + (seq![items.first()] + start) =~= items.reverse()
            + start);
    }
}

/// Law: after a non-empty sequence of pushes, the head of the list — the
/// value `peek` returns a reference to — is the last value pushed; after
/// no pushes at all the list is as it was, so on a fresh list `peek`
/// returns no value.
pub proof fn lemma_peek_after_pushes<T>(start: Seq<T>, items: Seq<T>)
    ensures
        items.len() > 0 ==> after_pushes(start, items).len() > 0 && after_pushes(start, items)[0]
            == items.last(),
        items.len() == 0 ==> after_pushes(start, items) == start,
{
    lemma_after_pushes_reverses(start, items);
}

/// Law: N pushes followed by pops come back LIFO. After pushing the
/// values of `items` in order onto an empty list, the list's view is
/// `items.reverse()`, whose k-th element — the value the (k+1)-th `pop`
/// or `next` yields — is `items[items.len() - 1 - k]`; after `items.len()`
/// pops the view is empty again, so one more `pop` returns no value.
pub proof fn lemma_lifo<T>(items: Seq<T>)
    ensures
        after_pushes(Seq::<T>::empty(), items) == items.reverse(),
        after_pushes(Seq::<T>::empty(), items).len() == items.len(),
        forall|k: int|
            0 <= k < items.len() ==> after_pushes(Seq::<T>::empty(), items)[k] == items[items.len()
                - 1 - k],
{
    lemma_after_pushes_reverses(Seq::<T>::empty(), items);
    assert(items.reverse() + Seq::<T>::empty() =~= items.reverse());
}

/// Law: any two empty lists of one element type are equal — in particular
/// any list `new` returns equals any other freshly constructed one.
pub proof fn lemma_empty_lists_equal<T>(a: LinkedList<T>, b: LinkedList<T>)
    requires
        a@.len() == 0,
        b@.len() == 0,
    ensures
        a == b,
{
    assert(a@ =~= b@);
    lemma_eq_iff_views_eq(a, b);
}

} // verus!
