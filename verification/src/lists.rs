//! Helpers for lists.

use vstd::prelude::*;

verus! {

/// Filtering a list with one more element in front.
pub proof fn lemma_filter_prepend<A>(head: A, tail: Seq<A>, pred: spec_fn(A) -> bool)
    ensures
        (seq![head] + tail).filter(pred) == if pred(head) {
            seq![head] + tail.filter(pred)
        } else {
            tail.filter(pred)
        },
{
    Seq::<A>::filter_distributes_over_add(seq![head], tail, pred);
    reveal(Seq::filter);
    assert(seq![head].drop_last() =~= Seq::<A>::empty());
    assert(Seq::<A>::empty().filter(pred) =~= Seq::<A>::empty());
    assert(seq![head].filter(pred) =~= if pred(head) {
        seq![head]
    } else {
        Seq::<A>::empty()
    });
    if !pred(head) {
        assert(Seq::<A>::empty() + tail.filter(pred) =~= tail.filter(pred));
    }
}

/// Filtering a list with one more element at its end.
pub proof fn lemma_filter_push<A>(list: Seq<A>, last: A, pred: spec_fn(A) -> bool)
    ensures
        list.push(last).filter(pred) == if pred(last) {
            list.filter(pred).push(last)
        } else {
            list.filter(pred)
        },
{
    reveal(Seq::filter);
    assert(list.push(last).drop_last() =~= list);
}

/// Keeps the items of a list whose mark is set, in the list's order. The
/// marks say of each item whether `pred` holds of it.
pub(crate) fn keep_marked<A>(
    items: Vec<A>,
    marks: &Vec<bool>,
    Ghost(pred): Ghost<spec_fn(A) -> bool>,
) -> (kept: Vec<A>)
    requires
        marks@.len() == items@.len(),
        forall|i: int| 0 <= i < items@.len() ==> marks@[i] == pred(#[trigger] items@[i]),
    ensures
        kept@ == items@.filter(pred),
{
    let ghost all = items@;
    let mut items = items;
    // Taken from the back, so the kept ones come out reversed.
    let mut reversed: Vec<A> = Vec::new();
    while items.len() > 0
        invariant
            items@.len() <= all.len(),
            marks@.len() == all.len(),
            items@ == all.subrange(0, items@.len() as int),
            forall|i: int| 0 <= i < all.len() ==> marks@[i] == pred(#[trigger] all[i]),
            reversed@.reverse() == all.subrange(items@.len() as int, all.len() as int).filter(pred),
        decreases items.len(),
    {
        let ghost n = items@.len() as int;
        let keep = marks[items.len() - 1];
        let item = items.pop().unwrap();
        proof {
            let tail = all.subrange(n, all.len() as int);
            assert(all.subrange(n - 1, all.len() as int) =~= seq![item] + tail);
            lemma_filter_prepend(item, tail, pred);
            assert(items@ =~= all.subrange(0, n - 1));
            assert(item == all[n - 1]);
        }
        if keep {
            let ghost before = reversed@;
            reversed.push(item);
            assert(reversed@.reverse() =~= seq![item] + before.reverse());
        }
    }
    assert(all.subrange(0, all.len() as int) =~= all);
    let mut kept: Vec<A> = Vec::new();
    while reversed.len() > 0
        invariant
            kept@ + reversed@.reverse() == all.filter(pred),
        decreases reversed.len(),
    {
        let ghost before = reversed@;
        let item = reversed.pop().unwrap();
        kept.push(item);
        assert(before.reverse() =~= seq![item] + reversed@.reverse());
        assert(kept@ + reversed@.reverse() =~= all.filter(pred));
    }
    assert(reversed@.reverse() =~= Seq::<A>::empty());
    assert(kept@ =~= all.filter(pred));
    kept
}

} // verus!
