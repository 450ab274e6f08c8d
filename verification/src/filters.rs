//! Facts about selecting the items of a sequence by a predicate.

use vstd::prelude::*;

verus! {

/// Two predicates that agree on every item of a sequence select the same items.
pub proof fn lemma_filter_agrees<A>(items: Seq<A>, p: spec_fn(A) -> bool, q: spec_fn(A) -> bool)
    requires
        forall|i: int| 0 <= i < items.len() ==> p(items[i]) == q(items[i]),
    ensures
        items.filter(p) == items.filter(q),
    decreases items.len(),
{
    reveal(Seq::filter);
    if items.len() > 0 {
        lemma_filter_agrees(items.drop_last(), p, q);
    }
}

/// Selecting by one predicate and then by another selects the items that
/// meet both, so the order of the two does not matter.
pub proof fn lemma_filter_both<A>(items: Seq<A>, p: spec_fn(A) -> bool, q: spec_fn(A) -> bool)
    ensures
        items.filter(p).filter(q) == items.filter(|item: A| p(item) && q(item)),
        items.filter(p).filter(q) == items.filter(q).filter(p),
    decreases items.len(),
{
    reveal(Seq::filter);
    let both = |item: A| p(item) && q(item);
    if items.len() > 0 {
        let shorter = items.drop_last();
        lemma_filter_both(shorter, p, q);
        if p(items.last()) {
            shorter.filter(p).lemma_filter_push(items.last(), q);
        }
        if q(items.last()) {
            shorter.filter(q).lemma_filter_push(items.last(), p);
        }
    }
}

/// Selecting from a selection: where every selected item meets a second
/// predicate the selection stays as it is, and where none does nothing is left.
pub proof fn lemma_filter_again<A>(items: Seq<A>, p: spec_fn(A) -> bool, q: spec_fn(A) -> bool)
    ensures
        (forall|i: int| 0 <= i < items.len() && p(items[i]) ==> q(items[i])) ==> items.filter(
            p,
        ).filter(q) == items.filter(p),
        (forall|i: int| 0 <= i < items.len() && p(items[i]) ==> !q(items[i])) ==> items.filter(
            p,
        ).filter(q) == Seq::<A>::empty(),
    decreases items.len(),
{
    reveal(Seq::filter);
    if items.len() > 0 {
        let shorter = items.drop_last();
        lemma_filter_again(shorter, p, q);
        assert(forall|i: int| 0 <= i < shorter.len() ==> shorter[i] == items[i]);
        if p(items.last()) {
            shorter.filter(p).lemma_filter_push(items.last(), q);
        }
    }
}

/// A selection and the selection by the opposite predicate share out the
/// items between them.
pub proof fn lemma_filter_partition<A>(items: Seq<A>, p: spec_fn(A) -> bool)
    ensures
        items.to_multiset() == items.filter(p).to_multiset().add(
            items.filter(|item: A| !p(item)).to_multiset(),
        ),
        items.len() == items.filter(p).len() + items.filter(|item: A| !p(item)).len(),
    decreases items.len(),
{
    broadcast use vstd::seq_lib::group_to_multiset_ensures;

    reveal(Seq::filter);
    let not_p = |item: A| !p(item);
    if items.len() == 0 {
        assert(items.to_multiset() =~= items.filter(p).to_multiset().add(
            items.filter(not_p).to_multiset(),
        ));
    } else {
        let shorter = items.drop_last();
        lemma_filter_partition(shorter, p);
        assert(items =~= shorter.push(items.last()));
        assert(items.to_multiset() =~= items.filter(p).to_multiset().add(
            items.filter(not_p).to_multiset(),
        ));
    }
}

} // verus!
