//! A stable sort for lists whose items say which of two comes first.

use vstd::prelude::*;

verus! {

/// A sorted list with one more item: the item stands behind the last item
/// that it need not stand before.
pub open spec fn with_item<T>(before: spec_fn(T, T) -> bool, sorted: Seq<T>, item: T) -> Seq<T>
    decreases sorted.len(),
{
    if sorted.len() > 0 && before(item, sorted.last()) {
        with_item(before, sorted.drop_last(), item).push(sorted.last())
    } else {
        sorted.push(item)
    }
}

/// The list sorted: its items taken one by one, in order, each into its
/// place among those taken before it. Items of which neither has to stand
/// before the other keep the order they come in.
pub open spec fn stable_sorted<T>(before: spec_fn(T, T) -> bool, items: Seq<T>) -> Seq<T>
    decreases items.len(),
{
    if items.len() == 0 {
        Seq::empty()
    } else {
        with_item(before, stable_sorted(before, items.drop_last()), items.last())
    }
}

/// Whether no item of the list has to stand before an earlier one.
pub open spec fn is_ordered<T>(before: spec_fn(T, T) -> bool, items: Seq<T>) -> bool {
    forall|i: int, j: int|
        #![trigger items[i], items[j]]
        0 <= i < j < items.len() ==> !before(items[j], items[i])
}

/// Whether precedence is a strict weak order: of two items not each has
/// to stand before the other, and an item that need not stand before a
/// second, which need not stand before a third, need not stand before the
/// third.
pub open spec fn is_strict_weak_order<T>(before: spec_fn(T, T) -> bool) -> bool {
    &&& forall|a: T, b: T| #[trigger] before(a, b) ==> !before(b, a)
    &&& forall|a: T, b: T, c: T|
        !(#[trigger] before(a, b)) && !(#[trigger] before(b, c)) ==> !before(a, c)
}

/// Items with an order of precedence that can be decided.
pub trait Ranked: Sized {
    /// Whether `self` has to stand before `other`.
    spec fn before(&self, other: &Self) -> bool;

    /// Decides whether `self` has to stand before `other`.
    fn is_before(&self, other: &Self) -> (yes: bool)
        ensures
            yes == self.before(other),
    ;
}

/// The precedence of a type as a relation.
pub open spec fn precedence<T: Ranked>() -> spec_fn(T, T) -> bool {
    |a: T, b: T| a.before(&b)
}

proof fn lemma_with_item_at<T>(before: spec_fn(T, T) -> bool, sorted: Seq<T>, item: T, at: int)
    requires
        0 <= at <= sorted.len(),
        forall|k: int| at <= k < sorted.len() ==> before(item, #[trigger] sorted[k]),
        at > 0 ==> !before(item, sorted[at - 1]),
    ensures
        with_item(before, sorted, item) == sorted.insert(at, item),
    decreases sorted.len() - at,
{
    if at == sorted.len() {
        assert(sorted.insert(at, item) =~= sorted.push(item));
    } else {
        assert(before(item, sorted.last()));
        let shorter = sorted.drop_last();
        assert forall|k: int| at <= k < shorter.len() implies before(item, #[trigger] shorter[k]) by {
            assert(shorter[k] == sorted[k]);
        }
        lemma_with_item_at(before, shorter, item, at);
        assert(shorter.insert(at, item).push(sorted.last()) =~= sorted.insert(at, item));
    }
}

proof fn lemma_with_item_index<T>(before: spec_fn(T, T) -> bool, sorted: Seq<T>, item: T) -> (at:
    int)
    ensures
        0 <= at <= sorted.len(),
        with_item(before, sorted, item) == sorted.insert(at, item),
        forall|k: int| at <= k < sorted.len() ==> before(item, #[trigger] sorted[k]),
        at > 0 ==> !before(item, sorted[at - 1]),
    decreases sorted.len(),
{
    if sorted.len() > 0 && before(item, sorted.last()) {
        let shorter = sorted.drop_last();
        let at = lemma_with_item_index(before, shorter, item);
        assert(shorter.insert(at, item).push(sorted.last()) =~= sorted.insert(at, item));
        assert forall|k: int| at <= k < sorted.len() implies before(item, #[trigger] sorted[k]) by {
            if k < shorter.len() {
                assert(shorter[k] == sorted[k]);
            }
        }
        if at > 0 {
            assert(shorter[at - 1] == sorted[at - 1]);
        }
        at
    } else {
        assert(sorted.insert(sorted.len() as int, item) =~= sorted.push(item));
        sorted.len() as int
    }
}

proof fn lemma_with_item_is_rearranged<T>(before: spec_fn(T, T) -> bool, sorted: Seq<T>, item: T)
    ensures
        with_item(before, sorted, item).to_multiset() == sorted.to_multiset().insert(item),
        with_item(before, sorted, item).len() == sorted.len() + 1,
    decreases sorted.len(),
{
    broadcast use vstd::seq_lib::group_to_multiset_ensures;

    if sorted.len() > 0 && before(item, sorted.last()) {
        lemma_with_item_is_rearranged(before, sorted.drop_last(), item);
        assert(sorted.drop_last().push(sorted.last()) =~= sorted);
        assert(with_item(before, sorted, item).to_multiset() =~= sorted.to_multiset().insert(
            item,
        ));
    }
}

/// Sorting keeps every item, as often as it occurs.
pub proof fn lemma_sorted_is_rearranged<T>(before: spec_fn(T, T) -> bool, items: Seq<T>)
    ensures
        stable_sorted(before, items).to_multiset() == items.to_multiset(),
        stable_sorted(before, items).len() == items.len(),
    decreases items.len(),
{
    broadcast use vstd::seq_lib::group_to_multiset_ensures;

    if items.len() > 0 {
        lemma_sorted_is_rearranged(before, items.drop_last());
        lemma_with_item_is_rearranged(
            before,
            stable_sorted(before, items.drop_last()),
            items.last(),
        );
        assert(items.drop_last().push(items.last()) =~= items);
    }
}

/// Where precedence is a strict weak order, the sorted list is in order:
/// no item has to stand before an earlier one.
pub proof fn lemma_sorted_is_ordered<T>(before: spec_fn(T, T) -> bool, items: Seq<T>)
    requires
        is_strict_weak_order(before),
    ensures
        is_ordered(before, stable_sorted(before, items)),
    decreases items.len(),
{
    if items.len() > 0 {
        let sorted = stable_sorted(before, items.drop_last());
        let item = items.last();
        lemma_sorted_is_ordered(before, items.drop_last());
        let at = lemma_with_item_index(before, sorted, item);
        let out = sorted.insert(at, item);
        assert forall|i: int, j: int| 0 <= i < j < out.len() implies !before(out[j], out[i]) by {
            if j < at {
                assert(out[i] == sorted[i] && out[j] == sorted[j]);
            } else if j == at {
                assert(out[i] == sorted[i]);
                if i < at - 1 {
                    assert(!before(sorted[at - 1], sorted[i]));
                }
            } else if i < at {
                assert(out[i] == sorted[i] && out[j] == sorted[j - 1]);
            } else if i == at {
                assert(out[j] == sorted[j - 1]);
                assert(before(item, sorted[j - 1]));
            } else {
                assert(out[i] == sorted[i - 1] && out[j] == sorted[j - 1]);
            }
        }
    }
}

/// Sorting commutes with a mapping that keeps precedence: mapping the
/// sorted list gives the sorted list of the mapped items.
pub proof fn lemma_sorted_maps<T, V>(
    before: spec_fn(T, T) -> bool,
    mapped_before: spec_fn(V, V) -> bool,
    map: spec_fn(T) -> V,
    items: Seq<T>,
)
    requires
        forall|a: T, b: T| #[trigger] mapped_before(map(a), map(b)) == before(a, b),
    ensures
        stable_sorted(mapped_before, items.map_values(map)) == stable_sorted(
            before,
            items,
        ).map_values(map),
    decreases items.len(),
{
    if items.len() == 0 {
        assert(items.map_values(map) =~= Seq::<V>::empty());
        assert(stable_sorted(before, items).map_values(map) =~= Seq::<V>::empty());
    } else {
        lemma_sorted_maps(before, mapped_before, map, items.drop_last());
        assert(items.map_values(map).drop_last() =~= items.drop_last().map_values(map));
        assert(items.map_values(map).last() == map(items.last()));
        lemma_with_item_maps(
            before,
            mapped_before,
            map,
            stable_sorted(before, items.drop_last()),
            items.last(),
        );
    }
}

proof fn lemma_with_item_maps<T, V>(
    before: spec_fn(T, T) -> bool,
    mapped_before: spec_fn(V, V) -> bool,
    map: spec_fn(T) -> V,
    sorted: Seq<T>,
    item: T,
)
    requires
        forall|a: T, b: T| #[trigger] mapped_before(map(a), map(b)) == before(a, b),
    ensures
        with_item(mapped_before, sorted.map_values(map), map(item)) == with_item(
            before,
            sorted,
            item,
        ).map_values(map),
    decreases sorted.len(),
{
    let mapped = sorted.map_values(map);
    if sorted.len() > 0 && before(item, sorted.last()) {
        assert(mapped.last() == map(sorted.last()));
        assert(mapped_before(map(item), map(sorted.last())));
        assert(mapped.drop_last() =~= sorted.drop_last().map_values(map));
        lemma_with_item_maps(before, mapped_before, map, sorted.drop_last(), item);
        assert(with_item(before, sorted.drop_last(), item).push(sorted.last()).map_values(map)
            =~= with_item(before, sorted.drop_last(), item).map_values(map).push(
            map(sorted.last()),
        ));
    } else {
        if sorted.len() > 0 {
            assert(mapped.last() == map(sorted.last()));
            assert(!mapped_before(map(item), map(sorted.last())));
        }
        assert(sorted.push(item).map_values(map) =~= mapped.push(map(item)));
    }
}

/// Sorts the list by the precedence of its items. Items of which neither
/// has to stand before the other keep their order.
pub fn sort_stable<T: Ranked>(items: Vec<T>) -> (sorted: Vec<T>)
    ensures
        sorted@ == stable_sorted(precedence::<T>(), items@),
{
    let mut sorted: Vec<T> = Vec::new();
    let ghost all = items@;
    let ghost before = precedence::<T>();
    let ghost mut n: int = 0;
    proof {
        assert(all.take(0) =~= Seq::<T>::empty());
    }
    for item in it: items
        invariant
            n == it.index(),
            all == it.seq(),
            before == precedence::<T>(),
            sorted@ == stable_sorted(before, all.take(n)),
    {
        proof {
            assert(all.take(n + 1).drop_last() =~= all.take(n));
            assert(all.take(n + 1).last() == item);
        }
        let mut at: usize = sorted.len();
        while at > 0 && item.is_before(&sorted[at - 1])
            invariant
                at <= sorted@.len(),
                before == precedence::<T>(),
                forall|k: int| at <= k < sorted@.len() ==> before(item, #[trigger] sorted@[k]),
            decreases at,
        {
            at -= 1;
        }
        proof {
            lemma_with_item_at(before, sorted@, item, at as int);
        }
        sorted.insert(at, item);
        proof {
            n = n + 1;
        }
    }
    proof {
        assert(all.take(n) =~= all);
    }
    sorted
}

} // verus!
