//! Finding the first item of a sequence that meets a condition.

use vstd::prelude::*;

verus! {

/// The position of the first item that is wanted; none where no item is.
pub open spec fn first_position<T>(items: Seq<T>, wanted: spec_fn(T) -> bool) -> Option<int>
    decreases items.len(),
{
    if items.len() == 0 {
        None
    } else {
        match first_position(items.drop_last(), wanted) {
            Some(position) => Some(position),
            None => if wanted(items.last()) {
                Some(items.len() - 1)
            } else {
                None
            },
        }
    }
}

/// The first position is within the sequence, holds a wanted item, and no wanted
/// item stands before it; where there is none, no item is wanted.
pub proof fn lemma_first_position<T>(items: Seq<T>, wanted: spec_fn(T) -> bool)
    ensures
        match first_position(items, wanted) {
            Some(position) => {
                &&& 0 <= position < items.len()
                &&& wanted(items[position])
                &&& forall|j: int| 0 <= j < position ==> !wanted(#[trigger] items[j])
            },
            None => forall|j: int| 0 <= j < items.len() ==> !wanted(#[trigger] items[j]),
        },
    decreases items.len(),
{
    if items.len() > 0 {
        lemma_first_position(items.drop_last(), wanted);
        assert(forall|j: int| 0 <= j < items.len() - 1 ==> items.drop_last()[j] == items[j]);
    }
}

/// A position that holds a wanted item, with no wanted item before it, is the
/// first position.
pub proof fn lemma_first_position_is<T>(items: Seq<T>, wanted: spec_fn(T) -> bool, position: int)
    requires
        0 <= position < items.len(),
        wanted(items[position]),
        forall|j: int| 0 <= j < position ==> !wanted(#[trigger] items[j]),
    ensures
        first_position(items, wanted) == Some(position),
{
    lemma_first_position(items, wanted);
}

/// Where no item is wanted, there is no first position.
pub proof fn lemma_first_position_none<T>(items: Seq<T>, wanted: spec_fn(T) -> bool)
    requires
        forall|j: int| 0 <= j < items.len() ==> !wanted(#[trigger] items[j]),
    ensures
        first_position(items, wanted).is_none(),
{
    lemma_first_position(items, wanted);
}

/// Filtering one item more keeps what was kept and adds the item if it is
/// wanted.
pub proof fn lemma_filter_step<T>(items: Seq<T>, wanted: spec_fn(T) -> bool, count: int)
    requires
        0 <= count < items.len(),
    ensures
        items.take(count + 1).filter(wanted) == if wanted(items[count]) {
            items.take(count).filter(wanted).push(items[count])
        } else {
            items.take(count).filter(wanted)
        },
{
    reveal(Seq::filter);
    assert(items.take(count + 1).drop_last() =~= items.take(count));
    assert(items.take(count + 1).last() == items[count]);
}

/// Nothing is kept of nothing.
pub proof fn lemma_filter_empty<T>(items: Seq<T>, wanted: spec_fn(T) -> bool)
    ensures
        items.take(0).filter(wanted) == Seq::<T>::empty(),
        items.take(items.len() as int) == items,
{
    reveal(Seq::filter);
    assert(items.take(0) =~= Seq::<T>::empty());
    assert(items.take(items.len() as int) =~= items);
}

} // verus!
