use vstd::prelude::*;

verus! {

/// The position of the first item that `hit` holds of, if there is one.
pub open spec fn first_index<A>(items: Seq<A>, hit: spec_fn(A) -> bool) -> Option<int>
    decreases items.len(),
{
    if items.len() == 0 {
        None
    } else {
        match first_index(items.drop_last(), hit) {
            Some(i) => Some(i),
            None => if hit(items.last()) {
                Some(items.len() - 1)
            } else {
                None
            },
        }
    }
}

/// [`first_index`] gives a position that `hit` holds at and none before it,
/// or nothing where `hit` holds nowhere.
pub proof fn lemma_first_index<A>(items: Seq<A>, hit: spec_fn(A) -> bool)
    ensures
        match first_index(items, hit) {
            Some(i) => 0 <= i < items.len() && hit(items[i]) && forall|j: int|
                0 <= j < i ==> !hit(#[trigger] items[j]),
            None => forall|j: int| 0 <= j < items.len() ==> !hit(#[trigger] items[j]),
        },
    decreases items.len(),
{
    if items.len() > 0 {
        let front = items.drop_last();
        lemma_first_index(front, hit);
        assert forall|j: int| 0 <= j < front.len() implies front[j] == items[j] by {}
    }
}

/// A position that `hit` holds at and none before it is the first index.
pub proof fn lemma_first_index_is<A>(items: Seq<A>, hit: spec_fn(A) -> bool, i: int)
    requires
        0 <= i < items.len(),
        hit(items[i]),
        forall|j: int| 0 <= j < i ==> !hit(#[trigger] items[j]),
    ensures
        first_index(items, hit) == Some(i),
{
    lemma_first_index(items, hit);
}

/// Where `hit` holds of no item, there is no first index.
pub proof fn lemma_first_index_none<A>(items: Seq<A>, hit: spec_fn(A) -> bool)
    requires
        forall|j: int| 0 <= j < items.len() ==> !hit(#[trigger] items[j]),
    ensures
        first_index(items, hit) is None,
{
    lemma_first_index(items, hit);
}

} // verus!
