//! How the model of a vector changes with the vector.

use vstd::prelude::*;

verus! {

/// The model of a vector that grew by one item at its end is the old model
/// grown by the model of that item.
pub proof fn lemma_deep_view_push<T: DeepView>(before: Vec<T>, after: Vec<T>, item: T)
    requires
        after@ == before@.push(item),
    ensures
        after.deep_view() == before.deep_view().push(item.deep_view()),
{
    assert(after.deep_view() =~= before.deep_view().push(item.deep_view()));
}

/// The model of an empty vector is empty.
pub proof fn lemma_deep_view_empty<T: DeepView>(v: Vec<T>)
    requires
        v@.len() == 0,
    ensures
        v.deep_view() == Seq::<T::V>::empty(),
{
    assert(v.deep_view() =~= Seq::<T::V>::empty());
}

/// The model of a vector in which one item was replaced is the old model
/// with the model of the new item at that place.
pub proof fn lemma_deep_view_update<T: DeepView>(before: Vec<T>, after: Vec<T>, i: int, item: T)
    requires
        0 <= i < before@.len(),
        after@ == before@.update(i, item),
    ensures
        after.deep_view() == before.deep_view().update(i, item.deep_view()),
{
    assert(after.deep_view() =~= before.deep_view().update(i, item.deep_view()));
}

/// The model of two vectors joined is the two models joined.
pub proof fn lemma_deep_view_add<T: DeepView>(front: Vec<T>, back: Vec<T>, joined: Vec<T>)
    requires
        joined@ == front@ + back@,
    ensures
        joined.deep_view() == front.deep_view() + back.deep_view(),
{
    assert(joined.deep_view() =~= front.deep_view() + back.deep_view());
}

/// The model of a vector that got one item at the place `i` is the old
/// model with the model of that item put in there.
pub proof fn lemma_deep_view_insert<T: DeepView>(before: Vec<T>, after: Vec<T>, i: int, item: T)
    requires
        0 <= i <= before@.len(),
        after@ == before@.insert(i, item),
    ensures
        after.deep_view() == before.deep_view().insert(i, item.deep_view()),
{
    assert(after.deep_view() =~= before.deep_view().insert(i, item.deep_view()));
}

} // verus!
