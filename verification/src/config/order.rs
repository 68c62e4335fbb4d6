//! The order in which findings are reported.

use vstd::prelude::*;
use crate::config::{sort_key, ValidationError, ValidationErrorView};
use crate::views::{lemma_deep_view_empty, lemma_deep_view_insert};

verus! {

/// `sorted` with `error` put in behind every finding that is ordered by an
/// offset not greater than its own.
pub open spec fn insert_sorted(sorted: Seq<ValidationErrorView>, error: ValidationErrorView) -> Seq<
    ValidationErrorView,
>
    decreases sorted.len(),
{
    if sorted.len() > 0 && sort_key(sorted.last()) > sort_key(error) {
        insert_sorted(sorted.drop_last(), error).push(sorted.last())
    } else {
        sorted.push(error)
    }
}

/// `errors` ordered by rising offset; findings with the same offset keep
/// the order they have in `errors`.
pub open spec fn sorted_by_key(errors: Seq<ValidationErrorView>) -> Seq<ValidationErrorView>
    decreases errors.len(),
{
    if errors.len() == 0 {
        Seq::empty()
    } else {
        insert_sorted(sorted_by_key(errors.drop_last()), errors.last())
    }
}

/// Whether the offsets by which `errors` are ordered never fall.
pub open spec fn ordered(errors: Seq<ValidationErrorView>) -> bool {
    forall|i: int, j: int|
        0 <= i <= j < errors.len() ==> sort_key(#[trigger] errors[i]) <= sort_key(
            #[trigger] errors[j],
        )
}

/// Putting a finding into an ordered list leaves it ordered, and adds that
/// finding and no other.
pub proof fn lemma_insert_sorted(sorted: Seq<ValidationErrorView>, error: ValidationErrorView)
    requires
        ordered(sorted),
    ensures
        ordered(insert_sorted(sorted, error)),
        insert_sorted(sorted, error).len() == sorted.len() + 1,
        insert_sorted(sorted, error).to_multiset() == sorted.to_multiset().insert(error),
    decreases sorted.len(),
{
    broadcast use vstd::seq_lib::group_to_multiset_ensures;

    let result = insert_sorted(sorted, error);
    if sorted.len() > 0 && sort_key(sorted.last()) > sort_key(error) {
        let front = sorted.drop_last();
        assert forall|i: int, j: int| 0 <= i <= j < front.len() implies sort_key(
            #[trigger] front[i],
        ) <= sort_key(#[trigger] front[j]) by {
            assert(front[i] == sorted[i] && front[j] == sorted[j]);
        }
        lemma_insert_sorted(front, error);
        let inner = insert_sorted(front, error);
        assert(sorted == front.push(sorted.last()));
        assert forall|i: int, j: int| 0 <= i <= j < result.len() implies sort_key(
            #[trigger] result[i],
        ) <= sort_key(#[trigger] result[j]) by {
            if j < inner.len() {
                assert(result[i] == inner[i] && result[j] == inner[j]);
            } else if i < inner.len() {
                assert(result[i] == inner[i]);
                assert(inner.to_multiset().count(inner[i]) > 0);
                if inner[i] != error {
                    assert(front.to_multiset().count(inner[i]) > 0);
                    let k = choose|k: int| 0 <= k < front.len() && front[k] == inner[i];
                    assert(sorted[k] == inner[i]);
                    assert(sort_key(sorted[k]) <= sort_key(sorted[sorted.len() - 1]));
                }
            }
        }
    } else {
        assert forall|i: int, j: int| 0 <= i <= j < result.len() implies sort_key(
            #[trigger] result[i],
        ) <= sort_key(#[trigger] result[j]) by {
            if j < sorted.len() {
                assert(result[i] == sorted[i] && result[j] == sorted[j]);
            } else if i < sorted.len() {
                assert(result[i] == sorted[i]);
                assert(sort_key(sorted[i]) <= sort_key(sorted[sorted.len() - 1]));
            }
        }
    }
}

/// The ordered findings are the findings, each as often as it was found, by
/// rising offset.
pub proof fn lemma_sorted_by_key(errors: Seq<ValidationErrorView>)
    ensures
        ordered(sorted_by_key(errors)),
        sorted_by_key(errors).len() == errors.len(),
        sorted_by_key(errors).to_multiset() == errors.to_multiset(),
    decreases errors.len(),
{
    broadcast use vstd::seq_lib::group_to_multiset_ensures;

    if errors.len() > 0 {
        lemma_sorted_by_key(errors.drop_last());
        lemma_insert_sorted(sorted_by_key(errors.drop_last()), errors.last());
        assert(errors == errors.drop_last().push(errors.last()));
    }
}

/// Those of `errors` that are ordered by the offset `key`, in their order.
pub open spec fn with_key(errors: Seq<ValidationErrorView>, key: usize) -> Seq<ValidationErrorView>
    decreases errors.len(),
{
    if errors.len() == 0 {
        Seq::empty()
    } else if sort_key(errors.last()) == key {
        with_key(errors.drop_last(), key).push(errors.last())
    } else {
        with_key(errors.drop_last(), key)
    }
}

/// A finding that is put into a list comes behind the findings of the list
/// that are ordered by the same offset, and leaves the others as they were.
proof fn lemma_insert_keeps_order(
    sorted: Seq<ValidationErrorView>,
    error: ValidationErrorView,
    key: usize,
)
    ensures
        with_key(insert_sorted(sorted, error), key) == if sort_key(error) == key {
            with_key(sorted, key).push(error)
        } else {
            with_key(sorted, key)
        },
    decreases sorted.len(),
{
    if sorted.len() > 0 && sort_key(sorted.last()) > sort_key(error) {
        lemma_insert_keeps_order(sorted.drop_last(), error, key);
        let inner = insert_sorted(sorted.drop_last(), error);
        assert(inner.push(sorted.last()).drop_last() =~= inner);
    } else {
        assert(sorted.push(error).drop_last() =~= sorted);
    }
}

/// Ordering is stable: the findings that are ordered by the same offset
/// keep the order in which they were found.
pub proof fn sorting_is_stable(errors: Seq<ValidationErrorView>, key: usize)
    ensures
        with_key(sorted_by_key(errors), key) == with_key(errors, key),
    decreases errors.len(),
{
    if errors.len() > 0 {
        sorting_is_stable(errors.drop_last(), key);
        lemma_insert_keeps_order(sorted_by_key(errors.drop_last()), errors.last(), key);
    }
}

/// Puts `error` into `sorted` behind every finding that is ordered by an
/// offset not greater than its own.
pub fn insert_by_key(sorted: &mut Vec<ValidationError>, error: ValidationError)
    ensures
        final(sorted).deep_view() == insert_sorted(old(sorted).deep_view(), error.deep_view()),
{
    let key = error.sort_key();
    let ghost all = sorted.deep_view();
    let mut pos: usize = sorted.len();
    proof {
        assert(all.take(pos as int) =~= all);
        assert(insert_sorted(all, error.deep_view()) =~= insert_sorted(
            all.take(pos as int),
            error.deep_view(),
        ) + all.skip(pos as int));
    }
    while pos > 0 && sorted[pos - 1].sort_key() > key
        invariant
            0 <= pos <= sorted.len(),
            all == sorted.deep_view(),
            *sorted == *old(sorted),
            key == sort_key(error.deep_view()),
            insert_sorted(all, error.deep_view()) == insert_sorted(
                all.take(pos as int),
                error.deep_view(),
            ) + all.skip(pos as int),
        decreases pos,
    {
        proof {
            let front = all.take(pos as int);
            assert(front.last() == all[pos - 1]);
            assert(front.drop_last() =~= all.take(pos - 1));
            assert(insert_sorted(front, error.deep_view()) == insert_sorted(
                all.take(pos - 1),
                error.deep_view(),
            ).push(all[pos - 1]));
            assert(insert_sorted(all.take(pos - 1), error.deep_view()).push(all[pos - 1])
                + all.skip(pos as int) =~= insert_sorted(all.take(pos - 1), error.deep_view())
                + all.skip(pos - 1));
        }
        pos = pos - 1;
    }
    let ghost before = *sorted;
    sorted.insert(pos, error);
    proof {
        lemma_deep_view_insert(before, *sorted, pos as int, error);
        let front = all.take(pos as int);
        if pos > 0 {
            assert(front.last() == all[pos - 1]);
        }
        assert(insert_sorted(front, error.deep_view()) == front.push(error.deep_view()));
        assert(front.push(error.deep_view()) + all.skip(pos as int) =~= all.insert(
            pos as int,
            error.deep_view(),
        ));
    }
}

/// Orders `errors` by rising offset; findings with the same offset keep
/// their order.
pub fn sort_by_key(errors: Vec<ValidationError>) -> (sorted: Vec<ValidationError>)
    ensures
        sorted.deep_view() == sorted_by_key(errors.deep_view()),
{
    let mut sorted: Vec<ValidationError> = Vec::new();
    let ghost all = errors.deep_view();
    let ghost items = errors@;
    proof {
        lemma_deep_view_empty(sorted);
        assert(all.take(0) =~= Seq::empty());
    }
    for error in it: errors
        invariant
            it.seq() == items,
            all.len() == items.len(),
            forall|k: int| 0 <= k < all.len() ==> (#[trigger] items[k]).deep_view() == all[k],
            sorted.deep_view() == sorted_by_key(all.take(it.index())),
    {
        proof {
            let next = all.take(it.index() + 1);
            assert(next.drop_last() =~= all.take(it.index()));
            assert(next.last() == error.deep_view());
        }
        insert_by_key(&mut sorted, error);
    }
    proof {
        assert(all.take(all.len() as int) =~= all);
    }
    sorted
}

} // verus!
