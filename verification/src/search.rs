//! The first item of a sequence that is wanted.

use vstd::prelude::*;

verus! {

/// Whether `i` is the place of the first wanted item.
pub open spec fn is_first<T>(items: Seq<T>, wanted: spec_fn(T) -> bool, i: int) -> bool {
    &&& 0 <= i < items.len()
    &&& wanted(items[i])
    &&& forall|j: int| 0 <= j < i ==> !wanted(#[trigger] items[j])
}

/// The place of the first wanted item, if any item is wanted.
pub open spec fn first_index<T>(items: Seq<T>, wanted: spec_fn(T) -> bool) -> Option<int> {
    if exists|i: int| is_first(items, wanted, i) {
        Some(choose|i: int| is_first(items, wanted, i))
    } else {
        None
    }
}

/// The first wanted item, if any item is wanted.
pub open spec fn first_match<T>(items: Seq<T>, wanted: spec_fn(T) -> bool) -> Option<T> {
    match first_index(items, wanted) {
        Some(i) => Some(items[i]),
        None => None,
    }
}

/// A place that is first is the first place.
pub proof fn first_found<T>(items: Seq<T>, wanted: spec_fn(T) -> bool, k: int)
    requires
        is_first(items, wanted, k),
    ensures
        first_index(items, wanted) == Some(k),
        first_match(items, wanted) == Some(items[k]),
{
    let i = choose|i: int| is_first(items, wanted, i);
    assert(is_first(items, wanted, i));
    if i < k {
        assert(!wanted(items[i]));
    }
    if k < i {
        assert(!wanted(items[k]));
    }
}

/// Where no item is wanted, there is no first.
pub proof fn none_found<T>(items: Seq<T>, wanted: spec_fn(T) -> bool)
    requires
        forall|i: int| 0 <= i < items.len() ==> !wanted(#[trigger] items[i]),
    ensures
        first_index(items, wanted) is None,
        first_match(items, wanted) is None,
{
}

/// The first place, where there is one, is first; where there is none, no
/// item is wanted.
pub proof fn first_index_is_first<T>(items: Seq<T>, wanted: spec_fn(T) -> bool)
    ensures
        match first_index(items, wanted) {
            Some(i) => is_first(items, wanted, i),
            None => forall|i: int| 0 <= i < items.len() ==> !wanted(#[trigger] items[i]),
        },
{
    if first_index(items, wanted) is None {
        assert forall|i: int| 0 <= i < items.len() implies !wanted(#[trigger] items[i]) by {
            if wanted(items[i]) {
                least_wanted(items, wanted, i);
            }
        }
    }
}

/// Below any wanted item there is a first one.
proof fn least_wanted<T>(items: Seq<T>, wanted: spec_fn(T) -> bool, k: int)
    requires
        0 <= k < items.len(),
        wanted(items[k]),
    ensures
        exists|i: int| is_first(items, wanted, i),
    decreases k,
{
    if exists|j: int| 0 <= j < k && wanted(#[trigger] items[j]) {
        let j = choose|j: int| 0 <= j < k && wanted(#[trigger] items[j]);
        least_wanted(items, wanted, j);
    } else {
        assert(is_first(items, wanted, k));
    }
}

/// Appending an item keeps the first place where there was one, and makes
/// the new place first where the new item is the only one wanted.
pub proof fn first_after_push<T>(items: Seq<T>, wanted: spec_fn(T) -> bool, added: T)
    ensures
        first_index(items.push(added), wanted) == match first_index(items, wanted) {
            Some(i) => Some(i),
            None => if wanted(added) {
                Some(items.len() as int)
            } else {
                None
            },
        },
{
    first_index_is_first(items, wanted);
    let longer = items.push(added);
    match first_index(items, wanted) {
        Some(i) => {
            assert(longer[i] == items[i]);
            assert forall|j: int| 0 <= j < i implies !wanted(#[trigger] longer[j]) by {
                assert(longer[j] == items[j]);
            }
            first_found(longer, wanted, i);
        },
        None => {
            assert forall|j: int| 0 <= j < items.len() implies !wanted(#[trigger] longer[j]) by {
                assert(longer[j] == items[j]);
            }
            if wanted(added) {
                assert(longer[items.len() as int] == added);
                first_found(longer, wanted, items.len() as int);
            } else {
                none_found(longer, wanted);
            }
        },
    }
}

/// Overwriting an item by one that is wanted just when the old one was
/// keeps the first place.
pub proof fn first_after_update<T>(items: Seq<T>, wanted: spec_fn(T) -> bool, at: int, put: T)
    requires
        0 <= at < items.len(),
        wanted(put) == wanted(items[at]),
    ensures
        first_index(items.update(at, put), wanted) == first_index(items, wanted),
{
    first_index_is_first(items, wanted);
    let changed = items.update(at, put);
    match first_index(items, wanted) {
        Some(i) => {
            assert forall|j: int| 0 <= j < i implies !wanted(#[trigger] changed[j]) by {
                if j != at {
                    assert(changed[j] == items[j]);
                }
            }
            first_found(changed, wanted, i);
        },
        None => {
            assert forall|j: int| 0 <= j < changed.len() implies !wanted(#[trigger] changed[j]) by {
                if j != at {
                    assert(changed[j] == items[j]);
                }
            }
            none_found(changed, wanted);
        },
    }
}

} // verus!
