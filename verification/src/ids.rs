//! Lists of ids, as a form submits them and as link rows hold them.
use vstd::prelude::*;

verus! {

/// Number of positions of `ids` that hold `id`.
pub open spec fn occurrences(ids: Seq<i32>, id: i32) -> nat
    decreases ids.len(),
{
    if ids.len() == 0 {
        0
    } else {
        occurrences(ids.drop_last(), id) + if ids.last() == id {
            1nat
        } else {
            0nat
        }
    }
}

/// An id occurs at least once exactly where the sequence contains it.
pub proof fn lemma_occurrences_contains(ids: Seq<i32>, id: i32)
    ensures
        occurrences(ids, id) > 0 <==> ids.contains(id),
        occurrences(ids, id) <= ids.len(),
    decreases ids.len(),
{
    if ids.len() > 0 {
        lemma_occurrences_contains(ids.drop_last(), id);
        if ids.last() == id {
            assert(ids[ids.len() - 1] == id);
        } else if ids.contains(id) {
            let k = choose|k: int| 0 <= k < ids.len() && ids[k] == id;
            assert(ids.drop_last()[k] == id);
        } else if ids.drop_last().contains(id) {
            let k = choose|k: int| 0 <= k < ids.drop_last().len() && ids.drop_last()[k] == id;
            assert(ids[k] == id);
        }
    }
}

/// In a sequence without duplicates no id occurs twice.
pub proof fn lemma_occurrences_no_duplicates(ids: Seq<i32>, id: i32)
    requires
        ids.no_duplicates(),
    ensures
        occurrences(ids, id) <= 1,
    decreases ids.len(),
{
    if ids.len() > 0 {
        lemma_occurrences_no_duplicates(ids.drop_last(), id);
        if ids.last() == id {
            lemma_occurrences_contains(ids.drop_last(), id);
            if ids.drop_last().contains(id) {
                let k = choose|k: int| 0 <= k < ids.drop_last().len() && ids.drop_last()[k] == id;
                assert(ids[k] == ids[ids.len() - 1]);
            }
        }
    }
}

/// An id occurs in two lists put together as often as in both.
pub proof fn lemma_occurrences_concat(first: Seq<i32>, second: Seq<i32>, id: i32)
    ensures
        occurrences(first + second, id) == occurrences(first, id) + occurrences(second, id),
    decreases second.len(),
{
    if second.len() == 0 {
        assert(first + second == first);
    } else {
        lemma_occurrences_concat(first, second.drop_last(), id);
        assert((first + second).drop_last() == first + second.drop_last());
    }
}

/// Counts how often `id` occurs in `ids`.
pub fn count_occurrences(ids: &Vec<i32>, id: i32) -> (n: usize)
    ensures
        n == occurrences(ids@, id),
{
    let mut n: usize = 0;
    let mut i: usize = 0;
    while i < ids.len()
        invariant
            i <= ids.len(),
            n <= i,
            n == occurrences(ids@.take(i as int), id),
        decreases ids.len() - i,
    {
        assert(ids@.take(i + 1).drop_last() == ids@.take(i as int));
        if ids[i] == id {
            n = n + 1;
        }
        i = i + 1;
    }
    assert(ids@.take(ids.len() as int) == ids@);
    n
}

/// Whether `id` is among `ids`.
pub fn contains_id(ids: &Vec<i32>, id: i32) -> (yes: bool)
    ensures
        yes == ids@.contains(id),
{
    let mut i: usize = 0;
    while i < ids.len()
        invariant
            i <= ids.len(),
            forall|j: int| 0 <= j < i ==> ids@[j] != id,
        decreases ids.len() - i,
    {
        if ids[i] == id {
            return true;
        }
        i = i + 1;
    }
    false
}

/// The ids in `ids`, each once, in the order in which they first occur.
pub open spec fn distinct(ids: Seq<i32>) -> Seq<i32>
    decreases ids.len(),
{
    if ids.len() == 0 {
        Seq::empty()
    } else if distinct(ids.drop_last()).contains(ids.last()) {
        distinct(ids.drop_last())
    } else {
        distinct(ids.drop_last()).push(ids.last())
    }
}

/// `distinct` keeps every id and repeats none.
pub proof fn lemma_distinct(ids: Seq<i32>)
    ensures
        distinct(ids).no_duplicates(),
        forall|id: i32| distinct(ids).contains(id) <==> ids.contains(id),
        distinct(ids).len() <= ids.len(),
    decreases ids.len(),
{
    if ids.len() > 0 {
        let rest = ids.drop_last();
        let last = ids.last();
        lemma_distinct(rest);
        assert forall|id: i32| distinct(ids).contains(id) <==> ids.contains(id) by {
            if ids.contains(id) {
                let k = choose|k: int| 0 <= k < ids.len() && ids[k] == id;
                if k < rest.len() {
                    assert(rest[k] == id);
                    assert(rest.contains(id));
                    assert(distinct(rest).contains(id));
                    let m = choose|m: int| 0 <= m < distinct(rest).len() && distinct(rest)[m] == id;
                    assert(distinct(ids)[m] == id);
                } else if !distinct(rest).contains(last) {
                    assert(distinct(ids)[distinct(rest).len() as int] == id);
                }
            }
            if distinct(ids).contains(id) {
                let m = choose|m: int| 0 <= m < distinct(ids).len() && distinct(ids)[m] == id;
                if m < distinct(rest).len() {
                    assert(distinct(rest)[m] == id);
                    assert(rest.contains(id));
                    let k = choose|k: int| 0 <= k < rest.len() && rest[k] == id;
                    assert(ids[k] == id);
                } else {
                    assert(ids[ids.len() - 1] == id);
                }
            }
        }
    }
}

} // verus!
