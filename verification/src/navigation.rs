//! Moving through a category's listing: the neighbours of an item, and the
//! page that remains after paging through the whole listing.
use vstd::prelude::*;

verus! {

/// One entry of a category's listing, newest first: the item's id and
/// whether visitors may see the item.
#[derive(Debug, Clone, Copy, PartialEq, Eq)]
pub struct Listed {
    pub id: i32,
    pub is_active: bool,
}

/// The items shown as "previous" and "next" beside an item.
#[derive(Debug, Clone, Copy, PartialEq, Eq)]
pub struct Neighbours {
    pub prev: Option<i32>,
    pub next: Option<i32>,
}

/// No entry of `listing` has the id `target`.
pub open spec fn is_absent(listing: Seq<Listed>, target: i32) -> bool {
    forall|j: int| 0 <= j < listing.len() ==> (#[trigger] listing[j]).id != target
}

/// `at` is the last position of `listing` whose entry has the id `target`.
pub open spec fn is_last_position(listing: Seq<Listed>, target: i32, at: int) -> bool {
    &&& 0 <= at < listing.len()
    &&& listing[at].id == target
    &&& forall|j: int| at < j < listing.len() ==> (#[trigger] listing[j]).id != target
}

/// The id at position `at` of `listing`, where there is such a position and
/// its item is active.
pub open spec fn neighbour_at(listing: Seq<Listed>, at: int) -> Option<i32> {
    if 0 <= at < listing.len() && listing[at].is_active {
        Some(listing[at].id)
    } else {
        None
    }
}

/// The neighbours of the entry at position `at`: the entries directly before
/// and after it, each only if it is active.
pub open spec fn neighbours_at(listing: Seq<Listed>, at: int) -> Neighbours {
    Neighbours { prev: neighbour_at(listing, at - 1), next: neighbour_at(listing, at + 1) }
}

fn active_at(listing: &Vec<Listed>, at: usize) -> (id: Option<i32>)
    requires
        at < listing.len(),
    ensures
        id == neighbour_at(listing@, at as int),
{
    if listing[at].is_active {
        Some(listing[at].id)
    } else {
        None
    }
}

/// The neighbours of the item `target` in `listing`. The listing is searched
/// from its end; the entry found is the last one with that id. An inactive
/// entry beside it leaves that side empty: the search does not go on to the
/// next active one. Where no entry has the id, both sides are empty.
pub fn neighbours(listing: &Vec<Listed>, target: i32) -> (found: Neighbours)
    ensures
        is_absent(listing@, target) ==> found == (Neighbours { prev: None, next: None }),
        forall|at: int| #[trigger]
            is_last_position(listing@, target, at) ==> found == neighbours_at(listing@, at),
{
    let mut i: usize = listing.len();
    while i > 0
        invariant
            i <= listing.len(),
            forall|j: int| i <= j < listing.len() ==> (#[trigger] listing@[j]).id != target,
        decreases i,
    {
        i = i - 1;
        if listing[i].id == target {
            let next = if i + 1 != listing.len() {
                active_at(listing, i + 1)
            } else {
                None
            };
            let prev = if i != 0 {
                active_at(listing, i - 1)
            } else {
                None
            };
            assert(is_last_position(listing@, target, i as int));
            assert forall|at: int| #[trigger] is_last_position(listing@, target, at) implies at
                == i by {
                if at < i {
                    assert(listing@[i as int].id != target);
                }
            }
            return Neighbours { prev, next };
        }
    }
    assert forall|at: int| !#[trigger] is_last_position(listing@, target, at) by {
        if 0 <= at < listing.len() {
            assert(listing@[at].id != target);
        }
    }
    Neighbours { prev: None, next: None }
}

/// A neighbour is never an inactive item, and never one that stands further
/// away than the position directly before or after the item viewed.
pub proof fn lemma_neighbours_adjacent_and_active(listing: Seq<Listed>, target: i32, at: int)
    requires
        is_last_position(listing, target, at),
    ensures
        neighbours_at(listing, at).prev matches Some(id) ==> (at >= 1 && listing[at - 1].id == id
            && listing[at - 1].is_active),
        neighbours_at(listing, at).next matches Some(id) ==> (at + 1 < listing.len() && listing[at
            + 1].id == id && listing[at + 1].is_active),
        at >= 1 && !listing[at - 1].is_active ==> neighbours_at(listing, at).prev is None,
        at + 1 < listing.len() && !listing[at + 1].is_active ==> neighbours_at(
            listing,
            at,
        ).next is None,
{
}

/// The bounds of the page that is left after walking through `len` items in
/// pages of `page_size`: the last page that holds an item.
pub open spec fn is_last_page(len: int, page_size: int, from: int, to: int) -> bool {
    &&& 0 <= from < to
    &&& to == len
    &&& from % page_size == 0
    &&& len <= from + page_size
}

/// Walks through a listing of `len` items in pages of `page_size` and
/// returns the bounds of the last page that holds an item, as positions
/// `from..to`; `None` where the listing is empty.
pub fn last_page(len: usize, page_size: usize) -> (page: Option<(usize, usize)>)
    requires
        page_size > 0,
    ensures
        len == 0 ==> page is None,
        len > 0 ==> (page matches Some(bounds) && is_last_page(
            len as int,
            page_size as int,
            bounds.0 as int,
            bounds.1 as int,
        )),
{
    if len == 0 {
        return None;
    }
    let mut from: usize = 0;
    while len - from > page_size
        invariant
            page_size > 0,
            from < len,
            from % page_size == 0,
        decreases len - from,
    {
        assert((from + page_size) % (page_size as int) == 0) by (nonlinear_arith)
            requires
                from % page_size == 0,
                page_size > 0,
        ;
        from = from + page_size;
    }
    Some((from, len))
}

} // verus!
