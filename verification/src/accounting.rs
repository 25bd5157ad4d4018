//! Usage counters. A category and a tag each carry a count of the items
//! that refer to them. The count is not derived from the link rows: it is
//! moved by one whenever a link is written or removed, and this file states
//! how.
use vstd::prelude::*;
use crate::ids::{
    contains_id,
    count_occurrences,
    lemma_occurrences_concat,
    lemma_occurrences_contains,
    lemma_occurrences_no_duplicates,
    occurrences,
};

verus! {

/// The kinds of item that categories and tags count.
#[derive(Debug, Clone, Copy, PartialEq, Eq)]
pub enum ItemKind {
    Store,
    Service,
}

/// A row that counts the items referring to it.
pub trait Counted: Sized {
    /// The row's id.
    spec fn key(&self) -> i32;

    /// The row after `delta` more items of `kind` refer to it (fewer, where
    /// `delta` is negative). Nothing but the counters differs.
    spec fn shifted(&self, kind: ItemKind, delta: int) -> Self;

    /// Whether the row counts items of `kind` and its counters stay within
    /// their type when `delta` is added.
    spec fn has_room(&self, kind: ItemKind, delta: int) -> bool;

    /// The number of items of `kind` that the row says refer to it.
    spec fn count_of(&self, kind: ItemKind) -> int;

    /// Shifts keep the id, move the count, and add up.
    proof fn lemma_shifted(&self, kind: ItemKind, a: int, b: int)
        requires
            self.has_room(kind, a),
        ensures
            self.has_room(kind, 0),
            self.shifted(kind, a).key() == self.key(),
            self.shifted(kind, a).count_of(kind) == self.count_of(kind) + a,
            self.shifted(kind, a).has_room(kind, b) == self.has_room(kind, a + b),
            self.has_room(kind, a + b) ==> self.shifted(kind, a).shifted(kind, b) == self.shifted(
                kind,
                a + b,
            ),
    ;

    /// A shift by nothing changes nothing.
    proof fn lemma_shifted_zero(&self, kind: ItemKind)
        ensures
            self.shifted(kind, 0) == *self,
    ;

    /// The row's id.
    fn id(&self) -> (id: i32)
        ensures
            id == self.key(),
    ;

    /// Whether the row can count `times` more items of `kind`.
    fn can_take(&self, kind: ItemKind, times: usize) -> (yes: bool)
        ensures
            yes == self.has_room(kind, times as int),
    ;

    /// Whether the row can count one item of `kind` less.
    fn can_give(&self, kind: ItemKind) -> (yes: bool)
        ensures
            yes == self.has_room(kind, -1),
    ;

    /// Counts `times` more items of `kind`.
    fn attach(&mut self, kind: ItemKind, times: usize)
        requires
            old(self).has_room(kind, times as int),
        ensures
            *final(self) == old(self).shifted(kind, times as int),
    ;

    /// Counts one item of `kind` less.
    fn detach(&mut self, kind: ItemKind)
        requires
            old(self).has_room(kind, -1),
        ensures
            *final(self) == old(self).shifted(kind, -1),
    ;
}

/// One of `rows` has the id `id`.
pub open spec fn is_known<R: Counted>(rows: Seq<R>, id: i32) -> bool {
    exists|i: int| 0 <= i < rows.len() && #[trigger] rows[i].key() == id
}

/// Every id of `selection` is the id of one of `rows`.
pub open spec fn all_known<R: Counted>(rows: Seq<R>, selection: Seq<i32>) -> bool {
    forall|k: int| 0 <= k < selection.len() ==> is_known(rows, #[trigger] selection[k])
}

/// `rows` after an item of `kind` was linked to each id of `selection`:
/// every row has counted the item once for each time its id was selected.
pub open spec fn attached<R: Counted>(rows: Seq<R>, selection: Seq<i32>, kind: ItemKind) -> Seq<R> {
    Seq::new(
        rows.len(),
        |i: int| rows[i].shifted(kind, occurrences(selection, rows[i].key()) as int),
    )
}

/// Whether every row can count the item as often as `selection` names it.
pub open spec fn can_attach<R: Counted>(rows: Seq<R>, selection: Seq<i32>, kind: ItemKind) -> bool {
    forall|i: int|
        0 <= i < rows.len() ==> (#[trigger] rows[i]).has_room(
            kind,
            occurrences(selection, rows[i].key()) as int,
        )
}

/// `rows` after the links of an item of `kind` to the ids in `linked` were
/// removed: every row that was linked counts one item less, however often
/// its id stands in `linked`.
pub open spec fn detached<R: Counted>(rows: Seq<R>, linked: Seq<i32>, kind: ItemKind) -> Seq<R> {
    Seq::new(
        rows.len(),
        |i: int|
            if linked.contains(rows[i].key()) {
                rows[i].shifted(kind, -1)
            } else {
                rows[i]
            },
    )
}

/// Whether every linked row can count one item less.
pub open spec fn can_detach<R: Counted>(rows: Seq<R>, linked: Seq<i32>, kind: ItemKind) -> bool {
    forall|i: int|
        0 <= i < rows.len() && linked.contains((#[trigger] rows[i]).key()) ==> rows[i].has_room(
            kind,
            -1,
        )
}

/// Whether `id` has a row in `rows`.
pub fn knows<R: Counted>(rows: &Vec<R>, id: i32) -> (yes: bool)
    ensures
        yes == is_known(rows@, id),
{
    let mut i: usize = 0;
    while i < rows.len()
        invariant
            i <= rows.len(),
            forall|j: int| 0 <= j < i ==> (#[trigger] rows@[j]).key() != id,
        decreases rows.len() - i,
    {
        if rows[i].id() == id {
            return true;
        }
        i = i + 1;
    }
    false
}

/// Whether each id of `selection` has a row in `rows`.
pub fn knows_all<R: Counted>(rows: &Vec<R>, selection: &Vec<i32>) -> (yes: bool)
    ensures
        yes == all_known(rows@, selection@),
{
    let mut k: usize = 0;
    while k < selection.len()
        invariant
            k <= selection.len(),
            forall|m: int| 0 <= m < k ==> is_known(rows@, #[trigger] selection@[m]),
        decreases selection.len() - k,
    {
        if !knows(rows, selection[k]) {
            return false;
        }
        k = k + 1;
    }
    true
}

/// Whether every row can count the item as often as `selection` names it.
pub fn can_attach_all<R: Counted>(rows: &Vec<R>, selection: &Vec<i32>, kind: ItemKind) -> (yes:
    bool)
    ensures
        yes == can_attach(rows@, selection@, kind),
{
    let mut i: usize = 0;
    while i < rows.len()
        invariant
            i <= rows.len(),
            forall|j: int|
                0 <= j < i ==> (#[trigger] rows@[j]).has_room(
                    kind,
                    occurrences(selection@, rows@[j].key()) as int,
                ),
        decreases rows.len() - i,
    {
        let times = count_occurrences(selection, rows[i].id());
        if !rows[i].can_take(kind, times) {
            return false;
        }
        i = i + 1;
    }
    true
}

/// Whether every linked row can count one item less.
pub fn can_detach_all<R: Counted>(rows: &Vec<R>, linked: &Vec<i32>, kind: ItemKind) -> (yes: bool)
    ensures
        yes == can_detach(rows@, linked@, kind),
{
    let mut i: usize = 0;
    while i < rows.len()
        invariant
            i <= rows.len(),
            forall|j: int|
                0 <= j < i && linked@.contains((#[trigger] rows@[j]).key()) ==> rows@[j].has_room(
                    kind,
                    -1,
                ),
        decreases rows.len() - i,
    {
        if contains_id(linked, rows[i].id()) && !rows[i].can_give(kind) {
            return false;
        }
        i = i + 1;
    }
    true
}

/// Records that an item of `kind` was linked to each id of `selection`.
/// A selection that names an id twice counts the item twice.
pub fn attach_all<R: Counted>(rows: &mut Vec<R>, selection: &Vec<i32>, kind: ItemKind)
    requires
        all_known(old(rows)@, selection@),
        can_attach(old(rows)@, selection@, kind),
    ensures
        final(rows)@ == attached(old(rows)@, selection@, kind),
{
    let mut i: usize = 0;
    while i < rows.len()
        invariant
            i <= rows.len(),
            rows.len() == old(rows).len(),
            can_attach(old(rows)@, selection@, kind),
            forall|j: int| 0 <= j < i ==> rows@[j] == attached(old(rows)@, selection@, kind)[j],
            forall|j: int| i <= j < rows.len() ==> rows@[j] == old(rows)@[j],
        decreases rows.len() - i,
    {
        let id = rows[i].id();
        let times = count_occurrences(selection, id);
        rows[i].attach(kind, times);
        i = i + 1;
    }
}

/// Records that the links of an item of `kind` to the ids in `linked` were
/// removed.
pub fn detach_all<R: Counted>(rows: &mut Vec<R>, linked: &Vec<i32>, kind: ItemKind)
    requires
        can_detach(old(rows)@, linked@, kind),
    ensures
        final(rows)@ == detached(old(rows)@, linked@, kind),
{
    let mut i: usize = 0;
    while i < rows.len()
        invariant
            i <= rows.len(),
            rows.len() == old(rows).len(),
            can_detach(old(rows)@, linked@, kind),
            forall|j: int| 0 <= j < i ==> rows@[j] == detached(old(rows)@, linked@, kind)[j],
            forall|j: int| i <= j < rows.len() ==> rows@[j] == old(rows)@[j],
        decreases rows.len() - i,
    {
        let id = rows[i].id();
        if contains_id(linked, id) {
            rows[i].detach(kind);
        }
        i = i + 1;
    }
}

/// `rows` after `n` times linking an item of `kind` to the ids of
/// `selection` and removing the links again.
pub open spec fn cycled<R: Counted>(rows: Seq<R>, selection: Seq<i32>, kind: ItemKind, n: nat) -> Seq<
    R,
>
    decreases n,
{
    if n == 0 {
        rows
    } else {
        detached(
            attached(cycled(rows, selection, kind, (n - 1) as nat), selection, kind),
            selection,
            kind,
        )
    }
}

/// Linking an item and removing the links again leaves every counter where
/// it was, provided that no id was selected twice.
pub proof fn lemma_attach_then_detach<R: Counted>(rows: Seq<R>, selection: Seq<i32>, kind: ItemKind)
    requires
        selection.no_duplicates(),
        can_attach(rows, selection, kind),
    ensures
        can_detach(attached(rows, selection, kind), selection, kind),
        detached(attached(rows, selection, kind), selection, kind) == rows,
{
    let mid = attached(rows, selection, kind);
    assert forall|i: int| 0 <= i < rows.len() implies (selection.contains(
        (#[trigger] mid[i]).key(),
    ) ==> mid[i].has_room(kind, -1)) && detached(mid, selection, kind)[i] == rows[i] by {
        let id = rows[i].key();
        lemma_occurrences_contains(selection, id);
        lemma_occurrences_no_duplicates(selection, id);
        rows[i].lemma_shifted_zero(kind);
        assert(rows[i].has_room(kind, occurrences(selection, id) as int));
        if selection.contains(id) {
            assert(occurrences(selection, id) == 1);
            rows[i].lemma_shifted(kind, 1, -1);
        } else {
            assert(occurrences(selection, id) == 0);
        }
    }
    assert(detached(mid, selection, kind) =~= rows);
}

/// However many times an item is linked to a duplicate-free selection and
/// the links are removed again, every counter ends where it began.
pub proof fn lemma_balanced_cycles<R: Counted>(
    rows: Seq<R>,
    selection: Seq<i32>,
    kind: ItemKind,
    n: nat,
)
    requires
        selection.no_duplicates(),
        can_attach(rows, selection, kind),
    ensures
        cycled(rows, selection, kind, n) == rows,
    decreases n,
{
    if n > 0 {
        lemma_balanced_cycles(rows, selection, kind, (n - 1) as nat);
        lemma_attach_then_detach(rows, selection, kind);
    }
}

/// A link row as the counters see it: the item that it links, and the row
/// that it links the item to.
pub struct Link {
    pub item: i32,
    pub target: i32,
}

/// The rows that `links` link to, one id for each link.
pub open spec fn targets(links: Seq<Link>) -> Seq<i32> {
    links.map_values(|link: Link| link.target)
}

/// The links of `links` that the item `item` holds.
pub open spec fn links_of(item: i32, links: Seq<Link>) -> Seq<Link> {
    links.filter(|link: Link| link.item == item)
}

/// The links of `links` that other items than `item` hold.
pub open spec fn links_of_others(item: i32, links: Seq<Link>) -> Seq<Link> {
    links.filter(|link: Link| link.item != item)
}

/// The links that are written when the item `item` is linked to each id of
/// `selection`.
pub open spec fn links_to(item: i32, selection: Seq<i32>) -> Seq<Link> {
    selection.map_values(|target: i32| Link { item, target })
}

/// Every row counts as many items of `kind` as `links` link to it.
pub open spec fn counts_match<R: Counted>(rows: Seq<R>, links: Seq<Link>, kind: ItemKind) -> bool {
    forall|i: int|
        0 <= i < rows.len() ==> (#[trigger] rows[i]).count_of(kind) == occurrences(
            targets(links),
            rows[i].key(),
        )
}

/// Counters that match the links still match them after an item was linked:
/// the counters moved by as much as links were written.
pub proof fn lemma_attach_keeps_counts<R: Counted>(
    rows: Seq<R>,
    links: Seq<Link>,
    item: i32,
    selection: Seq<i32>,
    kind: ItemKind,
)
    requires
        counts_match(rows, links, kind),
        can_attach(rows, selection, kind),
    ensures
        counts_match(attached(rows, selection, kind), links + links_to(item, selection), kind),
{
    let after = attached(rows, selection, kind);
    assert(targets(links + links_to(item, selection)) == targets(links) + selection);
    assert forall|i: int| 0 <= i < after.len() implies (#[trigger] after[i]).count_of(kind)
        == occurrences(targets(links) + selection, after[i].key()) by {
        let id = rows[i].key();
        rows[i].lemma_shifted(kind, occurrences(selection, id) as int, 0);
        lemma_occurrences_concat(targets(links), selection, id);
    }
}

/// Counters that match the links still match them after the links of an
/// item were removed, provided that the item was linked to no row twice.
/// An item that holds two links to one row takes only one off the row's
/// counter: from then on the counter says one more than there are links.
pub proof fn lemma_detach_keeps_counts<R: Counted>(
    rows: Seq<R>,
    links: Seq<Link>,
    item: i32,
    kind: ItemKind,
)
    requires
        counts_match(rows, links, kind),
        can_detach(rows, targets(links_of(item, links)), kind),
        targets(links_of(item, links)).no_duplicates(),
    ensures
        counts_match(
            detached(rows, targets(links_of(item, links)), kind),
            links_of_others(item, links),
            kind,
        ),
{
    let linked = targets(links_of(item, links));
    let after = detached(rows, linked, kind);
    assert forall|i: int| 0 <= i < after.len() implies (#[trigger] after[i]).count_of(kind)
        == occurrences(targets(links_of_others(item, links)), after[i].key()) by {
        let id = rows[i].key();
        lemma_links_split(links, item, id);
        lemma_occurrences_contains(linked, id);
        lemma_occurrences_no_duplicates(linked, id);
        if linked.contains(id) {
            rows[i].lemma_shifted(kind, -1, 0);
        }
    }
}

/// Each link to a row is held by the item or by another one.
proof fn lemma_links_split(links: Seq<Link>, item: i32, id: i32)
    ensures
        occurrences(targets(links), id) == occurrences(targets(links_of(item, links)), id)
            + occurrences(targets(links_of_others(item, links)), id),
    decreases links.len(),
{
    let mine = |link: Link| link.item == item;
    let other = |link: Link| link.item != item;
    if links.len() == 0 {
        assert(links_of(item, links) == Seq::<Link>::empty()) by {
            reveal(Seq::filter);
        }
        assert(links_of_others(item, links) == Seq::<Link>::empty()) by {
            reveal(Seq::filter);
        }
        assert(targets(links) == Seq::<i32>::empty());
        assert(targets(Seq::<Link>::empty()) == Seq::<i32>::empty());
    } else {
        let rest = links.drop_last();
        let last = links.last();
        lemma_links_split(rest, item, id);
        assert(rest.push(last) == links);
        rest.lemma_filter_push(last, mine);
        rest.lemma_filter_push(last, other);
        assert(targets(links).drop_last() == targets(rest));
        if last.item == item {
            assert(links_of(item, links) == links_of(item, rest).push(last));
            assert(targets(links_of(item, links)).drop_last() == targets(links_of(item, rest)));
            assert(links_of_others(item, links) == links_of_others(item, rest));
        } else {
            assert(links_of_others(item, links) == links_of_others(item, rest).push(last));
            assert(targets(links_of_others(item, links)).drop_last() == targets(
                links_of_others(item, rest),
            ));
            assert(links_of(item, links) == links_of(item, rest));
        }
    }
}

} // verus!
