//! Tags and the rows that put a tag on an item.
use vstd::prelude::*;
use crate::accounting::{
    attached,
    can_attach,
    can_detach,
    counts_match,
    detached,
    lemma_attach_keeps_counts,
    lemma_detach_keeps_counts,
    links_of,
    links_of_others,
    links_to,
    targets,
    Counted,
    ItemKind,
    Link,
};
use crate::links::{is_on_item, tag_ids};

verus! {

/// A tag. `count` is the number of items of any kind that carry it,
/// `store_count` and `service_count` the number of stores and of services.
#[derive(Debug, PartialEq, Eq)]
pub struct Tag {
    pub id: i32,
    pub name: String,
    pub count: i32,
    pub store_count: i32,
    pub service_count: i32,
}

impl Clone for Tag {
    fn clone(&self) -> (r: Self)
        ensures
            r == *self,
    {
        Tag {
            id: self.id,
            name: self.name.clone(),
            count: self.count,
            store_count: self.store_count,
            service_count: self.service_count,
        }
    }
}

impl Counted for Tag {
    open spec fn key(&self) -> i32 {
        self.id
    }

    open spec fn shifted(&self, kind: ItemKind, delta: int) -> Self {
        match kind {
            ItemKind::Store => Tag {
                count: (self.count + delta) as i32,
                store_count: (self.store_count + delta) as i32,
                ..*self
            },
            ItemKind::Service => Tag {
                count: (self.count + delta) as i32,
                service_count: (self.service_count + delta) as i32,
                ..*self
            },
        }
    }

    open spec fn has_room(&self, kind: ItemKind, delta: int) -> bool {
        &&& i32::MIN <= self.count + delta <= i32::MAX
        &&& match kind {
            ItemKind::Store => i32::MIN <= self.store_count + delta <= i32::MAX,
            ItemKind::Service => i32::MIN <= self.service_count + delta <= i32::MAX,
        }
    }

    open spec fn count_of(&self, kind: ItemKind) -> int {
        match kind {
            ItemKind::Store => self.store_count as int,
            ItemKind::Service => self.service_count as int,
        }
    }

    proof fn lemma_shifted(&self, kind: ItemKind, a: int, b: int) {
    }

    proof fn lemma_shifted_zero(&self, kind: ItemKind) {
    }

    fn id(&self) -> (id: i32) {
        self.id
    }

    fn can_take(&self, kind: ItemKind, times: usize) -> (yes: bool) {
        self.count as i128 + times as i128 <= i32::MAX as i128 && match kind {
            ItemKind::Store => self.store_count as i128 + times as i128 <= i32::MAX as i128,
            ItemKind::Service => self.service_count as i128 + times as i128 <= i32::MAX as i128,
        }
    }

    fn can_give(&self, kind: ItemKind) -> (yes: bool) {
        self.count > i32::MIN && match kind {
            ItemKind::Store => self.store_count > i32::MIN,
            ItemKind::Service => self.service_count > i32::MIN,
        }
    }

    fn attach(&mut self, kind: ItemKind, times: usize) {
        self.count = (self.count as i128 + times as i128) as i32;
        match kind {
            ItemKind::Store => {
                self.store_count = (self.store_count as i128 + times as i128) as i32;
            },
            ItemKind::Service => {
                self.service_count = (self.service_count as i128 + times as i128) as i32;
            },
        }
    }

    fn detach(&mut self, kind: ItemKind) {
        self.count = self.count - 1;
        match kind {
            ItemKind::Store => {
                self.store_count = self.store_count - 1;
            },
            ItemKind::Service => {
                self.service_count = self.service_count - 1;
            },
        }
    }
}

impl Tag {
    /// Whether one of `items` puts the tag `tag_id` on an item of `kind`.
    pub open spec fn is_used(kind: ItemKind, tag_id: i32, items: Seq<TagItems>) -> bool {
        exists|k: int|
            0 <= k < items.len() && (#[trigger] items[k]).tag_id == tag_id && match kind {
                ItemKind::Store => items[k].store_id != 0,
                ItemKind::Service => items[k].service_id != 0,
            }
    }

    /// The tags in use for items of `kind`: those of `tags` that one of
    /// `items` puts on such an item, in the order of `tags`.
    pub open spec fn used(kind: ItemKind, items: Seq<TagItems>, tags: Seq<Tag>) -> Seq<Tag> {
        tags.filter(|t: Tag| Self::is_used(kind, t.id, items))
    }

    fn used_by(kind: ItemKind, tag_id: i32, items: &Vec<TagItems>) -> (yes: bool)
        ensures
            yes == Self::is_used(kind, tag_id, items@),
    {
        let mut k: usize = 0;
        while k < items.len()
            invariant
                k <= items.len(),
                forall|j: int|
                    0 <= j < k ==> !((#[trigger] items@[j]).tag_id == tag_id && match kind {
                        ItemKind::Store => items@[j].store_id != 0,
                        ItemKind::Service => items@[j].service_id != 0,
                    }),
            decreases items.len() - k,
        {
            let on_kind = match kind {
                ItemKind::Store => items[k].store_id != 0,
                ItemKind::Service => items[k].service_id != 0,
            };
            if items[k].tag_id == tag_id && on_kind {
                return true;
            }
            k = k + 1;
        }
        false
    }

    /// The tags in use for items of `kind`, out of `tags`.
    pub fn in_use(kind: ItemKind, items: &Vec<TagItems>, tags: &Vec<Tag>) -> (found: Vec<Tag>)
        ensures
            found@ == Self::used(kind, items@, tags@),
    {
        let ghost keep = |t: Tag| Self::is_used(kind, t.id, items@);
        let mut found: Vec<Tag> = Vec::new();
        let mut i: usize = 0;
        assert(tags@.take(0).filter(keep) == Seq::<Tag>::empty()) by {
            reveal(Seq::filter);
        }
        while i < tags.len()
            invariant
                i <= tags.len(),
                keep == |t: Tag| Self::is_used(kind, t.id, items@),
                found@ == tags@.take(i as int).filter(keep),
            decreases tags.len() - i,
        {
            proof {
                tags@.lemma_take_succ_push(i as int);
                tags@.take(i as int).lemma_filter_push(tags@[i as int], keep);
            }
            if Self::used_by(kind, tags[i].id, items) {
                found.push(tags[i].clone());
            }
            i = i + 1;
        }
        assert(tags@.take(tags.len() as int) == tags@);
        found
    }
}

/// A tag on an item. Of the five ids the one that applies is set, the
/// others are 0.
#[derive(Debug, Clone, Copy, PartialEq, Eq)]
pub struct TagItems {
    pub id: i32,
    pub tag_id: i32,
    pub service_id: i32,
    pub store_id: i32,
    pub blog_id: i32,
    pub wiki_id: i32,
    pub work_id: i32,
    pub created: chrono::NaiveDateTime,
}

/// What is written when a tag is put on an item.
#[derive(Debug, Clone, Copy, PartialEq, Eq)]
pub struct NewTagItems {
    pub tag_id: i32,
    pub service_id: i32,
    pub store_id: i32,
    pub blog_id: i32,
    pub wiki_id: i32,
    pub work_id: i32,
    pub created: chrono::NaiveDateTime,
}

impl NewTagItems {
    /// The row that puts the tag `tag_id` on the item `item_id` of `kind`,
    /// stamped with `created`.
    pub open spec fn on_item(
        kind: ItemKind,
        item_id: i32,
        tag_id: i32,
        created: chrono::NaiveDateTime,
    ) -> NewTagItems {
        NewTagItems {
            tag_id,
            service_id: if kind == ItemKind::Service {
                item_id
            } else {
                0
            },
            store_id: if kind == ItemKind::Store {
                item_id
            } else {
                0
            },
            blog_id: 0,
            wiki_id: 0,
            work_id: 0,
            created,
        }
    }

    /// The row that puts the tag `tag_id` on the item `item_id` of `kind`.
    pub fn for_item(kind: ItemKind, item_id: i32, tag_id: i32, created: chrono::NaiveDateTime) -> (row:
        Self)
        ensures
            row == Self::on_item(kind, item_id, tag_id, created),
    {
        match kind {
            ItemKind::Store => NewTagItems {
                tag_id: tag_id,
                service_id: 0,
                store_id: item_id,
                blog_id: 0,
                wiki_id: 0,
                work_id: 0,
                created: created,
            },
            ItemKind::Service => NewTagItems {
                tag_id: tag_id,
                service_id: item_id,
                store_id: 0,
                blog_id: 0,
                wiki_id: 0,
                work_id: 0,
                created: created,
            },
        }
    }
}

/// The item of `kind` that `row` puts a tag on; 0 where it puts the tag on
/// an item of another kind.
pub open spec fn item_of(kind: ItemKind, row: TagItems) -> i32 {
    match kind {
        ItemKind::Store => row.store_id,
        ItemKind::Service => row.service_id,
    }
}

/// The tags on items of `kind`, as the counters see them.
pub open spec fn as_links(kind: ItemKind, items: Seq<TagItems>) -> Seq<Link> {
    items.filter(|row: TagItems| item_of(kind, row) != 0).map_values(
        |row: TagItems| Link { item: item_of(kind, row), target: row.tag_id },
    )
}

/// The tags put on an item are the rows that its links link to.
pub proof fn lemma_linked_tags(kind: ItemKind, item_id: i32, items: Seq<TagItems>)
    requires
        item_id != 0,
    ensures
        tag_ids(kind, item_id, items) == targets(links_of(item_id, as_links(kind, items))),
    decreases items.len(),
{
    let mine = |row: TagItems| is_on_item(kind, item_id, row);
    let of_kind = |row: TagItems| item_of(kind, row) != 0;
    let held = |link: Link| link.item == item_id;
    if items.len() == 0 {
        assert(items.filter(mine) == Seq::<TagItems>::empty()) by {
            reveal(Seq::filter);
        }
        assert(items.filter(of_kind) == Seq::<TagItems>::empty()) by {
            reveal(Seq::filter);
        }
        assert(as_links(kind, items) == Seq::<Link>::empty());
        assert(Seq::<Link>::empty().filter(held) == Seq::<Link>::empty()) by {
            reveal(Seq::filter);
        }
        assert(tag_ids(kind, item_id, items) == Seq::<i32>::empty());
        assert(targets(Seq::<Link>::empty()) == Seq::<i32>::empty());
    } else {
        let rest = items.drop_last();
        let last = items.last();
        let last_link = Link { item: item_of(kind, last), target: last.tag_id };
        lemma_linked_tags(kind, item_id, rest);
        assert(rest.push(last) == items);
        rest.lemma_filter_push(last, mine);
        rest.lemma_filter_push(last, of_kind);
        if item_of(kind, last) != 0 {
            assert(as_links(kind, items) == as_links(kind, rest).push(last_link));
            as_links(kind, rest).lemma_filter_push(last_link, held);
            if item_of(kind, last) == item_id {
                assert(tag_ids(kind, item_id, items) == tag_ids(kind, item_id, rest).push(
                    last.tag_id,
                ));
                assert(targets(links_of(item_id, as_links(kind, items))) == targets(
                    links_of(item_id, as_links(kind, rest)),
                ).push(last.tag_id));
            }
        } else {
            assert(as_links(kind, items) == as_links(kind, rest));
        }
    }
}

/// Counts of tags that match the tags on items of `kind` still match them
/// after an item was tagged: each count moved by as much as rows were
/// written.
pub proof fn lemma_tagging_keeps_counts(
    kind: ItemKind,
    item_id: i32,
    selection: Seq<i32>,
    tags: Seq<Tag>,
    items: Seq<TagItems>,
)
    requires
        counts_match(tags, as_links(kind, items), kind),
        can_attach(tags, selection, kind),
    ensures
        counts_match(
            attached(tags, selection, kind),
            as_links(kind, items) + links_to(item_id, selection),
            kind,
        ),
{
    lemma_attach_keeps_counts(tags, as_links(kind, items), item_id, selection, kind);
}

/// Counts of tags that match the tags on items of `kind` still match them
/// after the tags of an item were taken off, provided that it did not carry
/// a tag twice. Where it did, that tag's count is left one too high.
pub proof fn lemma_untagging_keeps_counts(
    kind: ItemKind,
    item_id: i32,
    tags: Seq<Tag>,
    items: Seq<TagItems>,
)
    requires
        item_id != 0,
        counts_match(tags, as_links(kind, items), kind),
        can_detach(tags, tag_ids(kind, item_id, items), kind),
        tag_ids(kind, item_id, items).no_duplicates(),
    ensures
        counts_match(
            detached(tags, tag_ids(kind, item_id, items), kind),
            links_of_others(item_id, as_links(kind, items)),
            kind,
        ),
{
    lemma_linked_tags(kind, item_id, items);
    lemma_detach_keeps_counts(tags, as_links(kind, items), item_id, kind);
}

} // verus!
