//! What creating, editing and deleting a store does to the catalog around
//! it: which rows are written, how the counters of its categories and tags
//! move, and what the store costs.
//!
//! The functions take the viewer and the tables they read and change. They
//! do nothing for a viewer who may not act. The rows that they add are
//! returned, not put into the tables: whoever writes them gives them their
//! ids. A new store's own row is written before `create_store` is called,
//! so that its id is known.
use vstd::prelude::*;
use crate::accounting::{
    all_known,
    attach_all,
    attached,
    can_attach,
    can_attach_all,
    can_detach,
    can_detach_all,
    counts_match,
    detach_all,
    detached,
    knows_all,
    lemma_attach_keeps_counts,
    lemma_attach_then_detach,
    lemma_detach_keeps_counts,
    links_of,
    links_of_others,
    links_to,
    targets,
    ItemKind,
    Link,
};
use crate::forms::{CategoryForm, StoreForm};
use crate::links::{
    active_tech_links,
    are_tag_rows,
    linked_store_categories,
    linked_tags,
    serve_rows,
    store_category_ids,
    store_category_rows,
    store_image_rows,
    store_links,
    store_video_rows,
    tag_ids,
    tech_rows,
    StoreLinks,
};
use crate::models::serve::{
    NewTechCategoriesItem,
    Serve,
    ServeItems,
    TechCategoriesItem,
    TECH_LINK_ACTIVE,
    TECH_LINK_SUPPLEMENTARY,
};
use crate::models::store::{
    EditStoreCategories,
    NewStore,
    NewStoreCategories,
    Store,
    StoreCategories,
    StoreCategory,
    StoreImage,
    StoreVideo,
};
use crate::models::tag::{Tag, TagItems};
use crate::pages::{permits, Action, Outcome, SessionUser};
use crate::pricing::{
    chosen,
    chosen_serves,
    keyed,
    lemma_total_of_selection,
    price_store,
    prices_add_up,
    selected_total,
    sums_fit,
    tech_categories_of,
    total_price,
    PriceSchedule,
    StorePricing,
};

verus! {

/// What is written for a store besides the counters.
#[derive(Debug, PartialEq, Eq)]
pub struct StoreWrites {
    /// The rows that follow from the form alone.
    pub links: StoreLinks,
    /// Links to the technology categories that the options chosen belong
    /// to.
    pub active: Vec<NewTechCategoriesItem>,
    /// The price of the store, written last.
    pub pricing: StorePricing,
}

/// `writes` are what the store `store_id` with the form `form` needs
/// written, given the options `serves` that exist and the price schedule.
pub open spec fn are_store_writes(
    store_id: i32,
    form: StoreForm,
    serves: Seq<Serve>,
    schedule: PriceSchedule,
    writes: StoreWrites,
) -> bool {
    let fetched = chosen(serves, form.serve_list@);
    &&& writes.links.images@ == store_image_rows(store_id, form.images@)
    &&& writes.links.videos@ == store_video_rows(store_id, form.videos@)
    &&& writes.links.categories@ == store_category_rows(store_id, form.category_list@)
    &&& are_tag_rows(ItemKind::Store, store_id, form.tags_list@, writes.links.tags@)
    &&& writes.links.supplementary@ == tech_rows(
        store_id,
        form.close_tech_cats_list@,
        TECH_LINK_SUPPLEMENTARY,
    )
    &&& writes.links.serves@ == serve_rows(store_id, form.serve_list@)
    &&& writes.active@ == tech_rows(store_id, tech_categories_of(fetched), TECH_LINK_ACTIVE)
    &&& writes.pricing.price == total_price(fetched)
    &&& writes.pricing.price_acc == schedule.accumulated(total_price(fetched))
    &&& writes.pricing.tech_cat_ids@ == tech_categories_of(fetched)
}

/// Whether the links of `form` can be written: every category and tag
/// selected exists and can count the store, and the prices of the options
/// selected add up within `i32`.
pub open spec fn can_link(
    form: StoreForm,
    categories: Seq<StoreCategories>,
    tags: Seq<Tag>,
    serves: Seq<Serve>,
) -> bool {
    &&& all_known(categories, form.category_list@)
    &&& can_attach(categories, form.category_list@, ItemKind::Store)
    &&& all_known(tags, form.tags_list@)
    &&& can_attach(tags, form.tags_list@, ItemKind::Store)
    &&& sums_fit(chosen(serves, form.serve_list@))
}

/// Whether the links that `category_links` and `tag_links` hold of the
/// store `store_id` can be taken away: every category and tag linked can
/// count one store less.
pub open spec fn can_unlink(
    store_id: i32,
    category_links: Seq<StoreCategory>,
    tag_links: Seq<TagItems>,
    categories: Seq<StoreCategories>,
    tags: Seq<Tag>,
) -> bool {
    &&& can_detach(categories, store_category_ids(store_id, category_links), ItemKind::Store)
    &&& can_detach(tags, tag_ids(ItemKind::Store, store_id, tag_links), ItemKind::Store)
}

/// The categories after the links of the store `store_id` were taken away.
pub open spec fn unlinked_categories(
    store_id: i32,
    category_links: Seq<StoreCategory>,
    categories: Seq<StoreCategories>,
) -> Seq<StoreCategories> {
    detached(categories, store_category_ids(store_id, category_links), ItemKind::Store)
}

/// The tags after the tags of the store `store_id` were taken off.
pub open spec fn unlinked_tags(store_id: i32, tag_links: Seq<TagItems>, tags: Seq<Tag>) -> Seq<Tag> {
    detached(tags, tag_ids(ItemKind::Store, store_id, tag_links), ItemKind::Store)
}

/// The tables that hold a store and what surrounds it.
#[derive(Debug, PartialEq, Eq)]
pub struct StoreTables {
    pub stores: Vec<Store>,
    pub categories: Vec<StoreCategories>,
    pub tags: Vec<Tag>,
    pub category_links: Vec<StoreCategory>,
    pub tag_links: Vec<TagItems>,
    pub images: Vec<StoreImage>,
    pub videos: Vec<StoreVideo>,
    pub serve_links: Vec<ServeItems>,
    pub tech_links: Vec<TechCategoriesItem>,
}

/// The tables as values: each table as the sequence of its rows.
pub struct StoreTablesView {
    pub stores: Seq<Store>,
    pub categories: Seq<StoreCategories>,
    pub tags: Seq<Tag>,
    pub category_links: Seq<StoreCategory>,
    pub tag_links: Seq<TagItems>,
    pub images: Seq<StoreImage>,
    pub videos: Seq<StoreVideo>,
    pub serve_links: Seq<ServeItems>,
    pub tech_links: Seq<TechCategoriesItem>,
}

impl Clone for StoreTables {
    fn clone(&self) -> (r: Self)
        ensures
            r@ == self@,
    {
        let stores = self.stores.clone();
        assert(stores@ == self.stores@);
        let categories = self.categories.clone();
        assert(categories@ == self.categories@);
        let tags = self.tags.clone();
        assert(tags@ == self.tags@);
        let category_links = self.category_links.clone();
        assert(category_links@ == self.category_links@);
        let tag_links = self.tag_links.clone();
        assert(tag_links@ == self.tag_links@);
        let images = self.images.clone();
        assert(images@ == self.images@);
        let videos = self.videos.clone();
        assert(videos@ == self.videos@);
        let serve_links = self.serve_links.clone();
        assert(serve_links@ == self.serve_links@);
        let tech_links = self.tech_links.clone();
        assert(tech_links@ == self.tech_links@);
        StoreTables { stores, categories, tags, category_links, tag_links, images, videos, serve_links, tech_links }
    }
}

impl View for StoreTables {
    type V = StoreTablesView;

    open spec fn view(&self) -> StoreTablesView {
        StoreTablesView {
            stores: self.stores@,
            categories: self.categories@,
            tags: self.tags@,
            category_links: self.category_links@,
            tag_links: self.tag_links@,
            images: self.images@,
            videos: self.videos@,
            serve_links: self.serve_links@,
            tech_links: self.tech_links@,
        }
    }
}

/// Whether one of `stores` has the id `store_id`.
pub open spec fn has_store(stores: Seq<Store>, store_id: i32) -> bool {
    exists|i: int| 0 <= i < stores.len() && (#[trigger] stores[i]).id == store_id
}

/// The stores other than `store_id`.
pub open spec fn other_stores(store_id: i32, rows: Seq<Store>) -> Seq<Store> {
    rows.filter(|row: Store| row.id != store_id)
}

/// The links to categories that other stores than `store_id` hold.
pub open spec fn other_category_links(store_id: i32, rows: Seq<StoreCategory>) -> Seq<
    StoreCategory,
> {
    rows.filter(|row: StoreCategory| row.store_id != store_id)
}

/// The tag rows that are not on the store `store_id`.
pub open spec fn other_tag_links(store_id: i32, rows: Seq<TagItems>) -> Seq<TagItems> {
    rows.filter(|row: TagItems| row.store_id != store_id)
}

/// The pictures of other stores than `store_id`.
pub open spec fn other_images(store_id: i32, rows: Seq<StoreImage>) -> Seq<StoreImage> {
    rows.filter(|row: StoreImage| row.store != store_id)
}

/// The videos of other stores than `store_id`.
pub open spec fn other_videos(store_id: i32, rows: Seq<StoreVideo>) -> Seq<StoreVideo> {
    rows.filter(|row: StoreVideo| row.store != store_id)
}

/// The options chosen for other stores than `store_id`.
pub open spec fn other_serve_links(store_id: i32, rows: Seq<ServeItems>) -> Seq<ServeItems> {
    rows.filter(|row: ServeItems| row.store_id != store_id)
}

/// The links to technology categories that other stores than `store_id`
/// hold.
pub open spec fn other_tech_links(store_id: i32, rows: Seq<TechCategoriesItem>) -> Seq<
    TechCategoriesItem,
> {
    rows.filter(|row: TechCategoriesItem| row.store_id != store_id)
}

/// `store` with the price `price` and the accumulated price `price_acc`.
pub open spec fn priced(store: Store, price: i32, price_acc: i32) -> Store {
    Store { price: Some(price), price_acc: Some(price_acc), ..store }
}

/// `store` as `form` describes it. Owner, text and prices stay.
pub open spec fn revised(store: Store, form: StoreForm) -> Store {
    Store {
        title: form.title,
        description: Some(form.description),
        link: Some(form.link),
        image: Some(form.main_image),
        is_active: form.is_active,
        ..store
    }
}

/// `rows` with the store `store_id` priced.
pub open spec fn with_price(store_id: i32, price: i32, price_acc: i32, rows: Seq<Store>) -> Seq<
    Store,
> {
    Seq::new(
        rows.len(),
        |i: int|
            if rows[i].id == store_id {
                priced(rows[i], price, price_acc)
            } else {
                rows[i]
            },
    )
}

/// `rows` with the store `store_id` as `form` describes it.
pub open spec fn with_form(store_id: i32, form: StoreForm, rows: Seq<Store>) -> Seq<Store> {
    Seq::new(
        rows.len(),
        |i: int|
            if rows[i].id == store_id {
                revised(rows[i], form)
            } else {
                rows[i]
            },
    )
}

/// The price that the options selected in `form` add up to.
pub open spec fn form_price(form: StoreForm, serves: Seq<Serve>) -> i32 {
    total_price(chosen(serves, form.serve_list@)) as i32
}

/// The accumulated price that `schedule` gives for the options selected in
/// `form`.
pub open spec fn form_price_acc(form: StoreForm, serves: Seq<Serve>, schedule: PriceSchedule) -> i32 {
    schedule.accumulated(total_price(chosen(serves, form.serve_list@))) as i32
}

impl StoreTablesView {
    /// Whether the store `store_id` exists and its links can be taken away,
    /// see `can_unlink`.
    pub open spec fn can_delete(self, store_id: i32) -> bool {
        &&& has_store(self.stores, store_id)
        &&& can_unlink(store_id, self.category_links, self.tag_links, self.categories, self.tags)
    }

    /// Whether the store `store_id` exists and the links of `form` can be
    /// written, see `can_link`.
    pub open spec fn can_create(self, store_id: i32, form: StoreForm, serves: Seq<Serve>) -> bool {
        &&& has_store(self.stores, store_id)
        &&& can_link(form, self.categories, self.tags, serves)
    }

    /// Whether the store `store_id` can be edited: it exists, its links can
    /// be taken away, and the links of `form` can be written after that.
    pub open spec fn can_edit(self, store_id: i32, form: StoreForm, serves: Seq<Serve>) -> bool {
        &&& self.can_delete(store_id)
        &&& self.unlinked(store_id).can_create(store_id, form, serves)
    }

    /// The tables after everything that the store `store_id` owns was taken
    /// away: no row of it remains, the rows of every other store are as
    /// they were, and each category and tag that it was linked to counts
    /// one store less. The store itself stays.
    pub open spec fn unlinked(self, store_id: i32) -> StoreTablesView {
        StoreTablesView {
            stores: self.stores,
            categories: unlinked_categories(store_id, self.category_links, self.categories),
            tags: unlinked_tags(store_id, self.tag_links, self.tags),
            category_links: other_category_links(store_id, self.category_links),
            tag_links: other_tag_links(store_id, self.tag_links),
            images: other_images(store_id, self.images),
            videos: other_videos(store_id, self.videos),
            serve_links: other_serve_links(store_id, self.serve_links),
            tech_links: other_tech_links(store_id, self.tech_links),
        }
    }

    /// The tables after the store `store_id` was deleted: what it owns is
    /// taken away as in `unlinked`, and its own row is gone.
    pub open spec fn deleted(self, store_id: i32) -> StoreTablesView {
        StoreTablesView { stores: other_stores(store_id, self.stores), ..self.unlinked(store_id) }
    }

    /// The tables after the surroundings of the store `store_id` were made
    /// from `form`: each category and tag selected counts the store, and
    /// the store has its price. The rows to write are not in the tables:
    /// they are returned, and whoever writes them gives them their ids.
    pub open spec fn created(
        self,
        store_id: i32,
        form: StoreForm,
        serves: Seq<Serve>,
        schedule: PriceSchedule,
    ) -> StoreTablesView {
        StoreTablesView {
            stores: with_price(
                store_id,
                form_price(form, serves),
                form_price_acc(form, serves, schedule),
                self.stores,
            ),
            categories: attached(self.categories, form.category_list@, ItemKind::Store),
            tags: attached(self.tags, form.tags_list@, ItemKind::Store),
            ..self
        }
    }

    /// The tables after the store `store_id` was edited: what it owned is
    /// taken away as in `unlinked`, its row is as `form` describes it, and
    /// its surroundings are made from `form` as in `created`.
    pub open spec fn edited(
        self,
        store_id: i32,
        form: StoreForm,
        serves: Seq<Serve>,
        schedule: PriceSchedule,
    ) -> StoreTablesView {
        let unlinked = self.unlinked(store_id);
        StoreTablesView { stores: with_form(store_id, form, self.stores), ..unlinked }.created(
            store_id,
            form,
            serves,
            schedule,
        )
    }
}

/// Whether one of `stores` has the id `store_id`.
pub fn knows_store(stores: &Vec<Store>, store_id: i32) -> (yes: bool)
    ensures
        yes == has_store(stores@, store_id),
{
    let mut i: usize = 0;
    while i < stores.len()
        invariant
            i <= stores.len(),
            forall|j: int| 0 <= j < i ==> (#[trigger] stores@[j]).id != store_id,
        decreases stores.len() - i,
    {
        if stores[i].id == store_id {
            return true;
        }
        i = i + 1;
    }
    false
}

/// Whether the links of `form` can be written, see `can_link`.
pub fn is_linkable(
    form: &StoreForm,
    categories: &Vec<StoreCategories>,
    tags: &Vec<Tag>,
    serves: &Vec<Serve>,
) -> (yes: bool)
    ensures
        yes == can_link(*form, categories@, tags@, serves@),
{
    if !knows_all(categories, &form.category_list) {
        return false;
    }
    if !can_attach_all(categories, &form.category_list, ItemKind::Store) {
        return false;
    }
    if !knows_all(tags, &form.tags_list) {
        return false;
    }
    if !can_attach_all(tags, &form.tags_list, ItemKind::Store) {
        return false;
    }
    let fetched = chosen_serves(serves, &form.serve_list);
    prices_add_up(&fetched)
}

/// Whether the links of the store `store_id` can be taken away, see
/// `can_unlink`.
pub fn is_unlinkable(
    store_id: i32,
    category_links: &Vec<StoreCategory>,
    tag_links: &Vec<TagItems>,
    categories: &Vec<StoreCategories>,
    tags: &Vec<Tag>,
) -> (yes: bool)
    ensures
        yes == can_unlink(store_id, category_links@, tag_links@, categories@, tags@),
{
    let linked_categories = linked_store_categories(store_id, category_links);
    let linked = linked_tags(ItemKind::Store, store_id, tag_links);
    can_detach_all(categories, &linked_categories, ItemKind::Store) && can_detach_all(
        tags,
        &linked,
        ItemKind::Store,
    )
}

fn stores_of_others(store_id: i32, rows: &Vec<Store>) -> (kept: Vec<Store>)
    ensures
        kept@ == other_stores(store_id, rows@),
{
    let ghost keep = |row: Store| row.id != store_id;
    let mut kept: Vec<Store> = Vec::new();
    let mut i: usize = 0;
    assert(rows@.take(0).filter(keep) == Seq::<Store>::empty()) by {
        reveal(Seq::filter);
    }
    while i < rows.len()
        invariant
            i <= rows.len(),
            keep == |row: Store| row.id != store_id,
            kept@ == rows@.take(i as int).filter(keep),
        decreases rows.len() - i,
    {
        proof {
            rows@.lemma_take_succ_push(i as int);
            rows@.take(i as int).lemma_filter_push(rows@[i as int], keep);
        }
        if rows[i].id != store_id {
            kept.push(rows[i].clone());
        }
        i = i + 1;
    }
    assert(rows@.take(rows.len() as int) == rows@);
    kept
}

fn category_links_of_others(store_id: i32, rows: &Vec<StoreCategory>) -> (kept: Vec<StoreCategory>)
    ensures
        kept@ == other_category_links(store_id, rows@),
{
    let ghost keep = |row: StoreCategory| row.store_id != store_id;
    let mut kept: Vec<StoreCategory> = Vec::new();
    let mut i: usize = 0;
    assert(rows@.take(0).filter(keep) == Seq::<StoreCategory>::empty()) by {
        reveal(Seq::filter);
    }
    while i < rows.len()
        invariant
            i <= rows.len(),
            keep == |row: StoreCategory| row.store_id != store_id,
            kept@ == rows@.take(i as int).filter(keep),
        decreases rows.len() - i,
    {
        proof {
            rows@.lemma_take_succ_push(i as int);
            rows@.take(i as int).lemma_filter_push(rows@[i as int], keep);
        }
        if rows[i].store_id != store_id {
            kept.push(rows[i]);
        }
        i = i + 1;
    }
    assert(rows@.take(rows.len() as int) == rows@);
    kept
}

fn tag_links_of_others(store_id: i32, rows: &Vec<TagItems>) -> (kept: Vec<TagItems>)
    ensures
        kept@ == other_tag_links(store_id, rows@),
{
    let ghost keep = |row: TagItems| row.store_id != store_id;
    let mut kept: Vec<TagItems> = Vec::new();
    let mut i: usize = 0;
    assert(rows@.take(0).filter(keep) == Seq::<TagItems>::empty()) by {
        reveal(Seq::filter);
    }
    while i < rows.len()
        invariant
            i <= rows.len(),
            keep == |row: TagItems| row.store_id != store_id,
            kept@ == rows@.take(i as int).filter(keep),
        decreases rows.len() - i,
    {
        proof {
            rows@.lemma_take_succ_push(i as int);
            rows@.take(i as int).lemma_filter_push(rows@[i as int], keep);
        }
        if rows[i].store_id != store_id {
            kept.push(rows[i]);
        }
        i = i + 1;
    }
    assert(rows@.take(rows.len() as int) == rows@);
    kept
}

fn images_of_others(store_id: i32, rows: &Vec<StoreImage>) -> (kept: Vec<StoreImage>)
    ensures
        kept@ == other_images(store_id, rows@),
{
    let ghost keep = |row: StoreImage| row.store != store_id;
    let mut kept: Vec<StoreImage> = Vec::new();
    let mut i: usize = 0;
    assert(rows@.take(0).filter(keep) == Seq::<StoreImage>::empty()) by {
        reveal(Seq::filter);
    }
    while i < rows.len()
        invariant
            i <= rows.len(),
            keep == |row: StoreImage| row.store != store_id,
            kept@ == rows@.take(i as int).filter(keep),
        decreases rows.len() - i,
    {
        proof {
            rows@.lemma_take_succ_push(i as int);
            rows@.take(i as int).lemma_filter_push(rows@[i as int], keep);
        }
        if rows[i].store != store_id {
            kept.push(rows[i].clone());
        }
        i = i + 1;
    }
    assert(rows@.take(rows.len() as int) == rows@);
    kept
}

fn videos_of_others(store_id: i32, rows: &Vec<StoreVideo>) -> (kept: Vec<StoreVideo>)
    ensures
        kept@ == other_videos(store_id, rows@),
{
    let ghost keep = |row: StoreVideo| row.store != store_id;
    let mut kept: Vec<StoreVideo> = Vec::new();
    let mut i: usize = 0;
    assert(rows@.take(0).filter(keep) == Seq::<StoreVideo>::empty()) by {
        reveal(Seq::filter);
    }
    while i < rows.len()
        invariant
            i <= rows.len(),
            keep == |row: StoreVideo| row.store != store_id,
            kept@ == rows@.take(i as int).filter(keep),
        decreases rows.len() - i,
    {
        proof {
            rows@.lemma_take_succ_push(i as int);
            rows@.take(i as int).lemma_filter_push(rows@[i as int], keep);
        }
        if rows[i].store != store_id {
            kept.push(rows[i].clone());
        }
        i = i + 1;
    }
    assert(rows@.take(rows.len() as int) == rows@);
    kept
}

fn serve_links_of_others(store_id: i32, rows: &Vec<ServeItems>) -> (kept: Vec<ServeItems>)
    ensures
        kept@ == other_serve_links(store_id, rows@),
{
    let ghost keep = |row: ServeItems| row.store_id != store_id;
    let mut kept: Vec<ServeItems> = Vec::new();
    let mut i: usize = 0;
    assert(rows@.take(0).filter(keep) == Seq::<ServeItems>::empty()) by {
        reveal(Seq::filter);
    }
    while i < rows.len()
        invariant
            i <= rows.len(),
            keep == |row: ServeItems| row.store_id != store_id,
            kept@ == rows@.take(i as int).filter(keep),
        decreases rows.len() - i,
    {
        proof {
            rows@.lemma_take_succ_push(i as int);
            rows@.take(i as int).lemma_filter_push(rows@[i as int], keep);
        }
        if rows[i].store_id != store_id {
            kept.push(rows[i]);
        }
        i = i + 1;
    }
    assert(rows@.take(rows.len() as int) == rows@);
    kept
}

fn tech_links_of_others(store_id: i32, rows: &Vec<TechCategoriesItem>) -> (kept: Vec<
    TechCategoriesItem,
>)
    ensures
        kept@ == other_tech_links(store_id, rows@),
{
    let ghost keep = |row: TechCategoriesItem| row.store_id != store_id;
    let mut kept: Vec<TechCategoriesItem> = Vec::new();
    let mut i: usize = 0;
    assert(rows@.take(0).filter(keep) == Seq::<TechCategoriesItem>::empty()) by {
        reveal(Seq::filter);
    }
    while i < rows.len()
        invariant
            i <= rows.len(),
            keep == |row: TechCategoriesItem| row.store_id != store_id,
            kept@ == rows@.take(i as int).filter(keep),
        decreases rows.len() - i,
    {
        proof {
            rows@.lemma_take_succ_push(i as int);
            rows@.take(i as int).lemma_filter_push(rows@[i as int], keep);
        }
        if rows[i].store_id != store_id {
            kept.push(rows[i]);
        }
        i = i + 1;
    }
    assert(rows@.take(rows.len() as int) == rows@);
    kept
}

fn set_price(store_id: i32, price: i32, price_acc: i32, rows: &mut Vec<Store>)
    ensures
        final(rows)@ == with_price(store_id, price, price_acc, old(rows)@),
{
    let mut i: usize = 0;
    while i < rows.len()
        invariant
            i <= rows.len(),
            rows.len() == old(rows).len(),
            forall|j: int|
                0 <= j < i ==> rows@[j] == with_price(store_id, price, price_acc, old(rows)@)[j],
            forall|j: int| i <= j < rows.len() ==> rows@[j] == old(rows)@[j],
        decreases rows.len() - i,
    {
        if rows[i].id == store_id {
            rows[i].price = Some(price);
            rows[i].price_acc = Some(price_acc);
        }
        i = i + 1;
    }
}

fn set_form(store_id: i32, form: &StoreForm, rows: &mut Vec<Store>)
    ensures
        final(rows)@ == with_form(store_id, *form, old(rows)@),
{
    let mut i: usize = 0;
    while i < rows.len()
        invariant
            i <= rows.len(),
            rows.len() == old(rows).len(),
            forall|j: int| 0 <= j < i ==> rows@[j] == with_form(store_id, *form, old(rows)@)[j],
            forall|j: int| i <= j < rows.len() ==> rows@[j] == old(rows)@[j],
        decreases rows.len() - i,
    {
        if rows[i].id == store_id {
            rows[i].title = form.title.clone();
            rows[i].description = Some(form.description.clone());
            rows[i].link = Some(form.link.clone());
            rows[i].image = Some(form.main_image.clone());
            rows[i].is_active = form.is_active;
        }
        i = i + 1;
    }
}

/// Takes away everything that the store `store_id` owns.
fn unlink(store_id: i32, tables: &mut StoreTables)
    requires
        can_unlink(
            store_id,
            old(tables)@.category_links,
            old(tables)@.tag_links,
            old(tables)@.categories,
            old(tables)@.tags,
        ),
    ensures
        final(tables)@ == old(tables)@.unlinked(store_id),
{
    let linked_categories = linked_store_categories(store_id, &tables.category_links);
    let linked = linked_tags(ItemKind::Store, store_id, &tables.tag_links);
    detach_all(&mut tables.categories, &linked_categories, ItemKind::Store);
    detach_all(&mut tables.tags, &linked, ItemKind::Store);
    tables.category_links = category_links_of_others(store_id, &tables.category_links);
    tables.tag_links = tag_links_of_others(store_id, &tables.tag_links);
    tables.images = images_of_others(store_id, &tables.images);
    tables.videos = videos_of_others(store_id, &tables.videos);
    tables.serve_links = serve_links_of_others(store_id, &tables.serve_links);
    tables.tech_links = tech_links_of_others(store_id, &tables.tech_links);
}

/// Makes the surroundings of the store `store_id` from `form`.
fn link(
    store_id: i32,
    form: &StoreForm,
    tables: &mut StoreTables,
    serves: &Vec<Serve>,
    schedule: &PriceSchedule,
) -> (writes: StoreWrites)
    requires
        can_link(*form, old(tables)@.categories, old(tables)@.tags, serves@),
    ensures
        final(tables)@ == old(tables)@.created(store_id, *form, serves@, *schedule),
        are_store_writes(store_id, *form, serves@, *schedule, writes),
{
    let links = store_links(store_id, form);
    attach_all(&mut tables.categories, &form.category_list, ItemKind::Store);
    attach_all(&mut tables.tags, &form.tags_list, ItemKind::Store);
    let fetched = chosen_serves(serves, &form.serve_list);
    let pricing = price_store(&fetched, schedule);
    let active = active_tech_links(store_id, &pricing.tech_cat_ids);
    set_price(store_id, pricing.price, pricing.price_acc, &mut tables.stores);
    StoreWrites { links, active, pricing }
}

/// The row of the store that `viewer` submits with `form`, for a viewer who
/// may create stores. For any other viewer there is no row, and nothing is
/// to be written.
pub fn new_store_row(viewer: Option<SessionUser>, form: &StoreForm) -> (row: Option<NewStore>)
    ensures
        row is Some <==> permits(Action::CreateStore.access_of(), viewer, None),
        row matches Some(made) ==> viewer matches Some(user) && made == (NewStore {
            title: form.title,
            description: Some(form.description),
            link: Some(form.link),
            image: Some(form.main_image),
            is_active: form.is_active,
            price: None,
            price_acc: None,
            social_price: None,
            user_id: user.id,
            created: made.created,
        }),
{
    match viewer {
        Some(user) => if Action::CreateStore.is_allowed(viewer, None) {
            Some(form.new_store(user.id))
        } else {
            None
        },
        None => None,
    }
}

/// The row of the category that `viewer` submits with `form`, for a viewer
/// who may create categories of stores. For any other viewer there is no
/// row, and nothing is to be written.
pub fn new_category_row(viewer: Option<SessionUser>, form: &CategoryForm) -> (row: Option<
    NewStoreCategories,
>)
    ensures
        row is Some <==> permits(Action::CreateStoreCategories.access_of(), viewer, None),
        row matches Some(made) ==> made == (NewStoreCategories {
            name: form.name,
            description: Some(form.description),
            position: form.position,
            image: Some(form.image),
            count: 0,
        }),
{
    if Action::CreateStoreCategories.is_allowed(viewer, None) {
        Some(form.new_store_category())
    } else {
        None
    }
}

/// The changes that `viewer` submits with `form` to the category `current`,
/// for a viewer who may edit categories of stores. For any other viewer
/// there are none, and nothing is to be written.
pub fn edit_category_row(
    viewer: Option<SessionUser>,
    form: &CategoryForm,
    current: &StoreCategories,
) -> (row: Option<EditStoreCategories>)
    ensures
        row is Some <==> permits(Action::EditStoreCategory.access_of(), viewer, None),
        row matches Some(made) ==> made == (EditStoreCategories {
            name: form.name,
            description: Some(form.description),
            position: form.position,
            image: Some(form.image),
            count: current.count,
        }),
{
    if Action::EditStoreCategory.is_allowed(viewer, None) {
        Some(form.edit_store_category(current))
    } else {
        None
    }
}

/// The categories other than `category_id`.
pub open spec fn other_categories(category_id: i32, rows: Seq<StoreCategories>) -> Seq<
    StoreCategories,
> {
    rows.filter(|row: StoreCategories| row.id != category_id)
}

/// Deletes the category `category_id` and says whether it did. For a viewer
/// who may not delete categories of stores nothing is changed. For one who
/// may, no category has the id any more, and every other category is as it
/// was.
pub fn delete_category(
    viewer: Option<SessionUser>,
    category_id: i32,
    categories: &mut Vec<StoreCategories>,
) -> (done: bool)
    ensures
        done == permits(Action::DeleteStoreCategory.access_of(), viewer, None),
        done ==> final(categories)@ == other_categories(category_id, old(categories)@),
        !done ==> final(categories)@ == old(categories)@,
{
    if !Action::DeleteStoreCategory.is_allowed(viewer, None) {
        return false;
    }
    let ghost keep = |row: StoreCategories| row.id != category_id;
    let mut kept: Vec<StoreCategories> = Vec::new();
    let mut i: usize = 0;
    assert(categories@.take(0).filter(keep) == Seq::<StoreCategories>::empty()) by {
        reveal(Seq::filter);
    }
    while i < categories.len()
        invariant
            i <= categories.len(),
            categories@ == old(categories)@,
            keep == |row: StoreCategories| row.id != category_id,
            kept@ == categories@.take(i as int).filter(keep),
        decreases categories.len() - i,
    {
        proof {
            categories@.lemma_take_succ_push(i as int);
            categories@.take(i as int).lemma_filter_push(categories@[i as int], keep);
        }
        if categories[i].id != category_id {
            kept.push(categories[i].clone());
        }
        i = i + 1;
    }
    assert(categories@.take(categories.len() as int) == categories@);
    *categories = kept;
    true
}

/// Replaces the text of `store` by `content` and says whether it did. Only
/// a member of the staff who owns the store may; for any other viewer the
/// store is left as it is.
pub fn edit_content(viewer: Option<SessionUser>, store: &mut Store, content: String) -> (done: bool)
    ensures
        done == permits(Action::EditContentStore.access_of(), viewer, Some(old(store).user_id)),
        done ==> *final(store) == (Store { content: Some(content), ..*old(store) }),
        !done ==> *final(store) == *old(store),
{
    if Action::EditContentStore.is_allowed(viewer, Some(store.user_id)) {
        store.content = Some(content);
        true
    } else {
        false
    }
}

/// Creates the surroundings of the new store `store_id`, whose own row is
/// among the stores already. For a viewer who may not create stores nothing
/// is changed and nothing is to be written. For one who may, each category
/// selected counts one store more for each time it was selected, each tag
/// selected counts one use and one store more, the store gets its price,
/// and the rows to write are returned. An option selected that does not
/// exist adds nothing to the price.
pub fn create_store(
    viewer: Option<SessionUser>,
    store_id: i32,
    form: &StoreForm,
    tables: &mut StoreTables,
    serves: &Vec<Serve>,
    schedule: &PriceSchedule,
) -> (writes: Option<StoreWrites>)
    requires
        permits(Action::CreateStore.access_of(), viewer, None) ==> old(tables)@.can_create(
            store_id,
            *form,
            serves@,
        ),
    ensures
        writes is Some <==> permits(Action::CreateStore.access_of(), viewer, None),
        writes is None ==> final(tables)@ == old(tables)@,
        writes matches Some(made) ==> {
            &&& final(tables)@ == old(tables)@.created(store_id, *form, serves@, *schedule)
            &&& are_store_writes(store_id, *form, serves@, *schedule, made)
        },
{
    if !Action::CreateStore.is_allowed(viewer, None) {
        return None;
    }
    Some(link(store_id, form, tables, serves, schedule))
}

/// Deletes the store `store_id` and says whether it did. For a viewer who
/// may not delete stores nothing is changed. For one who may, no row of
/// the store remains, its own row among them, the rows of every other store
/// are as they were, and each category and tag that it was linked to counts
/// one store less.
pub fn delete_store(viewer: Option<SessionUser>, store_id: i32, tables: &mut StoreTables) -> (done:
    bool)
    requires
        permits(Action::DeleteStore.access_of(), viewer, None) ==> old(tables)@.can_delete(
            store_id,
        ),
    ensures
        done == permits(Action::DeleteStore.access_of(), viewer, None),
        done ==> final(tables)@ == old(tables)@.deleted(store_id),
        !done ==> final(tables)@ == old(tables)@,
{
    if !Action::DeleteStore.is_allowed(viewer, None) {
        return false;
    }
    unlink(store_id, tables);
    tables.stores = stores_of_others(store_id, &tables.stores);
    true
}

/// Edits the store `store_id`. For a viewer who may not edit stores nothing
/// is changed and nothing is to be written. For one who may, everything
/// that the store owned is taken away as when it is deleted, its row is
/// as `form` describes it, and its surroundings are made anew from `form`
/// as when it is created.
pub fn edit_store(
    viewer: Option<SessionUser>,
    store_id: i32,
    form: &StoreForm,
    tables: &mut StoreTables,
    serves: &Vec<Serve>,
    schedule: &PriceSchedule,
) -> (writes: Option<StoreWrites>)
    requires
        permits(Action::EditStore.access_of(), viewer, None) ==> old(tables)@.can_edit(
            store_id,
            *form,
            serves@,
        ),
    ensures
        writes is Some <==> permits(Action::EditStore.access_of(), viewer, None),
        writes is None ==> final(tables)@ == old(tables)@,
        writes matches Some(made) ==> {
            &&& final(tables)@ == old(tables)@.edited(store_id, *form, serves@, *schedule)
            &&& are_store_writes(store_id, *form, serves@, *schedule, made)
        },
{
    if !Action::EditStore.is_allowed(viewer, None) {
        return None;
    }
    unlink(store_id, tables);
    set_form(store_id, form, &mut tables.stores);
    Some(link(store_id, form, tables, serves, schedule))
}

/// Whether the store `store_id` can be deleted, see
/// `StoreTablesView::can_delete`.
pub fn is_deletable(store_id: i32, tables: &StoreTables) -> (yes: bool)
    ensures
        yes == tables@.can_delete(store_id),
{
    knows_store(&tables.stores, store_id) && is_unlinkable(
        store_id,
        &tables.category_links,
        &tables.tag_links,
        &tables.categories,
        &tables.tags,
    )
}

/// Whether the surroundings of the store `store_id` can be made from
/// `form`, see `StoreTablesView::can_create`.
pub fn is_creatable(store_id: i32, form: &StoreForm, tables: &StoreTables, serves: &Vec<Serve>) -> (yes:
    bool)
    ensures
        yes == tables@.can_create(store_id, *form, serves@),
{
    knows_store(&tables.stores, store_id) && is_linkable(
        form,
        &tables.categories,
        &tables.tags,
        serves,
    )
}

/// Whether the store `store_id` can be edited, see
/// `StoreTablesView::can_edit`.
pub fn is_editable(store_id: i32, form: &StoreForm, tables: &StoreTables, serves: &Vec<Serve>) -> (yes:
    bool)
    ensures
        yes == tables@.can_edit(store_id, *form, serves@),
{
    if !is_deletable(store_id, tables) {
        return false;
    }
    let linked_categories = linked_store_categories(store_id, &tables.category_links);
    let linked = linked_tags(ItemKind::Store, store_id, &tables.tag_links);
    let mut unlinked = tables.categories.clone();
    let mut untagged = tables.tags.clone();
    assert(unlinked@ == tables.categories@);
    assert(untagged@ == tables.tags@);
    detach_all(&mut unlinked, &linked_categories, ItemKind::Store);
    detach_all(&mut untagged, &linked, ItemKind::Store);
    is_linkable(form, &unlinked, &untagged, serves)
}

/// Creates the surroundings of the new store `store_id` as `create_store`
/// does, where the viewer may and `can_create` allows it. Otherwise nothing
/// is changed and nothing is to be written.
pub fn try_create_store(
    viewer: Option<SessionUser>,
    store_id: i32,
    form: &StoreForm,
    tables: &mut StoreTables,
    serves: &Vec<Serve>,
    schedule: &PriceSchedule,
) -> (outcome: Outcome<StoreWrites>)
    ensures
        outcome is Denied <==> !permits(Action::CreateStore.access_of(), viewer, None),
        outcome is Refused <==> permits(Action::CreateStore.access_of(), viewer, None) && !old(
            tables,
        )@.can_create(store_id, *form, serves@),
        outcome matches Outcome::Done(made) ==> {
            &&& final(tables)@ == old(tables)@.created(store_id, *form, serves@, *schedule)
            &&& are_store_writes(store_id, *form, serves@, *schedule, made)
        },
        !(outcome is Done) ==> final(tables)@ == old(tables)@,
{
    if !Action::CreateStore.is_allowed(viewer, None) {
        return Outcome::Denied;
    }
    if !is_creatable(store_id, form, tables, serves) {
        return Outcome::Refused;
    }
    match create_store(viewer, store_id, form, tables, serves, schedule) {
        Some(made) => Outcome::Done(made),
        None => Outcome::Denied,
    }
}

/// Deletes the store `store_id` as `delete_store` does, where the viewer
/// may and `can_delete` allows it. Otherwise nothing is changed.
pub fn try_delete_store(viewer: Option<SessionUser>, store_id: i32, tables: &mut StoreTables) -> (outcome:
    Outcome<()>)
    ensures
        outcome is Denied <==> !permits(Action::DeleteStore.access_of(), viewer, None),
        outcome is Refused <==> permits(Action::DeleteStore.access_of(), viewer, None) && !old(
            tables,
        )@.can_delete(store_id),
        outcome is Done ==> final(tables)@ == old(tables)@.deleted(store_id),
        !(outcome is Done) ==> final(tables)@ == old(tables)@,
{
    if !Action::DeleteStore.is_allowed(viewer, None) {
        return Outcome::Denied;
    }
    if !is_deletable(store_id, tables) {
        return Outcome::Refused;
    }
    delete_store(viewer, store_id, tables);
    Outcome::Done(())
}

/// Edits the store `store_id` as `edit_store` does, where the viewer may
/// and `can_edit` allows it. Otherwise nothing is changed and nothing is to
/// be written.
pub fn try_edit_store(
    viewer: Option<SessionUser>,
    store_id: i32,
    form: &StoreForm,
    tables: &mut StoreTables,
    serves: &Vec<Serve>,
    schedule: &PriceSchedule,
) -> (outcome: Outcome<StoreWrites>)
    ensures
        outcome is Denied <==> !permits(Action::EditStore.access_of(), viewer, None),
        outcome is Refused <==> permits(Action::EditStore.access_of(), viewer, None) && !old(
            tables,
        )@.can_edit(store_id, *form, serves@),
        outcome matches Outcome::Done(made) ==> {
            &&& final(tables)@ == old(tables)@.edited(store_id, *form, serves@, *schedule)
            &&& are_store_writes(store_id, *form, serves@, *schedule, made)
        },
        !(outcome is Done) ==> final(tables)@ == old(tables)@,
{
    if !Action::EditStore.is_allowed(viewer, None) {
        return Outcome::Denied;
    }
    if !is_editable(store_id, form, tables, serves) {
        return Outcome::Refused;
    }
    match edit_store(viewer, store_id, form, tables, serves, schedule) {
        Some(made) => Outcome::Done(made),
        None => Outcome::Denied,
    }
}

/// After a store was deleted or edited, no row that it owned remains, and
/// after it was deleted no store has its id.
pub proof fn lemma_no_row_remains(tables: StoreTablesView, store_id: i32)
    ensures
        ({
            let after = tables.unlinked(store_id);
            &&& forall|i: int|
                0 <= i < after.category_links.len() ==> (#[trigger] after.category_links[i]).store_id
                    != store_id
            &&& forall|i: int|
                0 <= i < after.tag_links.len() ==> (#[trigger] after.tag_links[i]).store_id
                    != store_id
            &&& forall|i: int| 0 <= i < after.images.len() ==> (#[trigger] after.images[i]).store != store_id
            &&& forall|i: int| 0 <= i < after.videos.len() ==> (#[trigger] after.videos[i]).store != store_id
            &&& forall|i: int|
                0 <= i < after.serve_links.len() ==> (#[trigger] after.serve_links[i]).store_id
                    != store_id
            &&& forall|i: int|
                0 <= i < after.tech_links.len() ==> (#[trigger] after.tech_links[i]).store_id
                    != store_id
            &&& !has_store(tables.deleted(store_id).stores, store_id)
        }),
{
    broadcast use vstd::seq_lib::group_filter_ensures;
}

/// A store that is created and deleted again leaves the counters of its
/// categories and tags where they were, provided that its form selects no
/// category and no tag twice. `category_links` and `tag_links` hold the
/// links as they were written.
pub proof fn lemma_create_then_delete(
    store_id: i32,
    form: StoreForm,
    category_links: Seq<StoreCategory>,
    tag_links: Seq<TagItems>,
    categories: Seq<StoreCategories>,
    tags: Seq<Tag>,
)
    requires
        form.category_list@.no_duplicates(),
        form.tags_list@.no_duplicates(),
        can_attach(categories, form.category_list@, ItemKind::Store),
        can_attach(tags, form.tags_list@, ItemKind::Store),
        store_category_ids(store_id, category_links) == form.category_list@,
        tag_ids(ItemKind::Store, store_id, tag_links) == form.tags_list@,
    ensures
        unlinked_categories(
            store_id,
            category_links,
            attached(categories, form.category_list@, ItemKind::Store),
        ) == categories,
        unlinked_tags(store_id, tag_links, attached(tags, form.tags_list@, ItemKind::Store))
            == tags,
{
    lemma_attach_then_detach(categories, form.category_list@, ItemKind::Store);
    lemma_attach_then_detach(tags, form.tags_list@, ItemKind::Store);
}

/// The price written for a store is the sum, over the options that its form
/// selects, of the price of each option that exists. This holds of a form
/// that selects no option twice.
pub proof fn lemma_price_of_selection(
    store_id: i32,
    form: StoreForm,
    serves: Seq<Serve>,
    schedule: PriceSchedule,
    writes: StoreWrites,
)
    requires
        are_store_writes(store_id, form, serves, schedule, writes),
        keyed(serves),
        form.serve_list@.no_duplicates(),
    ensures
        writes.pricing.price == selected_total(serves, form.serve_list@),
        writes.pricing.price_acc == schedule.accumulated(
            selected_total(serves, form.serve_list@),
        ),
{
    lemma_total_of_selection(serves, form.serve_list@);
}

/// The links between stores and categories, as the counters see them.
pub open spec fn as_links(links: Seq<StoreCategory>) -> Seq<Link> {
    links.map_values(|l: StoreCategory| Link { item: l.store_id, target: l.store_categories_id })
}

/// The categories linked to a store are the rows that its links link to.
pub proof fn lemma_linked_categories(store_id: i32, links: Seq<StoreCategory>)
    ensures
        store_category_ids(store_id, links) == targets(links_of(store_id, as_links(links))),
    decreases links.len(),
{
    let mine = |l: StoreCategory| l.store_id == store_id;
    let held = |link: Link| link.item == store_id;
    if links.len() == 0 {
        assert(links.filter(mine) == Seq::<StoreCategory>::empty()) by {
            reveal(Seq::filter);
        }
        assert(as_links(links).filter(held) == Seq::<Link>::empty()) by {
            reveal(Seq::filter);
        }
        assert(store_category_ids(store_id, links) == Seq::<i32>::empty());
        assert(targets(Seq::<Link>::empty()) == Seq::<i32>::empty());
    } else {
        let rest = links.drop_last();
        let last = links.last();
        let last_link = Link { item: last.store_id, target: last.store_categories_id };
        lemma_linked_categories(store_id, rest);
        assert(rest.push(last) == links);
        assert(as_links(rest).push(last_link) == as_links(links));
        rest.lemma_filter_push(last, mine);
        as_links(rest).lemma_filter_push(last_link, held);
        if last.store_id == store_id {
            assert(store_category_ids(store_id, links) == store_category_ids(store_id, rest).push(
                last.store_categories_id,
            ));
            assert(targets(links_of(store_id, as_links(links))) == targets(
                links_of(store_id, as_links(rest)),
            ).push(last.store_categories_id));
        }
    }
}

/// Counts of categories that match the links still match them after a
/// store was created: each count moved by as much as links were written.
pub proof fn lemma_create_keeps_counts(
    store_id: i32,
    selection: Seq<i32>,
    categories: Seq<StoreCategories>,
    links: Seq<StoreCategory>,
)
    requires
        counts_match(categories, as_links(links), ItemKind::Store),
        can_attach(categories, selection, ItemKind::Store),
    ensures
        counts_match(
            attached(categories, selection, ItemKind::Store),
            as_links(links) + links_to(store_id, selection),
            ItemKind::Store,
        ),
{
    lemma_attach_keeps_counts(categories, as_links(links), store_id, selection, ItemKind::Store);
}

/// Counts of categories that match the links still match them after a
/// store was deleted, provided that no two of its links led to the same
/// category. Where two did, that category's count is left one too high.
pub proof fn lemma_delete_keeps_counts(
    store_id: i32,
    categories: Seq<StoreCategories>,
    links: Seq<StoreCategory>,
)
    requires
        counts_match(categories, as_links(links), ItemKind::Store),
        can_detach(categories, store_category_ids(store_id, links), ItemKind::Store),
        store_category_ids(store_id, links).no_duplicates(),
    ensures
        counts_match(
            unlinked_categories(store_id, links, categories),
            links_of_others(store_id, as_links(links)),
            ItemKind::Store,
        ),
{
    lemma_linked_categories(store_id, links);
    lemma_detach_keeps_counts(categories, as_links(links), store_id, ItemKind::Store);
}

} // verus!
