//! The rows written for an item besides its own: its pictures and videos and
//! its links to categories, tags, options and technology categories. Each
//! list of the form gives one row per entry, in the order of the form.
use vstd::prelude::*;
use crate::accounting::ItemKind;
use crate::clock::now;
use crate::forms::{ServiceForm, StoreForm};
use crate::models::serve::{
    NewServeItems,
    NewTechCategoriesItem,
    TECH_LINK_ACTIVE,
    TECH_LINK_SUPPLEMENTARY,
};
use crate::models::service::{
    NewServiceCategory,
    NewServiceImage,
    NewServiceVideo,
    ServiceCategory,
};
use crate::models::store::{NewStoreCategory, NewStoreImage, NewStoreVideo, StoreCategory};
use crate::models::tag::{NewTagItems, TagItems};

verus! {

/// One picture row of the store `store_id` for each of `sources`.
pub open spec fn store_image_rows(store_id: i32, sources: Seq<String>) -> Seq<NewStoreImage> {
    Seq::new(sources.len(), |i: int| NewStoreImage { store: store_id, src: sources[i] })
}

/// One video row of the store `store_id` for each of `sources`.
pub open spec fn store_video_rows(store_id: i32, sources: Seq<String>) -> Seq<NewStoreVideo> {
    Seq::new(sources.len(), |i: int| NewStoreVideo { store: store_id, src: sources[i] })
}

/// One row for each of `selection` that puts the store `store_id` into that
/// category.
pub open spec fn store_category_rows(store_id: i32, selection: Seq<i32>) -> Seq<NewStoreCategory> {
    Seq::new(
        selection.len(),
        |i: int| NewStoreCategory { store_categories_id: selection[i], store_id },
    )
}

/// One picture row of the service `service_id` for each of `sources`.
pub open spec fn service_image_rows(service_id: i32, sources: Seq<String>) -> Seq<NewServiceImage> {
    Seq::new(sources.len(), |i: int| NewServiceImage { service: service_id, src: sources[i] })
}

/// One video row of the service `service_id` for each of `sources`.
pub open spec fn service_video_rows(service_id: i32, sources: Seq<String>) -> Seq<NewServiceVideo> {
    Seq::new(sources.len(), |i: int| NewServiceVideo { service: service_id, src: sources[i] })
}

/// One row for each of `selection` that puts the service `service_id` into
/// that category.
pub open spec fn service_category_rows(service_id: i32, selection: Seq<i32>) -> Seq<
    NewServiceCategory,
> {
    Seq::new(
        selection.len(),
        |i: int| NewServiceCategory { service_categories_id: selection[i], service_id },
    )
}

/// `rows` put the tags of `selection`, one row each and in that order, on
/// the item `item_id` of `kind`. When each row was stamped is left open.
pub open spec fn are_tag_rows(
    kind: ItemKind,
    item_id: i32,
    selection: Seq<i32>,
    rows: Seq<NewTagItems>,
) -> bool {
    &&& rows.len() == selection.len()
    &&& forall|i: int|
        0 <= i < rows.len() ==> #[trigger] rows[i] == NewTagItems::on_item(
            kind,
            item_id,
            selection[i],
            rows[i].created,
        )
}

/// One row for each of `selection` that records the option as chosen for
/// the store `store_id`.
pub open spec fn serve_rows(store_id: i32, selection: Seq<i32>) -> Seq<NewServeItems> {
    Seq::new(
        selection.len(),
        |i: int| NewServeItems { serve_id: selection[i], service_id: 0, store_id, work_id: 0 },
    )
}

/// One row for each of `selection` that links the technology category to
/// the store `store_id`, as a link of the kind `types`.
pub open spec fn tech_rows(store_id: i32, selection: Seq<i32>, types: i16) -> Seq<
    NewTechCategoriesItem,
> {
    Seq::new(
        selection.len(),
        |i: int|
            NewTechCategoriesItem {
                category_id: selection[i],
                service_id: 0,
                store_id,
                work_id: 0,
                types,
            },
    )
}

/// The rows that put the tags of `selection` on the item `item_id` of
/// `kind`, each stamped with the moment it was made.
pub fn tag_links(kind: ItemKind, item_id: i32, selection: &Vec<i32>) -> (rows: Vec<NewTagItems>)
    ensures
        are_tag_rows(kind, item_id, selection@, rows@),
{
    let mut rows: Vec<NewTagItems> = Vec::new();
    let mut i: usize = 0;
    while i < selection.len()
        invariant
            i <= selection.len(),
            are_tag_rows(kind, item_id, selection@.take(i as int), rows@),
        decreases selection.len() - i,
    {
        rows.push(NewTagItems::for_item(kind, item_id, selection[i], now()));
        i = i + 1;
    }
    rows
}

/// The rows that link the technology categories of `selection` to the store
/// `store_id`, as links of the kind `types`.
pub fn tech_links(store_id: i32, selection: &Vec<i32>, types: i16) -> (rows: Vec<
    NewTechCategoriesItem,
>)
    ensures
        rows@ == tech_rows(store_id, selection@, types),
{
    let mut rows: Vec<NewTechCategoriesItem> = Vec::new();
    let mut i: usize = 0;
    while i < selection.len()
        invariant
            i <= selection.len(),
            rows@ == tech_rows(store_id, selection@.take(i as int), types),
        decreases selection.len() - i,
    {
        rows.push(
            NewTechCategoriesItem {
                category_id: selection[i],
                service_id: 0,
                store_id: store_id,
                work_id: 0,
                types: types,
            },
        );
        i = i + 1;
    }
    rows
}

/// The links from the store `store_id` to the technology categories that
/// its options belong to.
pub fn active_tech_links(store_id: i32, tech_cat_ids: &Vec<i32>) -> (rows: Vec<
    NewTechCategoriesItem,
>)
    ensures
        rows@ == tech_rows(store_id, tech_cat_ids@, TECH_LINK_ACTIVE),
{
    tech_links(store_id, tech_cat_ids, TECH_LINK_ACTIVE)
}

fn store_image_links(store_id: i32, sources: &Vec<String>) -> (rows: Vec<NewStoreImage>)
    ensures
        rows@ == store_image_rows(store_id, sources@),
{
    let mut rows: Vec<NewStoreImage> = Vec::new();
    let mut i: usize = 0;
    while i < sources.len()
        invariant
            i <= sources.len(),
            rows@ == store_image_rows(store_id, sources@.take(i as int)),
        decreases sources.len() - i,
    {
        rows.push(NewStoreImage::from_store_images_form(store_id, sources[i].clone()));
        i = i + 1;
    }
    rows
}

fn store_video_links(store_id: i32, sources: &Vec<String>) -> (rows: Vec<NewStoreVideo>)
    ensures
        rows@ == store_video_rows(store_id, sources@),
{
    let mut rows: Vec<NewStoreVideo> = Vec::new();
    let mut i: usize = 0;
    while i < sources.len()
        invariant
            i <= sources.len(),
            rows@ == store_video_rows(store_id, sources@.take(i as int)),
        decreases sources.len() - i,
    {
        rows.push(NewStoreVideo::from_store_videos_form(store_id, sources[i].clone()));
        i = i + 1;
    }
    rows
}

fn store_category_links(store_id: i32, selection: &Vec<i32>) -> (rows: Vec<NewStoreCategory>)
    ensures
        rows@ == store_category_rows(store_id, selection@),
{
    let mut rows: Vec<NewStoreCategory> = Vec::new();
    let mut i: usize = 0;
    while i < selection.len()
        invariant
            i <= selection.len(),
            rows@ == store_category_rows(store_id, selection@.take(i as int)),
        decreases selection.len() - i,
    {
        rows.push(NewStoreCategory { store_categories_id: selection[i], store_id: store_id });
        i = i + 1;
    }
    rows
}

fn serve_links(store_id: i32, selection: &Vec<i32>) -> (rows: Vec<NewServeItems>)
    ensures
        rows@ == serve_rows(store_id, selection@),
{
    let mut rows: Vec<NewServeItems> = Vec::new();
    let mut i: usize = 0;
    while i < selection.len()
        invariant
            i <= selection.len(),
            rows@ == serve_rows(store_id, selection@.take(i as int)),
        decreases selection.len() - i,
    {
        rows.push(
            NewServeItems { serve_id: selection[i], service_id: 0, store_id: store_id, work_id: 0 },
        );
        i = i + 1;
    }
    rows
}

fn service_image_links(service_id: i32, sources: &Vec<String>) -> (rows: Vec<NewServiceImage>)
    ensures
        rows@ == service_image_rows(service_id, sources@),
{
    let mut rows: Vec<NewServiceImage> = Vec::new();
    let mut i: usize = 0;
    while i < sources.len()
        invariant
            i <= sources.len(),
            rows@ == service_image_rows(service_id, sources@.take(i as int)),
        decreases sources.len() - i,
    {
        rows.push(NewServiceImage::from_service_images_form(service_id, sources[i].clone()));
        i = i + 1;
    }
    rows
}

fn service_video_links(service_id: i32, sources: &Vec<String>) -> (rows: Vec<NewServiceVideo>)
    ensures
        rows@ == service_video_rows(service_id, sources@),
{
    let mut rows: Vec<NewServiceVideo> = Vec::new();
    let mut i: usize = 0;
    while i < sources.len()
        invariant
            i <= sources.len(),
            rows@ == service_video_rows(service_id, sources@.take(i as int)),
        decreases sources.len() - i,
    {
        rows.push(NewServiceVideo::from_service_videos_form(service_id, sources[i].clone()));
        i = i + 1;
    }
    rows
}

fn service_category_links(service_id: i32, selection: &Vec<i32>) -> (rows: Vec<NewServiceCategory>)
    ensures
        rows@ == service_category_rows(service_id, selection@),
{
    let mut rows: Vec<NewServiceCategory> = Vec::new();
    let mut i: usize = 0;
    while i < selection.len()
        invariant
            i <= selection.len(),
            rows@ == service_category_rows(service_id, selection@.take(i as int)),
        decreases selection.len() - i,
    {
        rows.push(
            NewServiceCategory { service_categories_id: selection[i], service_id: service_id },
        );
        i = i + 1;
    }
    rows
}

/// The categories that `links` put the store `store_id` into, one id for
/// each link and in the order of the links.
pub open spec fn store_category_ids(store_id: i32, links: Seq<StoreCategory>) -> Seq<i32> {
    links.filter(|l: StoreCategory| l.store_id == store_id).map_values(
        |l: StoreCategory| l.store_categories_id,
    )
}

/// The categories that `links` put the service `service_id` into, one id
/// for each link and in the order of the links.
pub open spec fn service_category_ids(service_id: i32, links: Seq<ServiceCategory>) -> Seq<i32> {
    links.filter(|l: ServiceCategory| l.service_id == service_id).map_values(
        |l: ServiceCategory| l.service_categories_id,
    )
}

/// Whether `row` puts a tag on the item `item_id` of `kind`.
pub open spec fn is_on_item(kind: ItemKind, item_id: i32, row: TagItems) -> bool {
    match kind {
        ItemKind::Store => row.store_id == item_id,
        ItemKind::Service => row.service_id == item_id,
    }
}

/// The tags that `items` put on the item `item_id` of `kind`, one id for
/// each row and in the order of the rows.
pub open spec fn tag_ids(kind: ItemKind, item_id: i32, items: Seq<TagItems>) -> Seq<i32> {
    items.filter(|row: TagItems| is_on_item(kind, item_id, row)).map_values(
        |row: TagItems| row.tag_id,
    )
}

/// The ids of the categories that `links` put the store `store_id` into.
pub fn linked_store_categories(store_id: i32, links: &Vec<StoreCategory>) -> (ids: Vec<i32>)
    ensures
        ids@ == store_category_ids(store_id, links@),
{
    let ghost keep = |l: StoreCategory| l.store_id == store_id;
    let ghost pick = |l: StoreCategory| l.store_categories_id;
    let mut ids: Vec<i32> = Vec::new();
    let mut i: usize = 0;
    assert(links@.take(0).filter(keep) == Seq::<StoreCategory>::empty()) by {
        reveal(Seq::filter);
    }
    while i < links.len()
        invariant
            i <= links.len(),
            keep == |l: StoreCategory| l.store_id == store_id,
            pick == |l: StoreCategory| l.store_categories_id,
            ids@ == links@.take(i as int).filter(keep).map_values(pick),
        decreases links.len() - i,
    {
        proof {
            links@.lemma_take_succ_push(i as int);
            links@.take(i as int).lemma_filter_push(links@[i as int], keep);
        }
        if links[i].store_id == store_id {
            ids.push(links[i].store_categories_id);
        }
        i = i + 1;
    }
    assert(links@.take(links.len() as int) == links@);
    ids
}

/// The ids of the categories that `links` put the service `service_id`
/// into.
pub fn linked_service_categories(service_id: i32, links: &Vec<ServiceCategory>) -> (ids: Vec<i32>)
    ensures
        ids@ == service_category_ids(service_id, links@),
{
    let ghost keep = |l: ServiceCategory| l.service_id == service_id;
    let ghost pick = |l: ServiceCategory| l.service_categories_id;
    let mut ids: Vec<i32> = Vec::new();
    let mut i: usize = 0;
    assert(links@.take(0).filter(keep) == Seq::<ServiceCategory>::empty()) by {
        reveal(Seq::filter);
    }
    while i < links.len()
        invariant
            i <= links.len(),
            keep == |l: ServiceCategory| l.service_id == service_id,
            pick == |l: ServiceCategory| l.service_categories_id,
            ids@ == links@.take(i as int).filter(keep).map_values(pick),
        decreases links.len() - i,
    {
        proof {
            links@.lemma_take_succ_push(i as int);
            links@.take(i as int).lemma_filter_push(links@[i as int], keep);
        }
        if links[i].service_id == service_id {
            ids.push(links[i].service_categories_id);
        }
        i = i + 1;
    }
    assert(links@.take(links.len() as int) == links@);
    ids
}

/// The ids of the tags that `items` put on the item `item_id` of `kind`.
pub fn linked_tags(kind: ItemKind, item_id: i32, items: &Vec<TagItems>) -> (ids: Vec<i32>)
    ensures
        ids@ == tag_ids(kind, item_id, items@),
{
    let ghost keep = |row: TagItems| is_on_item(kind, item_id, row);
    let ghost pick = |row: TagItems| row.tag_id;
    let mut ids: Vec<i32> = Vec::new();
    let mut i: usize = 0;
    assert(items@.take(0).filter(keep) == Seq::<TagItems>::empty()) by {
        reveal(Seq::filter);
    }
    while i < items.len()
        invariant
            i <= items.len(),
            keep == |row: TagItems| is_on_item(kind, item_id, row),
            pick == |row: TagItems| row.tag_id,
            ids@ == items@.take(i as int).filter(keep).map_values(pick),
        decreases items.len() - i,
    {
        proof {
            items@.lemma_take_succ_push(i as int);
            items@.take(i as int).lemma_filter_push(items@[i as int], keep);
        }
        let on_item = match kind {
            ItemKind::Store => items[i].store_id == item_id,
            ItemKind::Service => items[i].service_id == item_id,
        };
        if on_item {
            ids.push(items[i].tag_id);
        }
        i = i + 1;
    }
    assert(items@.take(items.len() as int) == items@);
    ids
}

/// The rows written for a store from its form, before its options are
/// fetched.
#[derive(Debug, PartialEq, Eq)]
pub struct StoreLinks {
    pub images: Vec<NewStoreImage>,
    pub videos: Vec<NewStoreVideo>,
    pub categories: Vec<NewStoreCategory>,
    pub tags: Vec<NewTagItems>,
    /// Links to the technology categories whose options are offered in
    /// addition.
    pub supplementary: Vec<NewTechCategoriesItem>,
    pub serves: Vec<NewServeItems>,
}

/// The rows written for the store `store_id` from `form`.
pub fn store_links(store_id: i32, form: &StoreForm) -> (links: StoreLinks)
    ensures
        links.images@ == store_image_rows(store_id, form.images@),
        links.videos@ == store_video_rows(store_id, form.videos@),
        links.categories@ == store_category_rows(store_id, form.category_list@),
        are_tag_rows(ItemKind::Store, store_id, form.tags_list@, links.tags@),
        links.supplementary@ == tech_rows(
            store_id,
            form.close_tech_cats_list@,
            TECH_LINK_SUPPLEMENTARY,
        ),
        links.serves@ == serve_rows(store_id, form.serve_list@),
{
    StoreLinks {
        images: store_image_links(store_id, &form.images),
        videos: store_video_links(store_id, &form.videos),
        categories: store_category_links(store_id, &form.category_list),
        tags: tag_links(ItemKind::Store, store_id, &form.tags_list),
        supplementary: tech_links(store_id, &form.close_tech_cats_list, TECH_LINK_SUPPLEMENTARY),
        serves: serve_links(store_id, &form.serve_list),
    }
}

/// The rows written for a service from its form.
#[derive(Debug, PartialEq, Eq)]
pub struct ServiceLinks {
    pub images: Vec<NewServiceImage>,
    pub videos: Vec<NewServiceVideo>,
    pub categories: Vec<NewServiceCategory>,
    pub tags: Vec<NewTagItems>,
}

/// The rows written for the service `service_id` from `form`.
pub fn service_links(service_id: i32, form: &ServiceForm) -> (links: ServiceLinks)
    ensures
        links.images@ == service_image_rows(service_id, form.images@),
        links.videos@ == service_video_rows(service_id, form.videos@),
        links.categories@ == service_category_rows(service_id, form.category_list@),
        are_tag_rows(ItemKind::Service, service_id, form.tags_list@, links.tags@),
{
    ServiceLinks {
        images: service_image_links(service_id, &form.images),
        videos: service_video_links(service_id, &form.videos),
        categories: service_category_links(service_id, &form.category_list),
        tags: tag_links(ItemKind::Service, service_id, &form.tags_list),
    }
}

} // verus!
