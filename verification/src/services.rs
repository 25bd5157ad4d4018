//! What creating, editing and deleting a service does to the catalog around
//! it: which rows are written and how the counters of its categories and
//! tags move.
//!
//! The functions take the viewer and the tables they read and change. They
//! do nothing for a viewer who may not act. The rows that they add are
//! returned, not put into the tables: whoever writes them gives them their
//! ids. A new service's own row is written before `create_service` is
//! called, so that its id is known.
use vstd::prelude::*;
use crate::accounting::{
    all_known,
    attach_all,
    attached,
    can_attach,
    can_attach_all,
    can_detach,
    can_detach_all,
    counts_match,
    detach_all,
    detached,
    knows_all,
    lemma_attach_keeps_counts,
    lemma_attach_then_detach,
    lemma_detach_keeps_counts,
    links_of,
    links_of_others,
    links_to,
    targets,
    ItemKind,
    Link,
};
use crate::forms::{CategoryForm, ServiceForm};
use crate::links::{
    are_tag_rows,
    linked_service_categories,
    linked_tags,
    service_category_ids,
    service_category_rows,
    service_image_rows,
    service_links,
    service_video_rows,
    tag_ids,
    ServiceLinks,
};
use crate::models::service::{
    EditServiceCategories,
    NewService,
    NewServiceCategories,
    Service,
    ServiceCategories,
    ServiceCategory,
    ServiceImage,
    ServiceVideo,
};
use crate::models::tag::{Tag, TagItems};
use crate::pages::{permits, Action, Outcome, ServiceParams, SessionUser};

verus! {

/// `links` are the rows that the service `service_id` with the form `form`
/// needs written.
pub open spec fn are_service_links(service_id: i32, form: ServiceForm, links: ServiceLinks) -> bool {
    &&& links.images@ == service_image_rows(service_id, form.images@)
    &&& links.videos@ == service_video_rows(service_id, form.videos@)
    &&& links.categories@ == service_category_rows(service_id, form.category_list@)
    &&& are_tag_rows(ItemKind::Service, service_id, form.tags_list@, links.tags@)
}

/// Whether the links of `form` can be written: every category and tag
/// selected exists and can count the service.
pub open spec fn can_link(form: ServiceForm, categories: Seq<ServiceCategories>, tags: Seq<Tag>) -> bool {
    &&& all_known(categories, form.category_list@)
    &&& can_attach(categories, form.category_list@, ItemKind::Service)
    &&& all_known(tags, form.tags_list@)
    &&& can_attach(tags, form.tags_list@, ItemKind::Service)
}

/// Whether the links that `category_links` and `tag_links` hold of the
/// service `service_id` can be taken away: every category and tag linked
/// can count one service less.
pub open spec fn can_unlink(
    service_id: i32,
    category_links: Seq<ServiceCategory>,
    tag_links: Seq<TagItems>,
    categories: Seq<ServiceCategories>,
    tags: Seq<Tag>,
) -> bool {
    &&& can_detach(categories, service_category_ids(service_id, category_links), ItemKind::Service)
    &&& can_detach(tags, tag_ids(ItemKind::Service, service_id, tag_links), ItemKind::Service)
}

/// The categories after the links of the service `service_id` were taken
/// away.
pub open spec fn unlinked_categories(
    service_id: i32,
    category_links: Seq<ServiceCategory>,
    categories: Seq<ServiceCategories>,
) -> Seq<ServiceCategories> {
    detached(categories, service_category_ids(service_id, category_links), ItemKind::Service)
}

/// The tags after the tags of the service `service_id` were taken off.
pub open spec fn unlinked_tags(service_id: i32, tag_links: Seq<TagItems>, tags: Seq<Tag>) -> Seq<
    Tag,
> {
    detached(tags, tag_ids(ItemKind::Service, service_id, tag_links), ItemKind::Service)
}

/// The tables that hold a service and what surrounds it.
#[derive(Debug, PartialEq, Eq)]
pub struct ServiceTables {
    pub services: Vec<Service>,
    pub categories: Vec<ServiceCategories>,
    pub tags: Vec<Tag>,
    pub category_links: Vec<ServiceCategory>,
    pub tag_links: Vec<TagItems>,
    pub images: Vec<ServiceImage>,
    pub videos: Vec<ServiceVideo>,
}

/// The tables as values: each table as the sequence of its rows.
pub struct ServiceTablesView {
    pub services: Seq<Service>,
    pub categories: Seq<ServiceCategories>,
    pub tags: Seq<Tag>,
    pub category_links: Seq<ServiceCategory>,
    pub tag_links: Seq<TagItems>,
    pub images: Seq<ServiceImage>,
    pub videos: Seq<ServiceVideo>,
}

impl Clone for ServiceTables {
    fn clone(&self) -> (r: Self)
        ensures
            r@ == self@,
    {
        let services = self.services.clone();
        assert(services@ == self.services@);
        let categories = self.categories.clone();
        assert(categories@ == self.categories@);
        let tags = self.tags.clone();
        assert(tags@ == self.tags@);
        let category_links = self.category_links.clone();
        assert(category_links@ == self.category_links@);
        let tag_links = self.tag_links.clone();
        assert(tag_links@ == self.tag_links@);
        let images = self.images.clone();
        assert(images@ == self.images@);
        let videos = self.videos.clone();
        assert(videos@ == self.videos@);
        ServiceTables { services, categories, tags, category_links, tag_links, images, videos }
    }
}

impl View for ServiceTables {
    type V = ServiceTablesView;

    open spec fn view(&self) -> ServiceTablesView {
        ServiceTablesView {
            services: self.services@,
            categories: self.categories@,
            tags: self.tags@,
            category_links: self.category_links@,
            tag_links: self.tag_links@,
            images: self.images@,
            videos: self.videos@,
        }
    }
}

/// Whether one of `services` has the id `service_id`.
pub open spec fn has_service(services: Seq<Service>, service_id: i32) -> bool {
    exists|i: int| 0 <= i < services.len() && (#[trigger] services[i]).id == service_id
}

/// The services other than `service_id`.
pub open spec fn other_services(service_id: i32, rows: Seq<Service>) -> Seq<Service> {
    rows.filter(|row: Service| row.id != service_id)
}

/// The links to categories that other services than `service_id` hold.
pub open spec fn other_category_links(service_id: i32, rows: Seq<ServiceCategory>) -> Seq<
    ServiceCategory,
> {
    rows.filter(|row: ServiceCategory| row.service_id != service_id)
}

/// The tag rows that are not on the service `service_id`.
pub open spec fn other_tag_links(service_id: i32, rows: Seq<TagItems>) -> Seq<TagItems> {
    rows.filter(|row: TagItems| row.service_id != service_id)
}

/// The pictures of other services than `service_id`.
pub open spec fn other_images(service_id: i32, rows: Seq<ServiceImage>) -> Seq<ServiceImage> {
    rows.filter(|row: ServiceImage| row.service != service_id)
}

/// The videos of other services than `service_id`.
pub open spec fn other_videos(service_id: i32, rows: Seq<ServiceVideo>) -> Seq<ServiceVideo> {
    rows.filter(|row: ServiceVideo| row.service != service_id)
}

/// `service` as `form` describes it. Creator and text stay.
pub open spec fn revised(service: Service, form: ServiceForm) -> Service {
    Service {
        title: form.title,
        description: Some(form.description),
        link: Some(form.link),
        image: Some(form.main_image),
        is_service_active: form.is_active,
        ..service
    }
}

/// `rows` with the service `service_id` as `form` describes it.
pub open spec fn with_form(service_id: i32, form: ServiceForm, rows: Seq<Service>) -> Seq<Service> {
    Seq::new(
        rows.len(),
        |i: int|
            if rows[i].id == service_id {
                revised(rows[i], form)
            } else {
                rows[i]
            },
    )
}

impl ServiceTablesView {
    /// Whether the service `service_id` exists and its links can be taken
    /// away, see `can_unlink`.
    pub open spec fn can_delete(self, service_id: i32) -> bool {
        &&& has_service(self.services, service_id)
        &&& can_unlink(service_id, self.category_links, self.tag_links, self.categories, self.tags)
    }

    /// Whether the service `service_id` exists and the links of `form` can
    /// be written, see `can_link`.
    pub open spec fn can_create(self, service_id: i32, form: ServiceForm) -> bool {
        &&& has_service(self.services, service_id)
        &&& can_link(form, self.categories, self.tags)
    }

    /// Whether the service `service_id` can be edited: it exists, its links
    /// can be taken away, and the links of `form` can be written after
    /// that.
    pub open spec fn can_edit(self, service_id: i32, form: ServiceForm) -> bool {
        &&& self.can_delete(service_id)
        &&& self.unlinked(service_id).can_create(service_id, form)
    }

    /// The tables after everything that the service `service_id` owns was
    /// taken away: no row of it remains, the rows of every other service
    /// are as they were, and each category and tag that it was linked to
    /// counts one service less. The service itself stays.
    pub open spec fn unlinked(self, service_id: i32) -> ServiceTablesView {
        ServiceTablesView {
            services: self.services,
            categories: unlinked_categories(service_id, self.category_links, self.categories),
            tags: unlinked_tags(service_id, self.tag_links, self.tags),
            category_links: other_category_links(service_id, self.category_links),
            tag_links: other_tag_links(service_id, self.tag_links),
            images: other_images(service_id, self.images),
            videos: other_videos(service_id, self.videos),
        }
    }

    /// The tables after the service `service_id` was deleted: what it owns
    /// is taken away as in `unlinked`, and its own row is gone.
    pub open spec fn deleted(self, service_id: i32) -> ServiceTablesView {
        ServiceTablesView {
            services: other_services(service_id, self.services),
            ..self.unlinked(service_id)
        }
    }

    /// The tables after the surroundings of a service were made from
    /// `form`: each category and tag selected counts the service. The rows
    /// to write are not in the tables: they are returned, and whoever
    /// writes them gives them their ids.
    pub open spec fn created(self, form: ServiceForm) -> ServiceTablesView {
        ServiceTablesView {
            categories: attached(self.categories, form.category_list@, ItemKind::Service),
            tags: attached(self.tags, form.tags_list@, ItemKind::Service),
            ..self
        }
    }

    /// The tables after the service `service_id` was edited: what it owned
    /// is taken away as in `unlinked`, its row is as `form` describes it,
    /// and its surroundings are made from `form` as in `created`.
    pub open spec fn edited(self, service_id: i32, form: ServiceForm) -> ServiceTablesView {
        let unlinked = self.unlinked(service_id);
        ServiceTablesView {
            services: with_form(service_id, form, self.services),
            ..unlinked
        }.created(form)
    }
}

/// Whether one of `services` has the id `service_id`.
pub fn knows_service(services: &Vec<Service>, service_id: i32) -> (yes: bool)
    ensures
        yes == has_service(services@, service_id),
{
    let mut i: usize = 0;
    while i < services.len()
        invariant
            i <= services.len(),
            forall|j: int| 0 <= j < i ==> (#[trigger] services@[j]).id != service_id,
        decreases services.len() - i,
    {
        if services[i].id == service_id {
            return true;
        }
        i = i + 1;
    }
    false
}

/// Whether the links of `form` can be written, see `can_link`.
pub fn is_linkable(form: &ServiceForm, categories: &Vec<ServiceCategories>, tags: &Vec<Tag>) -> (yes:
    bool)
    ensures
        yes == can_link(*form, categories@, tags@),
{
    knows_all(categories, &form.category_list) && can_attach_all(
        categories,
        &form.category_list,
        ItemKind::Service,
    ) && knows_all(tags, &form.tags_list) && can_attach_all(
        tags,
        &form.tags_list,
        ItemKind::Service,
    )
}

/// Whether the links of the service `service_id` can be taken away, see
/// `can_unlink`.
pub fn is_unlinkable(
    service_id: i32,
    category_links: &Vec<ServiceCategory>,
    tag_links: &Vec<TagItems>,
    categories: &Vec<ServiceCategories>,
    tags: &Vec<Tag>,
) -> (yes: bool)
    ensures
        yes == can_unlink(service_id, category_links@, tag_links@, categories@, tags@),
{
    let linked_categories = linked_service_categories(service_id, category_links);
    let linked = linked_tags(ItemKind::Service, service_id, tag_links);
    can_detach_all(categories, &linked_categories, ItemKind::Service) && can_detach_all(
        tags,
        &linked,
        ItemKind::Service,
    )
}

fn services_of_others(service_id: i32, rows: &Vec<Service>) -> (kept: Vec<Service>)
    ensures
        kept@ == other_services(service_id, rows@),
{
    let ghost keep = |row: Service| row.id != service_id;
    let mut kept: Vec<Service> = Vec::new();
    let mut i: usize = 0;
    assert(rows@.take(0).filter(keep) == Seq::<Service>::empty()) by {
        reveal(Seq::filter);
    }
    while i < rows.len()
        invariant
            i <= rows.len(),
            keep == |row: Service| row.id != service_id,
            kept@ == rows@.take(i as int).filter(keep),
        decreases rows.len() - i,
    {
        proof {
            rows@.lemma_take_succ_push(i as int);
            rows@.take(i as int).lemma_filter_push(rows@[i as int], keep);
        }
        if rows[i].id != service_id {
            kept.push(rows[i].clone());
        }
        i = i + 1;
    }
    assert(rows@.take(rows.len() as int) == rows@);
    kept
}

fn category_links_of_others(service_id: i32, rows: &Vec<ServiceCategory>) -> (kept: Vec<
    ServiceCategory,
>)
    ensures
        kept@ == other_category_links(service_id, rows@),
{
    let ghost keep = |row: ServiceCategory| row.service_id != service_id;
    let mut kept: Vec<ServiceCategory> = Vec::new();
    let mut i: usize = 0;
    assert(rows@.take(0).filter(keep) == Seq::<ServiceCategory>::empty()) by {
        reveal(Seq::filter);
    }
    while i < rows.len()
        invariant
            i <= rows.len(),
            keep == |row: ServiceCategory| row.service_id != service_id,
            kept@ == rows@.take(i as int).filter(keep),
        decreases rows.len() - i,
    {
        proof {
            rows@.lemma_take_succ_push(i as int);
            rows@.take(i as int).lemma_filter_push(rows@[i as int], keep);
        }
        if rows[i].service_id != service_id {
            kept.push(rows[i]);
        }
        i = i + 1;
    }
    assert(rows@.take(rows.len() as int) == rows@);
    kept
}

fn tag_links_of_others(service_id: i32, rows: &Vec<TagItems>) -> (kept: Vec<TagItems>)
    ensures
        kept@ == other_tag_links(service_id, rows@),
{
    let ghost keep = |row: TagItems| row.service_id != service_id;
    let mut kept: Vec<TagItems> = Vec::new();
    let mut i: usize = 0;
    assert(rows@.take(0).filter(keep) == Seq::<TagItems>::empty()) by {
        reveal(Seq::filter);
    }
    while i < rows.len()
        invariant
            i <= rows.len(),
            keep == |row: TagItems| row.service_id != service_id,
            kept@ == rows@.take(i as int).filter(keep),
        decreases rows.len() - i,
    {
        proof {
            rows@.lemma_take_succ_push(i as int);
            rows@.take(i as int).lemma_filter_push(rows@[i as int], keep);
        }
        if rows[i].service_id != service_id {
            kept.push(rows[i]);
        }
        i = i + 1;
    }
    assert(rows@.take(rows.len() as int) == rows@);
    kept
}

fn images_of_others(service_id: i32, rows: &Vec<ServiceImage>) -> (kept: Vec<ServiceImage>)
    ensures
        kept@ == other_images(service_id, rows@),
{
    let ghost keep = |row: ServiceImage| row.service != service_id;
    let mut kept: Vec<ServiceImage> = Vec::new();
    let mut i: usize = 0;
    assert(rows@.take(0).filter(keep) == Seq::<ServiceImage>::empty()) by {
        reveal(Seq::filter);
    }
    while i < rows.len()
        invariant
            i <= rows.len(),
            keep == |row: ServiceImage| row.service != service_id,
            kept@ == rows@.take(i as int).filter(keep),
        decreases rows.len() - i,
    {
        proof {
            rows@.lemma_take_succ_push(i as int);
            rows@.take(i as int).lemma_filter_push(rows@[i as int], keep);
        }
        if rows[i].service != service_id {
            kept.push(rows[i].clone());
        }
        i = i + 1;
    }
    assert(rows@.take(rows.len() as int) == rows@);
    kept
}

fn videos_of_others(service_id: i32, rows: &Vec<ServiceVideo>) -> (kept: Vec<ServiceVideo>)
    ensures
        kept@ == other_videos(service_id, rows@),
{
    let ghost keep = |row: ServiceVideo| row.service != service_id;
    let mut kept: Vec<ServiceVideo> = Vec::new();
    let mut i: usize = 0;
    assert(rows@.take(0).filter(keep) == Seq::<ServiceVideo>::empty()) by {
        reveal(Seq::filter);
    }
    while i < rows.len()
        invariant
            i <= rows.len(),
            keep == |row: ServiceVideo| row.service != service_id,
            kept@ == rows@.take(i as int).filter(keep),
        decreases rows.len() - i,
    {
        proof {
            rows@.lemma_take_succ_push(i as int);
            rows@.take(i as int).lemma_filter_push(rows@[i as int], keep);
        }
        if rows[i].service != service_id {
            kept.push(rows[i].clone());
        }
        i = i + 1;
    }
    assert(rows@.take(rows.len() as int) == rows@);
    kept
}

fn set_form(service_id: i32, form: &ServiceForm, rows: &mut Vec<Service>)
    ensures
        final(rows)@ == with_form(service_id, *form, old(rows)@),
{
    let mut i: usize = 0;
    while i < rows.len()
        invariant
            i <= rows.len(),
            rows.len() == old(rows).len(),
            forall|j: int| 0 <= j < i ==> rows@[j] == with_form(service_id, *form, old(rows)@)[j],
            forall|j: int| i <= j < rows.len() ==> rows@[j] == old(rows)@[j],
        decreases rows.len() - i,
    {
        if rows[i].id == service_id {
            rows[i].title = form.title.clone();
            rows[i].description = Some(form.description.clone());
            rows[i].link = Some(form.link.clone());
            rows[i].image = Some(form.main_image.clone());
            rows[i].is_service_active = form.is_active;
        }
        i = i + 1;
    }
}

/// Takes away everything that the service `service_id` owns.
fn unlink(service_id: i32, tables: &mut ServiceTables)
    requires
        can_unlink(
            service_id,
            old(tables)@.category_links,
            old(tables)@.tag_links,
            old(tables)@.categories,
            old(tables)@.tags,
        ),
    ensures
        final(tables)@ == old(tables)@.unlinked(service_id),
{
    let linked_categories = linked_service_categories(service_id, &tables.category_links);
    let linked = linked_tags(ItemKind::Service, service_id, &tables.tag_links);
    detach_all(&mut tables.categories, &linked_categories, ItemKind::Service);
    detach_all(&mut tables.tags, &linked, ItemKind::Service);
    tables.category_links = category_links_of_others(service_id, &tables.category_links);
    tables.tag_links = tag_links_of_others(service_id, &tables.tag_links);
    tables.images = images_of_others(service_id, &tables.images);
    tables.videos = videos_of_others(service_id, &tables.videos);
}

/// Makes the surroundings of the service `service_id` from `form`.
fn link(service_id: i32, form: &ServiceForm, tables: &mut ServiceTables) -> (links: ServiceLinks)
    requires
        can_link(*form, old(tables)@.categories, old(tables)@.tags),
    ensures
        final(tables)@ == old(tables)@.created(*form),
        are_service_links(service_id, *form, links),
{
    let links = service_links(service_id, form);
    attach_all(&mut tables.categories, &form.category_list, ItemKind::Service);
    attach_all(&mut tables.tags, &form.tags_list, ItemKind::Service);
    links
}

/// The row of the service that `viewer` submits with `form`, for a viewer
/// who may create services; the service is entered in the viewer's name.
/// For any other viewer there is no row, and nothing is to be written.
pub fn new_service_row(viewer: Option<SessionUser>, form: &ServiceForm) -> (row: Option<NewService>)
    ensures
        row is Some <==> permits(Action::CreateService.access_of(), viewer, None),
        row matches Some(made) ==> viewer matches Some(user) && made == (NewService {
            title: form.title,
            description: Some(form.description),
            link: Some(form.link),
            image: Some(form.main_image),
            is_service_active: form.is_active,
            creator: user.id,
            service_created: made.service_created,
        }),
{
    match viewer {
        Some(user) => if Action::CreateService.is_allowed(viewer, None) {
            Some(form.new_service(user.id))
        } else {
            None
        },
        None => None,
    }
}

/// The row of the category that `viewer` submits with `form`, for a viewer
/// who may create categories of services. For any other viewer there is no
/// row, and nothing is to be written.
pub fn new_category_row(viewer: Option<SessionUser>, form: &CategoryForm) -> (row: Option<
    NewServiceCategories,
>)
    ensures
        row is Some <==> permits(Action::CreateServiceCategories.access_of(), viewer, None),
        row matches Some(made) ==> made == (NewServiceCategories {
            name: form.name,
            service_position: form.position,
            image: Some(form.image),
            service_count: 0,
        }),
{
    if Action::CreateServiceCategories.is_allowed(viewer, None) {
        Some(form.new_service_category())
    } else {
        None
    }
}

/// The changes that `viewer` submits with `form` to the category `current`,
/// for a viewer who may edit categories of services. For any other viewer
/// there are none, and nothing is to be written.
pub fn edit_category_row(
    viewer: Option<SessionUser>,
    form: &CategoryForm,
    current: &ServiceCategories,
) -> (row: Option<EditServiceCategories>)
    ensures
        row is Some <==> permits(Action::EditServiceCategory.access_of(), viewer, None),
        row matches Some(made) ==> made == (EditServiceCategories {
            name: form.name,
            service_position: form.position,
            image: Some(form.image),
            service_count: current.service_count,
        }),
{
    if Action::EditServiceCategory.is_allowed(viewer, None) {
        Some(form.edit_service_category(current))
    } else {
        None
    }
}

/// The categories other than `category_id`.
pub open spec fn other_categories(category_id: i32, rows: Seq<ServiceCategories>) -> Seq<
    ServiceCategories,
> {
    rows.filter(|row: ServiceCategories| row.id != category_id)
}

/// Deletes the category `category_id` and says whether it did. For a viewer
/// who may not delete categories of services nothing is changed. For one
/// who may, no category has the id any more, and every other category is
/// as it was.
pub fn delete_category(
    viewer: Option<SessionUser>,
    category_id: i32,
    categories: &mut Vec<ServiceCategories>,
) -> (done: bool)
    ensures
        done == permits(Action::DeleteServiceCategory.access_of(), viewer, None),
        done ==> final(categories)@ == other_categories(category_id, old(categories)@),
        !done ==> final(categories)@ == old(categories)@,
{
    if !Action::DeleteServiceCategory.is_allowed(viewer, None) {
        return false;
    }
    let ghost keep = |row: ServiceCategories| row.id != category_id;
    let mut kept: Vec<ServiceCategories> = Vec::new();
    let mut i: usize = 0;
    assert(categories@.take(0).filter(keep) == Seq::<ServiceCategories>::empty()) by {
        reveal(Seq::filter);
    }
    while i < categories.len()
        invariant
            i <= categories.len(),
            categories@ == old(categories)@,
            keep == |row: ServiceCategories| row.id != category_id,
            kept@ == categories@.take(i as int).filter(keep),
        decreases categories.len() - i,
    {
        proof {
            categories@.lemma_take_succ_push(i as int);
            categories@.take(i as int).lemma_filter_push(categories@[i as int], keep);
        }
        if categories[i].id != category_id {
            kept.push(categories[i].clone());
        }
        i = i + 1;
    }
    assert(categories@.take(categories.len() as int) == categories@);
    *categories = kept;
    true
}

/// Replaces the text of `service` by the text that `params` bring and says
/// whether it did. Only a member of the staff may; a query without text
/// changes nothing for anyone.
pub fn edit_content(viewer: Option<SessionUser>, service: &mut Service, params: ServiceParams) -> (done:
    bool)
    ensures
        done == (permits(Action::EditContentService.access_of(), viewer, None)
            && params.content@.len() != 0),
        done ==> *final(service) == (Service { content: Some(params.content), ..*old(service) }),
        !done ==> *final(service) == *old(service),
{
    if Action::EditContentService.is_allowed(viewer, None) && params.has_content() {
        service.content = Some(params.content);
        true
    } else {
        false
    }
}

/// Creates the surroundings of the new service `service_id`, whose own row
/// is among the services already. For a viewer who may not create services
/// nothing is changed and nothing is to be written. For one who may, each
/// category selected counts one service more for each time it was
/// selected, each tag selected counts one use and one service more, and
/// the rows to write are returned.
pub fn create_service(
    viewer: Option<SessionUser>,
    service_id: i32,
    form: &ServiceForm,
    tables: &mut ServiceTables,
) -> (links: Option<ServiceLinks>)
    requires
        permits(Action::CreateService.access_of(), viewer, None) ==> old(tables)@.can_create(
            service_id,
            *form,
        ),
    ensures
        links is Some <==> permits(Action::CreateService.access_of(), viewer, None),
        links is None ==> final(tables)@ == old(tables)@,
        links matches Some(made) ==> {
            &&& final(tables)@ == old(tables)@.created(*form)
            &&& are_service_links(service_id, *form, made)
        },
{
    if !Action::CreateService.is_allowed(viewer, None) {
        return None;
    }
    Some(link(service_id, form, tables))
}

/// Deletes the service `service_id` and says whether it did. For a viewer
/// who may not delete services nothing is changed. For one who may, no row
/// of the service remains, its own row among them, the rows of every other
/// service are as they were, and each category and tag that it was linked
/// to counts one service less.
pub fn delete_service(viewer: Option<SessionUser>, service_id: i32, tables: &mut ServiceTables) -> (done:
    bool)
    requires
        permits(Action::DeleteService.access_of(), viewer, None) ==> old(tables)@.can_delete(
            service_id,
        ),
    ensures
        done == permits(Action::DeleteService.access_of(), viewer, None),
        done ==> final(tables)@ == old(tables)@.deleted(service_id),
        !done ==> final(tables)@ == old(tables)@,
{
    if !Action::DeleteService.is_allowed(viewer, None) {
        return false;
    }
    unlink(service_id, tables);
    tables.services = services_of_others(service_id, &tables.services);
    true
}

/// Edits the service `service_id`. For a viewer who may not edit services
/// nothing is changed and nothing is to be written. For one who may,
/// everything that the service owned is taken away as when it is deleted,
/// its row is as `form` describes it, and its surroundings are made anew
/// from `form` as when it is created.
pub fn edit_service(
    viewer: Option<SessionUser>,
    service_id: i32,
    form: &ServiceForm,
    tables: &mut ServiceTables,
) -> (links: Option<ServiceLinks>)
    requires
        permits(Action::EditService.access_of(), viewer, None) ==> old(tables)@.can_edit(
            service_id,
            *form,
        ),
    ensures
        links is Some <==> permits(Action::EditService.access_of(), viewer, None),
        links is None ==> final(tables)@ == old(tables)@,
        links matches Some(made) ==> {
            &&& final(tables)@ == old(tables)@.edited(service_id, *form)
            &&& are_service_links(service_id, *form, made)
        },
{
    if !Action::EditService.is_allowed(viewer, None) {
        return None;
    }
    unlink(service_id, tables);
    set_form(service_id, form, &mut tables.services);
    Some(link(service_id, form, tables))
}

/// Whether the service `service_id` can be deleted, see
/// `ServiceTablesView::can_delete`.
pub fn is_deletable(service_id: i32, tables: &ServiceTables) -> (yes: bool)
    ensures
        yes == tables@.can_delete(service_id),
{
    knows_service(&tables.services, service_id) && is_unlinkable(
        service_id,
        &tables.category_links,
        &tables.tag_links,
        &tables.categories,
        &tables.tags,
    )
}

/// Whether the surroundings of the service `service_id` can be made from
/// `form`, see `ServiceTablesView::can_create`.
pub fn is_creatable(service_id: i32, form: &ServiceForm, tables: &ServiceTables) -> (yes: bool)
    ensures
        yes == tables@.can_create(service_id, *form),
{
    knows_service(&tables.services, service_id) && is_linkable(
        form,
        &tables.categories,
        &tables.tags,
    )
}

/// Whether the service `service_id` can be edited, see
/// `ServiceTablesView::can_edit`.
pub fn is_editable(service_id: i32, form: &ServiceForm, tables: &ServiceTables) -> (yes: bool)
    ensures
        yes == tables@.can_edit(service_id, *form),
{
    if !is_deletable(service_id, tables) {
        return false;
    }
    let linked_categories = linked_service_categories(service_id, &tables.category_links);
    let linked = linked_tags(ItemKind::Service, service_id, &tables.tag_links);
    let mut unlinked = tables.categories.clone();
    let mut untagged = tables.tags.clone();
    assert(unlinked@ == tables.categories@);
    assert(untagged@ == tables.tags@);
    detach_all(&mut unlinked, &linked_categories, ItemKind::Service);
    detach_all(&mut untagged, &linked, ItemKind::Service);
    is_linkable(form, &unlinked, &untagged)
}

/// Creates the surroundings of the new service `service_id` as
/// `create_service` does, where the viewer may and `can_create` allows it.
/// Otherwise nothing is changed and nothing is to be written.
pub fn try_create_service(
    viewer: Option<SessionUser>,
    service_id: i32,
    form: &ServiceForm,
    tables: &mut ServiceTables,
) -> (outcome: Outcome<ServiceLinks>)
    ensures
        outcome is Denied <==> !permits(Action::CreateService.access_of(), viewer, None),
        outcome is Refused <==> permits(Action::CreateService.access_of(), viewer, None) && !old(
            tables,
        )@.can_create(service_id, *form),
        outcome matches Outcome::Done(made) ==> {
            &&& final(tables)@ == old(tables)@.created(*form)
            &&& are_service_links(service_id, *form, made)
        },
        !(outcome is Done) ==> final(tables)@ == old(tables)@,
{
    if !Action::CreateService.is_allowed(viewer, None) {
        return Outcome::Denied;
    }
    if !is_creatable(service_id, form, tables) {
        return Outcome::Refused;
    }
    match create_service(viewer, service_id, form, tables) {
        Some(made) => Outcome::Done(made),
        None => Outcome::Denied,
    }
}

/// Deletes the service `service_id` as `delete_service` does, where the
/// viewer may and `can_delete` allows it. Otherwise nothing is changed.
pub fn try_delete_service(
    viewer: Option<SessionUser>,
    service_id: i32,
    tables: &mut ServiceTables,
) -> (outcome: Outcome<()>)
    ensures
        outcome is Denied <==> !permits(Action::DeleteService.access_of(), viewer, None),
        outcome is Refused <==> permits(Action::DeleteService.access_of(), viewer, None) && !old(
            tables,
        )@.can_delete(service_id),
        outcome is Done ==> final(tables)@ == old(tables)@.deleted(service_id),
        !(outcome is Done) ==> final(tables)@ == old(tables)@,
{
    if !Action::DeleteService.is_allowed(viewer, None) {
        return Outcome::Denied;
    }
    if !is_deletable(service_id, tables) {
        return Outcome::Refused;
    }
    delete_service(viewer, service_id, tables);
    Outcome::Done(())
}

/// Edits the service `service_id` as `edit_service` does, where the viewer
/// may and `can_edit` allows it. Otherwise nothing is changed and nothing
/// is to be written.
pub fn try_edit_service(
    viewer: Option<SessionUser>,
    service_id: i32,
    form: &ServiceForm,
    tables: &mut ServiceTables,
) -> (outcome: Outcome<ServiceLinks>)
    ensures
        outcome is Denied <==> !permits(Action::EditService.access_of(), viewer, None),
        outcome is Refused <==> permits(Action::EditService.access_of(), viewer, None) && !old(
            tables,
        )@.can_edit(service_id, *form),
        outcome matches Outcome::Done(made) ==> {
            &&& final(tables)@ == old(tables)@.edited(service_id, *form)
            &&& are_service_links(service_id, *form, made)
        },
        !(outcome is Done) ==> final(tables)@ == old(tables)@,
{
    if !Action::EditService.is_allowed(viewer, None) {
        return Outcome::Denied;
    }
    if !is_editable(service_id, form, tables) {
        return Outcome::Refused;
    }
    match edit_service(viewer, service_id, form, tables) {
        Some(made) => Outcome::Done(made),
        None => Outcome::Denied,
    }
}

/// After a service was deleted or edited, no row that it owned remains,
/// and after it was deleted no service has its id.
pub proof fn lemma_no_row_remains(tables: ServiceTablesView, service_id: i32)
    ensures
        ({
            let after = tables.unlinked(service_id);
            &&& forall|i: int|
                0 <= i < after.category_links.len() ==> (
                #[trigger] after.category_links[i]).service_id != service_id
            &&& forall|i: int|
                0 <= i < after.tag_links.len() ==> (#[trigger] after.tag_links[i]).service_id
                    != service_id
            &&& forall|i: int|
                0 <= i < after.images.len() ==> (#[trigger] after.images[i]).service != service_id
            &&& forall|i: int|
                0 <= i < after.videos.len() ==> (#[trigger] after.videos[i]).service != service_id
            &&& !has_service(tables.deleted(service_id).services, service_id)
        }),
{
    broadcast use vstd::seq_lib::group_filter_ensures;
}

/// A service that is created and deleted again leaves the counters of its
/// categories and tags where they were, provided that its form selects no
/// category and no tag twice. `category_links` and `tag_links` hold the
/// links as they were written.
pub proof fn lemma_create_then_delete(
    service_id: i32,
    form: ServiceForm,
    category_links: Seq<ServiceCategory>,
    tag_links: Seq<TagItems>,
    categories: Seq<ServiceCategories>,
    tags: Seq<Tag>,
)
    requires
        form.category_list@.no_duplicates(),
        form.tags_list@.no_duplicates(),
        can_attach(categories, form.category_list@, ItemKind::Service),
        can_attach(tags, form.tags_list@, ItemKind::Service),
        service_category_ids(service_id, category_links) == form.category_list@,
        tag_ids(ItemKind::Service, service_id, tag_links) == form.tags_list@,
    ensures
        unlinked_categories(
            service_id,
            category_links,
            attached(categories, form.category_list@, ItemKind::Service),
        ) == categories,
        unlinked_tags(service_id, tag_links, attached(tags, form.tags_list@, ItemKind::Service))
            == tags,
{
    lemma_attach_then_detach(categories, form.category_list@, ItemKind::Service);
    lemma_attach_then_detach(tags, form.tags_list@, ItemKind::Service);
}

/// The links between services and categories, as the counters see them.
pub open spec fn as_links(links: Seq<ServiceCategory>) -> Seq<Link> {
    links.map_values(|l: ServiceCategory| Link { item: l.service_id, target: l.service_categories_id })
}

/// The categories linked to a service are the rows that its links link to.
pub proof fn lemma_linked_categories(service_id: i32, links: Seq<ServiceCategory>)
    ensures
        service_category_ids(service_id, links) == targets(links_of(service_id, as_links(links))),
    decreases links.len(),
{
    let mine = |l: ServiceCategory| l.service_id == service_id;
    let held = |link: Link| link.item == service_id;
    if links.len() == 0 {
        assert(links.filter(mine) == Seq::<ServiceCategory>::empty()) by {
            reveal(Seq::filter);
        }
        assert(as_links(links).filter(held) == Seq::<Link>::empty()) by {
            reveal(Seq::filter);
        }
        assert(service_category_ids(service_id, links) == Seq::<i32>::empty());
        assert(targets(Seq::<Link>::empty()) == Seq::<i32>::empty());
    } else {
        let rest = links.drop_last();
        let last = links.last();
        let last_link = Link { item: last.service_id, target: last.service_categories_id };
        lemma_linked_categories(service_id, rest);
        assert(rest.push(last) == links);
        assert(as_links(rest).push(last_link) == as_links(links));
        rest.lemma_filter_push(last, mine);
        as_links(rest).lemma_filter_push(last_link, held);
        if last.service_id == service_id {
            assert(service_category_ids(service_id, links) == service_category_ids(service_id, rest).push(
                last.service_categories_id,
            ));
            assert(targets(links_of(service_id, as_links(links))) == targets(
                links_of(service_id, as_links(rest)),
            ).push(last.service_categories_id));
        }
    }
}

/// Counts of categories that match the links still match them after a
/// service was created: each count moved by as much as links were written.
pub proof fn lemma_create_keeps_counts(
    service_id: i32,
    selection: Seq<i32>,
    categories: Seq<ServiceCategories>,
    links: Seq<ServiceCategory>,
)
    requires
        counts_match(categories, as_links(links), ItemKind::Service),
        can_attach(categories, selection, ItemKind::Service),
    ensures
        counts_match(
            attached(categories, selection, ItemKind::Service),
            as_links(links) + links_to(service_id, selection),
            ItemKind::Service,
        ),
{
    lemma_attach_keeps_counts(categories, as_links(links), service_id, selection, ItemKind::Service);
}

/// Counts of categories that match the links still match them after a
/// service was deleted, provided that no two of its links led to the same
/// category. Where two did, that category's count is left one too high.
pub proof fn lemma_delete_keeps_counts(
    service_id: i32,
    categories: Seq<ServiceCategories>,
    links: Seq<ServiceCategory>,
)
    requires
        counts_match(categories, as_links(links), ItemKind::Service),
        can_detach(categories, service_category_ids(service_id, links), ItemKind::Service),
        service_category_ids(service_id, links).no_duplicates(),
    ensures
        counts_match(
            unlinked_categories(service_id, links, categories),
            links_of_others(service_id, as_links(links)),
            ItemKind::Service,
        ),
{
    lemma_linked_categories(service_id, links);
    lemma_detach_keeps_counts(categories, as_links(links), service_id, ItemKind::Service);
}

} // verus!
