//! Services, their categories, and the rows that link and decorate them.
use vstd::prelude::*;
use crate::accounting::{Counted, ItemKind};
use crate::clock::now;
use crate::ids::contains_id;
use crate::links::{linked_service_categories, linked_tags, service_category_ids, tag_ids};
use crate::models::tag::{Tag, TagItems};

verus! {

/// A category of services. `service_count` is the number of services linked
/// to it.
#[derive(Debug, PartialEq, Eq)]
pub struct ServiceCategories {
    pub id: i32,
    pub name: String,
    pub service_position: i32,
    pub image: Option<String>,
    pub service_count: i32,
}

impl Clone for ServiceCategories {
    fn clone(&self) -> (r: Self)
        ensures
            r == *self,
    {
        ServiceCategories {
            id: self.id,
            name: self.name.clone(),
            service_position: self.service_position,
            image: self.image.clone(),
            service_count: self.service_count,
        }
    }
}

impl Counted for ServiceCategories {
    open spec fn key(&self) -> i32 {
        self.id
    }

    open spec fn shifted(&self, kind: ItemKind, delta: int) -> Self {
        ServiceCategories { service_count: (self.service_count + delta) as i32, ..*self }
    }

    open spec fn has_room(&self, kind: ItemKind, delta: int) -> bool {
        kind == ItemKind::Service && i32::MIN <= self.service_count + delta <= i32::MAX
    }

    open spec fn count_of(&self, kind: ItemKind) -> int {
        self.service_count as int
    }

    proof fn lemma_shifted(&self, kind: ItemKind, a: int, b: int) {
    }

    proof fn lemma_shifted_zero(&self, kind: ItemKind) {
    }

    fn id(&self) -> (id: i32) {
        self.id
    }

    fn can_take(&self, kind: ItemKind, times: usize) -> (yes: bool) {
        match kind {
            ItemKind::Store => false,
            ItemKind::Service => self.service_count as i128 + times as i128 <= i32::MAX as i128,
        }
    }

    fn can_give(&self, kind: ItemKind) -> (yes: bool) {
        match kind {
            ItemKind::Store => false,
            ItemKind::Service => self.service_count > i32::MIN,
        }
    }

    fn attach(&mut self, kind: ItemKind, times: usize) {
        self.service_count = (self.service_count as i128 + times as i128) as i32;
    }

    fn detach(&mut self, kind: ItemKind) {
        self.service_count = self.service_count - 1;
    }
}

impl ServiceCategories {
    /// The number of services shown of each category on the overview.
    pub const SHOWN: usize = 6;

    /// Whether one of `links` ties the service `service_id` to the category
    /// `category_id`.
    pub open spec fn is_linked(links: Seq<ServiceCategory>, category_id: i32, service_id: i32) -> bool {
        exists|k: int|
            0 <= k < links.len() && #[trigger] links[k].service_categories_id == category_id
                && links[k].service_id == service_id
    }

    /// The services of the category `category_id`: those of `services` that
    /// are linked to it, in the order of `services`.
    pub open spec fn services_of(
        category_id: i32,
        links: Seq<ServiceCategory>,
        services: Seq<Service>,
    ) -> Seq<Service> {
        services.filter(|s: Service| Self::is_linked(links, category_id, s.id))
    }

    /// The first `SHOWN` services of the category `category_id`.
    pub open spec fn shown_services_of(
        category_id: i32,
        links: Seq<ServiceCategory>,
        services: Seq<Service>,
    ) -> Seq<Service> {
        let all = Self::services_of(category_id, links, services);
        if all.len() <= Self::SHOWN {
            all
        } else {
            all.take(Self::SHOWN as int)
        }
    }

    fn linked(&self, links: &Vec<ServiceCategory>, service_id: i32) -> (yes: bool)
        ensures
            yes == Self::is_linked(links@, self.id, service_id),
    {
        let mut k: usize = 0;
        while k < links.len()
            invariant
                k <= links.len(),
                forall|j: int|
                    0 <= j < k ==> !(#[trigger] links@[j].service_categories_id == self.id
                        && links@[j].service_id == service_id),
            decreases links.len() - k,
        {
            if links[k].service_categories_id == self.id && links[k].service_id == service_id {
                return true;
            }
            k = k + 1;
        }
        false
    }

    /// The services of the category. `services` lists all services, newest
    /// first; `links` ties services to categories.
    pub fn get_services(&self, links: &Vec<ServiceCategory>, services: &Vec<Service>) -> (found:
        Vec<Service>)
        ensures
            found@ == Self::services_of(self.id, links@, services@),
    {
        let ghost keep = |s: Service| Self::is_linked(links@, self.id, s.id);
        let mut found: Vec<Service> = Vec::new();
        let mut i: usize = 0;
        assert(services@.take(0).filter(keep) == Seq::<Service>::empty()) by {
            reveal(Seq::filter);
        }
        while i < services.len()
            invariant
                i <= services.len(),
                keep == |s: Service| Self::is_linked(links@, self.id, s.id),
                found@ == services@.take(i as int).filter(keep),
            decreases services.len() - i,
        {
            proof {
                services@.lemma_take_succ_push(i as int);
                services@.take(i as int).lemma_filter_push(services@[i as int], keep);
            }
            if self.linked(links, services[i].id) {
                found.push(services[i].clone());
            }
            i = i + 1;
        }
        assert(services@.take(services.len() as int) == services@);
        found
    }

    /// The services of the category that the overview shows: the first
    /// `SHOWN` of them.
    pub fn get_6_services(&self, links: &Vec<ServiceCategory>, services: &Vec<Service>) -> (found:
        Vec<Service>)
        ensures
            found@ == Self::shown_services_of(self.id, links@, services@),
    {
        let mut found = self.get_services(links, services);
        found.truncate(Self::SHOWN);
        found
    }
}

/// What is written when a category of services is created.
#[derive(Debug, PartialEq, Eq)]
pub struct NewServiceCategories {
    pub name: String,
    pub service_position: i32,
    pub image: Option<String>,
    pub service_count: i32,
}

/// What is written when a category of services is changed.
#[derive(Debug, PartialEq, Eq)]
pub struct EditServiceCategories {
    pub name: String,
    pub service_position: i32,
    pub image: Option<String>,
    pub service_count: i32,
}

/// A service on offer.
#[derive(Debug, PartialEq, Eq)]
pub struct Service {
    pub id: i32,
    pub title: String,
    pub description: Option<String>,
    pub content: Option<String>,
    pub link: Option<String>,
    pub image: Option<String>,
    pub is_service_active: bool,
    pub creator: i32,
    pub service_created: chrono::NaiveDateTime,
}

impl Clone for Service {
    fn clone(&self) -> (r: Self)
        ensures
            r == *self,
    {
        Service {
            id: self.id,
            title: self.title.clone(),
            description: self.description.clone(),
            content: self.content.clone(),
            link: self.link.clone(),
            image: self.image.clone(),
            is_service_active: self.is_service_active,
            creator: self.creator,
            service_created: self.service_created,
        }
    }
}

impl Service {
    /// The categories of the service `service_id`: those of `rows` that one
    /// of `links` puts it into, in the order of `rows`.
    pub open spec fn categories_of(
        service_id: i32,
        links: Seq<ServiceCategory>,
        rows: Seq<ServiceCategories>,
    ) -> Seq<ServiceCategories> {
        rows.filter(|c: ServiceCategories| service_category_ids(service_id, links).contains(c.id))
    }

    /// The tags of the service `service_id`: those of `tags` that one of
    /// `items` puts on it, in the order of `tags`.
    pub open spec fn tags_of(service_id: i32, items: Seq<TagItems>, tags: Seq<Tag>) -> Seq<Tag> {
        tags.filter(|t: Tag| tag_ids(ItemKind::Service, service_id, items).contains(t.id))
    }

    /// Whether one of `items` puts the tag `tag_id` on one of `services`
    /// that is active.
    pub open spec fn is_tag_in_use(tag_id: i32, items: Seq<TagItems>, services: Seq<Service>) -> bool {
        exists|k: int, m: int|
            0 <= k < items.len() && 0 <= m < services.len() && (#[trigger] items[k]).tag_id
                == tag_id && (#[trigger] services[m]).is_service_active && items[k].service_id
                == services[m].id
    }

    /// The tags of the active services: those of `tags` that one of `items`
    /// puts on an active one of `services`, in the order of `tags`.
    pub open spec fn tags_of_active(
        items: Seq<TagItems>,
        services: Seq<Service>,
        tags: Seq<Tag>,
    ) -> Seq<Tag> {
        tags.filter(|t: Tag| Self::is_tag_in_use(t.id, items, services))
    }

    /// The categories of the service, out of `rows`.
    pub fn get_categories(&self, links: &Vec<ServiceCategory>, rows: &Vec<ServiceCategories>) -> (found:
        Vec<ServiceCategories>)
        ensures
            found@ == Self::categories_of(self.id, links@, rows@),
    {
        let ids = linked_service_categories(self.id, links);
        let ghost keep = |c: ServiceCategories|
            service_category_ids(self.id, links@).contains(c.id);
        let mut found: Vec<ServiceCategories> = Vec::new();
        let mut i: usize = 0;
        assert(rows@.take(0).filter(keep) == Seq::<ServiceCategories>::empty()) by {
            reveal(Seq::filter);
        }
        while i < rows.len()
            invariant
                i <= rows.len(),
                ids@ == service_category_ids(self.id, links@),
                keep == |c: ServiceCategories|
                    service_category_ids(self.id, links@).contains(c.id),
                found@ == rows@.take(i as int).filter(keep),
            decreases rows.len() - i,
        {
            proof {
                rows@.lemma_take_succ_push(i as int);
                rows@.take(i as int).lemma_filter_push(rows@[i as int], keep);
            }
            if contains_id(&ids, rows[i].id) {
                found.push(rows[i].clone());
            }
            i = i + 1;
        }
        assert(rows@.take(rows.len() as int) == rows@);
        found
    }

    /// The tags of the service, out of `tags`.
    pub fn get_tags(&self, items: &Vec<TagItems>, tags: &Vec<Tag>) -> (found: Vec<Tag>)
        ensures
            found@ == Self::tags_of(self.id, items@, tags@),
    {
        let ids = linked_tags(ItemKind::Service, self.id, items);
        let ghost keep = |t: Tag| tag_ids(ItemKind::Service, self.id, items@).contains(t.id);
        let mut found: Vec<Tag> = Vec::new();
        let mut i: usize = 0;
        assert(tags@.take(0).filter(keep) == Seq::<Tag>::empty()) by {
            reveal(Seq::filter);
        }
        while i < tags.len()
            invariant
                i <= tags.len(),
                ids@ == tag_ids(ItemKind::Service, self.id, items@),
                keep == |t: Tag| tag_ids(ItemKind::Service, self.id, items@).contains(t.id),
                found@ == tags@.take(i as int).filter(keep),
            decreases tags.len() - i,
        {
            proof {
                tags@.lemma_take_succ_push(i as int);
                tags@.take(i as int).lemma_filter_push(tags@[i as int], keep);
            }
            if contains_id(&ids, tags[i].id) {
                found.push(tags[i].clone());
            }
            i = i + 1;
        }
        assert(tags@.take(tags.len() as int) == tags@);
        found
    }

    fn tag_in_use(tag_id: i32, items: &Vec<TagItems>, services: &Vec<Service>) -> (yes: bool)
        ensures
            yes == Self::is_tag_in_use(tag_id, items@, services@),
    {
        let mut k: usize = 0;
        while k < items.len()
            invariant
                k <= items.len(),
                forall|a: int, m: int|
                    0 <= a < k && 0 <= m < services.len() ==> !((#[trigger] items@[a]).tag_id
                        == tag_id && (#[trigger] services@[m]).is_service_active
                        && items@[a].service_id == services@[m].id),
            decreases items.len() - k,
        {
            if items[k].tag_id == tag_id {
                let mut m: usize = 0;
                while m < services.len()
                    invariant
                        m <= services.len(),
                        k < items.len(),
                        items@[k as int].tag_id == tag_id,
                        forall|b: int|
                            0 <= b < m ==> !((#[trigger] services@[b]).is_service_active
                                && items@[k as int].service_id == services@[b].id),
                    decreases services.len() - m,
                {
                    if services[m].is_service_active && items[k].service_id == services[m].id {
                        return true;
                    }
                    m = m + 1;
                }
            }
            k = k + 1;
        }
        false
    }

    /// The tags that the active services carry, out of `tags`.
    pub fn get_tags_of_active(items: &Vec<TagItems>, services: &Vec<Service>, tags: &Vec<Tag>) -> (found:
        Vec<Tag>)
        ensures
            found@ == Self::tags_of_active(items@, services@, tags@),
    {
        let ghost keep = |t: Tag| Self::is_tag_in_use(t.id, items@, services@);
        let mut found: Vec<Tag> = Vec::new();
        let mut i: usize = 0;
        assert(tags@.take(0).filter(keep) == Seq::<Tag>::empty()) by {
            reveal(Seq::filter);
        }
        while i < tags.len()
            invariant
                i <= tags.len(),
                keep == |t: Tag| Self::is_tag_in_use(t.id, items@, services@),
                found@ == tags@.take(i as int).filter(keep),
            decreases tags.len() - i,
        {
            proof {
                tags@.lemma_take_succ_push(i as int);
                tags@.take(i as int).lemma_filter_push(tags@[i as int], keep);
            }
            if Self::tag_in_use(tags[i].id, items, services) {
                found.push(tags[i].clone());
            }
            i = i + 1;
        }
        assert(tags@.take(tags.len() as int) == tags@);
        found
    }
}

/// What is written when a service is changed.
#[derive(Debug, PartialEq, Eq)]
pub struct EditService {
    pub title: String,
    pub description: Option<String>,
    pub link: Option<String>,
    pub image: Option<String>,
    pub is_service_active: bool,
}

/// What is written when a service is created.
#[derive(Debug, PartialEq, Eq)]
pub struct NewService {
    pub title: String,
    pub description: Option<String>,
    pub link: Option<String>,
    pub image: Option<String>,
    pub is_service_active: bool,
    pub creator: i32,
    pub service_created: chrono::NaiveDateTime,
}

impl NewService {
    /// The row for a service that `creator` submits at the moment
    /// `service_created`.
    pub fn from_service_form_at(
        title: String,
        description: String,
        link: String,
        image: String,
        is_active: bool,
        creator: i32,
        service_created: chrono::NaiveDateTime,
    ) -> (row: Self)
        ensures
            row == (NewService {
                title,
                description: Some(description),
                link: Some(link),
                image: Some(image),
                is_service_active: is_active,
                creator,
                service_created,
            }),
    {
        NewService {
            title: title,
            description: Some(description),
            link: Some(link),
            image: Some(image),
            is_service_active: is_active,
            creator: creator,
            service_created: service_created,
        }
    }

    /// The row for a service that `creator` submits now. The row is stamped
    /// with the moment of the call, whatever the clock says it is.
    pub fn from_service_form(
        title: String,
        description: String,
        link: String,
        image: String,
        is_active: bool,
        creator: i32,
    ) -> (row: Self)
        ensures
            row == (NewService {
                title,
                description: Some(description),
                link: Some(link),
                image: Some(image),
                is_service_active: is_active,
                creator,
                service_created: row.service_created,
            }),
    {
        Self::from_service_form_at(title, description, link, image, is_active, creator, now())
    }
}

/// A link between a service and one of its categories.
#[derive(Debug, Clone, Copy, PartialEq, Eq)]
pub struct ServiceCategory {
    pub id: i32,
    pub service_categories_id: i32,
    pub service_id: i32,
}

/// What is written when a service is put into a category.
#[derive(Debug, Clone, Copy, PartialEq, Eq)]
pub struct NewServiceCategory {
    pub service_categories_id: i32,
    pub service_id: i32,
}

/// A picture of a service.
#[derive(Debug, PartialEq, Eq)]
pub struct ServiceImage {
    pub id: i32,
    pub service: i32,
    pub src: String,
}

impl Clone for ServiceImage {
    fn clone(&self) -> (r: Self)
        ensures
            r == *self,
    {
        ServiceImage { id: self.id, service: self.service, src: self.src.clone() }
    }
}

/// What is written when a picture is added to a service.
#[derive(Debug, PartialEq, Eq)]
pub struct NewServiceImage {
    pub service: i32,
    pub src: String,
}

impl NewServiceImage {
    /// The row that adds the picture at `src` to the service `service_id`.
    pub fn from_service_images_form(service_id: i32, src: String) -> (row: Self)
        ensures
            row == (NewServiceImage { service: service_id, src }),
    {
        NewServiceImage { service: service_id, src: src }
    }
}

/// A video of a service.
#[derive(Debug, PartialEq, Eq)]
pub struct ServiceVideo {
    pub id: i32,
    pub service: i32,
    pub src: String,
}

impl Clone for ServiceVideo {
    fn clone(&self) -> (r: Self)
        ensures
            r == *self,
    {
        ServiceVideo { id: self.id, service: self.service, src: self.src.clone() }
    }
}

/// What is written when a video is added to a service.
#[derive(Debug, PartialEq, Eq)]
pub struct NewServiceVideo {
    pub service: i32,
    pub src: String,
}

impl NewServiceVideo {
    /// The row that adds the video at `src` to the service `service_id`.
    pub fn from_service_videos_form(service_id: i32, src: String) -> (row: Self)
        ensures
            row == (NewServiceVideo { service: service_id, src }),
    {
        NewServiceVideo { service: service_id, src: src }
    }
}

} // verus!
