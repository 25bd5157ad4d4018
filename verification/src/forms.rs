//! What an editor submits, and the rows that are written from it.
use vstd::prelude::*;
use crate::models::service::{
    EditServiceCategories,
    NewService,
    NewServiceCategories,
    ServiceCategories,
};
use crate::models::store::{
    EditStoreCategories,
    NewStore,
    NewStoreCategories,
    StoreCategories,
};

verus! {

/// The form for a store.
#[derive(Debug, PartialEq, Eq)]
pub struct StoreForm {
    pub title: String,
    pub description: String,
    pub link: String,
    pub main_image: String,
    pub is_active: bool,
    pub images: Vec<String>,
    pub videos: Vec<String>,
    /// Ids of the categories the store is put into.
    pub category_list: Vec<i32>,
    /// Ids of the tags put on the store.
    pub tags_list: Vec<i32>,
    /// Ids of the options chosen for the store.
    pub serve_list: Vec<i32>,
    /// Ids of the technology categories whose options are offered in
    /// addition.
    pub close_tech_cats_list: Vec<i32>,
}

/// The form for a service.
#[derive(Debug, PartialEq, Eq)]
pub struct ServiceForm {
    pub title: String,
    pub description: String,
    pub link: String,
    pub main_image: String,
    pub is_active: bool,
    pub images: Vec<String>,
    pub videos: Vec<String>,
    /// Ids of the categories the service is put into.
    pub category_list: Vec<i32>,
    /// Ids of the tags put on the service.
    pub tags_list: Vec<i32>,
}

/// The form for a category.
#[derive(Debug, PartialEq, Eq)]
pub struct CategoryForm {
    pub name: String,
    pub description: String,
    pub position: i32,
    pub image: String,
}

impl StoreForm {
    /// The row for a new store of the user `user_id`. The store has no price
    /// yet; the row is stamped with the moment of the call.
    pub fn new_store(&self, user_id: i32) -> (row: NewStore)
        ensures
            row == (NewStore {
                title: self.title,
                description: Some(self.description),
                link: Some(self.link),
                image: Some(self.main_image),
                is_active: self.is_active,
                price: None,
                price_acc: None,
                social_price: None,
                user_id,
                created: row.created,
            }),
    {
        NewStore::from_store_form(
            self.title.clone(),
            self.description.clone(),
            self.link.clone(),
            self.main_image.clone(),
            self.is_active,
            None,
            None,
            None,
            user_id,
        )
    }
}

impl ServiceForm {
    /// The row for a new service of the user `creator`, stamped with the
    /// moment of the call.
    pub fn new_service(&self, creator: i32) -> (row: NewService)
        ensures
            row == (NewService {
                title: self.title,
                description: Some(self.description),
                link: Some(self.link),
                image: Some(self.main_image),
                is_service_active: self.is_active,
                creator,
                service_created: row.service_created,
            }),
    {
        NewService::from_service_form(
            self.title.clone(),
            self.description.clone(),
            self.link.clone(),
            self.main_image.clone(),
            self.is_active,
            creator,
        )
    }
}

impl CategoryForm {
    /// The row for a new category of stores. It counts no store yet.
    pub fn new_store_category(&self) -> (row: NewStoreCategories)
        ensures
            row == (NewStoreCategories {
                name: self.name,
                description: Some(self.description),
                position: self.position,
                image: Some(self.image),
                count: 0,
            }),
    {
        NewStoreCategories {
            name: self.name.clone(),
            description: Some(self.description.clone()),
            position: self.position,
            image: Some(self.image.clone()),
            count: 0,
        }
    }

    /// The changes to the category of stores `current`. Its count stays.
    pub fn edit_store_category(&self, current: &StoreCategories) -> (row: EditStoreCategories)
        ensures
            row == (EditStoreCategories {
                name: self.name,
                description: Some(self.description),
                position: self.position,
                image: Some(self.image),
                count: current.count,
            }),
    {
        EditStoreCategories {
            name: self.name.clone(),
            description: Some(self.description.clone()),
            position: self.position,
            image: Some(self.image.clone()),
            count: current.count,
        }
    }

    /// The row for a new category of services. It counts no service yet.
    pub fn new_service_category(&self) -> (row: NewServiceCategories)
        ensures
            row == (NewServiceCategories {
                name: self.name,
                service_position: self.position,
                image: Some(self.image),
                service_count: 0,
            }),
    {
        NewServiceCategories {
            name: self.name.clone(),
            service_position: self.position,
            image: Some(self.image.clone()),
            service_count: 0,
        }
    }

    /// The changes to the category of services `current`. Its count stays.
    pub fn edit_service_category(&self, current: &ServiceCategories) -> (row:
        EditServiceCategories)
        ensures
            row == (EditServiceCategories {
                name: self.name,
                service_position: self.position,
                image: Some(self.image),
                service_count: current.service_count,
            }),
    {
        EditServiceCategories {
            name: self.name.clone(),
            service_position: self.position,
            image: Some(self.image.clone()),
            service_count: current.service_count,
        }
    }
}

} // verus!
