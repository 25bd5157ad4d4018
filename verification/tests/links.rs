use catalog::accounting::ItemKind;
use catalog::forms::{CategoryForm, ServiceForm, StoreForm};
use catalog::links::{active_tech_links, service_links, store_links, tag_links, tech_links};
use catalog::models::serve::{
    NewServeItems, NewTechCategoriesItem, TECH_LINK_ACTIVE, TECH_LINK_SUPPLEMENTARY,
};
use catalog::models::service::{
    EditServiceCategories, NewService, NewServiceCategories, NewServiceCategory,
    NewServiceImage, NewServiceVideo, ServiceCategories,
};
use catalog::models::tag::NewTagItems;
use catalog::models::store::{
    EditStoreCategories, NewStoreCategories, NewStoreCategory, NewStoreImage,
    NewStoreVideo, StoreCategories,
};

fn store_form() -> StoreForm {
    StoreForm {
        title: "title".to_string(),
        description: "description".to_string(),
        link: "link".to_string(),
        main_image: "main.png".to_string(),
        is_active: true,
        images: vec!["a.png".to_string(), "b.png".to_string()],
        videos: vec!["c.mp4".to_string()],
        category_list: vec![1, 2],
        tags_list: vec![5, 6, 5],
        serve_list: vec![8],
        close_tech_cats_list: vec![3, 4],
    }
}

fn service_form() -> ServiceForm {
    ServiceForm {
        title: "title".to_string(),
        description: "description".to_string(),
        link: "link".to_string(),
        main_image: "main.png".to_string(),
        is_active: false,
        images: vec!["a.png".to_string()],
        videos: vec!["c.mp4".to_string(), "d.mp4".to_string()],
        category_list: vec![2, 1],
        tags_list: vec![5],
    }
}

fn tech(category_id: i32, store_id: i32, types: i16) -> NewTechCategoriesItem {
    NewTechCategoriesItem { category_id, service_id: 0, store_id, work_id: 0, types }
}

#[test]
fn rows_of_a_store_follow_the_form() {
    let before = chrono::Utc::now().naive_utc();
    let links = store_links(30, &store_form());
    let after = chrono::Utc::now().naive_utc();
    assert_eq!(
        links.images,
        vec![
            NewStoreImage { store: 30, src: "a.png".to_string() },
            NewStoreImage { store: 30, src: "b.png".to_string() },
        ]
    );
    assert_eq!(links.videos, vec![NewStoreVideo { store: 30, src: "c.mp4".to_string() }]);
    assert_eq!(
        links.categories,
        vec![
            NewStoreCategory { store_categories_id: 1, store_id: 30 },
            NewStoreCategory { store_categories_id: 2, store_id: 30 },
        ]
    );
    assert_eq!(links.tags.len(), 3);
    for (row, tag_id) in links.tags.iter().zip([5, 6, 5]) {
        assert_eq!(row.tag_id, tag_id);
        assert_eq!(row.store_id, 30);
        assert_eq!(row.service_id, 0);
        assert_eq!(row.blog_id, 0);
        assert_eq!(row.wiki_id, 0);
        assert_eq!(row.work_id, 0);
        assert!(before <= row.created && row.created <= after);
    }
    assert_eq!(links.supplementary, vec![tech(3, 30, 2), tech(4, 30, 2)]);
    assert_eq!(
        links.serves,
        vec![NewServeItems { serve_id: 8, service_id: 0, store_id: 30, work_id: 0 }]
    );
}

#[test]
fn rows_of_a_service_follow_the_form() {
    let links = service_links(40, &service_form());
    assert_eq!(links.images, vec![NewServiceImage { service: 40, src: "a.png".to_string() }]);
    assert_eq!(
        links.videos,
        vec![
            NewServiceVideo { service: 40, src: "c.mp4".to_string() },
            NewServiceVideo { service: 40, src: "d.mp4".to_string() },
        ]
    );
    assert_eq!(
        links.categories,
        vec![
            NewServiceCategory { service_categories_id: 2, service_id: 40 },
            NewServiceCategory { service_categories_id: 1, service_id: 40 },
        ]
    );
    assert_eq!(links.tags.len(), 1);
    assert_eq!(links.tags[0].tag_id, 5);
    assert_eq!(links.tags[0].service_id, 40);
    assert_eq!(links.tags[0].store_id, 0);
}

#[test]
fn an_empty_form_gives_no_rows() {
    let mut form = store_form();
    form.images = vec![];
    form.videos = vec![];
    form.category_list = vec![];
    form.tags_list = vec![];
    form.serve_list = vec![];
    form.close_tech_cats_list = vec![];
    let links = store_links(30, &form);
    assert!(links.images.is_empty());
    assert!(links.videos.is_empty());
    assert!(links.categories.is_empty());
    assert!(links.tags.is_empty());
    assert!(links.supplementary.is_empty());
    assert!(links.serves.is_empty());
}

#[test]
fn tag_rows_name_the_kind_of_item() {
    let on_store = tag_links(ItemKind::Store, 3, &vec![9]);
    assert_eq!((on_store[0].tag_id, on_store[0].store_id, on_store[0].service_id), (9, 3, 0));
    let on_service = tag_links(ItemKind::Service, 3, &vec![9]);
    assert_eq!((on_service[0].tag_id, on_service[0].store_id, on_service[0].service_id), (9, 0, 3));
}

#[test]
fn tech_links_carry_their_kind() {
    assert_eq!(TECH_LINK_ACTIVE, 1);
    assert_eq!(TECH_LINK_SUPPLEMENTARY, 2);
    assert_eq!(active_tech_links(30, &vec![10, 20]), vec![tech(10, 30, 1), tech(20, 30, 1)]);
    assert_eq!(tech_links(30, &vec![10], TECH_LINK_SUPPLEMENTARY), vec![tech(10, 30, 2)]);
    assert_eq!(tech_links(30, &vec![], TECH_LINK_ACTIVE), vec![]);
}

#[test]
fn a_store_form_gives_the_rows_of_the_store() {
    let form = store_form();
    let row = form.new_store(7);
    assert_eq!(row.title, "title");
    assert_eq!(row.description, Some("description".to_string()));
    assert_eq!(row.link, Some("link".to_string()));
    assert_eq!(row.image, Some("main.png".to_string()));
    assert!(row.is_active);
    assert_eq!((row.price, row.price_acc, row.social_price), (None, None, None));
    assert_eq!(row.user_id, 7);
}

#[test]
fn a_service_form_gives_the_rows_of_the_service() {
    let form = service_form();
    let row = form.new_service(1);
    assert_eq!(row.title, "title");
    assert_eq!(row.description, Some("description".to_string()));
    assert_eq!(row.link, Some("link".to_string()));
    assert_eq!(row.image, Some("main.png".to_string()));
    assert!(!row.is_service_active);
    assert_eq!(row.creator, 1);
}

#[test]
fn a_category_form_gives_the_rows_of_the_category() {
    let form = CategoryForm {
        name: "name".to_string(),
        description: "description".to_string(),
        position: 4,
        image: "c.png".to_string(),
    };
    assert_eq!(
        form.new_store_category(),
        NewStoreCategories {
            name: "name".to_string(),
            description: Some("description".to_string()),
            position: 4,
            image: Some("c.png".to_string()),
            count: 0,
        }
    );
    let current = StoreCategories {
        id: 2,
        name: "old".to_string(),
        description: None,
        position: 1,
        image: None,
        count: 17,
    };
    assert_eq!(
        form.edit_store_category(&current),
        EditStoreCategories {
            name: "name".to_string(),
            description: Some("description".to_string()),
            position: 4,
            image: Some("c.png".to_string()),
            count: 17,
        }
    );
    assert_eq!(
        form.new_service_category(),
        NewServiceCategories {
            name: "name".to_string(),
            service_position: 4,
            image: Some("c.png".to_string()),
            service_count: 0,
        }
    );
    let service_current = ServiceCategories {
        id: 2,
        name: "old".to_string(),
        service_position: 1,
        image: None,
        service_count: 23,
    };
    assert_eq!(
        form.edit_service_category(&service_current),
        EditServiceCategories {
            name: "name".to_string(),
            service_position: 4,
            image: Some("c.png".to_string()),
            service_count: 23,
        }
    );
}

fn moment(secs: i64) -> chrono::NaiveDateTime {
    chrono::DateTime::from_timestamp(secs, 0).unwrap().naive_utc()
}

#[test]
fn new_service_takes_the_form_and_the_moment_given() {
    let row = NewService::from_service_form_at(
        "title".to_string(),
        "description".to_string(),
        "link".to_string(),
        "image".to_string(),
        true,
        3,
        moment(9),
    );
    assert_eq!(
        row,
        NewService {
            title: "title".to_string(),
            description: Some("description".to_string()),
            link: Some("link".to_string()),
            image: Some("image".to_string()),
            is_service_active: true,
            creator: 3,
            service_created: moment(9),
        }
    );
    assert_eq!(
        NewServiceImage::from_service_images_form(4, "a.png".to_string()),
        NewServiceImage { service: 4, src: "a.png".to_string() }
    );
    assert_eq!(
        NewServiceVideo::from_service_videos_form(5, "b.mp4".to_string()),
        NewServiceVideo { service: 5, src: "b.mp4".to_string() }
    );
}

#[test]
fn a_tag_row_sets_the_id_of_its_kind_only() {
    assert_eq!(
        NewTagItems::for_item(ItemKind::Store, 8, 2, moment(1)),
        NewTagItems {
            tag_id: 2,
            service_id: 0,
            store_id: 8,
            blog_id: 0,
            wiki_id: 0,
            work_id: 0,
            created: moment(1),
        }
    );
    assert_eq!(
        NewTagItems::for_item(ItemKind::Service, 8, 2, moment(1)),
        NewTagItems {
            tag_id: 2,
            service_id: 8,
            store_id: 0,
            blog_id: 0,
            wiki_id: 0,
            work_id: 0,
            created: moment(1),
        }
    );
}
