use catalog::models::store::{
    can_list, NewStore, NewStoreImage, NewStoreVideo, Store, StoreCategories, StoreCategory,
};

fn moment(secs: i64) -> chrono::NaiveDateTime {
    chrono::DateTime::from_timestamp(secs, 0).unwrap().naive_utc()
}

fn category(id: i32) -> StoreCategories {
    StoreCategories {
        id,
        name: format!("category {}", id),
        description: None,
        position: 0,
        image: None,
        count: 0,
    }
}

fn store(id: i32, is_active: bool) -> Store {
    Store {
        id,
        title: format!("store {}", id),
        description: None,
        content: None,
        link: None,
        image: None,
        is_active,
        price: None,
        price_acc: None,
        social_price: None,
        user_id: 1,
        created: moment(1_000_000 - id as i64),
    }
}

fn link(id: i32, store_categories_id: i32, store_id: i32) -> StoreCategory {
    StoreCategory { id, store_categories_id, store_id }
}

fn ids(stores: &Vec<Store>) -> Vec<i32> {
    stores.iter().map(|s| s.id).collect()
}

/// Ten stores; the category 1 holds 1..=8, of which 3 is inactive.
fn catalog() -> (Vec<StoreCategory>, Vec<Store>) {
    let stores: Vec<Store> = (1..=10).map(|id| store(id, id != 3)).collect();
    let mut links: Vec<StoreCategory> = (1..=8).map(|id| link(id, 1, id)).collect();
    links.push(link(9, 2, 9));
    links.push(link(10, 2, 1));
    (links, stores)
}

#[test]
fn stores_of_a_category_are_the_active_linked_ones() {
    let (links, stores) = catalog();
    let found = category(1).get_stores(100, 0, &links, &stores);
    assert_eq!(ids(&found), vec![1, 2, 4, 5, 6, 7, 8]);
    assert_eq!(found[2], store(4, true));
    let other = category(2).get_stores(100, 0, &links, &stores);
    assert_eq!(ids(&other), vec![1, 9]);
    assert_eq!(ids(&category(3).get_stores(100, 0, &links, &stores)), Vec::<i32>::new());
}

#[test]
fn stores_are_cut_to_limit_and_offset() {
    let (links, stores) = catalog();
    assert_eq!(ids(&category(1).get_stores(3, 0, &links, &stores)), vec![1, 2, 4]);
    assert_eq!(ids(&category(1).get_stores(3, 2, &links, &stores)), vec![4, 5, 6]);
    assert_eq!(ids(&category(1).get_stores(3, 5, &links, &stores)), vec![7, 8]);
    assert_eq!(ids(&category(1).get_stores(3, 7, &links, &stores)), Vec::<i32>::new());
    assert_eq!(ids(&category(1).get_stores(3, 70, &links, &stores)), Vec::<i32>::new());
    assert_eq!(ids(&category(1).get_stores(0, 0, &links, &stores)), Vec::<i32>::new());
    let all = category(1).get_stores(i64::MAX, 1, &links, &stores);
    assert_eq!(ids(&all), vec![2, 4, 5, 6, 7, 8]);
}

#[test]
fn first_page_starts_at_the_top_and_probes_behind_limit_plus_one() {
    let (links, stores) = catalog();
    // Seven stores are listed. With a limit of 5 the probe looks at offset 6.
    let (page, next) = category(1).get_stores_list(1, 5, &links, &stores);
    assert_eq!(ids(&page), vec![1, 2, 4, 5, 6]);
    assert_eq!(next, 2);
    // With a limit of 6 the probe looks at offset 7, where nothing is left.
    let (page, next) = category(1).get_stores_list(1, 6, &links, &stores);
    assert_eq!(ids(&page), vec![1, 2, 4, 5, 6, 7]);
    assert_eq!(next, 0);
    // Pages below 1 are read as the first page.
    let (page, next) = category(1).get_stores_list(0, 2, &links, &stores);
    assert_eq!(ids(&page), vec![1, 2]);
    assert_eq!(next, 1);
    let (page, next) = category(1).get_stores_list(-4, 2, &links, &stores);
    assert_eq!(ids(&page), vec![1, 2]);
    assert_eq!(next, -3);
}

#[test]
fn later_pages_start_behind_page_times_limit_plus_one() {
    let (links, stores) = catalog();
    // Page 2 of 2 starts at offset 5 and probes there as well.
    let (page, next) = category(1).get_stores_list(2, 2, &links, &stores);
    assert_eq!(ids(&page), vec![7, 8]);
    assert_eq!(next, 3);
    // Page 3 of 2 starts at offset 7: nothing is there.
    let (page, next) = category(1).get_stores_list(3, 2, &links, &stores);
    assert_eq!(ids(&page), Vec::<i32>::new());
    assert_eq!(next, 0);
    // Page 2 of 3 starts at offset 7 too.
    let (page, next) = category(1).get_stores_list(2, 3, &links, &stores);
    assert_eq!(ids(&page), Vec::<i32>::new());
    assert_eq!(next, 0);
}

#[test]
fn empty_category_has_one_empty_page() {
    let (links, stores) = catalog();
    let (page, next) = category(3).get_stores_list(1, 20, &links, &stores);
    assert_eq!(ids(&page), Vec::<i32>::new());
    assert_eq!(next, 0);
}

#[test]
fn new_store_takes_the_form_and_the_moment_given() {
    let row = NewStore::from_store_form_at(
        "title".to_string(),
        "description".to_string(),
        "link".to_string(),
        "image".to_string(),
        true,
        Some(10),
        Some(20),
        None,
        7,
        moment(42),
    );
    assert_eq!(
        row,
        NewStore {
            title: "title".to_string(),
            description: Some("description".to_string()),
            link: Some("link".to_string()),
            image: Some("image".to_string()),
            is_active: true,
            price: Some(10),
            price_acc: Some(20),
            social_price: None,
            user_id: 7,
            created: moment(42),
        }
    );
}

#[test]
fn new_store_is_stamped_with_the_present() {
    let before = chrono::Utc::now().naive_utc();
    let row = NewStore::from_store_form(
        "title".to_string(),
        "description".to_string(),
        "link".to_string(),
        "image".to_string(),
        false,
        None,
        None,
        Some(3),
        9,
    );
    let after = chrono::Utc::now().naive_utc();
    assert!(before <= row.created);
    assert!(row.created <= after);
    assert_eq!(row.title, "title");
    assert_eq!(row.description, Some("description".to_string()));
    assert_eq!(row.link, Some("link".to_string()));
    assert_eq!(row.image, Some("image".to_string()));
    assert!(!row.is_active);
    assert_eq!(row.price, None);
    assert_eq!(row.price_acc, None);
    assert_eq!(row.social_price, Some(3));
    assert_eq!(row.user_id, 9);
}

#[test]
fn image_and_video_rows_name_their_store() {
    assert_eq!(
        NewStoreImage::from_store_images_form(4, "a.png".to_string()),
        NewStoreImage { store: 4, src: "a.png".to_string() }
    );
    assert_eq!(
        NewStoreVideo::from_store_videos_form(5, "b.mp4".to_string()),
        NewStoreVideo { store: 5, src: "b.mp4".to_string() }
    );
}

#[test]
fn pages_that_can_be_listed() {
    assert!(can_list(1, 20, 0));
    assert!(can_list(1, 0, 5));
    assert!(can_list(-3, 20, 5));
    assert!(!can_list(1, -1, 5));
    // The probe looks at offset limit + 1, which must fit.
    assert!(can_list(1, i32::MAX - 1, 5));
    assert!(!can_list(1, i32::MAX, 5));
    // From page 2 on it looks at page * limit + 1.
    assert!(can_list(2, 1_073_741_823, 5));
    assert!(!can_list(2, 1_073_741_824, 5));
    assert!(!can_list(46_341, 46_341, 5));
    // The last page that can be numbered must have no successor.
    assert!(can_list(i32::MAX, 0, 1));
    assert!(!can_list(i32::MAX, 0, 2));
    assert!(can_list(i32::MAX - 1, 0, 2));
}

#[test]
fn a_page_is_listed_where_it_can_be() {
    let (links, stores) = catalog();
    assert_eq!(category(1).count_stores(&links, &stores), 7);
    assert_eq!(category(2).count_stores(&links, &stores), 2);
    assert_eq!(category(3).count_stores(&links, &stores), 0);
    let (page, next) = category(1).try_get_stores_list(1, 5, &links, &stores).unwrap();
    assert_eq!(ids(&page), vec![1, 2, 4, 5, 6]);
    assert_eq!(next, 2);
    assert_eq!(
        category(1).try_get_stores_list(1, 5, &links, &stores),
        Some(category(1).get_stores_list(1, 5, &links, &stores))
    );
    assert!(category(1).try_get_stores_list(1, -1, &links, &stores).is_none());
    assert!(category(1).try_get_stores_list(1, i32::MAX, &links, &stores).is_none());
    assert!(category(1).try_get_stores_list(i32::MAX, 0, &links, &stores).is_none());
    assert!(category(3).try_get_stores_list(i32::MAX, 0, &links, &stores).is_some());
}
