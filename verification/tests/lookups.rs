use catalog::accounting::ItemKind;
use catalog::links::{linked_service_categories, linked_store_categories, linked_tags};
use catalog::models::serve::{Serve, TechCategories};
use catalog::models::service::{Service, ServiceCategories, ServiceCategory};
use catalog::models::store::StoreCategory;
use catalog::models::tag::{Tag, TagItems};
use catalog::pages::ServiceParams;

fn moment(secs: i64) -> chrono::NaiveDateTime {
    chrono::DateTime::from_timestamp(secs, 0).unwrap().naive_utc()
}

fn tag(id: i32) -> Tag {
    Tag { id, name: format!("tag {}", id), count: 0, store_count: 0, service_count: 0 }
}

fn on_store(id: i32, tag_id: i32, store_id: i32) -> TagItems {
    TagItems {
        id,
        tag_id,
        service_id: 0,
        store_id,
        blog_id: 0,
        wiki_id: 0,
        work_id: 0,
        created: moment(id as i64),
    }
}

fn on_service(id: i32, tag_id: i32, service_id: i32) -> TagItems {
    TagItems {
        id,
        tag_id,
        service_id,
        store_id: 0,
        blog_id: 0,
        wiki_id: 0,
        work_id: 0,
        created: moment(id as i64),
    }
}

fn service(id: i32, is_service_active: bool) -> Service {
    Service {
        id,
        title: format!("service {}", id),
        description: None,
        content: None,
        link: None,
        image: None,
        is_service_active,
        creator: 1,
        service_created: moment(1000 - id as i64),
    }
}

fn service_category(id: i32) -> ServiceCategories {
    ServiceCategories {
        id,
        name: format!("category {}", id),
        service_position: 0,
        image: None,
        service_count: 0,
    }
}

fn service_link(id: i32, service_categories_id: i32, service_id: i32) -> ServiceCategory {
    ServiceCategory { id, service_categories_id, service_id }
}

fn tech(id: i32, level: i16) -> TechCategories {
    TechCategories {
        id,
        name: format!("tech {}", id),
        description: None,
        position: 0,
        count: 0,
        level,
        user_id: 1,
    }
}

fn serve(id: i32, tech_cat_id: i32) -> Serve {
    Serve {
        id,
        name: format!("serve {}", id),
        cat_name: "cat".to_string(),
        description: None,
        position: 0,
        serve_categories: 1,
        price: 1,
        man_hours: 1,
        is_default: false,
        user_id: 1,
        tech_cat_id,
        types: None,
    }
}

fn ids_of(tags: &Vec<Tag>) -> Vec<i32> {
    tags.iter().map(|t| t.id).collect()
}

fn service_ids(services: &Vec<Service>) -> Vec<i32> {
    services.iter().map(|s| s.id).collect()
}

#[test]
fn categories_linked_to_a_store() {
    let links = vec![
        StoreCategory { id: 1, store_categories_id: 10, store_id: 5 },
        StoreCategory { id: 2, store_categories_id: 11, store_id: 6 },
        StoreCategory { id: 3, store_categories_id: 12, store_id: 5 },
        StoreCategory { id: 4, store_categories_id: 10, store_id: 5 },
    ];
    assert_eq!(linked_store_categories(5, &links), vec![10, 12, 10]);
    assert_eq!(linked_store_categories(6, &links), vec![11]);
    assert_eq!(linked_store_categories(7, &links), Vec::<i32>::new());
    assert_eq!(linked_store_categories(5, &vec![]), Vec::<i32>::new());
}

#[test]
fn categories_linked_to_a_service() {
    let links = vec![service_link(1, 10, 5), service_link(2, 11, 6), service_link(3, 12, 5)];
    assert_eq!(linked_service_categories(5, &links), vec![10, 12]);
    assert_eq!(linked_service_categories(8, &links), Vec::<i32>::new());
}

#[test]
fn tags_put_on_an_item() {
    let items = vec![on_store(1, 7, 5), on_service(2, 8, 5), on_store(3, 9, 5), on_store(4, 7, 6)];
    assert_eq!(linked_tags(ItemKind::Store, 5, &items), vec![7, 9]);
    assert_eq!(linked_tags(ItemKind::Service, 5, &items), vec![8]);
    assert_eq!(linked_tags(ItemKind::Store, 6, &items), vec![7]);
    assert_eq!(linked_tags(ItemKind::Service, 6, &items), Vec::<i32>::new());
}

#[test]
fn categories_and_tags_of_a_service() {
    let links = vec![service_link(1, 3, 5), service_link(2, 1, 5), service_link(3, 2, 6)];
    let rows = vec![service_category(1), service_category(2), service_category(3)];
    assert_eq!(
        service(5, true).get_categories(&links, &rows),
        vec![service_category(1), service_category(3)]
    );
    assert_eq!(service(7, true).get_categories(&links, &rows), vec![]);
    let items = vec![on_service(1, 9, 5), on_store(2, 8, 5), on_service(3, 7, 5)];
    let tags = vec![tag(7), tag(8), tag(9)];
    assert_eq!(ids_of(&service(5, true).get_tags(&items, &tags)), vec![7, 9]);
    assert_eq!(ids_of(&service(6, true).get_tags(&items, &tags)), Vec::<i32>::new());
}

#[test]
fn services_of_a_category() {
    let services: Vec<Service> = (1..=9).map(|id| service(id, id % 2 == 0)).collect();
    let mut links: Vec<ServiceCategory> = (1..=8).map(|id| service_link(id, 1, id)).collect();
    links.push(service_link(9, 2, 9));
    links.push(service_link(10, 2, 3));
    let all = service_category(1).get_services(&links, &services);
    assert_eq!(service_ids(&all), vec![1, 2, 3, 4, 5, 6, 7, 8]);
    assert_eq!(all[0], service(1, false));
    let shown = service_category(1).get_6_services(&links, &services);
    assert_eq!(service_ids(&shown), vec![1, 2, 3, 4, 5, 6]);
    let few = service_category(2).get_6_services(&links, &services);
    assert_eq!(service_ids(&few), vec![3, 9]);
    assert_eq!(service_ids(&service_category(3).get_6_services(&links, &services)), Vec::<i32>::new());
    assert_eq!(ServiceCategories::SHOWN, 6);
}

#[test]
fn tags_in_use() {
    let items = vec![on_store(1, 7, 5), on_service(2, 8, 5), on_store(3, 7, 6), on_store(4, 9, 0)];
    let tags = vec![tag(6), tag(7), tag(8), tag(9)];
    assert_eq!(ids_of(&Tag::in_use(ItemKind::Store, &items, &tags)), vec![7]);
    assert_eq!(ids_of(&Tag::in_use(ItemKind::Service, &items, &tags)), vec![8]);
    assert_eq!(ids_of(&Tag::in_use(ItemKind::Store, &vec![], &tags)), Vec::<i32>::new());
}

#[test]
fn tags_of_the_active_services() {
    let services = vec![service(1, true), service(2, false), service(3, true)];
    let items = vec![
        on_service(1, 7, 1),
        on_service(2, 8, 2),
        on_service(3, 9, 3),
        on_service(4, 7, 3),
        on_service(5, 6, 4),
        on_store(6, 5, 1),
    ];
    let tags = vec![tag(5), tag(6), tag(7), tag(8), tag(9)];
    assert_eq!(ids_of(&Service::get_tags_of_active(&items, &services, &tags)), vec![7, 9]);
    assert_eq!(ids_of(&Service::get_tags_of_active(&items, &vec![], &tags)), Vec::<i32>::new());
}

#[test]
fn tech_categories_offered_to_the_editor_of_a_store() {
    let rows = vec![tech(1, 1), tech(2, 2), tech(3, 1), tech(4, 3)];
    assert_eq!(
        TechCategories::get_peers(&vec![serve(9, 3), serve(8, 2)], &rows),
        Some((1, vec![tech(1, 1), tech(3, 1)]))
    );
    assert_eq!(
        TechCategories::get_peers(&vec![serve(8, 2), serve(9, 3)], &rows),
        Some((2, vec![tech(2, 2)]))
    );
    assert_eq!(TechCategories::get_peers(&vec![], &rows), None);
    assert_eq!(TechCategories::get_peers(&vec![serve(9, 5)], &rows), None);
}

#[test]
fn an_empty_text_changes_nothing() {
    assert!(!ServiceParams { content: "".to_string() }.has_content());
    assert!(ServiceParams { content: " ".to_string() }.has_content());
    assert!(ServiceParams { content: "text".to_string() }.has_content());
}
