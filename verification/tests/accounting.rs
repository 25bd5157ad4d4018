use catalog::accounting::{
    attach_all, can_attach_all, can_detach_all, detach_all, knows, knows_all, ItemKind,
};
use catalog::ids::{contains_id, count_occurrences};
use catalog::models::service::ServiceCategories;
use catalog::models::store::StoreCategories;
use catalog::models::tag::Tag;

fn category(id: i32, count: i32) -> StoreCategories {
    StoreCategories {
        id,
        name: format!("category {}", id),
        description: Some("stores".to_string()),
        position: id,
        image: None,
        count,
    }
}

fn service_category(id: i32, service_count: i32) -> ServiceCategories {
    ServiceCategories {
        id,
        name: format!("category {}", id),
        service_position: id,
        image: None,
        service_count,
    }
}

fn tag(id: i32, count: i32, store_count: i32, service_count: i32) -> Tag {
    Tag { id, name: format!("tag {}", id), count, store_count, service_count }
}

#[test]
fn occurrences_are_counted() {
    assert_eq!(count_occurrences(&vec![], 1), 0);
    assert_eq!(count_occurrences(&vec![1, 2, 1, 3, 1], 1), 3);
    assert_eq!(count_occurrences(&vec![1, 2, 1, 3, 1], 2), 1);
    assert_eq!(count_occurrences(&vec![1, 2, 1, 3, 1], 4), 0);
    assert!(contains_id(&vec![4, 5], 5));
    assert!(!contains_id(&vec![4, 5], 6));
    assert!(!contains_id(&vec![], 6));
}

#[test]
fn known_ids_are_told_from_unknown_ones() {
    let categories = vec![category(1, 0), category(2, 0)];
    assert!(knows(&categories, 2));
    assert!(!knows(&categories, 3));
    assert!(knows_all(&categories, &vec![]));
    assert!(knows_all(&categories, &vec![2, 1, 2]));
    assert!(!knows_all(&categories, &vec![2, 3]));
    assert!(!knows_all(&Vec::<StoreCategories>::new(), &vec![1]));
}

#[test]
fn attaching_counts_each_selected_category_once() {
    let mut categories = vec![category(1, 4), category(2, 0), category(3, 9)];
    attach_all(&mut categories, &vec![1, 2], ItemKind::Store);
    assert_eq!(categories, vec![category(1, 5), category(2, 1), category(3, 9)]);
}

#[test]
fn attaching_a_category_selected_twice_counts_twice() {
    let mut categories = vec![category(1, 4), category(2, 0)];
    attach_all(&mut categories, &vec![2, 1, 2], ItemKind::Store);
    assert_eq!(categories, vec![category(1, 5), category(2, 2)]);
}

#[test]
fn attaching_nothing_changes_nothing() {
    let mut categories = vec![category(1, 4), category(2, 0)];
    attach_all(&mut categories, &vec![], ItemKind::Store);
    assert_eq!(categories, vec![category(1, 4), category(2, 0)]);
}

#[test]
fn detaching_takes_one_from_each_linked_category() {
    let mut categories = vec![category(1, 5), category(2, 1), category(3, 9)];
    detach_all(&mut categories, &vec![1, 2], ItemKind::Store);
    assert_eq!(categories, vec![category(1, 4), category(2, 0), category(3, 9)]);
}

#[test]
fn detaching_takes_one_even_where_the_link_stands_twice() {
    let mut categories = vec![category(1, 5), category(2, 2)];
    detach_all(&mut categories, &vec![2, 1, 2], ItemKind::Store);
    assert_eq!(categories, vec![category(1, 4), category(2, 1)]);
}

#[test]
fn detaching_is_blind_to_what_the_count_should_be() {
    let mut categories = vec![category(1, 0)];
    detach_all(&mut categories, &vec![1], ItemKind::Store);
    assert_eq!(categories, vec![category(1, -1)]);
}

#[test]
fn detaching_an_unknown_link_changes_nothing() {
    let mut categories = vec![category(1, 5)];
    detach_all(&mut categories, &vec![7], ItemKind::Store);
    assert_eq!(categories, vec![category(1, 5)]);
}

#[test]
fn balanced_cycles_leave_the_counts_where_they_were() {
    let before = vec![category(1, 4), category(2, 0), category(3, 9)];
    let mut categories = before.clone();
    let selection = vec![3, 1];
    for _ in 0..25 {
        attach_all(&mut categories, &selection, ItemKind::Store);
        detach_all(&mut categories, &selection, ItemKind::Store);
    }
    assert_eq!(categories, before);
}

#[test]
fn a_selection_with_a_duplicate_makes_the_count_drift() {
    let mut categories = vec![category(1, 4)];
    let selection = vec![1, 1];
    attach_all(&mut categories, &selection, ItemKind::Store);
    detach_all(&mut categories, &selection, ItemKind::Store);
    assert_eq!(categories, vec![category(1, 5)]);
}

#[test]
fn a_store_moves_the_total_and_the_store_count_of_a_tag() {
    let mut tags = vec![tag(5, 10, 3, 7), tag(6, 1, 1, 0)];
    attach_all(&mut tags, &vec![5], ItemKind::Store);
    assert_eq!(tags, vec![tag(5, 11, 4, 7), tag(6, 1, 1, 0)]);
    detach_all(&mut tags, &vec![5, 6], ItemKind::Store);
    assert_eq!(tags, vec![tag(5, 10, 3, 7), tag(6, 0, 0, 0)]);
}

#[test]
fn a_service_moves_the_total_and_the_service_count_of_a_tag() {
    let mut tags = vec![tag(5, 10, 3, 7)];
    attach_all(&mut tags, &vec![5, 5], ItemKind::Service);
    assert_eq!(tags, vec![tag(5, 12, 3, 9)]);
    detach_all(&mut tags, &vec![5], ItemKind::Service);
    assert_eq!(tags, vec![tag(5, 11, 3, 8)]);
}

#[test]
fn a_service_moves_the_count_of_its_categories() {
    let mut categories = vec![service_category(1, 2), service_category(2, 0)];
    attach_all(&mut categories, &vec![2], ItemKind::Service);
    assert_eq!(categories, vec![service_category(1, 2), service_category(2, 1)]);
    detach_all(&mut categories, &vec![1, 2], ItemKind::Service);
    assert_eq!(categories, vec![service_category(1, 1), service_category(2, 0)]);
}

#[test]
fn counts_reach_the_ends_of_their_type() {
    let mut categories = vec![category(1, i32::MAX - 2), category(2, i32::MIN + 1)];
    attach_all(&mut categories, &vec![1, 1], ItemKind::Store);
    detach_all(&mut categories, &vec![2], ItemKind::Store);
    assert_eq!(categories, vec![category(1, i32::MAX), category(2, i32::MIN)]);
}

#[test]
fn a_category_of_stores_counts_no_services() {
    let categories = vec![category(1, 4)];
    assert!(can_attach_all(&categories, &vec![1], ItemKind::Store));
    assert!(!can_attach_all(&categories, &vec![1], ItemKind::Service));
    assert!(!can_attach_all(&categories, &vec![], ItemKind::Service));
    assert!(can_detach_all(&categories, &vec![1], ItemKind::Store));
    assert!(!can_detach_all(&categories, &vec![1], ItemKind::Service));
    let services = vec![service_category(1, 4)];
    assert!(can_attach_all(&services, &vec![1], ItemKind::Service));
    assert!(!can_attach_all(&services, &vec![1], ItemKind::Store));
}

#[test]
fn room_in_the_counters_is_checked() {
    let categories = vec![category(1, i32::MAX - 1), category(2, i32::MIN)];
    assert!(can_attach_all(&categories, &vec![1, 2], ItemKind::Store));
    assert!(!can_attach_all(&categories, &vec![1, 2, 1], ItemKind::Store));
    assert!(can_detach_all(&categories, &vec![1], ItemKind::Store));
    assert!(!can_detach_all(&categories, &vec![2], ItemKind::Store));
    let tags = vec![tag(5, i32::MAX, 0, 0), tag(6, 0, i32::MAX, i32::MIN)];
    assert!(!can_attach_all(&tags, &vec![5], ItemKind::Store));
    assert!(!can_attach_all(&tags, &vec![6], ItemKind::Store));
    assert!(can_attach_all(&tags, &vec![6], ItemKind::Service));
    assert!(can_detach_all(&tags, &vec![6], ItemKind::Store));
    assert!(!can_detach_all(&tags, &vec![6], ItemKind::Service));
}
