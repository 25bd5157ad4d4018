use catalog::navigation::{last_page, neighbours, Listed, Neighbours};

fn entry(id: i32, is_active: bool) -> Listed {
    Listed { id, is_active }
}

const A: i32 = 11;
const B: i32 = 12;
const C: i32 = 13;

#[test]
fn an_inactive_item_between_two_active_ones_has_both_neighbours() {
    let listing = vec![entry(A, true), entry(B, false), entry(C, true)];
    assert_eq!(neighbours(&listing, B), Neighbours { prev: Some(A), next: Some(C) });
}

#[test]
fn an_inactive_neighbour_is_not_shown_and_not_skipped() {
    let listing = vec![entry(A, true), entry(B, false), entry(C, true)];
    assert_eq!(neighbours(&listing, A), Neighbours { prev: None, next: None });
    assert_eq!(neighbours(&listing, C), Neighbours { prev: None, next: None });
}

#[test]
fn the_ends_of_the_listing_have_one_neighbour() {
    let listing = vec![entry(A, true), entry(B, true), entry(C, true)];
    assert_eq!(neighbours(&listing, A), Neighbours { prev: None, next: Some(B) });
    assert_eq!(neighbours(&listing, B), Neighbours { prev: Some(A), next: Some(C) });
    assert_eq!(neighbours(&listing, C), Neighbours { prev: Some(B), next: None });
}

#[test]
fn an_item_that_is_not_listed_has_no_neighbours() {
    let listing = vec![entry(A, true), entry(B, true)];
    assert_eq!(neighbours(&listing, C), Neighbours { prev: None, next: None });
    assert_eq!(neighbours(&vec![], C), Neighbours { prev: None, next: None });
}

#[test]
fn a_single_item_has_no_neighbours() {
    assert_eq!(neighbours(&vec![entry(A, true)], A), Neighbours { prev: None, next: None });
}

#[test]
fn an_item_listed_twice_is_found_at_its_last_position() {
    let listing = vec![entry(A, true), entry(B, true), entry(C, true), entry(B, true), entry(7, true)];
    assert_eq!(neighbours(&listing, B), Neighbours { prev: Some(C), next: Some(7) });
}

#[test]
fn last_page_of_an_empty_listing_is_none() {
    assert_eq!(last_page(0, 20), None);
}

#[test]
fn last_page_is_the_last_that_holds_an_item() {
    assert_eq!(last_page(1, 20), Some((0, 1)));
    assert_eq!(last_page(20, 20), Some((0, 20)));
    assert_eq!(last_page(21, 20), Some((20, 21)));
    assert_eq!(last_page(40, 20), Some((20, 40)));
    assert_eq!(last_page(59, 20), Some((40, 59)));
    assert_eq!(last_page(7, 1), Some((6, 7)));
    assert_eq!(last_page(usize::MAX, usize::MAX), Some((0, usize::MAX)));
    assert_eq!(last_page(usize::MAX, usize::MAX - 1), Some((usize::MAX - 1, usize::MAX)));
}
