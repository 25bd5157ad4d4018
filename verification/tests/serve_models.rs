use catalog::models::serve::{Serve, ServeCategories, TechCategories};

fn tech(id: i32, level: i16) -> TechCategories {
    TechCategories {
        id,
        name: format!("tech {}", id),
        description: None,
        position: 0,
        count: 0,
        level,
        user_id: 1,
    }
}

fn serve_category(id: i32, tech_categories: i32) -> ServeCategories {
    ServeCategories {
        id,
        name: format!("category {}", id),
        description: Some("options".to_string()),
        cat_name: "cat".to_string(),
        tech_categories,
        position: 0,
        count: 0,
        default_price: 0,
        user_id: 1,
    }
}

fn serve(id: i32, serve_categories: i32, description: Option<&str>) -> Serve {
    Serve {
        id,
        name: format!("serve {}", id),
        cat_name: "cat".to_string(),
        description: description.map(|d| d.to_string()),
        position: 0,
        serve_categories,
        price: 100,
        man_hours: 1,
        is_default: false,
        user_id: 1,
        tech_cat_id: 1,
        types: None,
    }
}

#[test]
fn serve_categories_of_a_tech_category_keep_their_order() {
    let rows = vec![
        serve_category(1, 7),
        serve_category(2, 8),
        serve_category(3, 7),
        serve_category(4, 9),
    ];
    let found = tech(7, 1).get_serve_categories(&rows);
    assert_eq!(found, vec![serve_category(1, 7), serve_category(3, 7)]);
}

#[test]
fn serve_categories_of_an_unused_tech_category_are_none() {
    let rows = vec![serve_category(1, 7), serve_category(2, 8)];
    assert_eq!(tech(5, 1).get_serve_categories(&rows), vec![]);
    assert_eq!(tech(7, 1).get_serve_categories(&vec![]), vec![]);
}

#[test]
fn categories_from_level_follow_the_tech_categories_of_that_level() {
    let techs = vec![tech(7, 1), tech(8, 2), tech(9, 1)];
    let rows = vec![
        serve_category(1, 7),
        serve_category(2, 8),
        serve_category(3, 9),
        serve_category(4, 10),
    ];
    let found = ServeCategories::get_categories_from_level(&1, &techs, &rows);
    assert_eq!(found, vec![serve_category(1, 7), serve_category(3, 9)]);
    let second = ServeCategories::get_categories_from_level(&2, &techs, &rows);
    assert_eq!(second, vec![serve_category(2, 8)]);
    let none = ServeCategories::get_categories_from_level(&3, &techs, &rows);
    assert_eq!(none, vec![]);
}

#[test]
fn serves_of_a_category() {
    let rows = vec![serve(1, 4, None), serve(2, 5, None), serve(3, 4, None)];
    let found = serve_category(4, 7).get_serves(&rows);
    assert_eq!(found, vec![serve(1, 4, None), serve(3, 4, None)]);
    assert_eq!(serve_category(6, 7).get_serves(&rows), vec![]);
}

#[test]
fn tech_categories_at_a_level() {
    let techs = vec![tech(7, 1), tech(8, 2), tech(9, 1)];
    assert_eq!(TechCategories::get_level(1, &techs), vec![tech(7, 1), tech(9, 1)]);
    assert_eq!(TechCategories::get_level(5, &techs), vec![]);
}

#[test]
fn level_of_a_tech_category() {
    let techs = vec![tech(7, 1), tech(8, 2), tech(7, 3)];
    assert_eq!(TechCategories::find_level(7, &techs), Some(1));
    assert_eq!(TechCategories::find_level(8, &techs), Some(2));
    assert_eq!(TechCategories::find_level(9, &techs), None);
}

#[test]
fn description_without_text_is_empty() {
    assert_eq!(serve(1, 1, None).get_100_description(), "");
}

#[test]
fn short_description_is_kept_whole() {
    assert_eq!(serve(1, 1, Some("short")).get_100_description(), "short");
    assert_eq!(serve(1, 1, Some("")).get_100_description(), "");
}

#[test]
fn description_of_exactly_one_hundred_bytes_is_kept_whole() {
    let text = "a".repeat(100);
    assert_eq!(serve(1, 1, Some(&text)).get_100_description(), text);
}

#[test]
fn long_description_is_cut_after_one_hundred_bytes() {
    let text = format!("{}{}", "a".repeat(100), "tail");
    assert_eq!(serve(1, 1, Some(&text)).get_100_description(), "a".repeat(100));
    let longer = "b".repeat(101);
    assert_eq!(serve(1, 1, Some(&longer)).get_100_description(), "b".repeat(100));
}

#[test]
fn long_description_is_cut_by_bytes_not_by_characters() {
    // Each of these letters takes two bytes: fifty of them fill the teaser.
    let text = "\u{0436}".repeat(60);
    let teaser = serve(1, 1, Some(&text)).get_100_description();
    assert_eq!(teaser, "\u{0436}".repeat(50));
    assert_eq!(teaser.len(), 100);
}

#[test]
fn a_description_that_would_be_cut_inside_a_character_has_no_teaser() {
    // Ninety-nine bytes, then a letter of two bytes: byte 100 lies inside it.
    let text = format!("{}{}{}", "a".repeat(99), "\u{0436}", "tail");
    assert!(!serve(1, 1, Some(&text)).has_teaser());
    let fits = format!("{}{}", "a".repeat(98), "\u{0436}");
    assert!(serve(1, 1, Some(&fits)).has_teaser());
    assert_eq!(serve(1, 1, Some(&fits)).get_100_description(), fits);
    let cut_after = format!("{}{}{}", "a".repeat(98), "\u{0436}", "tail");
    assert!(serve(1, 1, Some(&cut_after)).has_teaser());
    assert_eq!(
        serve(1, 1, Some(&cut_after)).get_100_description(),
        format!("{}{}", "a".repeat(98), "\u{0436}")
    );
    assert!(serve(1, 1, None).has_teaser());
    assert!(serve(1, 1, Some("short")).has_teaser());
}
