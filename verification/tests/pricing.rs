use catalog::models::serve::Serve;
use catalog::pricing::{
    chosen_serves, price_store, prices_add_up, PriceSchedule, StorePricing, Tier,
};

fn serve(id: i32, price: i32, tech_cat_id: i32) -> Serve {
    Serve {
        id,
        name: format!("serve {}", id),
        cat_name: "cat".to_string(),
        description: None,
        position: 0,
        serve_categories: 1,
        price,
        man_hours: 1,
        is_default: false,
        user_id: 1,
        tech_cat_id,
        types: None,
    }
}

fn table() -> Vec<Serve> {
    vec![serve(1, 100, 10), serve(2, 250, 20), serve(3, 40, 10), serve(4, 1000, 30)]
}

fn schedule() -> PriceSchedule {
    PriceSchedule::new(
        5,
        vec![
            Tier { threshold: 100, value: 10 },
            Tier { threshold: 500, value: 10 },
            Tier { threshold: 1000, value: 70 },
        ],
    )
    .unwrap()
}

#[test]
fn schedule_gives_the_value_of_the_last_threshold_reached() {
    let schedule = schedule();
    assert_eq!(schedule.price_acc(i32::MIN), 5);
    assert_eq!(schedule.price_acc(0), 5);
    assert_eq!(schedule.price_acc(99), 5);
    assert_eq!(schedule.price_acc(100), 10);
    assert_eq!(schedule.price_acc(499), 10);
    assert_eq!(schedule.price_acc(500), 10);
    assert_eq!(schedule.price_acc(999), 10);
    assert_eq!(schedule.price_acc(1000), 70);
    assert_eq!(schedule.price_acc(i32::MAX), 70);
}

#[test]
fn schedule_without_tiers_is_flat() {
    let flat = PriceSchedule::new(-3, vec![]).unwrap();
    assert_eq!(flat.price_acc(i32::MIN), -3);
    assert_eq!(flat.price_acc(0), -3);
    assert_eq!(flat.price_acc(i32::MAX), -3);
}

#[test]
fn schedule_never_falls() {
    let schedule = schedule();
    let mut last = schedule.price_acc(-50);
    for total in -49..1200 {
        let acc = schedule.price_acc(total);
        assert!(last <= acc);
        assert_eq!(acc, schedule.price_acc(total));
        last = acc;
    }
}

#[test]
fn schedule_that_falls_is_refused() {
    let falling = vec![Tier { threshold: 1, value: 10 }, Tier { threshold: 2, value: 9 }];
    assert!(PriceSchedule::new(0, falling).is_none());
    let below_base = vec![Tier { threshold: 1, value: 10 }];
    assert!(PriceSchedule::new(11, below_base).is_none());
    let later_below_base = vec![Tier { threshold: 1, value: 10 }, Tier { threshold: 2, value: 10 }];
    assert!(PriceSchedule::new(10, later_below_base).is_some());
}

#[test]
fn schedule_with_unordered_thresholds_is_refused() {
    let repeated = vec![Tier { threshold: 5, value: 1 }, Tier { threshold: 5, value: 2 }];
    assert!(PriceSchedule::new(0, repeated).is_none());
    let descending = vec![Tier { threshold: 5, value: 1 }, Tier { threshold: 4, value: 2 }];
    assert!(PriceSchedule::new(0, descending).is_none());
    let late = vec![
        Tier { threshold: 1, value: 1 },
        Tier { threshold: 2, value: 2 },
        Tier { threshold: 2, value: 3 },
    ];
    assert!(PriceSchedule::new(0, late).is_none());
}

#[test]
fn tech_categories_are_kept_once_in_the_order_they_first_occur() {
    let serves = vec![
        serve(1, 1, 30),
        serve(2, 1, 10),
        serve(3, 1, 30),
        serve(4, 1, 20),
        serve(5, 1, 10),
        serve(6, 1, 30),
    ];
    assert_eq!(price_store(&serves, &schedule()).tech_cat_ids, vec![30, 10, 20]);
    let same = vec![serve(1, 1, 7), serve(2, 1, 7), serve(3, 1, 7)];
    assert_eq!(price_store(&same, &schedule()).tech_cat_ids, vec![7]);
}

#[test]
fn chosen_serves_are_those_that_exist() {
    let found = chosen_serves(&table(), &vec![4, 9, 1]);
    assert_eq!(found, vec![serve(1, 100, 10), serve(4, 1000, 30)]);
    assert_eq!(chosen_serves(&table(), &vec![9, 8]), vec![]);
    assert_eq!(chosen_serves(&table(), &vec![]), vec![]);
}

#[test]
fn a_serve_chosen_twice_is_fetched_once() {
    let found = chosen_serves(&table(), &vec![2, 2, 3]);
    assert_eq!(found, vec![serve(2, 250, 20), serve(3, 40, 10)]);
}

#[test]
fn store_price_is_the_sum_of_the_serves() {
    let serves = chosen_serves(&table(), &vec![1, 2, 3]);
    let pricing = price_store(&serves, &schedule());
    assert_eq!(
        pricing,
        StorePricing { price: 390, price_acc: 10, tech_cat_ids: vec![10, 20] }
    );
}

#[test]
fn store_price_leaves_out_serves_that_do_not_exist() {
    let with_unknown = chosen_serves(&table(), &vec![1, 77, 4, 78]);
    let without = chosen_serves(&table(), &vec![1, 4]);
    let pricing = price_store(&with_unknown, &schedule());
    assert_eq!(pricing, price_store(&without, &schedule()));
    assert_eq!(pricing.price, 1100);
    assert_eq!(pricing.price_acc, 70);
    assert_eq!(pricing.tech_cat_ids, vec![10, 30]);
}

#[test]
fn store_without_serves_costs_nothing() {
    let pricing = price_store(&vec![], &schedule());
    assert_eq!(pricing, StorePricing { price: 0, price_acc: 5, tech_cat_ids: vec![] });
}

#[test]
fn store_price_can_reach_the_end_of_its_type() {
    let serves = vec![serve(1, i32::MAX - 1, 1), serve(2, 1, 1), serve(3, -5, 2)];
    let pricing = price_store(&serves, &schedule());
    assert_eq!(pricing.price, i32::MAX - 5);
    assert_eq!(pricing.tech_cat_ids, vec![1, 2]);
}

#[test]
fn a_larger_total_never_has_a_smaller_accumulated_price() {
    let schedule = schedule();
    let small = price_store(&chosen_serves(&table(), &vec![3]), &schedule);
    let medium = price_store(&chosen_serves(&table(), &vec![1, 2]), &schedule);
    let large = price_store(&chosen_serves(&table(), &vec![1, 2, 3, 4]), &schedule);
    assert_eq!((small.price, small.price_acc), (40, 5));
    assert_eq!((medium.price, medium.price_acc), (350, 10));
    assert_eq!((large.price, large.price_acc), (1390, 70));
}

#[test]
fn prices_that_leave_their_type_on_the_way_do_not_add_up() {
    assert!(prices_add_up(&vec![]));
    assert!(prices_add_up(&vec![serve(1, i32::MAX, 1)]));
    assert!(prices_add_up(&vec![serve(1, i32::MAX, 1), serve(2, -1, 1), serve(3, 1, 1)]));
    assert!(!prices_add_up(&vec![serve(1, i32::MAX, 1), serve(2, 1, 1), serve(3, -1, 1)]));
    assert!(!prices_add_up(&vec![serve(1, i32::MIN, 1), serve(2, -1, 1)]));
    assert!(prices_add_up(&vec![serve(1, i32::MIN, 1), serve(2, i32::MAX, 1), serve(3, i32::MAX, 1)]));
}
