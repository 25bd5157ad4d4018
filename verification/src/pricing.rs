//! The price of a store: the sum of the prices of the options chosen for it,
//! and the accumulated price that a schedule derives from that sum.
use vstd::prelude::*;
use crate::ids::{contains_id, distinct, lemma_distinct};
use crate::models::serve::Serve;

verus! {

/// One step of a price schedule: from the total `threshold` upwards the
/// accumulated price is `value`.
#[derive(Debug, Clone, Copy, PartialEq, Eq)]
pub struct Tier {
    pub threshold: i32,
    pub value: i32,
}

/// A price schedule: the accumulated price as a rising step function of the
/// total price. Below the first threshold it is `base`.
#[derive(Debug)]
pub struct PriceSchedule {
    base: i32,
    tiers: Vec<Tier>,
}

/// Whether `tiers` describe a rising step function above `base`: the
/// thresholds grow strictly, the values never fall, and none lies under
/// `base`.
pub open spec fn is_rising(base: i32, tiers: Seq<Tier>) -> bool {
    &&& forall|i: int, j: int|
        0 <= i < j < tiers.len() ==> (#[trigger] tiers[i]).threshold < (#[trigger] tiers[j]).threshold
            && tiers[i].value <= tiers[j].value
    &&& forall|i: int| 0 <= i < tiers.len() ==> base <= (#[trigger] tiers[i]).value
}

/// The value of the step function at `total`: the value of the last tier
/// whose threshold `total` has reached, `base` where it has reached none.
pub open spec fn value_at(base: i32, tiers: Seq<Tier>, total: int) -> int
    decreases tiers.len(),
{
    if tiers.len() == 0 {
        base as int
    } else if tiers.last().threshold <= total {
        tiers.last().value as int
    } else {
        value_at(base, tiers.drop_last(), total)
    }
}

impl PriceSchedule {
    /// The accumulated price below the first threshold.
    pub closed spec fn base(&self) -> i32 {
        self.base
    }

    /// The steps, by rising threshold.
    pub closed spec fn tiers(&self) -> Seq<Tier> {
        self.tiers@
    }

    /// Every schedule is a rising step function.
    #[verifier::type_invariant]
    pub closed spec fn is_valid(&self) -> bool {
        is_rising(self.base, self.tiers@)
    }

    /// The accumulated price that the schedule gives for the total price
    /// `total`.
    pub open spec fn accumulated(&self, total: int) -> int {
        value_at(self.base(), self.tiers(), total)
    }

    /// The schedule with the given steps, if they rise.
    pub fn new(base: i32, tiers: Vec<Tier>) -> (schedule: Option<Self>)
        ensures
            schedule is Some <==> is_rising(base, tiers@),
            schedule matches Some(s) ==> s.base() == base && s.tiers() == tiers@ && s.is_valid(),
    {
        let mut i: usize = 0;
        while i < tiers.len()
            invariant
                i <= tiers.len(),
                is_rising(base, tiers@.take(i as int)),
            decreases tiers.len() - i,
        {
            let fits = base <= tiers[i].value && (i == 0 || (tiers[i - 1].threshold
                < tiers[i].threshold && tiers[i - 1].value <= tiers[i].value));
            if !fits {
                proof {
                    if is_rising(base, tiers@) {
                        assert(base <= tiers@[i as int].value);
                        if i > 0 {
                            assert(tiers@[i - 1].threshold < tiers@[i as int].threshold);
                        }
                    }
                }
                return None;
            }
            proof {
                let before = tiers@.take(i as int);
                let after = tiers@.take(i + 1);
                assert forall|a: int, b: int| 0 <= a < b < after.len() implies (#[trigger] after[a]).threshold
                    < (#[trigger] after[b]).threshold && after[a].value <= after[b].value by {
                    if b < i {
                        assert(before[a].threshold < before[b].threshold);
                    } else if a < i - 1 {
                        assert(before[a].threshold < before[i - 1].threshold);
                    }
                }
                assert forall|a: int| 0 <= a < after.len() implies base <= (#[trigger] after[a]).value by {
                    if a < i {
                        assert(base <= before[a].value);
                    }
                }
            }
            i = i + 1;
        }
        assert(tiers@.take(tiers.len() as int) == tiers@);
        Some(PriceSchedule { base, tiers })
    }

    /// The accumulated price for the total price `total`.
    pub fn price_acc(&self, total: i32) -> (acc: i32)
        ensures
            acc == self.accumulated(total as int),
    {
        let mut i: usize = self.tiers.len();
        assert(self.tiers@.take(i as int) == self.tiers@);
        while i > 0
            invariant
                i <= self.tiers.len(),
                value_at(self.base, self.tiers@, total as int) == value_at(
                    self.base,
                    self.tiers@.take(i as int),
                    total as int,
                ),
            decreases i,
        {
            assert(self.tiers@.take(i as int).drop_last() == self.tiers@.take(i - 1));
            i = i - 1;
            if self.tiers[i].threshold <= total {
                return self.tiers[i].value;
            }
        }
        self.base
    }
}

/// The value of a step function is `base` or the value of one of its tiers.
proof fn lemma_value_at_is_a_value(base: i32, tiers: Seq<Tier>, total: int)
    ensures
        value_at(base, tiers, total) == base || exists|k: int|
            0 <= k < tiers.len() && value_at(base, tiers, total) == (#[trigger] tiers[k]).value,
    decreases tiers.len(),
{
    if tiers.len() > 0 {
        if tiers.last().threshold <= total {
            assert(tiers[tiers.len() - 1].value == value_at(base, tiers, total));
        } else {
            lemma_value_at_is_a_value(base, tiers.drop_last(), total);
            if value_at(base, tiers, total) != base {
                let k = choose|k: int|
                    0 <= k < tiers.drop_last().len() && value_at(base, tiers.drop_last(), total) == (
                    #[trigger] tiers.drop_last()[k]).value;
                assert(tiers[k].value == value_at(base, tiers, total));
            }
        }
    }
}

/// A rising step function never falls: a larger total never has a smaller
/// value.
pub proof fn lemma_value_at_monotone(base: i32, tiers: Seq<Tier>, low: int, high: int)
    requires
        is_rising(base, tiers),
        low <= high,
    ensures
        value_at(base, tiers, low) <= value_at(base, tiers, high),
    decreases tiers.len(),
{
    if tiers.len() > 0 {
        let rest = tiers.drop_last();
        assert(is_rising(base, rest)) by {
            assert forall|i: int, j: int| 0 <= i < j < rest.len() implies (#[trigger] rest[i]).threshold
                < (#[trigger] rest[j]).threshold && rest[i].value <= rest[j].value by {
                assert(tiers[i].threshold < tiers[j].threshold);
            }
            assert forall|i: int| 0 <= i < rest.len() implies base <= (#[trigger] rest[i]).value by {
                assert(base <= tiers[i].value);
            }
        }
        if tiers.last().threshold <= low {
        } else if tiers.last().threshold <= high {
            lemma_value_at_is_a_value(base, rest, low);
            if value_at(base, rest, low) != base {
                let k = choose|k: int|
                    0 <= k < rest.len() && value_at(base, rest, low) == (#[trigger] rest[k]).value;
                assert(tiers[k].value <= tiers[tiers.len() - 1].value);
            } else {
                assert(base <= tiers[tiers.len() - 1].value);
            }
        } else {
            lemma_value_at_monotone(base, rest, low, high);
        }
    }
}

/// The sum of the prices of `serves`.
pub open spec fn total_price(serves: Seq<Serve>) -> int
    decreases serves.len(),
{
    if serves.len() == 0 {
        0
    } else {
        total_price(serves.drop_last()) + serves.last().price
    }
}

/// Whether the prices of `serves` can be added up one after the other
/// without leaving `i32`.
pub open spec fn sums_fit(serves: Seq<Serve>) -> bool {
    forall|k: int|
        0 <= k <= serves.len() ==> i32::MIN <= #[trigger] total_price(serves.take(k)) <= i32::MAX
}

/// The technology categories of `serves`, each once, in the order in which
/// they first occur.
pub open spec fn tech_categories_of(serves: Seq<Serve>) -> Seq<i32> {
    distinct(serves.map_values(|s: Serve| s.tech_cat_id))
}

/// The options among `table` whose id is one of `ids`. An id that no option
/// has selects nothing, and an id named twice selects its option once.
pub open spec fn chosen(table: Seq<Serve>, ids: Seq<i32>) -> Seq<Serve> {
    table.filter(|s: Serve| ids.contains(s.id))
}

/// The options of `table` that `ids` select.
pub fn chosen_serves(table: &Vec<Serve>, ids: &Vec<i32>) -> (found: Vec<Serve>)
    ensures
        found@ == chosen(table@, ids@),
{
    let ghost keep = |s: Serve| ids@.contains(s.id);
    let mut found: Vec<Serve> = Vec::new();
    let mut i: usize = 0;
    assert(table@.take(0).filter(keep) == Seq::<Serve>::empty()) by {
        reveal(Seq::filter);
    }
    while i < table.len()
        invariant
            i <= table.len(),
            keep == |s: Serve| ids@.contains(s.id),
            found@ == table@.take(i as int).filter(keep),
        decreases table.len() - i,
    {
        proof {
            table@.lemma_take_succ_push(i as int);
            table@.take(i as int).lemma_filter_push(table@[i as int], keep);
        }
        if contains_id(ids, table[i].id) {
            found.push(table[i].clone());
        }
        i = i + 1;
    }
    assert(table@.take(table.len() as int) == table@);
    found
}

/// No two options of `table` share an id.
pub open spec fn keyed(table: Seq<Serve>) -> bool {
    forall|i: int, j: int|
        0 <= i < j < table.len() ==> (#[trigger] table[i]).id != (#[trigger] table[j]).id
}

/// The price of the option `id` in `table`; 0 where no option has that id.
pub open spec fn price_of(table: Seq<Serve>, id: i32) -> int
    decreases table.len(),
{
    if table.len() == 0 {
        0
    } else if table.last().id == id {
        table.last().price as int
    } else {
        price_of(table.drop_last(), id)
    }
}

/// The sum over `ids` of the price of each option that exists.
pub open spec fn selected_total(table: Seq<Serve>, ids: Seq<i32>) -> int
    decreases ids.len(),
{
    if ids.len() == 0 {
        0
    } else {
        selected_total(table, ids.drop_last()) + price_of(table, ids.last())
    }
}

proof fn lemma_price_of_unknown(table: Seq<Serve>, id: i32)
    requires
        forall|i: int| 0 <= i < table.len() ==> (#[trigger] table[i]).id != id,
    ensures
        price_of(table, id) == 0,
    decreases table.len(),
{
    if table.len() > 0 {
        assert(table[table.len() - 1].id != id);
        assert forall|i: int| 0 <= i < table.drop_last().len() implies (#[trigger] table.drop_last()[i]).id
            != id by {
            assert(table[i].id != id);
        }
        lemma_price_of_unknown(table.drop_last(), id);
    }
}

proof fn lemma_selected_total_grows(table: Seq<Serve>, ids: Seq<i32>)
    requires
        table.len() > 0,
        keyed(table),
        ids.no_duplicates(),
    ensures
        selected_total(table, ids) == selected_total(table.drop_last(), ids) + if ids.contains(
            table.last().id,
        ) {
            table.last().price as int
        } else {
            0
        },
    decreases ids.len(),
{
    let rest = table.drop_last();
    let added = table.last();
    if ids.len() > 0 {
        let before = ids.drop_last();
        let id = ids.last();
        lemma_selected_total_grows(table, before);
        if id == added.id {
            assert(ids[ids.len() - 1] == added.id);
            if before.contains(added.id) {
                let k = choose|k: int| 0 <= k < before.len() && before[k] == added.id;
                assert(ids[k] == ids[ids.len() - 1]);
            }
            assert forall|i: int| 0 <= i < rest.len() implies (#[trigger] rest[i]).id != id by {
                assert(table[i].id != table[table.len() - 1].id);
            }
            lemma_price_of_unknown(rest, id);
        } else {
            if ids.contains(added.id) {
                let k = choose|k: int| 0 <= k < ids.len() && ids[k] == added.id;
                assert(before[k] == added.id);
            }
            if before.contains(added.id) {
                let k = choose|k: int| 0 <= k < before.len() && before[k] == added.id;
                assert(ids[k] == added.id);
            }
        }
    }
}

/// The price of a store is the sum, over the ids selected, of the price of
/// each option that exists: an id that no option has adds nothing. This
/// holds of a selection that names no id twice.
pub proof fn lemma_total_of_selection(table: Seq<Serve>, ids: Seq<i32>)
    requires
        keyed(table),
        ids.no_duplicates(),
    ensures
        total_price(chosen(table, ids)) == selected_total(table, ids),
    decreases table.len(),
{
    let keep = |s: Serve| ids.contains(s.id);
    if table.len() == 0 {
        assert(chosen(table, ids) == Seq::<Serve>::empty()) by {
            reveal(Seq::filter);
        }
        assert(table == Seq::<Serve>::empty());
        lemma_selected_total_of_nothing(ids);
    } else {
        let rest = table.drop_last();
        assert(keyed(rest)) by {
            assert forall|i: int, j: int| 0 <= i < j < rest.len() implies (#[trigger] rest[i]).id != (
            #[trigger] rest[j]).id by {
                assert(table[i].id != table[j].id);
            }
        }
        lemma_total_of_selection(rest, ids);
        lemma_selected_total_grows(table, ids);
        assert(rest.push(table.last()) == table);
        rest.lemma_filter_push(table.last(), keep);
        assert(chosen(table, ids) == table.filter(keep));
        assert(chosen(rest, ids) == rest.filter(keep));
        if ids.contains(table.last().id) {
            assert(keep(table.last()));
            assert(chosen(table, ids) == chosen(rest, ids).push(table.last()));
            assert(chosen(table, ids).drop_last() == chosen(rest, ids));
            assert(chosen(table, ids).last() == table.last());
        } else {
            assert(!keep(table.last()));
            assert(chosen(table, ids) == chosen(rest, ids));
        }
    }
}

proof fn lemma_selected_total_of_nothing(ids: Seq<i32>)
    ensures
        selected_total(Seq::<Serve>::empty(), ids) == 0,
    decreases ids.len(),
{
    if ids.len() > 0 {
        lemma_selected_total_of_nothing(ids.drop_last());
    }
}

/// Whether the prices of `serves` can be added up one after the other
/// without leaving `i32`.
pub fn prices_add_up(serves: &Vec<Serve>) -> (yes: bool)
    ensures
        yes == sums_fit(serves@),
{
    let mut total: i64 = 0;
    let mut i: usize = 0;
    while i < serves.len()
        invariant
            i <= serves.len(),
            total == total_price(serves@.take(i as int)),
            forall|k: int|
                0 <= k <= i ==> i32::MIN <= #[trigger] total_price(serves@.take(k)) <= i32::MAX,
        decreases serves.len() - i,
    {
        assert(serves@.take(i + 1).drop_last() == serves@.take(i as int));
        total = total + serves[i].price as i64;
        if total < i32::MIN as i64 || total > i32::MAX as i64 {
            assert(!(i32::MIN <= total_price(serves@.take(i + 1)) <= i32::MAX));
            return false;
        }
        i = i + 1;
    }
    true
}

/// What the options chosen for a store amount to.
#[derive(Debug, PartialEq, Eq)]
pub struct StorePricing {
    /// The store's price: the sum of the options' prices.
    pub price: i32,
    /// The accumulated price that the schedule gives for `price`.
    pub price_acc: i32,
    /// The technology categories that the options belong to.
    pub tech_cat_ids: Vec<i32>,
}

/// Prices a store from the options fetched for it.
pub fn price_store(serves: &Vec<Serve>, schedule: &PriceSchedule) -> (pricing: StorePricing)
    requires
        sums_fit(serves@),
    ensures
        pricing.price == total_price(serves@),
        pricing.price_acc == schedule.accumulated(total_price(serves@)),
        pricing.tech_cat_ids@ == tech_categories_of(serves@),
        pricing.tech_cat_ids@.no_duplicates(),
        forall|id: i32|
            pricing.tech_cat_ids@.contains(id) <==> exists|k: int|
                0 <= k < serves.len() && (#[trigger] serves@[k]).tech_cat_id == id,
{
    let ghost tech = |s: Serve| s.tech_cat_id;
    let mut tech_cat_ids: Vec<i32> = Vec::new();
    let mut store_price: i32 = 0;
    let mut i: usize = 0;
    while i < serves.len()
        invariant
            i <= serves.len(),
            sums_fit(serves@),
            tech == |s: Serve| s.tech_cat_id,
            store_price == total_price(serves@.take(i as int)),
            tech_cat_ids@ == distinct(serves@.take(i as int).map_values(tech)),
        decreases serves.len() - i,
    {
        proof {
            assert(serves@.take(i + 1).drop_last() == serves@.take(i as int));
            assert(serves@.take(i + 1).map_values(tech).drop_last() == serves@.take(
                i as int,
            ).map_values(tech));
            assert(i32::MIN <= total_price(serves@.take(i + 1)) <= i32::MAX);
        }
        if !contains_id(&tech_cat_ids, serves[i].tech_cat_id) {
            tech_cat_ids.push(serves[i].tech_cat_id);
        }
        store_price = store_price + serves[i].price;
        i = i + 1;
    }
    assert(serves@.take(serves.len() as int) == serves@);
    proof {
        let all = serves@.map_values(tech);
        lemma_distinct(all);
        assert forall|id: i32|
            tech_cat_ids@.contains(id) <==> exists|k: int|
                0 <= k < serves.len() && (#[trigger] serves@[k]).tech_cat_id == id by {
            assert(distinct(all).contains(id) <==> all.contains(id));
            if all.contains(id) {
                let k = choose|k: int| 0 <= k < all.len() && all[k] == id;
                assert(serves@[k].tech_cat_id == id);
            }
            if exists|k: int| 0 <= k < serves.len() && (#[trigger] serves@[k]).tech_cat_id == id {
                let k = choose|k: int|
                    0 <= k < serves.len() && (#[trigger] serves@[k]).tech_cat_id == id;
                assert(all[k] == id);
            }
        }
    }
    let price_acc = schedule.price_acc(store_price);
    StorePricing { price: store_price, price_acc, tech_cat_ids }
}

/// The accumulated price follows the total price: stores whose options add
/// up to the same total get the same accumulated price, and a store whose
/// options add up to more never gets a smaller one.
pub proof fn lemma_price_acc_follows_price(
    schedule: PriceSchedule,
    serves: Seq<Serve>,
    others: Seq<Serve>,
)
    requires
        schedule.is_valid(),
    ensures
        total_price(serves) == total_price(others) ==> schedule.accumulated(total_price(serves))
            == schedule.accumulated(total_price(others)),
        total_price(serves) <= total_price(others) ==> schedule.accumulated(total_price(serves))
            <= schedule.accumulated(total_price(others)),
{
    if total_price(serves) <= total_price(others) {
        lemma_value_at_monotone(
            schedule.base(),
            schedule.tiers(),
            total_price(serves),
            total_price(others),
        );
    }
}

} // verus!
