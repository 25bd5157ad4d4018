//! Technology categories, the option categories that belong to them, and
//! the priced options ("serves") themselves.
//!
//! The lookups in this file take the rows of the table they search as an
//! argument and return the rows that match, in the order they were given.
use vstd::prelude::*;
use vstd::utf8::{decode_utf8, encode_utf8, encode_utf8_decode_utf8, is_char_boundary};

verus! {

/// Number of bytes a teaser keeps of a description.
pub const TEASER_BYTES: usize = 100;

/// A technology category: groups option categories, at a `level`.
#[derive(Debug, PartialEq, Eq)]
pub struct TechCategories {
    pub id: i32,
    pub name: String,
    pub description: Option<String>,
    pub position: i16,
    pub count: i16,
    pub level: i16,
    pub user_id: i32,
}

impl Clone for TechCategories {
    fn clone(&self) -> (r: Self)
        ensures
            r == *self,
    {
        TechCategories {
            id: self.id,
            name: self.name.clone(),
            description: self.description.clone(),
            position: self.position,
            count: self.count,
            level: self.level,
            user_id: self.user_id,
        }
    }
}

impl TechCategories {
    /// The option categories among `rows` that belong to the technology
    /// category `id`.
    pub open spec fn serve_categories_of(id: i32, rows: Seq<ServeCategories>) -> Seq<
        ServeCategories,
    > {
        rows.filter(|c: ServeCategories| c.tech_categories == id)
    }

    /// The technology categories among `rows` that stand at `level`.
    pub open spec fn at_level(level: i16, rows: Seq<TechCategories>) -> Seq<TechCategories> {
        rows.filter(|t: TechCategories| t.level == level)
    }

    /// The level of the first of `rows` whose id is `id`, if there is one.
    pub open spec fn level_of(id: i32, rows: Seq<TechCategories>) -> Option<i16>
        decreases rows.len(),
    {
        if rows.len() == 0 {
            None
        } else if rows.first().id == id {
            Some(rows.first().level)
        } else {
            Self::level_of(id, rows.drop_first())
        }
    }

    /// The option categories of this technology category, out of `rows`.
    pub fn get_serve_categories(&self, rows: &Vec<ServeCategories>) -> (found: Vec<
        ServeCategories,
    >)
        ensures
            found@ == Self::serve_categories_of(self.id, rows@),
    {
        let ghost keep = |c: ServeCategories| c.tech_categories == self.id;
        let mut found: Vec<ServeCategories> = Vec::new();
        let mut i: usize = 0;
        assert(rows@.take(0).filter(keep) == Seq::<ServeCategories>::empty()) by {
            reveal(Seq::filter);
        }
        while i < rows.len()
            invariant
                i <= rows.len(),
                keep == |c: ServeCategories| c.tech_categories == self.id,
                found@ == rows@.take(i as int).filter(keep),
            decreases rows.len() - i,
        {
            proof {
                rows@.lemma_take_succ_push(i as int);
                rows@.take(i as int).lemma_filter_push(rows@[i as int], keep);
            }
            if rows[i].tech_categories == self.id {
                found.push(rows[i].clone());
            }
            i = i + 1;
        }
        assert(rows@.take(rows.len() as int) == rows@);
        found
    }

    /// The technology categories at `level`, out of `rows`.
    pub fn get_level(level: i16, rows: &Vec<TechCategories>) -> (found: Vec<TechCategories>)
        ensures
            found@ == Self::at_level(level, rows@),
    {
        let ghost keep = |t: TechCategories| t.level == level;
        let mut found: Vec<TechCategories> = Vec::new();
        let mut i: usize = 0;
        assert(rows@.take(0).filter(keep) == Seq::<TechCategories>::empty()) by {
            reveal(Seq::filter);
        }
        while i < rows.len()
            invariant
                i <= rows.len(),
                keep == |t: TechCategories| t.level == level,
                found@ == rows@.take(i as int).filter(keep),
            decreases rows.len() - i,
        {
            proof {
                rows@.lemma_take_succ_push(i as int);
                rows@.take(i as int).lemma_filter_push(rows@[i as int], keep);
            }
            if rows[i].level == level {
                found.push(rows[i].clone());
            }
            i = i + 1;
        }
        assert(rows@.take(rows.len() as int) == rows@);
        found
    }

    /// The technology categories offered when a store with the options
    /// `serves` is edited: those of `rows` at the level of the technology
    /// category of the first option, with that level. There are none where
    /// the store has no option, or where the technology category of its
    /// first option is not among `rows`.
    pub open spec fn peers(serves: Seq<Serve>, rows: Seq<TechCategories>) -> Option<
        (i16, Seq<TechCategories>),
    > {
        if serves.len() == 0 {
            None
        } else {
            match Self::level_of(serves.first().tech_cat_id, rows) {
                Some(level) => Some((level, Self::at_level(level, rows))),
                None => None,
            }
        }
    }

    /// The technology categories offered when a store with the options
    /// `serves` is edited, and their level.
    pub fn get_peers(serves: &Vec<Serve>, rows: &Vec<TechCategories>) -> (found: Option<
        (i16, Vec<TechCategories>),
    >)
        ensures
            match (found, Self::peers(serves@, rows@)) {
                (Some(pair), Some(model)) => pair.0 == model.0 && pair.1@ == model.1,
                (None, None) => true,
                _ => false,
            },
    {
        if serves.len() == 0 {
            return None;
        }
        match Self::find_level(serves[0].tech_cat_id, rows) {
            Some(level) => Some((level, Self::get_level(level, rows))),
            None => None,
        }
    }

    /// The level of the technology category `id`, looked up in `rows`.
    pub fn find_level(id: i32, rows: &Vec<TechCategories>) -> (level: Option<i16>)
        ensures
            level == Self::level_of(id, rows@),
    {
        let mut i: usize = 0;
        assert(rows@.skip(0) == rows@);
        while i < rows.len()
            invariant
                i <= rows.len(),
                Self::level_of(id, rows@) == Self::level_of(id, rows@.skip(i as int)),
            decreases rows.len() - i,
        {
            assert(rows@.skip(i as int).drop_first() == rows@.skip(i as int + 1));
            if rows[i].id == id {
                return Some(rows[i].level);
            }
            i = i + 1;
        }
        None
    }
}

/// What is written when a technology category is created or changed.
#[derive(Debug, PartialEq, Eq)]
pub struct NewTechCategories {
    pub name: String,
    pub description: Option<String>,
    pub position: i16,
    pub count: i16,
    pub level: i16,
    pub user_id: i32,
}

/// A category of options inside one technology category.
#[derive(Debug, PartialEq, Eq)]
pub struct ServeCategories {
    pub id: i32,
    pub name: String,
    pub description: Option<String>,
    pub cat_name: String,
    pub tech_categories: i32,
    pub position: i16,
    pub count: i16,
    pub default_price: i32,
    pub user_id: i32,
}

impl Clone for ServeCategories {
    fn clone(&self) -> (r: Self)
        ensures
            r == *self,
    {
        ServeCategories {
            id: self.id,
            name: self.name.clone(),
            description: self.description.clone(),
            cat_name: self.cat_name.clone(),
            tech_categories: self.tech_categories,
            position: self.position,
            count: self.count,
            default_price: self.default_price,
            user_id: self.user_id,
        }
    }
}

impl ServeCategories {
    /// Whether one of `tech` has the id `id` and stands at `level`.
    pub open spec fn is_at_level(id: i32, level: i16, tech: Seq<TechCategories>) -> bool {
        exists|k: int| 0 <= k < tech.len() && #[trigger] tech[k].id == id && tech[k].level == level
    }

    /// The option categories among `rows` whose technology category is one
    /// of `tech` and stands at `level`.
    pub open spec fn categories_at_level(
        level: i16,
        tech: Seq<TechCategories>,
        rows: Seq<ServeCategories>,
    ) -> Seq<ServeCategories> {
        rows.filter(|c: ServeCategories| Self::is_at_level(c.tech_categories, level, tech))
    }

    /// The options among `rows` that belong to the option category `id`.
    pub open spec fn serves_of(id: i32, rows: Seq<Serve>) -> Seq<Serve> {
        rows.filter(|s: Serve| s.serve_categories == id)
    }

    fn tech_at_level(id: i32, level: i16, tech: &Vec<TechCategories>) -> (yes: bool)
        ensures
            yes == Self::is_at_level(id, level, tech@),
    {
        let mut k: usize = 0;
        while k < tech.len()
            invariant
                k <= tech.len(),
                forall|j: int| 0 <= j < k ==> !(#[trigger] tech@[j].id == id && tech@[j].level == level),
            decreases tech.len() - k,
        {
            if tech[k].id == id && tech[k].level == level {
                return true;
            }
            k = k + 1;
        }
        false
    }

    /// The option categories of every technology category at `level`:
    /// `tech` holds the technology categories, `rows` the option categories.
    pub fn get_categories_from_level(
        level: &i16,
        tech: &Vec<TechCategories>,
        rows: &Vec<ServeCategories>,
    ) -> (found: Vec<ServeCategories>)
        ensures
            found@ == Self::categories_at_level(*level, tech@, rows@),
    {
        let ghost keep = |c: ServeCategories| Self::is_at_level(c.tech_categories, *level, tech@);
        let mut found: Vec<ServeCategories> = Vec::new();
        let mut i: usize = 0;
        assert(rows@.take(0).filter(keep) == Seq::<ServeCategories>::empty()) by {
            reveal(Seq::filter);
        }
        while i < rows.len()
            invariant
                i <= rows.len(),
                keep == |c: ServeCategories| Self::is_at_level(c.tech_categories, *level, tech@),
                found@ == rows@.take(i as int).filter(keep),
            decreases rows.len() - i,
        {
            proof {
                rows@.lemma_take_succ_push(i as int);
                rows@.take(i as int).lemma_filter_push(rows@[i as int], keep);
            }
            if Self::tech_at_level(rows[i].tech_categories, *level, tech) {
                found.push(rows[i].clone());
            }
            i = i + 1;
        }
        assert(rows@.take(rows.len() as int) == rows@);
        found
    }

    /// The options of this option category, out of `rows`.
    pub fn get_serves(&self, rows: &Vec<Serve>) -> (found: Vec<Serve>)
        ensures
            found@ == Self::serves_of(self.id, rows@),
    {
        let ghost keep = |s: Serve| s.serve_categories == self.id;
        let mut found: Vec<Serve> = Vec::new();
        let mut i: usize = 0;
        assert(rows@.take(0).filter(keep) == Seq::<Serve>::empty()) by {
            reveal(Seq::filter);
        }
        while i < rows.len()
            invariant
                i <= rows.len(),
                keep == |s: Serve| s.serve_categories == self.id,
                found@ == rows@.take(i as int).filter(keep),
            decreases rows.len() - i,
        {
            proof {
                rows@.lemma_take_succ_push(i as int);
                rows@.take(i as int).lemma_filter_push(rows@[i as int], keep);
            }
            if rows[i].serve_categories == self.id {
                found.push(rows[i].clone());
            }
            i = i + 1;
        }
        assert(rows@.take(rows.len() as int) == rows@);
        found
    }
}

/// What is written when an option category is created or changed.
#[derive(Debug, PartialEq, Eq)]
pub struct NewServeCategories {
    pub name: String,
    pub description: Option<String>,
    pub cat_name: String,
    pub tech_categories: i32,
    pub position: i16,
    pub count: i16,
    pub default_price: i32,
    pub user_id: i32,
}

/// A priced option. `tech_cat_id` names the technology category its option
/// category belongs to.
#[derive(Debug, PartialEq, Eq)]
pub struct Serve {
    pub id: i32,
    pub name: String,
    pub cat_name: String,
    pub description: Option<String>,
    pub position: i16,
    pub serve_categories: i32,
    pub price: i32,
    pub man_hours: i16,
    pub is_default: bool,
    pub user_id: i32,
    pub tech_cat_id: i32,
    pub types: Option<String>,
}

impl Clone for Serve {
    fn clone(&self) -> (r: Self)
        ensures
            r == *self,
    {
        Serve {
            id: self.id,
            name: self.name.clone(),
            cat_name: self.cat_name.clone(),
            description: self.description.clone(),
            position: self.position,
            serve_categories: self.serve_categories,
            price: self.price,
            man_hours: self.man_hours,
            is_default: self.is_default,
            user_id: self.user_id,
            tech_cat_id: self.tech_cat_id,
            types: self.types.clone(),
        }
    }
}

impl Serve {
    /// Whether a teaser can be cut from `description`: a text longer than
    /// `TEASER_BYTES` bytes is cut at that byte, which must not lie inside a
    /// character.
    pub open spec fn teaser_defined(description: Option<String>) -> bool {
        description matches Some(text) ==> encode_utf8(text@).len() > TEASER_BYTES
            ==> is_char_boundary(encode_utf8(text@), TEASER_BYTES as int)
    }

    /// The teaser of `description`: nothing where there is no description,
    /// the whole text where its UTF-8 form has at most `TEASER_BYTES` bytes,
    /// else the characters that the first `TEASER_BYTES` bytes encode.
    pub open spec fn teaser(description: Option<String>) -> Seq<char> {
        match description {
            Some(text) => if encode_utf8(text@).len() > TEASER_BYTES {
                decode_utf8(encode_utf8(text@).subrange(0, TEASER_BYTES as int))
            } else {
                text@
            },
            None => Seq::empty(),
        }
    }

    /// Whether a teaser can be cut from the description, see
    /// `teaser_defined`.
    pub fn has_teaser(&self) -> (yes: bool)
        ensures
            yes == Self::teaser_defined(self.description),
    {
        match &self.description {
            Some(text) => {
                let content: &str = text.as_str();
                content.as_bytes().len() <= TEASER_BYTES || content.is_char_boundary(TEASER_BYTES)
            },
            None => true,
        }
    }

    /// The first hundred bytes of the description, as text.
    pub fn get_100_description(&self) -> (teaser: String)
        requires
            Self::teaser_defined(self.description),
        ensures
            teaser@ == Self::teaser(self.description),
    {
        match &self.description {
            Some(text) => {
                let content: &str = text.as_str();
                if content.as_bytes().len() > TEASER_BYTES {
                    let (head, _tail) = content.split_at(TEASER_BYTES);
                    let teaser = head.to_owned();
                    proof {
                        encode_utf8_decode_utf8(teaser@);
                    }
                    teaser
                } else {
                    content.to_owned()
                }
            },
            None => String::new(),
        }
    }
}

/// What is written when an option is created.
#[derive(Debug, PartialEq, Eq)]
pub struct NewServe {
    pub name: String,
    pub cat_name: String,
    pub description: Option<String>,
    pub position: i16,
    pub serve_categories: i32,
    pub price: i32,
    pub man_hours: i16,
    pub is_default: bool,
    pub user_id: i32,
    pub tech_cat_id: i32,
    pub types: Option<String>,
}

/// What is written when an option is changed.
#[derive(Debug, PartialEq, Eq)]
pub struct EditServe {
    pub name: String,
    pub cat_name: String,
    pub description: Option<String>,
    pub position: i16,
    pub serve_categories: i32,
    pub price: i32,
    pub man_hours: i16,
    pub is_default: bool,
    pub types: Option<String>,
}

/// An option chosen for a service, a store or a work. Of the three ids the
/// one that applies is set, the others are 0.
#[derive(Debug, Clone, Copy, PartialEq, Eq)]
pub struct ServeItems {
    pub id: i32,
    pub serve_id: i32,
    pub service_id: i32,
    pub store_id: i32,
    pub work_id: i32,
}

/// What is written when an option is chosen.
#[derive(Debug, Clone, Copy, PartialEq, Eq)]
pub struct NewServeItems {
    pub serve_id: i32,
    pub service_id: i32,
    pub store_id: i32,
    pub work_id: i32,
}

/// A technology category linked to a service, a store or a work. `types`
/// tells the two kinds of link apart, see `TECH_LINK_ACTIVE` and
/// `TECH_LINK_SUPPLEMENTARY`.
#[derive(Debug, Clone, Copy, PartialEq, Eq)]
pub struct TechCategoriesItem {
    pub id: i32,
    pub category_id: i32,
    pub service_id: i32,
    pub store_id: i32,
    pub work_id: i32,
    pub types: i16,
}

/// What is written when a technology category is linked.
#[derive(Debug, Clone, Copy, PartialEq, Eq)]
pub struct NewTechCategoriesItem {
    pub category_id: i32,
    pub service_id: i32,
    pub store_id: i32,
    pub work_id: i32,
    pub types: i16,
}

/// `types` of a link to a technology category that one of the chosen options
/// belongs to.
pub const TECH_LINK_ACTIVE: i16 = 1;

/// `types` of a link to a technology category whose options are offered in
/// addition.
pub const TECH_LINK_SUPPLEMENTARY: i16 = 2;

} // verus!
