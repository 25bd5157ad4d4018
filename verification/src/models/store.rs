//! Stores, their categories, and the rows that link and decorate them.
use vstd::prelude::*;
use crate::accounting::{Counted, ItemKind};
use crate::clock::now;

verus! {

/// A category of stores. `count` is the number of stores linked to it.
#[derive(Debug, PartialEq, Eq)]
pub struct StoreCategories {
    pub id: i32,
    pub name: String,
    pub description: Option<String>,
    pub position: i32,
    pub image: Option<String>,
    pub count: i32,
}

impl Clone for StoreCategories {
    fn clone(&self) -> (r: Self)
        ensures
            r == *self,
    {
        StoreCategories {
            id: self.id,
            name: self.name.clone(),
            description: self.description.clone(),
            position: self.position,
            image: self.image.clone(),
            count: self.count,
        }
    }
}

impl Counted for StoreCategories {
    open spec fn key(&self) -> i32 {
        self.id
    }

    open spec fn shifted(&self, kind: ItemKind, delta: int) -> Self {
        StoreCategories { count: (self.count + delta) as i32, ..*self }
    }

    open spec fn has_room(&self, kind: ItemKind, delta: int) -> bool {
        kind == ItemKind::Store && i32::MIN <= self.count + delta <= i32::MAX
    }

    open spec fn count_of(&self, kind: ItemKind) -> int {
        self.count as int
    }

    proof fn lemma_shifted(&self, kind: ItemKind, a: int, b: int) {
    }

    proof fn lemma_shifted_zero(&self, kind: ItemKind) {
    }

    fn id(&self) -> (id: i32) {
        self.id
    }

    fn can_take(&self, kind: ItemKind, times: usize) -> (yes: bool) {
        match kind {
            ItemKind::Store => self.count as i128 + times as i128 <= i32::MAX as i128,
            ItemKind::Service => false,
        }
    }

    fn can_give(&self, kind: ItemKind) -> (yes: bool) {
        match kind {
            ItemKind::Store => self.count > i32::MIN,
            ItemKind::Service => false,
        }
    }

    fn attach(&mut self, kind: ItemKind, times: usize) {
        self.count = (self.count as i128 + times as i128) as i32;
    }

    fn detach(&mut self, kind: ItemKind) {
        self.count = self.count - 1;
    }
}

impl StoreCategories {
    /// Whether one of `links` ties the store `store_id` to the category
    /// `category_id`.
    pub open spec fn is_linked(links: Seq<StoreCategory>, category_id: i32, store_id: i32) -> bool {
        exists|k: int|
            0 <= k < links.len() && #[trigger] links[k].store_categories_id == category_id
                && links[k].store_id == store_id
    }

    /// The stores of the category `category_id` that a visitor may see:
    /// those of `stores` that are active and linked to it, in the order of
    /// `stores`.
    pub open spec fn listing(category_id: i32, links: Seq<StoreCategory>, stores: Seq<Store>) -> Seq<
        Store,
    > {
        stores.filter(|s: Store| s.is_active && Self::is_linked(links, category_id, s.id))
    }

    /// At most `limit` items of `listing`, after the first `offset`.
    pub open spec fn window(listing: Seq<Store>, limit: int, offset: int) -> Seq<Store> {
        let from = if offset < listing.len() { offset } else { listing.len() as int };
        let to = if offset + limit < listing.len() { offset + limit } else { listing.len() as int };
        listing.subrange(from, to)
    }

    /// The offset at which page `page` of `limit` stores begins.
    pub open spec fn page_offset(page: int, limit: int) -> int {
        if page > 1 {
            page * limit + 1
        } else {
            0
        }
    }

    /// The offset at which a store must exist for page `page` to have a
    /// successor.
    pub open spec fn probe_offset(page: int, limit: int) -> int {
        if page > 1 {
            page * limit + 1
        } else {
            limit + 1
        }
    }

    fn linked(&self, links: &Vec<StoreCategory>, store_id: i32) -> (yes: bool)
        ensures
            yes == Self::is_linked(links@, self.id, store_id),
    {
        let mut k: usize = 0;
        while k < links.len()
            invariant
                k <= links.len(),
                forall|j: int|
                    0 <= j < k ==> !(#[trigger] links@[j].store_categories_id == self.id
                        && links@[j].store_id == store_id),
            decreases links.len() - k,
        {
            if links[k].store_categories_id == self.id && links[k].store_id == store_id {
                return true;
            }
            k = k + 1;
        }
        false
    }

    /// One page of the category's stores and the number of the page that
    /// follows it, 0 where none does. `stores` lists all stores, newest
    /// first; `links` ties stores to categories.
    pub fn get_stores_list(
        &self,
        page: i32,
        limit: i32,
        links: &Vec<StoreCategory>,
        stores: &Vec<Store>,
    ) -> (result: (Vec<Store>, i32))
        requires
            listable(
                page as int,
                limit as int,
                Self::listing(self.id, links@, stores@).len() as int,
            ),
        ensures
            result.0@ == Self::window(
                Self::listing(self.id, links@, stores@),
                limit as int,
                Self::page_offset(page as int, limit as int),
            ),
            result.1 == if Self::listing(self.id, links@, stores@).len() > Self::probe_offset(
                page as int,
                limit as int,
            ) {
                page + 1
            } else {
                0
            },
    {
        let mut next_page_number: i32 = 0;
        let have_next: i32;
        let object_list: Vec<Store>;

        if page > 1 {
            assert(0 <= page * limit) by (nonlinear_arith)
                requires
                    page > 1,
                    limit >= 0,
            ;
            have_next = page * limit + 1;
            object_list = self.get_stores(limit as i64, have_next as i64, links, stores);
        } else {
            have_next = limit + 1;
            object_list = self.get_stores(limit as i64, 0, links, stores);
        }
        if self.get_stores(1, have_next as i64, links, stores).len() > 0 {
            next_page_number = page + 1;
        }
        (object_list, next_page_number)
    }

    /// The number of stores that the category lists. `stores` lists all
    /// stores; `links` ties stores to categories.
    pub fn count_stores(&self, links: &Vec<StoreCategory>, stores: &Vec<Store>) -> (n: usize)
        ensures
            n == Self::listing(self.id, links@, stores@).len(),
    {
        let ghost keep = |s: Store| s.is_active && Self::is_linked(links@, self.id, s.id);
        let mut n: usize = 0;
        let mut i: usize = 0;
        assert(stores@.take(0).filter(keep) == Seq::<Store>::empty()) by {
            reveal(Seq::filter);
        }
        while i < stores.len()
            invariant
                i <= stores.len(),
                n <= i,
                keep == |s: Store| s.is_active && Self::is_linked(links@, self.id, s.id),
                n == stores@.take(i as int).filter(keep).len(),
            decreases stores.len() - i,
        {
            proof {
                stores@.lemma_take_succ_push(i as int);
                stores@.take(i as int).lemma_filter_push(stores@[i as int], keep);
            }
            if stores[i].is_active && self.linked(links, stores[i].id) {
                n = n + 1;
            }
            i = i + 1;
        }
        assert(stores@.take(stores.len() as int) == stores@);
        n
    }

    /// One page of the category's stores as `get_stores_list` gives it,
    /// where the page can be listed, see `listable`; `None` where it
    /// cannot.
    pub fn try_get_stores_list(
        &self,
        page: i32,
        limit: i32,
        links: &Vec<StoreCategory>,
        stores: &Vec<Store>,
    ) -> (result: Option<(Vec<Store>, i32)>)
        ensures
            result is Some <==> listable(
                page as int,
                limit as int,
                Self::listing(self.id, links@, stores@).len() as int,
            ),
            result matches Some(found) ==> found.0@ == Self::window(
                Self::listing(self.id, links@, stores@),
                limit as int,
                Self::page_offset(page as int, limit as int),
            ) && found.1 == if Self::listing(self.id, links@, stores@).len() > Self::probe_offset(
                page as int,
                limit as int,
            ) {
                page + 1
            } else {
                0
            },
    {
        if can_list(page, limit, self.count_stores(links, stores)) {
            Some(self.get_stores_list(page, limit, links, stores))
        } else {
            None
        }
    }

    /// At most `limit` of the category's stores, after the first `offset`.
    /// `stores` lists all stores, newest first; `links` ties stores to
    /// categories.
    pub fn get_stores(
        &self,
        limit: i64,
        offset: i64,
        links: &Vec<StoreCategory>,
        stores: &Vec<Store>,
    ) -> (found: Vec<Store>)
        requires
            0 <= limit,
            0 <= offset,
        ensures
            found@ == Self::window(
                Self::listing(self.id, links@, stores@),
                limit as int,
                offset as int,
            ),
    {
        let ghost keep = |s: Store| s.is_active && Self::is_linked(links@, self.id, s.id);
        let skip: u64 = offset as u64;
        let take: u64 = limit as u64;
        let mut found: Vec<Store> = Vec::new();
        let mut seen: u64 = 0;
        let mut i: usize = 0;
        assert(stores@.take(0).filter(keep) == Seq::<Store>::empty()) by {
            reveal(Seq::filter);
        }
        while i < stores.len()
            invariant
                i <= stores.len(),
                skip == offset,
                take == limit,
                keep == |s: Store| s.is_active && Self::is_linked(links@, self.id, s.id),
                seen == stores@.take(i as int).filter(keep).len(),
                seen <= i,
                found@ == Self::window(
                    stores@.take(i as int).filter(keep),
                    limit as int,
                    offset as int,
                ),
            decreases stores.len() - i,
        {
            proof {
                stores@.lemma_take_succ_push(i as int);
                stores@.take(i as int).lemma_filter_push(stores@[i as int], keep);
            }
            if stores[i].is_active && self.linked(links, stores[i].id) {
                if seen >= skip && seen - skip < take {
                    found.push(stores[i].clone());
                }
                seen = seen + 1;
            }
            i = i + 1;
        }
        assert(stores@.take(stores.len() as int) == stores@);
        found
    }
}

/// Whether page `page` of a listing of `len` stores can be cut in pages of
/// `limit`: the limit is not negative, the offset probed for a next page
/// fits `i32`, and so does the number of the next page where there is one.
pub open spec fn listable(page: int, limit: int, len: int) -> bool {
    &&& 0 <= limit
    &&& StoreCategories::probe_offset(page, limit) <= i32::MAX
    &&& len > StoreCategories::probe_offset(page, limit) ==> page < i32::MAX
}

/// Whether page `page` of a listing of `len` stores can be cut in pages of
/// `limit`, see `listable`.
pub fn can_list(page: i32, limit: i32, len: usize) -> (yes: bool)
    ensures
        yes == listable(page as int, limit as int, len as int),
{
    if limit < 0 {
        return false;
    }
    let probe: i64 = if page > 1 {
        assert(0 <= page * limit <= 0x7fff_ffff * 0x7fff_ffff) by (nonlinear_arith)
            requires
                1 < page <= 0x7fff_ffff,
                0 <= limit <= 0x7fff_ffff,
        ;
        page as i64 * limit as i64 + 1
    } else {
        limit as i64 + 1
    };
    if probe > i32::MAX as i64 {
        return false;
    }
    page < i32::MAX || len as u64 <= probe as u64
}

/// What is written when a category of stores is created.
#[derive(Debug, PartialEq, Eq)]
pub struct NewStoreCategories {
    pub name: String,
    pub description: Option<String>,
    pub position: i32,
    pub image: Option<String>,
    pub count: i32,
}

/// What is written when a category of stores is changed.
#[derive(Debug, PartialEq, Eq)]
pub struct EditStoreCategories {
    pub name: String,
    pub description: Option<String>,
    pub position: i32,
    pub image: Option<String>,
    pub count: i32,
}

/// A store: something on offer, owned by the user `user_id`.
#[derive(Debug, PartialEq, Eq)]
pub struct Store {
    pub id: i32,
    pub title: String,
    pub description: Option<String>,
    pub content: Option<String>,
    pub link: Option<String>,
    pub image: Option<String>,
    pub is_active: bool,
    pub price: Option<i32>,
    pub price_acc: Option<i32>,
    pub social_price: Option<i32>,
    pub user_id: i32,
    pub created: chrono::NaiveDateTime,
}

impl Clone for Store {
    fn clone(&self) -> (r: Self)
        ensures
            r == *self,
    {
        Store {
            id: self.id,
            title: self.title.clone(),
            description: self.description.clone(),
            content: self.content.clone(),
            link: self.link.clone(),
            image: self.image.clone(),
            is_active: self.is_active,
            price: self.price,
            price_acc: self.price_acc,
            social_price: self.social_price,
            user_id: self.user_id,
            created: self.created,
        }
    }
}

/// What is written when a store is changed. A price that is `None` is left
/// as it was.
#[derive(Debug, PartialEq, Eq)]
pub struct EditStore {
    pub title: String,
    pub description: Option<String>,
    pub link: Option<String>,
    pub image: Option<String>,
    pub is_active: bool,
    pub price: Option<i32>,
    pub price_acc: Option<i32>,
    pub social_price: Option<i32>,
}

/// What is written when a store is created.
#[derive(Debug, PartialEq, Eq)]
pub struct NewStore {
    pub title: String,
    pub description: Option<String>,
    pub link: Option<String>,
    pub image: Option<String>,
    pub is_active: bool,
    pub price: Option<i32>,
    pub price_acc: Option<i32>,
    pub social_price: Option<i32>,
    pub user_id: i32,
    pub created: chrono::NaiveDateTime,
}

impl NewStore {
    /// The row for a store that `user_id` submits at the moment `created`.
    pub fn from_store_form_at(
        title: String,
        description: String,
        link: String,
        image: String,
        is_active: bool,
        price: Option<i32>,
        price_acc: Option<i32>,
        social_price: Option<i32>,
        user_id: i32,
        created: chrono::NaiveDateTime,
    ) -> (row: Self)
        ensures
            row == (NewStore {
                title,
                description: Some(description),
                link: Some(link),
                image: Some(image),
                is_active,
                price,
                price_acc,
                social_price,
                user_id,
                created,
            }),
    {
        NewStore {
            title: title,
            description: Some(description),
            link: Some(link),
            image: Some(image),
            is_active: is_active,
            price: price,
            price_acc: price_acc,
            social_price: social_price,
            user_id: user_id,
            created: created,
        }
    }

    /// The row for a store that `user_id` submits now. The row is stamped
    /// with the moment of the call, whatever the clock says it is.
    pub fn from_store_form(
        title: String,
        description: String,
        link: String,
        image: String,
        is_active: bool,
        price: Option<i32>,
        price_acc: Option<i32>,
        social_price: Option<i32>,
        user_id: i32,
    ) -> (row: Self)
        ensures
            row == (NewStore {
                title,
                description: Some(description),
                link: Some(link),
                image: Some(image),
                is_active,
                price,
                price_acc,
                social_price,
                user_id,
                created: row.created,
            }),
    {
        Self::from_store_form_at(
            title,
            description,
            link,
            image,
            is_active,
            price,
            price_acc,
            social_price,
            user_id,
            now(),
        )
    }
}

/// A link between a store and one of its categories.
#[derive(Debug, Clone, Copy, PartialEq, Eq)]
pub struct StoreCategory {
    pub id: i32,
    pub store_categories_id: i32,
    pub store_id: i32,
}

/// What is written when a store is put into a category.
#[derive(Debug, Clone, Copy, PartialEq, Eq)]
pub struct NewStoreCategory {
    pub store_categories_id: i32,
    pub store_id: i32,
}

/// A picture of a store.
#[derive(Debug, PartialEq, Eq)]
pub struct StoreImage {
    pub id: i32,
    pub store: i32,
    pub src: String,
}

impl Clone for StoreImage {
    fn clone(&self) -> (r: Self)
        ensures
            r == *self,
    {
        StoreImage { id: self.id, store: self.store, src: self.src.clone() }
    }
}

/// What is written when a picture is added to a store.
#[derive(Debug, PartialEq, Eq)]
pub struct NewStoreImage {
    pub store: i32,
    pub src: String,
}

impl NewStoreImage {
    /// The row that adds the picture at `src` to the store `store_id`.
    pub fn from_store_images_form(store_id: i32, src: String) -> (row: Self)
        ensures
            row == (NewStoreImage { store: store_id, src }),
    {
        NewStoreImage { store: store_id, src: src }
    }
}

/// A video of a store.
#[derive(Debug, PartialEq, Eq)]
pub struct StoreVideo {
    pub id: i32,
    pub store: i32,
    pub src: String,
}

impl Clone for StoreVideo {
    fn clone(&self) -> (r: Self)
        ensures
            r == *self,
    {
        StoreVideo { id: self.id, store: self.store, src: self.src.clone() }
    }
}

/// What is written when a video is added to a store.
#[derive(Debug, PartialEq, Eq)]
pub struct NewStoreVideo {
    pub store: i32,
    pub src: String,
}

impl NewStoreVideo {
    /// The row that adds the video at `src` to the store `store_id`.
    pub fn from_store_videos_form(store_id: i32, src: String) -> (row: Self)
        ensures
            row == (NewStoreVideo { store: store_id, src }),
    {
        NewStoreVideo { store: store_id, src: src }
    }
}

} // verus!
