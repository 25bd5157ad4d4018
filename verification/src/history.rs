//! Visitor history. A visitor is known by the id that their browser keeps.
//! A request that brings an id nobody has is given a new visitor; every
//! request adds one page view to the visitor's history.
use vstd::prelude::*;
use crate::clock::now;
use crate::pages::ObjectResponse;

verus! {

/// A visitor.
#[derive(Debug, PartialEq, Eq)]
pub struct CookieUser {
    pub id: i32,
    pub ip: String,
    pub device: i16,
    pub city_ru: Option<String>,
    pub city_en: Option<String>,
    pub region_ru: Option<String>,
    pub region_en: Option<String>,
    pub country_ru: Option<String>,
    pub country_en: Option<String>,
}

/// What a request tells of a visitor who is seen for the first time.
#[derive(Debug, PartialEq, Eq)]
pub struct NewCookieUser {
    pub ip: String,
    pub device: i16,
    pub city_ru: Option<String>,
    pub city_en: Option<String>,
    pub region_ru: Option<String>,
    pub region_en: Option<String>,
    pub country_ru: Option<String>,
    pub country_en: Option<String>,
}

/// One page viewed: which page, under which link and title, how far the
/// visitor scrolled and how fast. `height` holds the bits of the scroll
/// height, a floating-point number that is stored and never computed with.
#[derive(Debug, PartialEq, Eq)]
pub struct PageView {
    pub page: i16,
    pub link: String,
    pub title: String,
    pub height: u64,
    pub speed: i16,
}

/// A page view in the history of the visitor `user_id`, made at the moment
/// `created`.
#[derive(Debug, PartialEq, Eq)]
pub struct CookieStat {
    pub user_id: i32,
    pub page: i16,
    pub link: String,
    pub title: String,
    pub height: u64,
    pub speed: i16,
    pub created: chrono::NaiveDateTime,
}

/// The visitors and their page views. `next_user_id` is the id that the
/// next new visitor gets.
#[derive(Debug, PartialEq, Eq)]
pub struct History {
    pub users: Vec<CookieUser>,
    pub stats: Vec<CookieStat>,
    pub next_user_id: i32,
}

/// A history as a value: the visitors in the order they came, the page views
/// in the order they were made.
pub struct HistoryView {
    pub users: Seq<CookieUser>,
    pub stats: Seq<CookieStat>,
    pub next_user_id: i32,
}

impl View for History {
    type V = HistoryView;

    open spec fn view(&self) -> HistoryView {
        HistoryView { users: self.users@, stats: self.stats@, next_user_id: self.next_user_id }
    }
}

/// The visitor that `profile` describes, under the id `id`.
pub open spec fn visitor(id: i32, profile: NewCookieUser) -> CookieUser {
    CookieUser {
        id,
        ip: profile.ip,
        device: profile.device,
        city_ru: profile.city_ru,
        city_en: profile.city_en,
        region_ru: profile.region_ru,
        region_en: profile.region_en,
        country_ru: profile.country_ru,
        country_en: profile.country_en,
    }
}

/// The page view `view`, made at the moment `created`, in the history of the
/// visitor `user_id`.
pub open spec fn stat(user_id: i32, view: PageView, created: chrono::NaiveDateTime) -> CookieStat {
    CookieStat {
        user_id,
        page: view.page,
        link: view.link,
        title: view.title,
        height: view.height,
        speed: view.speed,
        created,
    }
}

/// What is shown of the visitor `user`.
pub open spec fn response(user: CookieUser) -> ObjectResponse {
    ObjectResponse {
        id: user.id,
        ip: user.ip,
        device: user.device,
        city_ru: user.city_ru,
        city_en: user.city_en,
        region_ru: user.region_ru,
        region_en: user.region_en,
        country_ru: user.country_ru,
        country_en: user.country_en,
    }
}

impl HistoryView {
    /// No two visitors share an id, and the id kept for the next visitor is
    /// larger than every id in use.
    pub open spec fn wf(self) -> bool {
        &&& forall|i: int, j: int|
            0 <= i < j < self.users.len() ==> (#[trigger] self.users[i]).id != (
            #[trigger] self.users[j]).id
        &&& forall|i: int|
            0 <= i < self.users.len() ==> (#[trigger] self.users[i]).id < self.next_user_id
    }

    /// Whether a visitor has the id `id`.
    pub open spec fn knows(self, id: i32) -> bool {
        exists|i: int| 0 <= i < self.users.len() && (#[trigger] self.users[i]).id == id
    }

    /// `at` is the first position among the visitors whose visitor has the
    /// id `id`.
    pub open spec fn is_position_of(self, id: i32, at: int) -> bool {
        &&& 0 <= at < self.users.len()
        &&& self.users[at].id == id
        &&& forall|j: int| 0 <= j < at ==> (#[trigger] self.users[j]).id != id
    }

    /// Whether a request that brings `id` can be matched to a visitor: a
    /// visitor has the id, or the ids have not run out.
    pub open spec fn has_room_for(self, id: i32) -> bool {
        self.knows(id) || self.next_user_id < i32::MAX
    }

    /// The id under which a request that brings `id` is recorded: `id`
    /// itself where a visitor has it, else the id of a new visitor.
    pub open spec fn canonical_id(self, id: i32) -> i32 {
        if self.knows(id) {
            id
        } else {
            self.next_user_id
        }
    }

    /// The history after a request that brings `id` was matched to its
    /// visitor: unchanged where a visitor has the id, else with a new
    /// visitor that `profile` describes.
    pub open spec fn resolved(self, id: i32, profile: NewCookieUser) -> HistoryView {
        if self.knows(id) {
            self
        } else {
            HistoryView {
                users: self.users.push(visitor(self.next_user_id, profile)),
                stats: self.stats,
                next_user_id: (self.next_user_id + 1) as i32,
            }
        }
    }

    /// The history after the page view `view` of a request that brings `id`
    /// was recorded at the moment `created`.
    pub open spec fn recorded(
        self,
        id: i32,
        profile: NewCookieUser,
        view: PageView,
        created: chrono::NaiveDateTime,
    ) -> HistoryView {
        let resolved = self.resolved(id, profile);
        HistoryView {
            users: resolved.users,
            stats: resolved.stats.push(stat(self.canonical_id(id), view, created)),
            next_user_id: resolved.next_user_id,
        }
    }
}

impl History {
    /// A history without visitors. The first visitor gets the id 1.
    pub fn new() -> (history: History)
        ensures
            history@.users.len() == 0,
            history@.stats.len() == 0,
            history@.next_user_id == 1,
            history@.wf(),
    {
        History { users: Vec::new(), stats: Vec::new(), next_user_id: 1 }
    }

    /// Whether the history is well formed, see `HistoryView::wf`.
    pub fn is_valid(&self) -> (yes: bool)
        ensures
            yes == self@.wf(),
    {
        let mut j: usize = 0;
        while j < self.users.len()
            invariant
                j <= self.users.len(),
                forall|a: int, b: int|
                    0 <= a < b < j ==> (#[trigger] self.users@[a]).id != (
                    #[trigger] self.users@[b]).id,
                forall|a: int| 0 <= a < j ==> (#[trigger] self.users@[a]).id < self.next_user_id,
            decreases self.users.len() - j,
        {
            if self.users[j].id >= self.next_user_id {
                return false;
            }
            let mut i: usize = 0;
            while i < j
                invariant
                    i <= j < self.users.len(),
                    forall|a: int| 0 <= a < i ==> (#[trigger] self.users@[a]).id != self.users@[j as int].id,
                decreases j - i,
            {
                if self.users[i].id == self.users[j].id {
                    return false;
                }
                i = i + 1;
            }
            j = j + 1;
        }
        true
    }

    /// Whether a request that brings `id` can be matched to a visitor, see
    /// `HistoryView::has_room_for`.
    pub fn has_room(&self, id: i32) -> (yes: bool)
        ensures
            yes == self@.has_room_for(id),
    {
        self.next_user_id < i32::MAX || self.find_user(id).is_some()
    }

    /// The position of the visitor `id` among the visitors.
    pub fn find_user(&self, id: i32) -> (at: Option<usize>)
        ensures
            at is Some <==> self@.knows(id),
            at matches Some(i) ==> self@.is_position_of(id, i as int),
    {
        let mut i: usize = 0;
        while i < self.users.len()
            invariant
                i <= self.users.len(),
                forall|j: int| 0 <= j < i ==> (#[trigger] self.users@[j]).id != id,
            decreases self.users.len() - i,
        {
            if self.users[i].id == id {
                return Some(i);
            }
            i = i + 1;
        }
        None
    }

    /// Matches a request that brings `id` to its visitor and returns the
    /// visitor's id. Where no visitor has `id`, a new visitor is made from
    /// `profile`.
    pub fn get_user(&mut self, id: i32, profile: NewCookieUser) -> (user_id: i32)
        requires
            old(self)@.wf(),
            old(self)@.has_room_for(id),
        ensures
            final(self)@ == old(self)@.resolved(id, profile),
            user_id == old(self)@.canonical_id(id),
            final(self)@.wf(),
            final(self)@.knows(user_id),
    {
        match self.find_user(id) {
            Some(_at) => id,
            None => {
                let user_id = self.next_user_id;
                self.users.push(
                    CookieUser {
                        id: user_id,
                        ip: profile.ip,
                        device: profile.device,
                        city_ru: profile.city_ru,
                        city_en: profile.city_en,
                        region_ru: profile.region_ru,
                        region_en: profile.region_en,
                        country_ru: profile.country_ru,
                        country_en: profile.country_en,
                    },
                );
                self.next_user_id = user_id + 1;
                assert(self.users@[self.users.len() - 1].id == user_id);
                user_id
            },
        }
    }

    /// Records one page view of a request that brings `id`, made at the
    /// moment `created`, and returns the id that the visitor is to keep.
    pub fn create_history_at(
        &mut self,
        id: i32,
        profile: NewCookieUser,
        view: PageView,
        created: chrono::NaiveDateTime,
    ) -> (user_id: i32)
        requires
            old(self)@.wf(),
            old(self)@.has_room_for(id),
        ensures
            final(self)@ == old(self)@.recorded(id, profile, view, created),
            user_id == old(self)@.canonical_id(id),
            final(self)@.wf(),
            final(self)@.knows(user_id),
    {
        let user_id = self.get_user(id, profile);
        self.stats.push(
            CookieStat {
                user_id: user_id,
                page: view.page,
                link: view.link,
                title: view.title,
                height: view.height,
                speed: view.speed,
                created: created,
            },
        );
        user_id
    }

    /// Records one page view of a request that brings `id` and returns the
    /// id that the visitor is to keep. The page view is stamped with the
    /// moment of the call, whatever the clock says it is.
    pub fn create_history(&mut self, id: i32, profile: NewCookieUser, view: PageView) -> (user_id:
        i32)
        requires
            old(self)@.wf(),
            old(self)@.has_room_for(id),
        ensures
            final(self)@.stats.len() == old(self)@.stats.len() + 1,
            final(self)@ == old(self)@.recorded(id, profile, view, final(self)@.stats.last().created),
            user_id == old(self)@.canonical_id(id),
            final(self)@.wf(),
            final(self)@.knows(user_id),
    {
        self.create_history_at(id, profile, view, now())
    }

    /// What is known of the visitor `id`; `None` where no visitor has that
    /// id. The history is left as it is.
    pub fn object_history(&self, id: i32) -> (profile: Option<ObjectResponse>)
        ensures
            profile is Some <==> self@.knows(id),
            profile matches Some(found) ==> exists|at: int| #[trigger]
                self@.is_position_of(id, at) && found == response(self.users[at]),
    {
        match self.find_user(id) {
            Some(at) => {
                let user = &self.users[at];
                Some(
                    ObjectResponse {
                        id: user.id,
                        ip: user.ip.clone(),
                        device: user.device,
                        city_ru: user.city_ru.clone(),
                        city_en: user.city_en.clone(),
                        region_ru: user.region_ru.clone(),
                        region_en: user.region_en.clone(),
                        country_ru: user.country_ru.clone(),
                        country_en: user.country_en.clone(),
                    },
                )
            },
            None => None,
        }
    }
}

/// Two requests that bring the id of a visitor add two page views to that
/// visitor's history and no visitor.
pub proof fn lemma_known_visitor_is_kept(
    history: HistoryView,
    id: i32,
    first_profile: NewCookieUser,
    first: PageView,
    first_moment: chrono::NaiveDateTime,
    second_profile: NewCookieUser,
    second: PageView,
    second_moment: chrono::NaiveDateTime,
)
    requires
        history.wf(),
        history.knows(id),
    ensures
        ({
            let after = history.recorded(id, first_profile, first, first_moment).recorded(
                id,
                second_profile,
                second,
                second_moment,
            );
            &&& after.users == history.users
            &&& after.next_user_id == history.next_user_id
            &&& after.stats == history.stats.push(stat(id, first, first_moment)).push(
                stat(id, second, second_moment),
            )
        }),
{
    let once = history.recorded(id, first_profile, first, first_moment);
    assert(once.users == history.users);
    assert(once.knows(id));
}

/// A visitor is made at most once: the request of an unknown visitor makes
/// one, and the next request, which brings the id handed out, is recorded
/// under that visitor.
pub proof fn lemma_new_visitor_is_made_once(
    history: HistoryView,
    id: i32,
    first_profile: NewCookieUser,
    first: PageView,
    first_moment: chrono::NaiveDateTime,
    second_profile: NewCookieUser,
    second: PageView,
    second_moment: chrono::NaiveDateTime,
)
    requires
        history.wf(),
        !history.knows(id),
        history.has_room_for(id),
    ensures
        ({
            let handed_out = history.canonical_id(id);
            let once = history.recorded(id, first_profile, first, first_moment);
            let twice = once.recorded(handed_out, second_profile, second, second_moment);
            &&& once.users == history.users.push(visitor(handed_out, first_profile))
            &&& once.wf()
            &&& twice.users == once.users
            &&& twice.stats == history.stats.push(stat(handed_out, first, first_moment)).push(
                stat(handed_out, second, second_moment),
            )
        }),
{
    let handed_out = history.canonical_id(id);
    let once = history.recorded(id, first_profile, first, first_moment);
    assert(once.users[once.users.len() - 1].id == handed_out);
    assert(once.knows(handed_out));
}

} // verus!
