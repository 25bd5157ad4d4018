//! What a request is answered with: who may see a page or carry out an
//! action, which variant of a page is rendered, and what a request to load
//! an object asks for.
use vstd::prelude::*;

verus! {

/// The permission level of the staff.
pub const STAFF_PERM: i16 = 60;

/// The signed-in user, as the session describes them.
#[derive(Debug, Clone, Copy, PartialEq, Eq)]
pub struct SessionUser {
    pub id: i32,
    pub perm: i16,
}

/// Who may see a page or carry out an action.
#[derive(Debug, Clone, Copy, PartialEq, Eq)]
pub enum Access {
    /// Anyone, signed in or not.
    Public,
    /// Anyone who is signed in.
    SignedIn,
    /// Users whose permission level is `STAFF_PERM`.
    Staff,
    /// Staff who own the object in question.
    Owner,
    /// Users whose permission level is at least `STAFF_PERM`.
    Moderator,
}

/// What is sent to a viewer who may not see a page.
#[derive(Debug, Clone, Copy, PartialEq, Eq)]
pub enum Denial {
    /// The words "Permission Denied."
    Sentence,
    /// The words "Permission Denied"
    Words,
    /// An empty body.
    Empty,
}

impl Denial {
    /// The body that is sent.
    pub open spec fn body_of(self) -> Seq<char> {
        match self {
            Denial::Sentence => "Permission Denied."@,
            Denial::Words => "Permission Denied"@,
            Denial::Empty => ""@,
        }
    }

    /// The body that is sent. The status of the answer is that of a page
    /// that was found.
    pub fn body(self) -> (text: &'static str)
        ensures
            text@ == self.body_of(),
    {
        match self {
            Denial::Sentence => "Permission Denied.",
            Denial::Words => "Permission Denied",
            Denial::Empty => "",
        }
    }
}

/// The pages that depend on who is looking.
#[derive(Debug, Clone, Copy, PartialEq, Eq)]
pub enum Page {
    Index,
    About,
    FeedbackList,
    ServeList,
    StoreCategories,
    StoreCategory,
    Store,
    CreateStoreCategories,
    CreateStore,
    EditStore,
    EditContentStore,
    EditStoreCategory,
    ServiceCategories,
    ServiceCategory,
    Service,
    CreateServiceCategories,
    CreateService,
    EditService,
    EditContentService,
    EditServiceCategory,
    HelpCategory,
    HelpCreateCategories,
    HelpCreateItem,
    HelpEditCategory,
    HelpEditItem,
}

/// How an action ended.
#[derive(Debug, PartialEq, Eq)]
pub enum Outcome<T> {
    /// The viewer may not carry out the action. Nothing was changed, and
    /// the viewer is answered as if nothing had been asked.
    Denied,
    /// The viewer may, but the action cannot be carried out on what it
    /// was given. Nothing was changed.
    Refused,
    /// The action was carried out.
    Done(T),
}

/// The actions that change the catalog.
#[derive(Debug, Clone, Copy, PartialEq, Eq)]
pub enum Action {
    CreateFeedback,
    CreateHistory,
    CreateStoreCategories,
    CreateStore,
    EditStore,
    EditContentStore,
    EditStoreCategory,
    DeleteStore,
    DeleteStoreCategory,
    CreateServiceCategories,
    CreateService,
    EditService,
    EditContentService,
    EditServiceCategory,
    DeleteService,
    DeleteServiceCategory,
    HelpCreateCategories,
    HelpCreateItem,
    HelpEditCategory,
    HelpEditItem,
    HelpDeleteCategory,
    HelpDeleteItem,
}

/// How a page treats its viewers.
#[derive(Debug, Clone, Copy, PartialEq, Eq)]
pub struct PageRule {
    /// Who may see the page.
    pub access: Access,
    /// Whether a request that is not made from within a loaded page gets
    /// the frame that loads the page, whoever asks.
    pub first_load: bool,
    /// What the others are sent.
    pub denial: Denial,
}

/// What is rendered for a request.
#[derive(Debug, Clone, Copy, PartialEq, Eq)]
pub enum Rendering {
    /// The frame that loads the page.
    FirstLoad,
    /// The refusal.
    Denied(Denial),
    /// The page for a signed-in viewer at a desk.
    Desktop,
    /// The page for a signed-in viewer on a phone.
    Mobile,
    /// The page for an anonymous viewer at a desk.
    AnonDesktop,
    /// The page for an anonymous viewer on a phone.
    AnonMobile,
}

/// Whether `access` lets `viewer` in. `owner` is the user who owns the
/// object in question, where there is one.
pub open spec fn permits(access: Access, viewer: Option<SessionUser>, owner: Option<i32>) -> bool {
    match access {
        Access::Public => true,
        Access::SignedIn => viewer is Some,
        Access::Staff => viewer matches Some(user) && user.perm == STAFF_PERM,
        Access::Owner => viewer matches Some(user) && user.perm == STAFF_PERM && owner == Some(
            user.id,
        ),
        Access::Moderator => viewer matches Some(user) && user.perm >= STAFF_PERM,
    }
}

/// Whether `access` lets `viewer` in.
pub fn is_permitted(access: Access, viewer: Option<SessionUser>, owner: Option<i32>) -> (yes: bool)
    ensures
        yes == permits(access, viewer, owner),
{
    match access {
        Access::Public => true,
        Access::SignedIn => viewer.is_some(),
        Access::Staff => match viewer {
            Some(user) => user.perm == STAFF_PERM,
            None => false,
        },
        Access::Owner => match viewer {
            Some(user) => match owner {
                Some(owner_id) => user.perm == STAFF_PERM && owner_id == user.id,
                None => false,
            },
            None => false,
        },
        Access::Moderator => match viewer {
            Some(user) => user.perm >= STAFF_PERM,
            None => false,
        },
    }
}

impl Page {
    /// How the page treats its viewers.
    pub open spec fn rule_of(self) -> PageRule {
        match self {
            Page::Index | Page::About | Page::StoreCategories | Page::StoreCategory | Page::Store
            | Page::HelpCategory => PageRule {
                access: Access::Public,
                first_load: true,
                denial: Denial::Empty,
            },
            Page::ServeList | Page::ServiceCategories | Page::ServiceCategory | Page::Service =>
                PageRule { access: Access::Public, first_load: false, denial: Denial::Empty },
            Page::CreateServiceCategories | Page::CreateService | Page::EditService
            | Page::EditContentService | Page::EditServiceCategory => PageRule {
                access: Access::Staff,
                first_load: false,
                denial: Denial::Sentence,
            },
            Page::FeedbackList => PageRule {
                access: Access::Moderator,
                first_load: false,
                denial: Denial::Words,
            },
            Page::CreateStoreCategories | Page::CreateStore => PageRule {
                access: Access::Staff,
                first_load: true,
                denial: Denial::Sentence,
            },
            Page::EditStore | Page::EditContentStore => PageRule {
                access: Access::Owner,
                first_load: true,
                denial: Denial::Sentence,
            },
            Page::EditStoreCategory => PageRule {
                access: Access::Staff,
                first_load: true,
                denial: Denial::Words,
            },
            Page::HelpCreateCategories | Page::HelpCreateItem => PageRule {
                access: Access::Staff,
                first_load: true,
                denial: Denial::Empty,
            },
            Page::HelpEditCategory | Page::HelpEditItem => PageRule {
                access: Access::SignedIn,
                first_load: true,
                denial: Denial::Empty,
            },
        }
    }

    /// How the page treats its viewers.
    pub fn rule(self) -> (rule: PageRule)
        ensures
            rule == self.rule_of(),
    {
        match self {
            Page::Index | Page::About | Page::StoreCategories | Page::StoreCategory | Page::Store
            | Page::HelpCategory => PageRule {
                access: Access::Public,
                first_load: true,
                denial: Denial::Empty,
            },
            Page::ServeList | Page::ServiceCategories | Page::ServiceCategory | Page::Service =>
                PageRule { access: Access::Public, first_load: false, denial: Denial::Empty },
            Page::CreateServiceCategories | Page::CreateService | Page::EditService
            | Page::EditContentService | Page::EditServiceCategory => PageRule {
                access: Access::Staff,
                first_load: false,
                denial: Denial::Sentence,
            },
            Page::FeedbackList => PageRule {
                access: Access::Moderator,
                first_load: false,
                denial: Denial::Words,
            },
            Page::CreateStoreCategories | Page::CreateStore => PageRule {
                access: Access::Staff,
                first_load: true,
                denial: Denial::Sentence,
            },
            Page::EditStore | Page::EditContentStore => PageRule {
                access: Access::Owner,
                first_load: true,
                denial: Denial::Sentence,
            },
            Page::EditStoreCategory => PageRule {
                access: Access::Staff,
                first_load: true,
                denial: Denial::Words,
            },
            Page::HelpCreateCategories | Page::HelpCreateItem => PageRule {
                access: Access::Staff,
                first_load: true,
                denial: Denial::Empty,
            },
            Page::HelpEditCategory | Page::HelpEditItem => PageRule {
                access: Access::SignedIn,
                first_load: true,
                denial: Denial::Empty,
            },
        }
    }

    /// What a request for the page is answered with. `is_ajax` is 0 for a
    /// request that is not made from within a loaded page.
    pub open spec fn rendering_of(
        self,
        is_ajax: i32,
        is_desktop: bool,
        viewer: Option<SessionUser>,
        owner: Option<i32>,
    ) -> Rendering {
        let rule = self.rule_of();
        if rule.first_load && is_ajax == 0 {
            Rendering::FirstLoad
        } else if !permits(rule.access, viewer, owner) {
            Rendering::Denied(rule.denial)
        } else if viewer is Some {
            if is_desktop {
                Rendering::Desktop
            } else {
                Rendering::Mobile
            }
        } else {
            if is_desktop {
                Rendering::AnonDesktop
            } else {
                Rendering::AnonMobile
            }
        }
    }

    /// What a request for the page is answered with.
    pub fn rendering(
        self,
        is_ajax: i32,
        is_desktop: bool,
        viewer: Option<SessionUser>,
        owner: Option<i32>,
    ) -> (rendering: Rendering)
        ensures
            rendering == self.rendering_of(is_ajax, is_desktop, viewer, owner),
    {
        let rule = self.rule();
        if rule.first_load && is_ajax == 0 {
            Rendering::FirstLoad
        } else if !is_permitted(rule.access, viewer, owner) {
            Rendering::Denied(rule.denial)
        } else if viewer.is_some() {
            if is_desktop {
                Rendering::Desktop
            } else {
                Rendering::Mobile
            }
        } else {
            if is_desktop {
                Rendering::AnonDesktop
            } else {
                Rendering::AnonMobile
            }
        }
    }
}

impl Action {
    /// Who may carry out the action.
    pub open spec fn access_of(self) -> Access {
        match self {
            Action::EditContentStore => Access::Owner,
            Action::CreateStoreCategories | Action::CreateStore | Action::EditStore
            | Action::EditStoreCategory | Action::DeleteStore | Action::DeleteStoreCategory
            | Action::CreateServiceCategories | Action::CreateService | Action::EditService
            | Action::EditContentService | Action::EditServiceCategory | Action::DeleteService
            | Action::DeleteServiceCategory | Action::HelpCreateCategories
            | Action::HelpCreateItem | Action::HelpEditCategory | Action::HelpEditItem
            | Action::HelpDeleteCategory | Action::HelpDeleteItem => Access::Staff,
            Action::CreateFeedback | Action::CreateHistory => Access::Public,
        }
    }

    /// Who may carry out the action.
    pub fn access(self) -> (access: Access)
        ensures
            access == self.access_of(),
    {
        match self {
            Action::EditContentStore => Access::Owner,
            Action::CreateStoreCategories | Action::CreateStore | Action::EditStore
            | Action::EditStoreCategory | Action::DeleteStore | Action::DeleteStoreCategory
            | Action::CreateServiceCategories | Action::CreateService | Action::EditService
            | Action::EditContentService | Action::EditServiceCategory | Action::DeleteService
            | Action::DeleteServiceCategory | Action::HelpCreateCategories
            | Action::HelpCreateItem | Action::HelpEditCategory | Action::HelpEditItem
            | Action::HelpDeleteCategory | Action::HelpDeleteItem => Access::Staff,
            Action::CreateFeedback | Action::CreateHistory => Access::Public,
        }
    }

    /// Whether `viewer` may carry out the action. Where they may not,
    /// nothing is written.
    pub fn is_allowed(self, viewer: Option<SessionUser>, owner: Option<i32>) -> (yes: bool)
        ensures
            yes == permits(self.access_of(), viewer, owner),
    {
        is_permitted(self.access(), viewer, owner)
    }
}

/// A page made for signed-in viewers is rendered for no one else, and a
/// viewer whom the page does not let in is shown the frame or the refusal,
/// never the page.
pub proof fn lemma_rendering_respects_access(
    page: Page,
    is_ajax: i32,
    is_desktop: bool,
    viewer: Option<SessionUser>,
    owner: Option<i32>,
)
    ensures
        ({
            let rendering = page.rendering_of(is_ajax, is_desktop, viewer, owner);
            &&& rendering == Rendering::Desktop || rendering == Rendering::Mobile ==> viewer is Some
                && permits(page.rule_of().access, viewer, owner)
            &&& rendering == Rendering::AnonDesktop || rendering == Rendering::AnonMobile
                ==> viewer is None && page.rule_of().access == Access::Public
            &&& !permits(page.rule_of().access, viewer, owner) ==> rendering
                == Rendering::FirstLoad || rendering == Rendering::Denied(page.rule_of().denial)
        }),
{
}

/// Nothing in the catalog is changed for a viewer who is not signed in, or
/// whose level is not that of the staff: every action but leaving feedback
/// and recording a page view asks for the staff.
pub proof fn lemma_changes_need_staff(action: Action, viewer: Option<SessionUser>, owner: Option<i32>)
    requires
        action != Action::CreateFeedback,
        action != Action::CreateHistory,
        permits(action.access_of(), viewer, owner),
    ensures
        viewer matches Some(user) && user.perm == STAFF_PERM,
{
}

/// The query of a search.
#[derive(Debug, PartialEq, Eq)]
pub struct SParams {
    pub q: String,
}

/// The query that carries the new text of a service.
#[derive(Debug, PartialEq, Eq)]
pub struct ServiceParams {
    pub content: String,
}

impl ServiceParams {
    /// Whether the query brings a text. An empty text changes nothing.
    pub fn has_content(&self) -> (yes: bool)
        ensures
            yes == (self.content@.len() != 0),
    {
        !self.content.as_str().is_empty()
    }
}

/// The query of a request to load one object into a page.
#[derive(Debug, PartialEq, Eq)]
pub struct LoadParams {
    pub _object_type: String,
    pub _owner_type: String,
    pub _object_pk: i32,
    pub _owner_pk: i32,
}

/// What is known of a visitor.
#[derive(Debug, PartialEq, Eq)]
pub struct ObjectResponse {
    pub id: i32,
    pub ip: String,
    pub device: i16,
    pub city_ru: Option<String>,
    pub city_en: Option<String>,
    pub region_ru: Option<String>,
    pub region_en: Option<String>,
    pub country_ru: Option<String>,
    pub country_en: Option<String>,
}

/// What a request to load one object asks for.
#[derive(Debug, Clone, Copy, PartialEq, Eq)]
pub enum LoadTarget {
    /// The option category `pk`.
    ServeCategory { pk: i32 },
    /// The option `pk`, on its own.
    Serve { pk: i32 },
    /// The option `pk`, as an option of the service `service_pk`.
    ServiceServe { pk: i32, service_pk: i32 },
    /// Nothing that can be loaded.
    Nothing,
}

/// What the query `params` asks for; `None` stands for a query that could
/// not be read.
pub open spec fn load_target_of(params: Option<LoadParams>) -> LoadTarget {
    match params {
        Some(query) => if query._object_type@ == "serve_category"@ {
            LoadTarget::ServeCategory { pk: query._object_pk }
        } else if query._object_type@ == "serve"@ {
            if query._owner_type@ == "service"@ {
                LoadTarget::ServiceServe { pk: query._object_pk, service_pk: query._owner_pk }
            } else {
                LoadTarget::Serve { pk: query._object_pk }
            }
        } else {
            LoadTarget::Nothing
        },
        None => LoadTarget::Nothing,
    }
}

/// What the query `params` asks for.
pub fn load_target(params: &Option<LoadParams>) -> (target: LoadTarget)
    ensures
        target == load_target_of(*params),
{
    match params {
        Some(query) => {
            let serve_category = "serve_category".to_owned();
            let serve = "serve".to_owned();
            let service = "service".to_owned();
            if query._object_type == serve_category {
                LoadTarget::ServeCategory { pk: query._object_pk }
            } else if query._object_type == serve {
                if query._owner_type == service {
                    LoadTarget::ServiceServe { pk: query._object_pk, service_pk: query._owner_pk }
                } else {
                    LoadTarget::Serve { pk: query._object_pk }
                }
            } else {
                LoadTarget::Nothing
            }
        },
        None => LoadTarget::Nothing,
    }
}

} // verus!
