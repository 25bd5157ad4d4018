use catalog::pages::{
    is_permitted, load_target, Access, Action, Denial, LoadParams, LoadTarget, Page, PageRule,
    Rendering, SessionUser, STAFF_PERM,
};

fn staff(id: i32) -> Option<SessionUser> {
    Some(SessionUser { id, perm: STAFF_PERM })
}

fn reader(id: i32) -> Option<SessionUser> {
    Some(SessionUser { id, perm: 1 })
}

fn chief(id: i32) -> Option<SessionUser> {
    Some(SessionUser { id, perm: 100 })
}

const PUBLIC_PAGES: [Page; 6] = [
    Page::Index,
    Page::About,
    Page::StoreCategories,
    Page::StoreCategory,
    Page::Store,
    Page::HelpCategory,
];

#[test]
fn access_levels() {
    assert!(is_permitted(Access::Public, None, None));
    assert!(is_permitted(Access::Public, reader(1), None));
    assert!(!is_permitted(Access::SignedIn, None, None));
    assert!(is_permitted(Access::SignedIn, reader(1), None));
    assert!(!is_permitted(Access::Staff, None, None));
    assert!(!is_permitted(Access::Staff, reader(1), None));
    assert!(is_permitted(Access::Staff, staff(1), None));
    assert!(!is_permitted(Access::Staff, chief(1), None));
    assert!(!is_permitted(Access::Moderator, None, None));
    assert!(!is_permitted(Access::Moderator, Some(SessionUser { id: 1, perm: 59 }), None));
    assert!(is_permitted(Access::Moderator, staff(1), None));
    assert!(is_permitted(Access::Moderator, chief(1), None));
    assert!(!is_permitted(Access::Owner, None, Some(1)));
    assert!(!is_permitted(Access::Owner, staff(1), None));
    assert!(!is_permitted(Access::Owner, staff(1), Some(2)));
    assert!(!is_permitted(Access::Owner, reader(1), Some(1)));
    assert!(!is_permitted(Access::Owner, chief(1), Some(1)));
    assert!(is_permitted(Access::Owner, staff(1), Some(1)));
}

#[test]
fn a_request_from_outside_a_page_gets_the_frame() {
    for page in PUBLIC_PAGES {
        assert_eq!(page.rendering(0, true, None, None), Rendering::FirstLoad);
        assert_eq!(page.rendering(0, false, staff(1), None), Rendering::FirstLoad);
    }
    assert_eq!(Page::CreateStore.rendering(0, true, None, None), Rendering::FirstLoad);
    assert_eq!(Page::EditStore.rendering(0, true, reader(1), Some(2)), Rendering::FirstLoad);
    assert_eq!(Page::HelpEditItem.rendering(0, false, None, None), Rendering::FirstLoad);
}

#[test]
fn public_pages_have_four_variants() {
    for page in PUBLIC_PAGES {
        assert_eq!(page.rendering(1, true, reader(1), None), Rendering::Desktop);
        assert_eq!(page.rendering(1, false, reader(1), None), Rendering::Mobile);
        assert_eq!(page.rendering(1, true, None, None), Rendering::AnonDesktop);
        assert_eq!(page.rendering(2, false, None, None), Rendering::AnonMobile);
    }
}

#[test]
fn serve_list_has_no_frame() {
    assert_eq!(Page::ServeList.rendering(0, true, None, None), Rendering::AnonDesktop);
    assert_eq!(Page::ServeList.rendering(0, false, None, None), Rendering::AnonMobile);
    assert_eq!(Page::ServeList.rendering(0, true, reader(1), None), Rendering::Desktop);
    assert_eq!(Page::ServeList.rendering(1, false, reader(1), None), Rendering::Mobile);
}

#[test]
fn feedback_list_is_for_moderators_and_has_no_frame() {
    let denied = Rendering::Denied(Denial::Words);
    assert_eq!(Page::FeedbackList.rendering(0, true, None, None), denied);
    assert_eq!(Page::FeedbackList.rendering(1, true, reader(1), None), denied);
    assert_eq!(Page::FeedbackList.rendering(0, true, staff(1), None), Rendering::Desktop);
    assert_eq!(Page::FeedbackList.rendering(1, false, chief(1), None), Rendering::Mobile);
}

#[test]
fn pages_that_create_are_for_staff() {
    for page in [Page::CreateStoreCategories, Page::CreateStore] {
        let denied = Rendering::Denied(Denial::Sentence);
        assert_eq!(page.rendering(1, true, None, None), denied);
        assert_eq!(page.rendering(1, true, reader(1), None), denied);
        assert_eq!(page.rendering(1, true, chief(1), None), denied);
        assert_eq!(page.rendering(1, true, staff(1), None), Rendering::Desktop);
        assert_eq!(page.rendering(1, false, staff(1), None), Rendering::Mobile);
    }
    let denied = Rendering::Denied(Denial::Words);
    assert_eq!(Page::EditStoreCategory.rendering(1, true, None, None), denied);
    assert_eq!(Page::EditStoreCategory.rendering(1, false, reader(1), None), denied);
    assert_eq!(Page::EditStoreCategory.rendering(1, false, staff(1), None), Rendering::Mobile);
}

#[test]
fn pages_that_edit_a_store_are_for_its_owner() {
    for page in [Page::EditStore, Page::EditContentStore] {
        let denied = Rendering::Denied(Denial::Sentence);
        assert_eq!(page.rendering(1, true, None, Some(1)), denied);
        assert_eq!(page.rendering(1, true, staff(2), Some(1)), denied);
        assert_eq!(page.rendering(1, true, reader(1), Some(1)), denied);
        assert_eq!(page.rendering(1, true, staff(1), Some(1)), Rendering::Desktop);
        assert_eq!(page.rendering(1, false, staff(1), Some(1)), Rendering::Mobile);
    }
}

#[test]
fn help_pages() {
    let denied = Rendering::Denied(Denial::Empty);
    for page in [Page::HelpCreateCategories, Page::HelpCreateItem] {
        assert_eq!(page.rendering(1, true, None, None), denied);
        assert_eq!(page.rendering(1, true, reader(1), None), denied);
        assert_eq!(page.rendering(1, true, staff(1), None), Rendering::Desktop);
    }
    for page in [Page::HelpEditCategory, Page::HelpEditItem] {
        assert_eq!(page.rendering(1, true, None, None), denied);
        assert_eq!(page.rendering(1, true, reader(1), None), Rendering::Desktop);
        assert_eq!(page.rendering(1, false, staff(1), None), Rendering::Mobile);
    }
}

#[test]
fn rules_of_pages() {
    assert_eq!(
        Page::Store.rule(),
        PageRule { access: Access::Public, first_load: true, denial: Denial::Empty }
    );
    assert_eq!(
        Page::FeedbackList.rule(),
        PageRule { access: Access::Moderator, first_load: false, denial: Denial::Words }
    );
    assert_eq!(
        Page::EditStore.rule(),
        PageRule { access: Access::Owner, first_load: true, denial: Denial::Sentence }
    );
}

#[test]
fn actions_on_stores_and_help_are_for_staff() {
    let actions = [
        Action::CreateStoreCategories,
        Action::CreateStore,
        Action::EditStore,
        Action::EditStoreCategory,
        Action::DeleteStore,
        Action::DeleteStoreCategory,
        Action::HelpCreateCategories,
        Action::HelpCreateItem,
        Action::HelpEditCategory,
        Action::HelpEditItem,
        Action::HelpDeleteCategory,
        Action::HelpDeleteItem,
    ];
    for action in actions {
        assert_eq!(action.access(), Access::Staff);
        assert!(!action.is_allowed(None, None));
        assert!(!action.is_allowed(reader(1), Some(1)));
        assert!(action.is_allowed(staff(1), Some(2)));
    }
}

#[test]
fn the_text_of_a_store_is_edited_by_its_owner() {
    assert_eq!(Action::EditContentStore.access(), Access::Owner);
    assert!(!Action::EditContentStore.is_allowed(staff(1), Some(2)));
    assert!(Action::EditContentStore.is_allowed(staff(2), Some(2)));
}

#[test]
fn actions_on_services_are_for_staff() {
    let actions = [
        Action::CreateServiceCategories,
        Action::CreateService,
        Action::EditService,
        Action::EditContentService,
        Action::EditServiceCategory,
        Action::DeleteService,
        Action::DeleteServiceCategory,
    ];
    for action in actions {
        assert_eq!(action.access(), Access::Staff);
        assert!(!action.is_allowed(None, None));
        assert!(!action.is_allowed(reader(1), None));
        assert!(!action.is_allowed(Some(SessionUser { id: 1, perm: 59 }), None));
        assert!(!action.is_allowed(chief(1), None));
        assert!(action.is_allowed(staff(1), None));
    }
}

#[test]
fn feedback_and_history_are_open() {
    for action in [Action::CreateFeedback, Action::CreateHistory] {
        assert_eq!(action.access(), Access::Public);
        assert!(action.is_allowed(None, None));
        assert!(action.is_allowed(reader(1), None));
    }
}

fn query(object_type: &str, owner_type: &str, object_pk: i32, owner_pk: i32) -> Option<LoadParams> {
    Some(LoadParams {
        _object_type: object_type.to_string(),
        _owner_type: owner_type.to_string(),
        _object_pk: object_pk,
        _owner_pk: owner_pk,
    })
}

#[test]
fn load_targets() {
    assert_eq!(load_target(&None), LoadTarget::Nothing);
    assert_eq!(load_target(&query("", "", 0, 0)), LoadTarget::Nothing);
    assert_eq!(load_target(&query("store", "service", 4, 5)), LoadTarget::Nothing);
    assert_eq!(load_target(&query("Serve", "", 4, 5)), LoadTarget::Nothing);
    assert_eq!(
        load_target(&query("serve_category", "service", 4, 5)),
        LoadTarget::ServeCategory { pk: 4 }
    );
    assert_eq!(load_target(&query("serve", "", 4, 5)), LoadTarget::Serve { pk: 4 });
    assert_eq!(load_target(&query("serve", "store", 4, 5)), LoadTarget::Serve { pk: 4 });
    assert_eq!(
        load_target(&query("serve", "service", 4, 5)),
        LoadTarget::ServiceServe { pk: 4, service_pk: 5 }
    );
}

#[test]
fn bodies_of_denials() {
    assert_eq!(Denial::Sentence.body(), "Permission Denied.");
    assert_eq!(Denial::Words.body(), "Permission Denied");
    assert_eq!(Denial::Empty.body(), "");
}

#[test]
fn pages_of_services_have_no_frame() {
    for page in [Page::ServiceCategories, Page::ServiceCategory, Page::Service] {
        assert_eq!(page.rendering(0, true, None, None), Rendering::AnonDesktop);
        assert_eq!(page.rendering(0, false, None, None), Rendering::AnonMobile);
        assert_eq!(page.rendering(0, true, reader(1), None), Rendering::Desktop);
        assert_eq!(page.rendering(1, false, staff(1), None), Rendering::Mobile);
    }
}

#[test]
fn pages_that_change_services_are_for_staff() {
    let pages = [
        Page::CreateServiceCategories,
        Page::CreateService,
        Page::EditService,
        Page::EditContentService,
        Page::EditServiceCategory,
    ];
    for page in pages {
        let denied = Rendering::Denied(Denial::Sentence);
        assert_eq!(page.rendering(0, true, None, None), denied);
        assert_eq!(page.rendering(1, true, reader(1), None), denied);
        assert_eq!(page.rendering(1, true, chief(1), None), denied);
        assert_eq!(page.rendering(0, true, staff(1), None), Rendering::Desktop);
        assert_eq!(page.rendering(1, false, staff(1), None), Rendering::Mobile);
    }
}
