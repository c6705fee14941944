use haushalt_frontend::widgets::{
    active_tab, card_permissions, chat_actions_shown, chat_edit_savable, chat_message_class,
    chat_time_label, context_item_class, countdown_text, solo_banner, tab_link_class, PageTab,
    SoloBanner,
};

#[test]
fn countdowns_are_padded() {
    assert_eq!(countdown_text(0), "00:00:00");
    assert_eq!(countdown_text(3661), "01:01:01");
    assert_eq!(countdown_text(86399), "23:59:59");
    assert_eq!(countdown_text(360000), "100:00:00");
    assert_eq!(countdown_text(-61), "00:-1:-1");
}

#[test]
fn the_banner_follows_solo_mode() {
    assert_eq!(solo_banner(false, true, 10), None);
    match solo_banner(true, false, 10) {
        Some(SoloBanner::Active { title_key, action_key, .. }) => {
            assert_eq!(title_key, "solo_mode.active");
            assert_eq!(action_key, "solo_mode.request_exit");
        },
        other => panic!("unexpected {:?}", other),
    }
    match solo_banner(true, true, 90) {
        Some(SoloBanner::ExitPending { countdown, action_class, .. }) => {
            assert_eq!(countdown, "00:01:30");
            assert_eq!(action_class, "btn btn-sm btn-secondary");
        },
        other => panic!("unexpected {:?}", other),
    }
}

#[test]
fn chat_messages_of_the_user_can_be_changed() {
    assert_eq!(chat_message_class(true), "chat-message chat-message-own");
    assert_eq!(chat_message_class(false), "chat-message");
    assert_eq!(chat_time_label("10:00", 5, 9), "10:00 (edited)");
    assert_eq!(chat_time_label("10:00", 5, 5), "10:00");
    assert!(chat_actions_shown(true, false, false));
    assert!(!chat_actions_shown(true, true, false));
    assert!(!chat_actions_shown(false, false, false));
    assert!(!chat_edit_savable("  "));
    assert!(chat_edit_savable(" hi "));
}

#[test]
fn authors_modify_their_cards() {
    assert_eq!(card_permissions(1, 1, true), (true, false));
    assert_eq!(card_permissions(1, 2, false), (false, true));
    assert_eq!(context_item_class(true), "context-menu-item danger");
    assert_eq!(context_item_class(false), "context-menu-item");
}

#[test]
fn test_household_tab_from_path() {
    assert_eq!(active_tab("/households/abc/tasks"), PageTab::Tasks);
    assert_eq!(active_tab("/households/abc/notes"), PageTab::Notes);
    assert_eq!(active_tab("/households/abc/settings"), PageTab::Settings);
    assert_eq!(active_tab("/households/abc/chat"), PageTab::Chat);
    assert_eq!(active_tab("/households/abc"), PageTab::Overview);
    assert_eq!(active_tab(""), PageTab::Overview);
    assert_eq!(tab_link_class(true), "tab-link active");
    assert_eq!(tab_link_class(false), "tab-link");
}
