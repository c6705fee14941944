use haushalt_frontend::archetype::Archetype;
use haushalt_frontend::task_card_model::{
    accent_class, can_complete_pending, can_undo_pending, card_action, effective_completions,
    type_badge, ActionStyle, CardAction, FlushAction, PendingCounter,
};

const ALL: [Archetype; 6] = [
    Archetype::OneOff,
    Archetype::Routine,
    Archetype::Shared,
    Archetype::BadHabit,
    Archetype::Maintenance,
    Archetype::Bonus,
];

#[test]
fn locked_when_something_is_logged_that_cannot_be_undone() {
    let action = card_action(Archetype::Maintenance, 1, 2, false, true);
    assert_eq!(action, CardAction::Locked);
}

#[test]
fn not_locked_while_nothing_is_logged() {
    let action = card_action(Archetype::Maintenance, 1, 0, false, true);
    assert!(matches!(action, CardAction::Single { .. }));
}

#[test]
fn read_only_wins_over_everything() {
    for archetype in ALL {
        assert_eq!(
            card_action(archetype, 3, 2, true, false),
            CardAction::ReadOnly,
            "{archetype:?} offered an action to a user who may not complete it"
        );
    }
}

#[test]
fn a_target_above_one_keeps_the_counter_for_every_type() {
    for archetype in ALL {
        assert_eq!(
            card_action(archetype, 3, 0, true, true),
            CardAction::Counter,
            "{archetype:?} lost its counter"
        );
    }
}

#[test]
fn a_target_of_one_yields_a_single_button() {
    assert!(matches!(
        card_action(Archetype::Routine, 1, 0, true, true),
        CardAction::Single { .. }
    ));
}

#[test]
fn bonus_yields_a_single_button() {
    assert_eq!(
        card_action(Archetype::Bonus, 0, 5, true, true),
        CardAction::Single {
            label_key: "task_card.action.bonus",
            style: ActionStyle::Primary
        }
    );
}

#[test]
fn logging_a_lapse_is_styled_as_a_warning_not_a_success() {
    let action = card_action(Archetype::BadHabit, 1, 0, true, true);
    assert_eq!(
        action,
        CardAction::Single {
            label_key: "task_card.action.bad_habit",
            style: ActionStyle::Warn
        }
    );
}

#[test]
fn reporting_someone_elses_lapse_is_styled_as_danger() {
    let action = card_action(Archetype::Maintenance, 1, 0, true, true);
    assert_eq!(
        action,
        CardAction::Single {
            label_key: "task_card.action.maintenance",
            style: ActionStyle::Danger
        }
    );
}

#[test]
fn every_archetype_has_its_own_accent_class() {
    let mut seen = Vec::new();
    for archetype in ALL {
        let class = accent_class(archetype);
        assert!(class.starts_with("task-item--"), "{class} is not a modifier");
        assert!(!seen.contains(&class), "{class} used twice");
        seen.push(class);
    }
}

#[test]
fn every_single_action_has_its_own_label() {
    let mut seen = Vec::new();
    for archetype in ALL {
        let target = if archetype == Archetype::Bonus { 0 } else { 1 };
        let CardAction::Single { label_key, .. } = card_action(archetype, target, 0, true, true)
        else {
            panic!("{archetype:?} did not yield a single button");
        };
        assert!(
            label_key.starts_with("task_card.action."),
            "{label_key} is not an action key"
        );
        assert!(!seen.contains(&label_key), "{label_key} used twice");
        seen.push(label_key);
    }
}

#[test]
fn pending_taps_are_added_to_the_server_count() {
    assert_eq!(effective_completions(2, 3), 5);
}

#[test]
fn the_displayed_count_never_goes_negative() {
    assert_eq!(effective_completions(1, -4), 0);
}

#[test]
fn plus_closes_once_the_pending_taps_reach_the_target() {
    let effective = effective_completions(0, 3);
    assert!(!can_complete_pending(true, false, 3, effective));
}

#[test]
fn plus_stays_open_below_the_target() {
    let effective = effective_completions(0, 2);
    assert!(can_complete_pending(true, false, 3, effective));
}

#[test]
fn allow_exceed_keeps_plus_open_past_the_target() {
    let effective = effective_completions(3, 2);
    assert!(can_complete_pending(true, true, 3, effective));
}

#[test]
fn a_task_without_a_target_never_closes_plus() {
    let effective = effective_completions(0, 9);
    assert!(can_complete_pending(true, false, 0, effective));
}

#[test]
fn permission_still_overrides_everything() {
    assert!(!can_complete_pending(false, true, 0, 0));
}

#[test]
fn undo_needs_something_to_take_back() {
    assert!(!can_undo_pending(true, 0));
    assert!(can_undo_pending(true, 1));
}

#[test]
fn undo_opens_on_a_pending_tap_alone() {
    let effective = effective_completions(0, 1);
    assert!(can_undo_pending(true, effective));
}

#[test]
fn undo_stays_shut_without_the_permission() {
    assert!(!can_undo_pending(false, 5));
}

#[test]
fn only_the_four_special_types_carry_a_badge() {
    assert_eq!(type_badge(Archetype::OneOff), None);
    assert_eq!(type_badge(Archetype::Routine), None);
    for archetype in [
        Archetype::Shared,
        Archetype::BadHabit,
        Archetype::Maintenance,
        Archetype::Bonus,
    ] {
        assert!(type_badge(archetype).is_some(), "{archetype:?} lost its badge");
    }
}

#[test]
fn action_styles_carry_the_touch_target_class() {
    assert_eq!(ActionStyle::Primary.css_class(), "btn task-action-btn btn-primary");
    assert_eq!(ActionStyle::Warn.css_class(), "btn task-action-btn btn-warn");
    assert_eq!(ActionStyle::Danger.css_class(), "btn task-action-btn btn-danger");
}

#[test]
fn a_burst_of_taps_is_flushed_as_one_completion() {
    let mut counter = PendingCounter::new(1, 5, false, true, true);
    assert!(counter.tap_plus());
    assert!(counter.tap_plus());
    assert!(counter.tap_plus());
    assert_eq!(counter.shown_completions(), 4);
    assert_eq!(counter.flush(), FlushAction::Complete(3));
    assert_eq!(counter.pending_delta, 0);
    assert_eq!(counter.flush(), FlushAction::Nothing);
}

#[test]
fn plus_stops_counting_at_the_target() {
    let mut counter = PendingCounter::new(0, 2, false, true, true);
    assert!(counter.tap_plus());
    assert!(counter.tap_plus());
    assert!(!counter.tap_plus());
    assert_eq!(counter.shown_completions(), 2);
    assert_eq!(counter.flush(), FlushAction::Complete(2));
}

#[test]
fn minus_taps_are_flushed_as_one_uncompletion() {
    let mut counter = PendingCounter::new(2, 3, false, true, true);
    assert!(counter.tap_minus());
    assert!(counter.tap_minus());
    assert!(!counter.tap_minus());
    assert_eq!(counter.shown_completions(), 0);
    assert_eq!(counter.flush(), FlushAction::Uncomplete(2));
}

#[test]
fn minus_undoes_plus_before_anything_is_sent() {
    let mut counter = PendingCounter::new(1, 3, false, true, true);
    let before = counter;
    assert!(counter.tap_plus());
    assert!(counter.tap_minus());
    assert_eq!(counter, before);
    assert_eq!(counter.flush(), FlushAction::Nothing);
}

#[test]
fn a_user_who_may_not_undo_cannot_tap_minus() {
    let mut counter = PendingCounter::new(2, 3, false, true, false);
    assert!(!counter.tap_minus());
    assert_eq!(counter.flush(), FlushAction::Nothing);
}
