use chrono::{Datelike, NaiveDate};
use haushalt_frontend::archetype::{Archetype, HabitType, RecurrenceType};
use haushalt_frontend::task_form_model::{
    apply_onetime_date, assignment_after_preset, assignment_missing, derive_archetype,
    initial_open_groups, links_section_visible, onetime_date_value, preset,
    recurrence_after_preset, FormFlags, FormMode, FormSnapshot, NoteKind, OpenGroups,
    ALL_ARCHETYPES,
};

fn flags(habit_bad: bool, anyone: bool, no_uncomplete: bool, recurrence: &str) -> FormFlags {
    FormFlags {
        habit_bad,
        anyone_can_complete: anyone,
        assignee_cannot_uncomplete: no_uncomplete,
        recurrence: recurrence.to_string(),
    }
}

fn neutral(recurrence: &str) -> FormSnapshot {
    FormSnapshot {
        description_empty: true,
        category_set: false,
        due_time_set: false,
        recurrence: recurrence.to_string(),
        custom_dates_len: 0,
        target_count: "1".to_string(),
        allow_exceed: true,
        habit_bad: false,
        points_reward_set: false,
        points_penalty_set: false,
        linked_rewards: 0,
        linked_punishments: 0,
        anyone_can_complete: false,
        assignee_cannot_uncomplete: false,
        requires_review: false,
    }
}

fn preset_snapshot(archetype: Archetype) -> FormSnapshot {
    let defaults = archetype.defaults();
    let recurrence = defaults.recurrence_type.unwrap_or(RecurrenceType::Daily).as_str();
    let mut snapshot = neutral(recurrence);
    snapshot.habit_bad = defaults.habit_type == HabitType::Bad;
    snapshot.anyone_can_complete = defaults.anyone_can_complete;
    snapshot.assignee_cannot_uncomplete = defaults.assignee_cannot_uncomplete;
    snapshot
}

fn day(y: i32, m: u32, d: u32) -> i32 {
    NaiveDate::from_ymd_opt(y, m, d).expect("valid date").num_days_from_ce()
}

#[test]
fn no_uncomplete_always_derives_maintenance() {
    let f = flags(false, true, true, "onetime");
    assert_eq!(derive_archetype(&f, Archetype::OneOff), Archetype::Maintenance);
}

#[test]
fn bad_habit_wins_over_anyone_can_complete() {
    let f = flags(true, true, false, "daily");
    assert_eq!(derive_archetype(&f, Archetype::Shared), Archetype::BadHabit);
}

#[test]
fn anyone_can_complete_with_good_habit_is_shared() {
    let f = flags(false, true, false, "weekly");
    assert_eq!(derive_archetype(&f, Archetype::Routine), Archetype::Shared);
}

#[test]
fn onetime_recurrence_overrides_a_routine_selection() {
    let f = flags(false, false, false, "onetime");
    assert_eq!(derive_archetype(&f, Archetype::Routine), Archetype::OneOff);
}

#[test]
fn oneoff_selection_survives_a_picked_date() {
    let f = flags(false, false, false, "custom");
    assert_eq!(derive_archetype(&f, Archetype::OneOff), Archetype::OneOff);
}

#[test]
fn routine_selection_with_daily_recurrence_stays_routine() {
    let f = flags(false, false, false, "daily");
    assert_eq!(derive_archetype(&f, Archetype::Routine), Archetype::Routine);
}

#[test]
fn derives_the_same_archetype_as_task_archetype_for_all_five() {
    for archetype in ALL_ARCHETYPES {
        let defaults = archetype.defaults();
        let recurrence = defaults.recurrence_type.unwrap_or(RecurrenceType::Daily);
        let habit_bad = defaults.habit_type == HabitType::Bad;
        let f = flags(
            habit_bad,
            defaults.anyone_can_complete,
            defaults.assignee_cannot_uncomplete,
            recurrence.as_str(),
        );
        assert_eq!(
            derive_archetype(&f, archetype),
            archetype,
            "derive_archetype does not read the preset of {archetype:?} back"
        );
    }
}

#[test]
fn create_oneoff_starts_with_every_group_closed() {
    let groups = initial_open_groups(FormMode::Create, &preset_snapshot(Archetype::OneOff), Archetype::OneOff);
    assert_eq!(groups, OpenGroups { details: false, goal: false, points: false, rules: false });
}

#[test]
fn create_routine_starts_with_every_group_closed() {
    let groups = initial_open_groups(FormMode::Create, &preset_snapshot(Archetype::Routine), Archetype::Routine);
    assert_eq!(groups, OpenGroups { details: false, goal: false, points: false, rules: false });
}

#[test]
fn create_shared_opens_only_the_rules_group() {
    let groups = initial_open_groups(FormMode::Create, &preset_snapshot(Archetype::Shared), Archetype::Shared);
    assert_eq!(groups, OpenGroups { details: false, goal: false, points: false, rules: true });
}

#[test]
fn create_maintenance_opens_only_the_rules_group() {
    let groups = initial_open_groups(
        FormMode::Create,
        &preset_snapshot(Archetype::Maintenance),
        Archetype::Maintenance,
    );
    assert_eq!(groups, OpenGroups { details: false, goal: false, points: false, rules: true });
}

#[test]
fn create_bad_habit_opens_no_group() {
    let groups = initial_open_groups(FormMode::Create, &preset_snapshot(Archetype::BadHabit), Archetype::BadHabit);
    assert_eq!(groups, OpenGroups { details: false, goal: false, points: false, rules: false });
}

#[test]
fn create_keeps_points_closed_despite_household_defaults() {
    let mut snapshot = preset_snapshot(Archetype::Routine);
    snapshot.points_reward_set = true;
    snapshot.points_penalty_set = true;
    snapshot.linked_rewards = 2;
    let groups = initial_open_groups(FormMode::Create, &snapshot, Archetype::Routine);
    assert!(!groups.points);
}

#[test]
fn edit_description_opens_details() {
    let mut snapshot = neutral("daily");
    snapshot.description_empty = false;
    assert!(initial_open_groups(FormMode::Edit, &snapshot, Archetype::Routine).details);
}

#[test]
fn edit_due_time_opens_details() {
    let mut snapshot = neutral("daily");
    snapshot.due_time_set = true;
    assert!(initial_open_groups(FormMode::Edit, &snapshot, Archetype::Routine).details);
}

#[test]
fn edit_category_opens_details() {
    let mut snapshot = neutral("daily");
    snapshot.category_set = true;
    assert!(initial_open_groups(FormMode::Edit, &snapshot, Archetype::Routine).details);
}

#[test]
fn edit_target_count_above_one_opens_goal() {
    let mut snapshot = neutral("daily");
    snapshot.target_count = "3".to_string();
    assert!(initial_open_groups(FormMode::Edit, &snapshot, Archetype::Routine).goal);
}

#[test]
fn edit_disallowed_exceed_opens_goal() {
    let mut snapshot = neutral("daily");
    snapshot.allow_exceed = false;
    assert!(initial_open_groups(FormMode::Edit, &snapshot, Archetype::Routine).goal);
}

#[test]
fn edit_bad_habit_on_bad_habit_archetype_keeps_goal_closed() {
    let mut snapshot = neutral("daily");
    snapshot.habit_bad = true;
    assert!(!initial_open_groups(FormMode::Edit, &snapshot, Archetype::BadHabit).goal);
}

#[test]
fn edit_bad_habit_on_routine_opens_goal() {
    let mut snapshot = neutral("daily");
    snapshot.habit_bad = true;
    assert!(initial_open_groups(FormMode::Edit, &snapshot, Archetype::Routine).goal);
}

#[test]
fn edit_points_reward_opens_points() {
    let mut snapshot = neutral("daily");
    snapshot.points_reward_set = true;
    assert!(initial_open_groups(FormMode::Edit, &snapshot, Archetype::Routine).points);
}

#[test]
fn edit_linked_reward_opens_points() {
    let mut snapshot = neutral("daily");
    snapshot.linked_rewards = 1;
    assert!(initial_open_groups(FormMode::Edit, &snapshot, Archetype::Routine).points);
}

#[test]
fn edit_requires_review_opens_rules() {
    let mut snapshot = neutral("daily");
    snapshot.requires_review = true;
    assert!(initial_open_groups(FormMode::Edit, &snapshot, Archetype::Routine).rules);
}

#[test]
fn edit_oneoff_with_a_single_date_keeps_details_closed() {
    let mut snapshot = neutral("custom");
    snapshot.custom_dates_len = 1;
    assert!(!initial_open_groups(FormMode::Edit, &snapshot, Archetype::OneOff).details);
}

#[test]
fn edit_oneoff_with_weekly_recurrence_opens_details() {
    let snapshot = neutral("weekly");
    assert!(initial_open_groups(FormMode::Edit, &snapshot, Archetype::OneOff).details);
}

#[test]
fn edit_oneoff_with_several_dates_opens_details() {
    let mut snapshot = neutral("custom");
    snapshot.custom_dates_len = 3;
    assert!(initial_open_groups(FormMode::Edit, &snapshot, Archetype::OneOff).details);
}

#[test]
fn edit_routine_with_onetime_recurrence_opens_details() {
    let snapshot = neutral("onetime");
    assert!(initial_open_groups(FormMode::Edit, &snapshot, Archetype::Routine).details);
}

#[test]
fn edit_target_count_with_surrounding_blanks_still_reads_as_one() {
    let mut snapshot = neutral("daily");
    snapshot.target_count = " 1 ".to_string();
    assert!(!initial_open_groups(FormMode::Edit, &snapshot, Archetype::Routine).goal);
}

#[test]
fn maintenance_without_assignment_is_missing() {
    assert!(assignment_missing(Archetype::Maintenance, ""));
}

#[test]
fn maintenance_with_assignment_is_complete() {
    assert!(!assignment_missing(Archetype::Maintenance, "550e8400-e29b-41d4-a716-446655440000"));
}

#[test]
fn maintenance_with_a_blank_assignment_is_missing() {
    assert!(assignment_missing(Archetype::Maintenance, "  \t"));
}

#[test]
fn other_archetypes_never_require_an_assignment() {
    for archetype in ALL_ARCHETYPES {
        if archetype == Archetype::Maintenance {
            continue;
        }
        assert!(!assignment_missing(archetype, ""), "{archetype:?} must not require an assignment");
    }
}

#[test]
fn oneoff_always_forces_onetime_recurrence() {
    assert_eq!(recurrence_after_preset("weekly", Archetype::OneOff), "onetime");
    assert_eq!(recurrence_after_preset("custom", Archetype::OneOff), "onetime");
}

#[test]
fn routine_replaces_onetime_with_daily() {
    assert_eq!(recurrence_after_preset("onetime", Archetype::Routine), "daily");
}

#[test]
fn routine_keeps_an_existing_rhythm() {
    assert_eq!(recurrence_after_preset("weekly", Archetype::Routine), "weekly");
}

#[test]
fn bad_habit_prefills_the_current_user() {
    assert_eq!(assignment_after_preset(Archetype::BadHabit, "", Some("user-1")), "user-1");
}

#[test]
fn bad_habit_keeps_an_existing_assignment() {
    assert_eq!(assignment_after_preset(Archetype::BadHabit, "user-2", Some("user-1")), "user-2");
}

#[test]
fn bad_habit_without_current_user_stays_empty() {
    assert_eq!(assignment_after_preset(Archetype::BadHabit, "", None), "");
}

#[test]
fn other_archetypes_do_not_prefill_the_assignment() {
    for archetype in ALL_ARCHETYPES {
        if archetype == Archetype::BadHabit {
            continue;
        }
        assert_eq!(
            assignment_after_preset(archetype, "", Some("user-1")),
            "",
            "{archetype:?} must not prefill the assignment"
        );
    }
}

#[test]
fn onetime_recurrence_has_no_date_value() {
    assert_eq!(onetime_date_value("onetime", &[]), "");
}

#[test]
fn a_single_custom_date_is_the_date_value() {
    assert_eq!(onetime_date_value("custom", &[day(2026, 8, 1)]), "2026-08-01");
}

#[test]
fn several_custom_dates_leave_the_date_field_empty() {
    assert_eq!(onetime_date_value("custom", &[day(2026, 8, 1), day(2026, 8, 2)]), "");
}

#[test]
fn clearing_the_date_falls_back_to_onetime() {
    assert_eq!(apply_onetime_date(None), ("onetime", Vec::new()));
}

#[test]
fn picking_a_date_stores_it_as_a_single_custom_date() {
    let d = day(2026, 8, 1);
    assert_eq!(apply_onetime_date(Some(d)), ("custom", vec![d]));
}

#[test]
fn date_value_and_apply_are_inverse() {
    let (recurrence, dates) = apply_onetime_date(Some(day(2026, 12, 24)));
    assert_eq!(onetime_date_value(recurrence, &dates), "2026-12-24");
}

#[test]
fn links_section_hidden_when_disabled_and_unused() {
    assert!(!links_section_visible(false, 0));
}

#[test]
fn links_section_visible_for_existing_links_despite_disabled_feature() {
    assert!(links_section_visible(false, 1));
}

#[test]
fn links_section_visible_when_enabled() {
    assert!(links_section_visible(true, 0));
}

#[test]
fn only_oneoff_uses_a_date_as_its_base_field() {
    for archetype in ALL_ARCHETYPES {
        assert_eq!(
            preset(archetype).base_is_date,
            archetype == Archetype::OneOff,
            "base_is_date wrong for {archetype:?}"
        );
    }
}

#[test]
fn only_three_archetypes_carry_a_note() {
    assert!(preset(Archetype::OneOff).note.is_none());
    assert!(preset(Archetype::Routine).note.is_none());
    assert_eq!(preset(Archetype::Shared).note.map(|(kind, _)| kind), Some(NoteKind::Info));
    assert_eq!(preset(Archetype::BadHabit).note.map(|(kind, _)| kind), Some(NoteKind::Info));
    assert_eq!(preset(Archetype::Maintenance).note.map(|(kind, _)| kind), Some(NoteKind::Danger));
}

#[test]
fn every_archetype_has_its_own_i18n_keys() {
    let mut seen = Vec::new();
    for archetype in ALL_ARCHETYPES {
        let p = preset(archetype);
        for key in [p.name_key, p.desc_key, p.form_title_key, p.assign_label_key, p.assign_hint_key] {
            assert!(key.starts_with("task_modal.archetype."), "{key} is not an archetype key");
            assert!(!seen.contains(&key), "{key} used twice");
            seen.push(key);
        }
    }
    assert_eq!(seen.len(), 25);
}

#[test]
fn note_kinds_carry_their_classes() {
    assert_eq!(NoteKind::Info.css_class(), "task-form-note");
    assert_eq!(NoteKind::Danger.css_class(), "task-form-note danger");
}
