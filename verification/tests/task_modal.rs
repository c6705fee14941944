use haushalt_frontend::archetype::{Archetype, HabitType, RecurrenceType};
use haushalt_frontend::bulk_edit::RecurrenceValue;
use haushalt_frontend::task_modal::{
    add_link, amount_from_input, apply_archetype, shows_points_penalty, archetype_chip_class, build_task_create,
    build_task_update, dashboard_change, delete_action_available, has_link, initial_archetype,
    initial_assignee, initial_links, initial_points, initial_recurrence_details, links_to_add,
    links_to_remove, modal_labels, remove_link, unlinked_ids, RecurrenceDetails, TaskFormValues,
};

#[test]
fn delete_offered_for_existing_task_with_callback() {
    assert!(delete_action_available(true, true));
}

#[test]
fn delete_hidden_without_callback() {
    // No callback means the caller withheld permission.
    assert!(!delete_action_available(true, false));
}

#[test]
fn delete_hidden_in_create_mode() {
    // Create/duplicate mode has no task to delete.
    assert!(!delete_action_available(false, true));
}

#[test]
fn a_fresh_form_starts_from_the_requested_rhythm() {
    assert_eq!(initial_archetype(None, "onetime"), Archetype::OneOff);
    assert_eq!(initial_archetype(None, "daily"), Archetype::Routine);
    assert_eq!(initial_archetype(Some(Archetype::Shared), "onetime"), Archetype::Shared);
}

#[test]
fn detail_fields_default_around_the_task_value() {
    let d = initial_recurrence_details(None);
    assert_eq!(d.weekday, 1);
    assert_eq!(d.month_day, 1);
    assert_eq!(d.weekdays, vec![1, 2, 3, 4, 5]);
    assert!(d.custom_dates.is_empty());
    let v = RecurrenceValue::Weekdays(vec![0, 6]);
    let d = initial_recurrence_details(Some(&v));
    assert_eq!(d.weekdays, vec![0, 6]);
    assert_eq!(d.weekday, 1);
    let v = RecurrenceValue::MonthDay(15);
    assert_eq!(initial_recurrence_details(Some(&v)).month_day, 15);
}

#[test]
fn a_single_member_is_preselected_only_in_a_fresh_form() {
    assert_eq!(initial_assignee(None, true, &[7]), Some(7));
    assert_eq!(initial_assignee(None, true, &[7, 8]), None);
    assert_eq!(initial_assignee(Some(None), false, &[7]), None);
    assert_eq!(initial_assignee(Some(Some(3)), false, &[7]), Some(3));
}

#[test]
fn household_point_defaults_apply_to_fresh_forms() {
    assert_eq!(initial_points(None, true, Some(5)), Some(5));
    assert_eq!(initial_points(None, false, Some(5)), None);
    assert_eq!(initial_points(Some(2), false, Some(5)), Some(2));
}

fn link(id: &str, amount: i32) -> (String, i32) {
    (id.to_string(), amount)
}

#[test]
fn existing_links_win_over_household_defaults() {
    let linked = vec![link("a", 1)];
    let defaults = vec![link("d", 2)];
    assert_eq!(initial_links(&linked, true, &defaults), linked);
    assert_eq!(initial_links(&[], true, &defaults), defaults);
    assert!(initial_links(&[], false, &defaults).is_empty());
}

#[test]
fn saving_adds_new_links_and_removes_dropped_ones() {
    let original = vec![link("a", 1), link("b", 2)];
    let selected = vec![link("b", 5), link("c", 3)];
    assert_eq!(links_to_add(&selected, &original), vec![link("c", 3)]);
    assert_eq!(links_to_remove(&original, &selected), vec!["a".to_string()]);
}

#[test]
fn links_are_added_once_and_removed_entirely() {
    let mut links = vec![link("a", 1)];
    assert!(!add_link(&mut links, "", 1));
    assert!(!add_link(&mut links, "a", 4));
    assert!(add_link(&mut links, "b", 4));
    assert_eq!(links, vec![link("a", 1), link("b", 4)]);
    assert!(has_link(&links, "b"));
    remove_link(&mut links, "b");
    assert_eq!(links, vec![link("a", 1)]);
    assert!(!has_link(&links, "b"));
}

#[test]
fn only_unlinked_items_are_offered() {
    let all = vec!["a".to_string(), "b".to_string(), "c".to_string()];
    let links = vec![link("b", 1)];
    assert_eq!(unlinked_ids(&all, &links), vec!["a".to_string(), "c".to_string()]);
}

#[test]
fn amounts_are_at_least_one() {
    assert_eq!(amount_from_input("3"), Some(3));
    assert_eq!(amount_from_input("0"), Some(1));
    assert_eq!(amount_from_input("-4"), Some(1));
    assert_eq!(amount_from_input("x"), None);
}

#[test]
fn the_dashboard_is_touched_only_when_the_switch_moved() {
    assert_eq!(dashboard_change(true, false), Some(true));
    assert_eq!(dashboard_change(false, true), Some(false));
    assert_eq!(dashboard_change(true, true), None);
}

#[test]
fn labels_follow_the_mode() {
    let l = modal_labels(true, false, Archetype::Routine);
    assert_eq!(l.title_key, "task_modal.edit_title");
    assert_eq!(l.submit_key, "task_modal.save_changes");
    let l = modal_labels(false, true, Archetype::Routine);
    assert_eq!(l.title_key, "task_modal.suggest_title");
    assert_eq!(l.saving_key, "suggestions.suggesting");
    let l = modal_labels(false, false, Archetype::OneOff);
    assert_eq!(l.title_key, "task_modal.archetype.oneoff.form_title");
    assert_eq!(l.submit_key, "common.create");
    assert_eq!(l.saving_key, "task_modal.creating");
}

#[test]
fn the_chip_marks_a_drifted_type() {
    assert_eq!(archetype_chip_class(Archetype::Shared, Archetype::Routine), "task-archetype-chip changed");
    assert_eq!(archetype_chip_class(Archetype::Routine, Archetype::Routine), "task-archetype-chip");
}

fn values() -> TaskFormValues {
    TaskFormValues {
        title: "Dishes".to_string(),
        description: "After dinner".to_string(),
        recurrence_type: "weekly".to_string(),
        details: RecurrenceDetails { weekday: 3, month_day: 1, weekdays: vec![1, 2], custom_dates: vec![] },
        assigned_user: String::new(),
        target_count: "-2".to_string(),
        allow_exceed_target: true,
        anyone_can_complete: false,
        assignee_cannot_uncomplete: false,
        requires_review: true,
        habit_type: "bad".to_string(),
        category_id: String::new(),
        points_reward: "10".to_string(),
        points_penalty: "x".to_string(),
        due_time: "18:30".to_string(),
    }
}

#[test]
fn an_edit_sends_every_field() {
    let r = build_task_update(&values());
    assert_eq!(r.title.as_deref(), Some("Dishes"));
    assert_eq!(r.description.as_deref(), Some("After dinner"));
    assert_eq!(r.recurrence_type, Some(RecurrenceType::Weekly));
    assert_eq!(r.recurrence_value, Some(RecurrenceValue::WeekDay(3)));
    assert_eq!(r.assigned_user_id, None);
    assert_eq!(r.target_count, Some(0));
    assert_eq!(r.requires_review, Some(true));
    assert_eq!(r.points_reward, Some(10));
    assert_eq!(r.points_penalty, None);
    assert_eq!(r.due_time.as_deref(), Some("18:30"));
    assert_eq!(r.habit_type, Some(HabitType::Bad));
    assert_eq!(r.category_id, Some(None));
    assert_eq!(r.archived, None);
    assert_eq!(r.paused, None);
}

#[test]
fn a_new_task_names_its_category_and_suggestion() {
    let mut v = values();
    v.category_id = "67e55044-10b1-426f-9247-bb680e5fe0c8".to_string();
    v.assigned_user = "67e55044-10b1-426f-9247-bb680e5fe0c8".to_string();
    v.due_time = String::new();
    let id = uuid::Uuid::parse_str("67e55044-10b1-426f-9247-bb680e5fe0c8").unwrap().as_u128();
    let r = build_task_create(&v, true);
    assert_eq!(r.title, "Dishes");
    assert_eq!(r.category_id, Some(id));
    assert_eq!(r.assigned_user_id, Some(id));
    assert_eq!(r.due_time, None);
    assert_eq!(r.is_suggestion, Some(true));
    let r = build_task_create(&values(), false);
    assert_eq!(r.category_id, None);
    assert_eq!(r.is_suggestion, None);
}

#[test]
fn picking_a_type_writes_its_preset() {
    let mut v = values();
    v.recurrence_type = "onetime".to_string();
    apply_archetype(&mut v, Archetype::BadHabit, Some("me"), "1");
    assert_eq!(v.habit_type, "bad");
    assert_eq!(v.recurrence_type, "daily");
    assert_eq!(v.assigned_user, "me");
    apply_archetype(&mut v, Archetype::Shared, Some("other"), "1");
    assert_eq!(v.habit_type, "good");
    assert!(v.anyone_can_complete);
    assert_eq!(v.assigned_user, "me");
    apply_archetype(&mut v, Archetype::OneOff, None, "1");
    assert_eq!(v.recurrence_type, "onetime");
    assert!(!v.anyone_can_complete);
    assert_eq!(v.title, "Dishes");
}

#[test]
fn picking_a_type_resets_the_target_and_clears_a_hidden_penalty() {
    let mut v = values();
    v.target_count = "5".to_string();
    v.points_penalty = "3".to_string();
    apply_archetype(&mut v, Archetype::Routine, None, "1");
    assert_eq!(v.target_count, "1");
    assert_eq!(v.points_penalty, "3");
    apply_archetype(&mut v, Archetype::Bonus, None, "1");
    assert_eq!(v.points_penalty, "");
    assert!(!shows_points_penalty(Archetype::Bonus));
    assert!(shows_points_penalty(Archetype::Maintenance));
}
