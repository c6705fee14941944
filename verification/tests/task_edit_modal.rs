use haushalt_frontend::archetype::RecurrenceType;
use haushalt_frontend::task_edit_modal::{build_dialog_update, dialog_recurrence_of, ids_not_in, set_checked};

fn ids(xs: &[&str]) -> Vec<String> {
    xs.iter().map(|s| s.to_string()).collect()
}

#[test]
fn the_dialog_offers_four_rhythms() {
    assert_eq!(dialog_recurrence_of("weekly"), RecurrenceType::Weekly);
    assert_eq!(dialog_recurrence_of("weekdays"), RecurrenceType::Weekdays);
    assert_eq!(dialog_recurrence_of("custom"), RecurrenceType::Daily);
    assert_eq!(dialog_recurrence_of("onetime"), RecurrenceType::Daily);
}

#[test]
fn the_dialog_sends_four_fields() {
    let r = build_dialog_update("T", "D", "monthly", "");
    assert_eq!(r.title.as_deref(), Some("T"));
    assert_eq!(r.description.as_deref(), Some("D"));
    assert_eq!(r.recurrence_type, Some(RecurrenceType::Monthly));
    assert_eq!(r.recurrence_value, None);
    assert_eq!(r.assigned_user_id, None);
    assert_eq!(r.target_count, None);
    let r = build_dialog_update("T", "D", "daily", "not-a-uuid");
    assert_eq!(r.assigned_user_id, None);
}

#[test]
fn checkboxes_add_and_remove_ids() {
    assert_eq!(set_checked(&ids(&["a"]), "b", true), ids(&["a", "b"]));
    assert_eq!(set_checked(&ids(&["a", "b"]), "b", true), ids(&["a", "b"]));
    assert_eq!(set_checked(&ids(&["a", "b", "a"]), "a", false), ids(&["b"]));
}

#[test]
fn saving_diffs_the_ticked_ids() {
    let original = ids(&["a", "b"]);
    let ticked = ids(&["b", "c"]);
    assert_eq!(ids_not_in(&ticked, &original), ids(&["c"]));
    assert_eq!(ids_not_in(&original, &ticked), ids(&["a"]));
}
