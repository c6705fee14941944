use haushalt_frontend::archetype::{HabitType, RecurrenceType};
use haushalt_frontend::bulk_edit::{build_bulk_update_request, BulkEditForm, RecurrenceValue};
use uuid::Uuid;

const SAMPLE_UUID: &str = "550e8400-e29b-41d4-a716-446655440000";

fn form() -> BulkEditForm {
    BulkEditForm::default()
}

fn sample_id() -> Option<u128> {
    Uuid::parse_str(SAMPLE_UUID).ok().map(|id| id.as_u128())
}

fn fully_applied_form() -> BulkEditForm {
    BulkEditForm {
        apply_category: true,
        category_id_raw: SAMPLE_UUID.to_string(),
        apply_assigned_user: true,
        assigned_user_raw: SAMPLE_UUID.to_string(),
        apply_recurrence: true,
        recurrence_type_raw: "weekly".to_string(),
        weekday: 3,
        month_day: 5,
        weekdays: Vec::new(),
        custom_dates: Vec::new(),
        apply_target_count: true,
        target_count_raw: "7".to_string(),
        apply_allow_exceed: true,
        allow_exceed_target: true,
        apply_anyone_can_complete: true,
        anyone_can_complete: true,
        apply_assignee_cannot_uncomplete: true,
        assignee_cannot_uncomplete: true,
        apply_requires_review: true,
        requires_review: true,
        apply_points_reward: true,
        points_reward_raw: "42".to_string(),
        apply_points_penalty: true,
        points_penalty_raw: "13".to_string(),
        apply_due_time: true,
        due_time_raw: "07:30".to_string(),
        apply_habit_type: true,
        habit_type_raw: "bad".to_string(),
        apply_paused: true,
        paused: true,
    }
}

#[test]
fn nothing_applied_leaves_every_field_untouched() {
    let request = build_bulk_update_request(&form());
    assert!(request.title.is_none());
    assert!(request.description.is_none());
    assert!(request.recurrence_type.is_none());
    assert!(request.recurrence_value.is_none());
    assert!(request.assigned_user_id.is_none());
    assert!(request.target_count.is_none());
    assert!(request.time_period.is_none());
    assert!(request.allow_exceed_target.is_none());
    assert!(request.anyone_can_complete.is_none());
    assert!(request.assignee_cannot_uncomplete.is_none());
    assert!(request.requires_review.is_none());
    assert!(request.points_reward.is_none());
    assert!(request.points_penalty.is_none());
    assert!(request.due_time.is_none());
    assert!(request.habit_type.is_none());
    assert!(request.category_id.is_none());
    assert!(request.archived.is_none());
    assert!(request.paused.is_none());
}

#[test]
fn title_and_description_are_never_bulk_updated() {
    let request = build_bulk_update_request(&fully_applied_form());
    assert!(request.title.is_none());
    assert!(request.description.is_none());
}

#[test]
fn time_period_and_archived_are_never_bulk_updated() {
    let request = build_bulk_update_request(&fully_applied_form());
    assert!(request.time_period.is_none());
    assert!(request.archived.is_none());
}

#[test]
fn a_fully_applied_form_sets_every_other_field() {
    let request = build_bulk_update_request(&fully_applied_form());
    assert_eq!(request.category_id, Some(sample_id()));
    assert_eq!(request.assigned_user_id, sample_id());
    assert_eq!(request.recurrence_type, Some(RecurrenceType::Weekly));
    assert_eq!(request.recurrence_value, Some(RecurrenceValue::WeekDay(3)));
    assert_eq!(request.target_count, Some(7));
    assert_eq!(request.allow_exceed_target, Some(true));
    assert_eq!(request.anyone_can_complete, Some(true));
    assert_eq!(request.assignee_cannot_uncomplete, Some(true));
    assert_eq!(request.requires_review, Some(true));
    assert_eq!(request.points_reward, Some(42));
    assert_eq!(request.points_penalty, Some(13));
    assert_eq!(request.due_time.as_deref(), Some("07:30"));
    assert_eq!(request.habit_type, Some(HabitType::Bad));
    assert_eq!(request.paused, Some(true));
}

#[test]
fn empty_category_clears_the_category() {
    let request = build_bulk_update_request(&BulkEditForm { apply_category: true, ..form() });
    assert_eq!(request.category_id, Some(None));
}

#[test]
fn valid_category_uuid_is_applied() {
    let request = build_bulk_update_request(&BulkEditForm {
        apply_category: true,
        category_id_raw: SAMPLE_UUID.to_string(),
        ..form()
    });
    assert_eq!(request.category_id, Some(sample_id()));
}

#[test]
fn unparsable_category_clears_the_category() {
    let request = build_bulk_update_request(&BulkEditForm {
        apply_category: true,
        category_id_raw: "not-a-uuid".to_string(),
        ..form()
    });
    assert_eq!(request.category_id, Some(None));
}

#[test]
fn empty_assignment_cannot_clear_the_assignee() {
    let request = build_bulk_update_request(&BulkEditForm { apply_assigned_user: true, ..form() });
    assert!(request.assigned_user_id.is_none());
}

#[test]
fn valid_assignee_uuid_is_applied() {
    let request = build_bulk_update_request(&BulkEditForm {
        apply_assigned_user: true,
        assigned_user_raw: SAMPLE_UUID.to_string(),
        ..form()
    });
    assert_eq!(request.assigned_user_id, sample_id());
}

#[test]
fn empty_due_time_cannot_clear_the_due_time() {
    let request = build_bulk_update_request(&BulkEditForm { apply_due_time: true, ..form() });
    assert!(request.due_time.is_none());
}

#[test]
fn due_time_is_applied_verbatim() {
    let request = build_bulk_update_request(&BulkEditForm {
        apply_due_time: true,
        due_time_raw: "07:30".to_string(),
        ..form()
    });
    assert_eq!(request.due_time.as_deref(), Some("07:30"));
}

#[test]
fn unparsable_target_count_falls_back_to_one() {
    let request = build_bulk_update_request(&BulkEditForm {
        apply_target_count: true,
        target_count_raw: "invalid".to_string(),
        ..form()
    });
    assert_eq!(request.target_count, Some(1));
}

#[test]
fn negative_target_count_is_clamped_to_zero() {
    let request = build_bulk_update_request(&BulkEditForm {
        apply_target_count: true,
        target_count_raw: "-5".to_string(),
        ..form()
    });
    assert_eq!(request.target_count, Some(0));
}

#[test]
fn target_count_accepts_a_plus_sign_but_not_blanks() {
    let plus = build_bulk_update_request(&BulkEditForm {
        apply_target_count: true,
        target_count_raw: "+4".to_string(),
        ..form()
    });
    assert_eq!(plus.target_count, Some(4));
    let blank = build_bulk_update_request(&BulkEditForm {
        apply_target_count: true,
        target_count_raw: " 4".to_string(),
        ..form()
    });
    assert_eq!(blank.target_count, Some(1));
    let huge = build_bulk_update_request(&BulkEditForm {
        apply_target_count: true,
        target_count_raw: "99999999999".to_string(),
        ..form()
    });
    assert_eq!(huge.target_count, Some(1));
}

#[test]
fn empty_points_reward_is_skipped() {
    let request = build_bulk_update_request(&BulkEditForm { apply_points_reward: true, ..form() });
    assert!(request.points_reward.is_none());
}

#[test]
fn points_reward_is_parsed() {
    let request = build_bulk_update_request(&BulkEditForm {
        apply_points_reward: true,
        points_reward_raw: "42".to_string(),
        ..form()
    });
    assert_eq!(request.points_reward, Some(42));
}

#[test]
fn points_penalty_is_parsed() {
    let request = build_bulk_update_request(&BulkEditForm {
        apply_points_penalty: true,
        points_penalty_raw: "13".to_string(),
        ..form()
    });
    assert_eq!(request.points_penalty, Some(13));
}

#[test]
fn weekly_recurrence_carries_the_selected_weekday() {
    let request = build_bulk_update_request(&BulkEditForm {
        apply_recurrence: true,
        recurrence_type_raw: "weekly".to_string(),
        weekday: 4,
        ..form()
    });
    assert_eq!(request.recurrence_type, Some(RecurrenceType::Weekly));
    assert_eq!(request.recurrence_value, Some(RecurrenceValue::WeekDay(4)));
}

#[test]
fn monthly_recurrence_carries_the_selected_day_of_month() {
    let request = build_bulk_update_request(&BulkEditForm {
        apply_recurrence: true,
        recurrence_type_raw: "monthly".to_string(),
        month_day: 17,
        ..form()
    });
    assert_eq!(request.recurrence_type, Some(RecurrenceType::Monthly));
    assert_eq!(request.recurrence_value, Some(RecurrenceValue::MonthDay(17)));
}

#[test]
fn weekdays_recurrence_carries_the_selected_days() {
    let request = build_bulk_update_request(&BulkEditForm {
        apply_recurrence: true,
        recurrence_type_raw: "weekdays".to_string(),
        weekdays: [1, 3, 5].to_vec(),
        ..form()
    });
    assert_eq!(request.recurrence_type, Some(RecurrenceType::Weekdays));
    assert_eq!(request.recurrence_value, Some(RecurrenceValue::Weekdays([1, 3, 5].to_vec())));
}

#[test]
fn custom_recurrence_carries_the_selected_dates() {
    let request = build_bulk_update_request(&BulkEditForm {
        apply_recurrence: true,
        recurrence_type_raw: "custom".to_string(),
        custom_dates: vec![739_000, 739_007],
        ..form()
    });
    assert_eq!(request.recurrence_type, Some(RecurrenceType::Custom));
    assert_eq!(request.recurrence_value, Some(RecurrenceValue::CustomDates(vec![739_000, 739_007])));
}

#[test]
fn daily_recurrence_needs_no_value() {
    let request = build_bulk_update_request(&BulkEditForm {
        apply_recurrence: true,
        recurrence_type_raw: "daily".to_string(),
        ..form()
    });
    assert_eq!(request.recurrence_type, Some(RecurrenceType::Daily));
    assert!(request.recurrence_value.is_none());
}

#[test]
fn onetime_recurrence_needs_no_value() {
    let request = build_bulk_update_request(&BulkEditForm {
        apply_recurrence: true,
        recurrence_type_raw: "onetime".to_string(),
        ..form()
    });
    assert_eq!(request.recurrence_type, Some(RecurrenceType::OneTime));
    assert!(request.recurrence_value.is_none());
}

#[test]
fn unknown_recurrence_falls_back_to_daily() {
    let request = build_bulk_update_request(&BulkEditForm {
        apply_recurrence: true,
        recurrence_type_raw: "fortnightly".to_string(),
        ..form()
    });
    assert_eq!(request.recurrence_type, Some(RecurrenceType::Daily));
    assert!(request.recurrence_value.is_none());
}

#[test]
fn recurrence_is_ignored_when_not_applied() {
    let request = build_bulk_update_request(&BulkEditForm {
        recurrence_type_raw: "weekly".to_string(),
        weekday: 4,
        ..form()
    });
    assert!(request.recurrence_type.is_none());
    assert!(request.recurrence_value.is_none());
}

#[test]
fn pausing_is_applied() {
    let request = build_bulk_update_request(&BulkEditForm { apply_paused: true, paused: true, ..form() });
    assert_eq!(request.paused, Some(true));
}

#[test]
fn unpausing_is_applied() {
    let request = build_bulk_update_request(&BulkEditForm { apply_paused: true, ..form() });
    assert_eq!(request.paused, Some(false));
}

#[test]
fn bad_habit_type_is_recognised() {
    let request = build_bulk_update_request(&BulkEditForm {
        apply_habit_type: true,
        habit_type_raw: "bad".to_string(),
        ..form()
    });
    assert_eq!(request.habit_type, Some(HabitType::Bad));
}

#[test]
fn any_other_habit_type_means_good() {
    let request = build_bulk_update_request(&BulkEditForm {
        apply_habit_type: true,
        habit_type_raw: "sideways".to_string(),
        ..form()
    });
    assert_eq!(request.habit_type, Some(HabitType::Good));
}

#[test]
fn booleans_are_applied_independently() {
    let request = build_bulk_update_request(&BulkEditForm {
        apply_allow_exceed: true,
        apply_anyone_can_complete: true,
        anyone_can_complete: true,
        apply_requires_review: true,
        ..form()
    });
    assert_eq!(request.allow_exceed_target, Some(false));
    assert_eq!(request.anyone_can_complete, Some(true));
    assert_eq!(request.requires_review, Some(false));
    assert!(request.assignee_cannot_uncomplete.is_none());
}
