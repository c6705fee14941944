use haushalt_frontend::archetype::RecurrenceType;
use haushalt_frontend::bulk_edit::RecurrenceValue;
use haushalt_frontend::task_detail::{amount_suffix, compose_every, points_view, recurrence_summary, RecurrenceSummary};

#[test]
fn rhythms_are_summarised() {
    assert_eq!(recurrence_summary(RecurrenceType::Daily, None), RecurrenceSummary::Key("tasks.recurrence.daily"));
    assert_eq!(
        recurrence_summary(RecurrenceType::Weekly, Some(&RecurrenceValue::WeekDay(7))),
        RecurrenceSummary::EveryDay(Some("dates.sunday"))
    );
    assert_eq!(
        recurrence_summary(RecurrenceType::Weekly, Some(&RecurrenceValue::WeekDay(9))),
        RecurrenceSummary::EveryDay(None)
    );
    assert_eq!(
        recurrence_summary(RecurrenceType::Weekly, Some(&RecurrenceValue::MonthDay(3))),
        RecurrenceSummary::Key("tasks.recurrence.weekly")
    );
    assert_eq!(
        recurrence_summary(RecurrenceType::Monthly, Some(&RecurrenceValue::MonthDay(15))),
        RecurrenceSummary::MonthlyOn(15)
    );
    assert_eq!(
        recurrence_summary(RecurrenceType::Weekdays, Some(&RecurrenceValue::Weekdays(vec![1, 0, 8]))),
        RecurrenceSummary::EveryDays(vec![Some("dates.mon"), Some("dates.sun"), None])
    );
}

#[test]
fn day_names_are_joined() {
    let names = vec!["Mon".to_string(), "Wed".to_string()];
    assert_eq!(compose_every("Every", &names), "Every Mon, Wed");
    assert_eq!(compose_every("Every", &[]), "Every ");
}

#[test]
fn a_bad_habit_swaps_the_sides() {
    let good = points_view(false, Some(10), Some(5));
    assert_eq!(good.on_completion, "+10");
    assert_eq!(good.on_miss, "-5");
    assert_eq!(good.on_completion_class, "detail-value points-positive");
    let bad = points_view(true, Some(10), Some(5));
    assert_eq!(bad.on_completion, "-5");
    assert_eq!(bad.on_miss, "+10");
    assert_eq!(bad.on_miss_class, "detail-value points-positive");
    assert_eq!(points_view(false, None, None).on_completion, "-");
}

#[test]
fn amounts_above_one_are_shown() {
    assert_eq!(amount_suffix(3), Some(" x3".to_string()));
    assert_eq!(amount_suffix(1), None);
}
