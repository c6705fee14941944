use chrono::{Datelike, NaiveDate};
use haushalt_frontend::archetype::{Archetype, RecurrenceType};
use haushalt_frontend::task_card_text::{
    badge_class, card_class, due_line, due_text, locked_notice, progress_text,
    recurrence_type_translation_key, streak_line, DueText,
};

fn day(y: i32, m: u32, d: u32) -> i32 {
    NaiveDate::from_ymd_opt(y, m, d).unwrap().num_days_from_ce()
}

#[test]
fn test_card_class_completed() {
    assert_eq!(card_class(true, Archetype::Routine), "task-item task-completed task-item--routine");
}

#[test]
fn test_card_class_incomplete() {
    assert_eq!(card_class(false, Archetype::Bonus), "task-item task-item--bonus");
}

#[test]
fn test_progress_display_format() {
    assert_eq!(progress_text(2, 3), "2/3");
    assert_eq!(progress_text(4, 0), "4 ×");
}

#[test]
fn test_streak_display() {
    assert_eq!(streak_line("Streak", 5), " | Streak: 5");
}

#[test]
fn test_streak_display_zero() {
    assert_eq!(streak_line("Streak", 0), "");
}

#[test]
fn due_dates_read_relative_to_today() {
    let today = day(2024, 6, 10); // a Monday
    assert_eq!(due_text(today, today), Some(DueText::Key("dates.today")));
    assert_eq!(due_text(today + 1, today), Some(DueText::Key("dates.tomorrow")));
    assert_eq!(due_text(today + 3, today), Some(DueText::Key("weekday.thursday")));
    assert_eq!(due_text(today + 7, today), Some(DueText::Date("Jun 17".to_string())));
    assert_eq!(due_text(today - 1, today), Some(DueText::Date("Jun 09".to_string())));
}

#[test]
fn due_lines_carry_the_time_of_day() {
    assert_eq!(due_line("Due", "Today", Some("14:00")), " | Due: Today (14:00)");
    assert_eq!(due_line("Due", "Jun 17", None), " | Due: Jun 17");
}

#[test]
fn rhythms_have_translation_keys() {
    assert_eq!(recurrence_type_translation_key(RecurrenceType::Weekdays), "recurrence.weekdays");
    assert_eq!(recurrence_type_translation_key(RecurrenceType::OneTime), "recurrence.onetime");
}

#[test]
fn warning_types_get_the_danger_badge() {
    assert_eq!(badge_class(Archetype::Maintenance), "badge badge-sm badge-danger");
    assert_eq!(badge_class(Archetype::Shared), "badge badge-sm badge-assigned");
}

#[test]
fn the_locked_notice_names_count_and_date() {
    let with_date = "{count} logged on {date}, ask someone else";
    let plain = "{count} logged, ask someone else";
    assert_eq!(
        locked_notice(with_date, plain, 2, Some(day(2024, 3, 5))),
        "2 logged on 05.03.2024, ask someone else"
    );
    assert_eq!(locked_notice(with_date, plain, 1, None), "1 logged, ask someone else");
    assert_eq!(locked_notice("{count}/{count}", plain, 3, Some(day(2024, 1, 1))), "3/3");
}
