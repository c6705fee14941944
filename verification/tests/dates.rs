use chrono::{Datelike, NaiveDate};
use haushalt_frontend::dates::{display_date, weekday_of};
use haushalt_frontend::ids::{format_uuid, parse_uuid};
use haushalt_frontend::task_list::DueDateGroup;

fn day(y: i32, m: u32, d: u32) -> i32 {
    NaiveDate::from_ymd_opt(y, m, d).unwrap().num_days_from_ce()
}

#[test]
fn weekdays_count_in_sevens_from_a_monday() {
    assert_eq!(weekday_of(1), Some(0));
    assert_eq!(weekday_of(0), Some(6));
    assert_eq!(weekday_of(day(2026, 3, 2)), Some(0));
    assert_eq!(weekday_of(day(2026, 3, 8)), Some(6));
    assert_eq!(weekday_of(-100), Some(((-100i64 - 1).rem_euclid(7)) as u32));
}

#[test]
fn chrono_range_ends_where_stated() {
    assert!(weekday_of(-95746129).is_some());
    assert!(weekday_of(-95746130).is_none());
    assert!(weekday_of(95745399).is_some());
    assert!(weekday_of(95745400).is_none());
    assert!(display_date(95745400).is_none());
}

#[test]
fn later_groups_of_different_days_have_different_keys() {
    let a = DueDateGroup::Later(day(2026, 8, 15)).state_key();
    let b = DueDateGroup::Later(day(2026, 8, 16)).state_key();
    let c = DueDateGroup::Later(day(12026, 8, 15)).state_key();
    assert_ne!(a, b);
    assert_ne!(a, c);
    assert_eq!(a, DueDateGroup::Later(day(2026, 8, 15)).state_key());
}

#[test]
fn uuid_text_is_grouped_lowercase_hex() {
    assert_eq!(format_uuid(0), "00000000-0000-0000-0000-000000000000");
    assert_eq!(
        format_uuid(0x67e5504410b1426f9247bb680e5fe0c8),
        "67e55044-10b1-426f-9247-bb680e5fe0c8"
    );
    assert_eq!(parse_uuid(""), None);
    assert_eq!(
        parse_uuid("67e55044-10b1-426f-9247-bb680e5fe0c8"),
        Some(0x67e5504410b1426f9247bb680e5fe0c8)
    );
}
