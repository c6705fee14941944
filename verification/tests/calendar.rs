use chrono::{Datelike, NaiveDate};
use haushalt_frontend::calendar::{add_custom_date, remove_custom_date, sort_days};

fn day(y: i32, m: u32, d: u32) -> i32 {
    NaiveDate::from_ymd_opt(y, m, d).unwrap().num_days_from_ce()
}

#[test]
fn test_empty_input_error() {
    let mut dates = vec![];
    assert_eq!(add_custom_date(&mut dates, ""), Err("Please select a date".to_string()));
    assert!(dates.is_empty());
}

#[test]
fn test_date_parse_invalid() {
    let mut dates = vec![];
    assert_eq!(add_custom_date(&mut dates, "invalid-date"), Err("Invalid date format. Use YYYY-MM-DD".to_string()));
    assert_eq!(add_custom_date(&mut dates, "15/06/2024"), Err("Invalid date format. Use YYYY-MM-DD".to_string()));
}

#[test]
fn test_dates_sorting() {
    let mut dates = vec![];
    add_custom_date(&mut dates, "2024-03-15").unwrap();
    add_custom_date(&mut dates, "2024-01-01").unwrap();
    add_custom_date(&mut dates, "2024-02-28").unwrap();
    assert_eq!(dates, vec![day(2024, 1, 1), day(2024, 2, 28), day(2024, 3, 15)]);
}

#[test]
fn test_dates_deduplication() {
    let mut dates = vec![day(2024, 1, 1)];
    add_custom_date(&mut dates, "2024-01-01").unwrap();
    assert_eq!(dates.len(), 1);
}

#[test]
fn test_dates_remove() {
    let mut dates = vec![day(2024, 1, 1), day(2024, 2, 2)];
    remove_custom_date(&mut dates, day(2024, 1, 1));
    assert_eq!(dates, vec![day(2024, 2, 2)]);
}

#[test]
fn unordered_dates_are_ordered_when_one_is_added() {
    let mut dates = vec![day(2024, 5, 1), day(2024, 2, 1)];
    add_custom_date(&mut dates, "2024-03-01").unwrap();
    assert_eq!(dates, vec![day(2024, 2, 1), day(2024, 3, 1), day(2024, 5, 1)]);
    assert_eq!(sort_days(&[3, 1, 2, 1]), vec![1, 1, 2, 3]);
}
