//! Calendar days as plain numbers, and the chrono calls that read and print them.
//!
//! A day is carried as its number in the proleptic Gregorian calendar with January 1 of
//! year 1 as day 1 (chrono's `num_days_from_ce`), so days compare and subtract as integers.
use vstd::prelude::*;

verus! {

/// The `%Y-%m-%d` text chrono prints for a day number, or `None` when chrono has no date
/// for that number.
pub uninterp spec fn date_input_text(days: i32) -> Option<Seq<char>>;

/// The text chrono's `Display` prints for a day number, or `None` when chrono has no date
/// for that number.
pub uninterp spec fn date_display_text(days: i32) -> Option<Seq<char>>;

/// The day number chrono reads from `%Y-%m-%d` text, or `None` when it rejects the text.
pub uninterp spec fn parsed_date_input(text: Seq<char>) -> Option<i32>;

/// Whether chrono has a date for a day number: from January 1, 262144 BCE (`NaiveDate::MIN`)
/// to December 31, 262142 (`NaiveDate::MAX`).
pub open spec fn in_chrono_range(days: int) -> bool {
    -95746129 <= days <= 95745399
}

/// chrono's day of the week for a day number, counted from Monday = 0 (day 1, January 1 of
/// year 1, is a Monday), or `None` when chrono has no date for that number.
pub open spec fn weekday_from_monday(days: i32) -> Option<u32> {
    if in_chrono_range(days as int) {
        Some(((days - 1) % 7) as u32)
    } else {
        None
    }
}

/// `NaiveDate::from_num_days_from_ce_opt` followed by `format("%Y-%m-%d")`: the day as it
/// stands in a date input. Claims only that the result is the named text of that day number.
#[verifier::external_body]
pub fn format_date_input(days: i32) -> (r: Option<String>)
    ensures
        r is None <==> date_input_text(days) is None,
        r matches Some(t) ==> date_input_text(days) == Some(t@),
{
    match chrono::NaiveDate::from_num_days_from_ce_opt(days) {
        Some(d) => Some(d.format("%Y-%m-%d").to_string()),
        None => None,
    }
}

/// `NaiveDate::from_num_days_from_ce_opt` followed by `to_string` (chrono's `Display`,
/// documented as the ISO 8601 `%Y-%m-%d` form, with a sign on years beyond four digits).
/// Claims that the result is the named text of that day number, that the text is not empty,
/// and, as that form is one text per calendar day, that no other day number prints the same.
#[verifier::external_body]
pub fn display_date(days: i32) -> (r: Option<String>)
    ensures
        r is None <==> date_display_text(days) is None,
        r matches Some(t) ==> date_display_text(days) == Some(t@),
        r matches Some(t) ==> t@.len() > 0,
        r matches Some(t) ==> forall|e: i32| #[trigger] date_display_text(e) == Some(t@) ==> e == days,
{
    match chrono::NaiveDate::from_num_days_from_ce_opt(days) {
        Some(d) => Some(d.to_string()),
        None => None,
    }
}

/// `NaiveDate::parse_from_str(text, "%Y-%m-%d")`, returned as a day number. Claims only that
/// the result is the named reading of the text.
#[verifier::external_body]
pub fn parse_date_input(text: &str) -> (r: Option<i32>)
    ensures
        r == parsed_date_input(text@),
{
    match chrono::NaiveDate::parse_from_str(text, "%Y-%m-%d") {
        Ok(d) => Some(chrono::Datelike::num_days_from_ce(&d)),
        Err(_) => None,
    }
}

/// `NaiveDate::from_num_days_from_ce_opt` followed by `weekday().num_days_from_monday()`.
/// Claims that a day number in chrono's range falls on the weekday that counting in sevens
/// from the Monday of day 1 gives, and that chrono has no date outside that range.
#[verifier::external_body]
pub fn weekday_of(days: i32) -> (r: Option<u32>)
    ensures
        r == weekday_from_monday(days),
{
    match chrono::NaiveDate::from_num_days_from_ce_opt(days) {
        Some(d) => Some(chrono::Datelike::weekday(&d).num_days_from_monday()),
        None => None,
    }
}

/// The `%Y-%m-%d %H:%M UTC` text chrono prints for a moment given in seconds since the Unix
/// epoch, or `None` when chrono has no date for it.
pub uninterp spec fn utc_minute_text(secs: i64) -> Option<Seq<char>>;

/// `DateTime::from_timestamp(secs, 0)` followed by `format("%Y-%m-%d %H:%M UTC")`. Claims only
/// that the result is the named text of that moment.
#[verifier::external_body]
pub fn format_utc_minute(secs: i64) -> (r: Option<String>)
    ensures
        r is None <==> utc_minute_text(secs) is None,
        r matches Some(t) ==> utc_minute_text(secs) == Some(t@),
{
    match chrono::DateTime::from_timestamp(secs, 0) {
        Some(dt) => Some(dt.format("%Y-%m-%d %H:%M UTC").to_string()),
        None => None,
    }
}

/// The `%b %d` text chrono prints for a day number (such as `Mar 05`), or `None` when chrono
/// has no date for that number.
pub uninterp spec fn month_day_text(days: i32) -> Option<Seq<char>>;

/// `NaiveDate::from_num_days_from_ce_opt` followed by `format("%b %d")`. Claims only that the
/// result is the named text of that day number.
#[verifier::external_body]
pub fn format_month_day(days: i32) -> (r: Option<String>)
    ensures
        r is None <==> month_day_text(days) is None,
        r matches Some(t) ==> month_day_text(days) == Some(t@),
{
    match chrono::NaiveDate::from_num_days_from_ce_opt(days) {
        Some(d) => Some(d.format("%b %d").to_string()),
        None => None,
    }
}

/// The `%d.%m.%Y` text chrono prints for a day number (such as `05.03.2024`), or `None` when
/// chrono has no date for that number.
pub uninterp spec fn dotted_date_text(days: i32) -> Option<Seq<char>>;

/// `NaiveDate::from_num_days_from_ce_opt` followed by `format("%d.%m.%Y")`. Claims only that
/// the result is the named text of that day number.
#[verifier::external_body]
pub fn format_dotted_date(days: i32) -> (r: Option<String>)
    ensures
        r is None <==> dotted_date_text(days) is None,
        r matches Some(t) ==> dotted_date_text(days) == Some(t@),
{
    match chrono::NaiveDate::from_num_days_from_ce_opt(days) {
        Some(d) => Some(d.format("%d.%m.%Y").to_string()),
        None => None,
    }
}

/// The moment, in seconds since the Unix epoch, that chrono reads from `%Y-%m-%dT%H:%M` text
/// taken as UTC, or `None` when it rejects the text.
pub uninterp spec fn parsed_datetime_input(text: Seq<char>) -> Option<i64>;

/// `NaiveDateTime::parse_from_str(text, "%Y-%m-%dT%H:%M")` followed by `and_utc()` and
/// `timestamp()`. Claims only that the result is the named reading of the text.
#[verifier::external_body]
pub fn parse_datetime_input(text: &str) -> (r: Option<i64>)
    ensures
        r == parsed_datetime_input(text@),
{
    match chrono::NaiveDateTime::parse_from_str(text, "%Y-%m-%dT%H:%M") {
        Ok(dt) => Some(dt.and_utc().timestamp()),
        Err(_) => None,
    }
}

/// The `%Y-%m-%dT%H:%M` text chrono prints for a moment given in seconds since the Unix epoch,
/// in UTC, or `None` when chrono has no date for it.
pub uninterp spec fn datetime_input_text(secs: i64) -> Option<Seq<char>>;

/// `DateTime::from_timestamp(secs, 0)` followed by `format("%Y-%m-%dT%H:%M")`. Claims only
/// that the result is the named text of that moment.
#[verifier::external_body]
pub fn format_datetime_input(secs: i64) -> (r: Option<String>)
    ensures
        r is None <==> datetime_input_text(secs) is None,
        r matches Some(t) ==> datetime_input_text(secs) == Some(t@),
{
    match chrono::DateTime::from_timestamp(secs, 0) {
        Some(dt) => Some(dt.format("%Y-%m-%dT%H:%M").to_string()),
        None => None,
    }
}

} // verus!
