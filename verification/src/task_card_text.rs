//! The texts and classes a task card shows: its progress, when it is due next, its streak,
//! its type badge, and the notice of a completion the user cannot take back.
use vstd::prelude::*;
use crate::archetype::{Archetype, RecurrenceType};
use crate::dates::{
    dotted_date_text, format_dotted_date, format_month_day, month_day_text, weekday_from_monday,
    weekday_of,
};
use crate::task_card_model::{accent_class, accent_text};
use crate::task_list::{weekday_key_text, weekday_translation_key};
use crate::text::{i64_text, int_text, replace_all, replaced};

verus! {

/// The translation key of each rhythm.
pub open spec fn recurrence_key_text(r: RecurrenceType) -> Seq<char> {
    match r {
        RecurrenceType::Daily => "recurrence.daily"@,
        RecurrenceType::Weekly => "recurrence.weekly"@,
        RecurrenceType::Monthly => "recurrence.monthly"@,
        RecurrenceType::Weekdays => "recurrence.weekdays"@,
        RecurrenceType::Custom => "recurrence.custom"@,
        RecurrenceType::OneTime => "recurrence.onetime"@,
    }
}

/// The translation key of a rhythm.
pub fn recurrence_type_translation_key(r: RecurrenceType) -> (k: &'static str)
    ensures
        k@ == recurrence_key_text(r),
{
    match r {
        RecurrenceType::Daily => "recurrence.daily",
        RecurrenceType::Weekly => "recurrence.weekly",
        RecurrenceType::Monthly => "recurrence.monthly",
        RecurrenceType::Weekdays => "recurrence.weekdays",
        RecurrenceType::Custom => "recurrence.custom",
        RecurrenceType::OneTime => "recurrence.onetime",
    }
}

/// The card's classes: a task whose target is met is marked completed, and every card
/// carries the accent of its type.
pub fn card_class(target_met: bool, archetype: Archetype) -> (r: String)
    ensures
        r@ == (if target_met {
            "task-item task-completed "@
        } else {
            "task-item "@
        }) + accent_text(archetype),
{
    let mut r = if target_met {
        String::from_str("task-item task-completed ")
    } else {
        String::from_str("task-item ")
    };
    r.append(accent_class(archetype));
    r
}

/// The progress a card shows: `3/5` against a target, and just `3 ×` for a task without one,
/// which is counted rather than measured.
pub fn progress_text(shown: i32, target: i32) -> (r: String)
    ensures
        target > 0 ==> r@ == int_text(shown as int) + "/"@ + int_text(target as int),
        target <= 0 ==> r@ == int_text(shown as int) + " ×"@,
{
    let mut r = i64_text(shown as i64);
    if target > 0 {
        r.append("/");
        let t = i64_text(target as i64);
        r.append(t.as_str());
    } else {
        r.append(" ×");
    }
    r
}

/// When a task is due next, as a card says it.
#[derive(Debug, Clone, PartialEq, Eq)]
pub enum DueText {
    /// A translation key: today, tomorrow, or a weekday within the week.
    Key(&'static str),
    /// A date further away or in the past, such as `Mar 05`.
    Date(String),
}

/// When a task is due, relative to today: today, tomorrow, the weekday's name for the rest of
/// the week, and the short date otherwise. `None` for a day chrono has no date for.
pub fn due_text(date: i32, today: i32) -> (r: Option<DueText>)
    ensures
        date - today == 0 ==> (r matches Some(DueText::Key(k)) && k@ == "dates.today"@),
        date - today == 1 ==> (r matches Some(DueText::Key(k)) && k@ == "dates.tomorrow"@),
        2 <= date - today <= 6 ==> match weekday_from_monday(date) {
            Some(w) => r matches Some(DueText::Key(k)) && k@ == weekday_key_text(w),
            None => r is None,
        },
        !(0 <= date - today <= 6) ==> match month_day_text(date) {
            Some(t) => r matches Some(DueText::Date(s)) && s@ == t,
            None => r is None,
        },
{
    let days_until: i64 = date as i64 - today as i64;
    if days_until == 0 {
        Some(DueText::Key("dates.today"))
    } else if days_until == 1 {
        Some(DueText::Key("dates.tomorrow"))
    } else if 2 <= days_until && days_until <= 6 {
        match weekday_of(date) {
            Some(w) => Some(DueText::Key(weekday_translation_key(w))),
            None => None,
        }
    } else {
        match format_month_day(date) {
            Some(t) => Some(DueText::Date(t)),
            None => None,
        }
    }
}

/// The due part of a card's meta line: ` | Due: Tomorrow`, with the time of day in brackets
/// when the task has one.
pub fn due_line(label: &str, due: &str, due_time: Option<&str>) -> (r: String)
    ensures
        r@ == " | "@ + label@ + ": "@ + due@ + match due_time {
            Some(t) => " ("@ + t@ + ")"@,
            None => Seq::<char>::empty(),
        },
{
    let mut r = String::from_str(" | ");
    r.append(label);
    r.append(": ");
    r.append(due);
    let ghost base = r@;
    match due_time {
        Some(t) => {
            r.append(" (");
            r.append(t);
            r.append(")");
            assert(r@ =~= base + (" ("@ + t@ + ")"@));
        },
        None => {
            assert(r@ =~= base + Seq::<char>::empty());
        },
    }
    r
}

/// The streak part of a card's meta line: ` | Streak: 4` for a running streak, nothing
/// otherwise.
pub fn streak_line(label: &str, streak: i32) -> (r: String)
    ensures
        streak > 0 ==> r@ == " | "@ + label@ + ": "@ + int_text(streak as int),
        streak <= 0 ==> r@.len() == 0,
{
    if streak > 0 {
        let mut r = String::from_str(" | ");
        r.append(label);
        r.append(": ");
        let n = i64_text(streak as i64);
        r.append(n.as_str());
        r
    } else {
        String::new()
    }
}

/// The colour of a type badge: bad habits and maintenance warn, the others inform.
pub fn badge_class(archetype: Archetype) -> (r: &'static str)
    ensures
        archetype == Archetype::BadHabit || archetype == Archetype::Maintenance ==> r@
            == "badge badge-sm badge-danger"@,
        !(archetype == Archetype::BadHabit || archetype == Archetype::Maintenance) ==> r@
            == "badge badge-sm badge-assigned"@,
{
    match archetype {
        Archetype::BadHabit | Archetype::Maintenance => "badge badge-sm badge-danger",
        _ => "badge badge-sm badge-assigned",
    }
}

/// The notice of a completion the user cannot take back, from its two translated templates:
/// the one naming the date when the last completion has one chrono can print, the other
/// otherwise. `{count}` becomes the number logged and `{date}` the date as `05.03.2024`.
pub fn locked_notice(
    template_with_date: &str,
    template: &str,
    count: i32,
    last_completion_day: Option<i32>,
) -> (r: String)
    ensures
        ({
            let date = match last_completion_day {
                Some(d) => dotted_date_text(d),
                None => None,
            };
            match date {
                Some(t) => r@ == replaced(
                    replaced(template_with_date@, "{count}"@, int_text(count as int)),
                    "{date}"@,
                    t,
                ),
                None => r@ == replaced(template@, "{count}"@, int_text(count as int)),
            }
        }),
{
    let date = match last_completion_day {
        Some(d) => format_dotted_date(d),
        None => None,
    };
    let n = i64_text(count as i64);
    proof {
        reveal_strlit("{count}");
        reveal_strlit("{date}");
    }
    match date {
        Some(t) => {
            let filled = replace_all(template_with_date, "{count}", n.as_str());
            replace_all(filled.as_str(), "{date}", t.as_str())
        },
        None => replace_all(template, "{count}", n.as_str()),
    }
}

} // verus!
