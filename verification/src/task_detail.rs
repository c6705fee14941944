//! The detail view of a task: its rhythm in words, and its points from the side of someone
//! doing it and of someone missing it.
use vstd::prelude::*;
use crate::archetype::RecurrenceType;
use crate::bulk_edit::RecurrenceValue;
use crate::text::{i64_text, int_text};

verus! {

/// The translation key of a day's full name, days counted 0 = Sunday to 6 = Saturday, with 7
/// as Sunday too; no name for any other number.
pub open spec fn day_name_key_text(d: u8) -> Option<Seq<char>> {
    if d == 1 {
        Some("dates.monday"@)
    } else if d == 2 {
        Some("dates.tuesday"@)
    } else if d == 3 {
        Some("dates.wednesday"@)
    } else if d == 4 {
        Some("dates.thursday"@)
    } else if d == 5 {
        Some("dates.friday"@)
    } else if d == 6 {
        Some("dates.saturday"@)
    } else if d == 0 || d == 7 {
        Some("dates.sunday"@)
    } else {
        None
    }
}

/// The translation key of a day's short name, counted as for the full name.
pub open spec fn short_day_key_text(d: u8) -> Option<Seq<char>> {
    if d == 1 {
        Some("dates.mon"@)
    } else if d == 2 {
        Some("dates.tue"@)
    } else if d == 3 {
        Some("dates.wed"@)
    } else if d == 4 {
        Some("dates.thu"@)
    } else if d == 5 {
        Some("dates.fri"@)
    } else if d == 6 {
        Some("dates.sat"@)
    } else if d == 0 || d == 7 {
        Some("dates.sun"@)
    } else {
        None
    }
}

/// The full name's key of a day.
pub fn day_name_key(d: u8) -> (r: Option<&'static str>)
    ensures
        match day_name_key_text(d) {
            Some(k) => r matches Some(s) && s@ == k,
            None => r is None,
        },
{
    if d == 1 {
        Some("dates.monday")
    } else if d == 2 {
        Some("dates.tuesday")
    } else if d == 3 {
        Some("dates.wednesday")
    } else if d == 4 {
        Some("dates.thursday")
    } else if d == 5 {
        Some("dates.friday")
    } else if d == 6 {
        Some("dates.saturday")
    } else if d == 0 || d == 7 {
        Some("dates.sunday")
    } else {
        None
    }
}

/// The short name's key of a day.
pub fn short_day_key(d: u8) -> (r: Option<&'static str>)
    ensures
        match short_day_key_text(d) {
            Some(k) => r matches Some(s) && s@ == k,
            None => r is None,
        },
{
    if d == 1 {
        Some("dates.mon")
    } else if d == 2 {
        Some("dates.tue")
    } else if d == 3 {
        Some("dates.wed")
    } else if d == 4 {
        Some("dates.thu")
    } else if d == 5 {
        Some("dates.fri")
    } else if d == 6 {
        Some("dates.sat")
    } else if d == 0 || d == 7 {
        Some("dates.sun")
    } else {
        None
    }
}

/// A task's rhythm in words, as translation keys and numbers.
#[derive(Debug, Clone, PartialEq, Eq)]
pub enum RecurrenceSummary {
    /// One label says it all.
    Key(&'static str),
    /// "Every" and the name of one day; no name for a day number out of range.
    EveryDay(Option<&'static str>),
    /// "Monthly on" and the day of the month.
    MonthlyOn(u8),
    /// "Every" and the short names of several days, in the task's order.
    EveryDays(Vec<Option<&'static str>>),
}

/// The short names' keys of some days, in order.
fn short_day_keys(days: &Vec<u8>) -> (r: Vec<Option<&'static str>>)
    ensures
        r@.len() == days@.len(),
        forall|i: int|
            0 <= i < days@.len() ==> match short_day_key_text(#[trigger] days@[i]) {
                Some(k) => r@[i] matches Some(s) && s@ == k,
                None => r@[i] is None,
            },
{
    let mut r: Vec<Option<&'static str>> = Vec::new();
    let mut i: usize = 0;
    while i < days.len()
        invariant
            0 <= i <= days@.len(),
            r@.len() == i,
            forall|j: int|
                0 <= j < i ==> match short_day_key_text(#[trigger] days@[j]) {
                    Some(k) => r@[j] matches Some(s) && s@ == k,
                    None => r@[j] is None,
                },
        decreases days@.len() - i,
    {
        r.push(short_day_key(days[i]));
        i = i + 1;
    }
    r
}

/// A task's rhythm in words. A weekly task names its day, a monthly one its day of the month,
/// and a weekdays task its days; without their detail value, and for every other rhythm, one
/// label says it.
pub fn recurrence_summary(rt: RecurrenceType, value: Option<&RecurrenceValue>) -> (r: RecurrenceSummary)
    ensures
        match (rt, value) {
            (RecurrenceType::Weekly, Some(RecurrenceValue::WeekDay(d))) => r matches RecurrenceSummary::EveryDay(
                k,
            ) && match day_name_key_text(*d) {
                Some(t) => k matches Some(s) && s@ == t,
                None => k is None,
            },
            (RecurrenceType::Monthly, Some(RecurrenceValue::MonthDay(d))) => r
                == RecurrenceSummary::MonthlyOn(*d),
            (RecurrenceType::Weekdays, Some(RecurrenceValue::Weekdays(days))) => r matches RecurrenceSummary::EveryDays(
                keys,
            ) && keys@.len() == days@.len() && forall|i: int|
                0 <= i < days@.len() ==> match short_day_key_text(#[trigger] days@[i]) {
                    Some(t) => keys@[i] matches Some(s) && s@ == t,
                    None => keys@[i] is None,
                },
            (RecurrenceType::OneTime, _) => r matches RecurrenceSummary::Key(k) && k@
                == "tasks.recurrence.onetime"@,
            (RecurrenceType::Daily, _) => r matches RecurrenceSummary::Key(k) && k@
                == "tasks.recurrence.daily"@,
            (RecurrenceType::Weekly, _) => r matches RecurrenceSummary::Key(k) && k@
                == "tasks.recurrence.weekly"@,
            (RecurrenceType::Monthly, _) => r matches RecurrenceSummary::Key(k) && k@
                == "tasks.recurrence.monthly"@,
            (RecurrenceType::Weekdays, _) => r matches RecurrenceSummary::Key(k) && k@
                == "tasks.recurrence.weekdays"@,
            (RecurrenceType::Custom, _) => r matches RecurrenceSummary::Key(k) && k@
                == "tasks.recurrence.custom"@,
        },
{
    match rt {
        RecurrenceType::OneTime => RecurrenceSummary::Key("tasks.recurrence.onetime"),
        RecurrenceType::Daily => RecurrenceSummary::Key("tasks.recurrence.daily"),
        RecurrenceType::Weekly => match value {
            Some(RecurrenceValue::WeekDay(d)) => RecurrenceSummary::EveryDay(day_name_key(*d)),
            _ => RecurrenceSummary::Key("tasks.recurrence.weekly"),
        },
        RecurrenceType::Monthly => match value {
            Some(RecurrenceValue::MonthDay(d)) => RecurrenceSummary::MonthlyOn(*d),
            _ => RecurrenceSummary::Key("tasks.recurrence.monthly"),
        },
        RecurrenceType::Weekdays => match value {
            Some(RecurrenceValue::Weekdays(days)) => RecurrenceSummary::EveryDays(short_day_keys(days)),
            _ => RecurrenceSummary::Key("tasks.recurrence.weekdays"),
        },
        RecurrenceType::Custom => RecurrenceSummary::Key("tasks.recurrence.custom"),
    }
}

/// Names joined by `, `.
pub open spec fn joined(names: Seq<Seq<char>>) -> Seq<char>
    decreases names.len(),
{
    if names.len() == 0 {
        Seq::empty()
    } else if names.len() == 1 {
        names[0]
    } else {
        joined(names.drop_last()) + ", "@ + names.last()
    }
}

/// A label, a space, and names joined by `, `: "Every Mon, Wed".
pub fn compose_every(label: &str, names: &[String]) -> (r: String)
    ensures
        r@ == label@ + " "@ + joined(crate::sorted::texts_of(names@)),
{
    let mut r = String::from_str(label);
    r.append(" ");
    let ghost base = r@;
    let mut i: usize = 0;
    while i < names.len()
        invariant
            0 <= i <= names@.len(),
            r@ == base + joined(crate::sorted::texts_of(names@.take(i as int))),
        decreases names@.len() - i,
    {
        let ghost prev = crate::sorted::texts_of(names@.take(i as int));
        let ghost next = crate::sorted::texts_of(names@.take(i + 1));
        assert(next.drop_last() =~= prev);
        assert(next.last() == names@[i as int]@);
        if i > 0 {
            r.append(", ");
        }
        r.append(names[i].as_str());
        proof {
            if i == 0 {
                assert(prev =~= Seq::<Seq<char>>::empty());
                assert(joined(next) == names@[0]@);
            }
        }
        assert(r@ =~= base + joined(next));
        i = i + 1;
    }
    assert(names@.take(names@.len() as int) =~= names@);
    r
}

/// A points value with its sign: `+5` for points gained, `-5` for points lost, and `-` when the
/// task sets none.
pub open spec fn signed_points(points: Option<i64>, gain: bool) -> Seq<char> {
    match points {
        Some(p) => (if gain {
            "+"@
        } else {
            "-"@
        }) + int_text(p as int),
        None => "-"@,
    }
}

/// The points of a task from both sides, with their colours.
#[derive(Debug, Clone, PartialEq, Eq)]
pub struct PointsView {
    pub on_completion: String,
    pub on_completion_class: &'static str,
    pub on_miss: String,
    pub on_miss_class: &'static str,
}

/// A points value as shown.
fn signed_points_text(points: Option<i64>, gain: bool) -> (r: String)
    ensures
        r@ == signed_points(points, gain),
{
    match points {
        Some(p) => {
            let mut r = if gain {
                String::from_str("+")
            } else {
                String::from_str("-")
            };
            let n = i64_text(p);
            r.append(n.as_str());
            r
        },
        None => String::from_str("-"),
    }
}

/// What doing and what missing a task is worth. For a good habit doing it earns the reward
/// and missing it costs the penalty; a bad habit turns both around, so doing it costs the
/// penalty and resisting it earns the reward.
pub fn points_view(is_bad_habit: bool, points_reward: Option<i64>, points_penalty: Option<i64>) -> (r:
    PointsView)
    ensures
        !is_bad_habit ==> r.on_completion@ == signed_points(points_reward, true) && r.on_miss@
            == signed_points(points_penalty, false) && r.on_completion_class@
            == "detail-value points-positive"@ && r.on_miss_class@
            == "detail-value points-negative"@,
        is_bad_habit ==> r.on_completion@ == signed_points(points_penalty, false) && r.on_miss@
            == signed_points(points_reward, true) && r.on_completion_class@
            == "detail-value points-negative"@ && r.on_miss_class@
            == "detail-value points-positive"@,
{
    if is_bad_habit {
        PointsView {
            on_completion: signed_points_text(points_penalty, false),
            on_completion_class: "detail-value points-negative",
            on_miss: signed_points_text(points_reward, true),
            on_miss_class: "detail-value points-positive",
        }
    } else {
        PointsView {
            on_completion: signed_points_text(points_reward, true),
            on_completion_class: "detail-value points-positive",
            on_miss: signed_points_text(points_penalty, false),
            on_miss_class: "detail-value points-negative",
        }
    }
}

/// A linked item's amount after its name: ` x3` when more than one.
pub fn amount_suffix(amount: i32) -> (r: Option<String>)
    ensures
        amount > 1 ==> (r matches Some(s) && s@ == " x"@ + int_text(amount as int)),
        amount <= 1 ==> r is None,
{
    if amount > 1 {
        let mut s = String::from_str(" x");
        let n = i64_text(amount as i64);
        s.append(n.as_str());
        Some(s)
    } else {
        None
    }
}

} // verus!
