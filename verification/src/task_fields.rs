//! The input fields of the task forms: the weekday checkboxes, the day pickers, and the
//! apply switch of a bulk edit field.
use vstd::prelude::*;
use crate::text::{chars_of, parse_i32, parse_u8, parsed_i32, parsed_u8, str_eq, string_of};

verus! {

broadcast use vstd::seq_lib::group_to_multiset_ensures;

/// The weekday checkboxes in their order on screen, Monday first: each day's number
/// (0 = Sunday) and the translation key of its name.
pub const WEEKDAY_CHOICES: [(u8, &'static str); 7] = [
    (1, "weekday.monday"),
    (2, "weekday.tuesday"),
    (3, "weekday.wednesday"),
    (4, "weekday.thursday"),
    (5, "weekday.friday"),
    (6, "weekday.saturday"),
    (0, "weekday.sunday"),
];

/// A day's name cut to its first three characters for a checkbox.
pub fn short_name(name: &str) -> (r: String)
    ensures
        r@ == if name@.len() < 3 {
            name@
        } else {
            name@.take(3)
        },
{
    let cs = chars_of(name);
    let n = if cs.len() < 3 {
        cs.len()
    } else {
        3
    };
    let r = string_of(cs.as_slice(), 0, n);
    assert(cs@.subrange(0, n as int) =~= if name@.len() < 3 {
        name@
    } else {
        name@.take(3)
    });
    r
}

/// Days of the week in ascending order.
pub open spec fn ascending(s: Seq<u8>) -> bool {
    forall|i: int, j: int| 0 <= i < j < s.len() ==> s[i] <= s[j]
}

/// Puts a day into an ascending list, after every day that is not greater.
fn insert_weekday(v: &mut Vec<u8>, x: u8)
    requires
        ascending(old(v)@),
    ensures
        ascending(final(v)@),
        final(v)@.to_multiset() == old(v)@.to_multiset().insert(x),
{
    let mut p: usize = 0;
    while p < v.len() && v[p] <= x
        invariant
            0 <= p <= v@.len(),
            v@ == old(v)@,
            forall|k: int| 0 <= k < p ==> v@[k] <= x,
        decreases v@.len() - p,
    {
        p = p + 1;
    }
    let ghost before = v@;
    v.insert(p, x);
    assert forall|i: int, j: int| 0 <= i < j < v@.len() implies v@[i] <= v@[j] by {
        if j < p {
            assert(v@[i] == before[i] && v@[j] == before[j]);
        } else if j == p {
            assert(v@[i] == before[i]);
        } else if i < p {
            assert(v@[i] == before[i] && v@[j] == before[j - 1]);
            if p < before.len() {
                assert(before[p as int] > x);
                assert(before[p as int] <= before[j - 1]);
            }
        } else if i == p {
            assert(v@[j] == before[j - 1]);
            assert(before[p as int] <= before[j - 1]);
        } else {
            assert(v@[i] == before[i - 1] && v@[j] == before[j - 1]);
        }
    }
}

/// The weekdays after a checkbox changed. Ticking a day not yet chosen adds it and puts the
/// days in ascending order; ticking a chosen day changes nothing; unticking removes it.
pub fn toggle_weekday(days: &[u8], day: u8, checked: bool) -> (r: Vec<u8>)
    ensures
        checked && days@.contains(day) ==> r@ == days@,
        checked && !days@.contains(day) ==> ascending(r@) && r@.to_multiset() == days@.to_multiset().insert(
            day,
        ),
        !checked ==> r@ == days@.filter(|x: u8| x != day),
{
    let mut found = false;
    let mut i: usize = 0;
    while i < days.len()
        invariant
            0 <= i <= days@.len(),
            found == days@.take(i as int).contains(day),
        decreases days@.len() - i,
    {
        assert(days@.take(i + 1) =~= days@.take(i as int).push(days@[i as int]));
        proof {
            crate::task_modal::lemma_push_contains(days@.take(i as int), days@[i as int], day);
        }
        if days[i] == day {
            found = true;
        }
        i = i + 1;
    }
    assert(days@.take(days@.len() as int) =~= days@);
    if checked {
        let mut r: Vec<u8> = Vec::new();
        let mut k: usize = 0;
        while k < days.len()
            invariant
                0 <= k <= days@.len(),
                !found ==> ascending(r@) && r@.to_multiset() == days@.take(k as int).to_multiset(),
                found ==> r@ == days@.take(k as int),
            decreases days@.len() - k,
        {
            if found {
                r.push(days[k]);
            } else {
                insert_weekday(&mut r, days[k]);
            }
            assert(days@.take(k + 1) =~= days@.take(k as int).push(days@[k as int]));
            k = k + 1;
        }
        assert(days@.take(days@.len() as int) =~= days@);
        if !found {
            insert_weekday(&mut r, day);
        }
        r
    } else {
        let ghost keep = |x: u8| x != day;
        let mut r: Vec<u8> = Vec::new();
        let mut k: usize = 0;
        assert(days@.take(0).filter(keep) =~= Seq::<u8>::empty()) by {
            reveal(Seq::filter);
        }
        while k < days.len()
            invariant
                0 <= k <= days@.len(),
                keep == (|x: u8| x != day),
                r@ == days@.take(k as int).filter(keep),
            decreases days@.len() - k,
        {
            let ghost s = days@.take(k + 1);
            assert(s.drop_last() =~= days@.take(k as int));
            assert(s.filter(keep) == if keep(days@[k as int]) {
                days@.take(k as int).filter(keep).push(days@[k as int])
            } else {
                days@.take(k as int).filter(keep)
            }) by {
                reveal(Seq::filter);
            }
            if days[k] != day {
                r.push(days[k]);
            }
            k = k + 1;
        }
        assert(days@.take(days@.len() as int) =~= days@);
        r
    }
}

/// The day typed into a weekday or month-day field, when it reads as a `u8`; anything else
/// leaves the field as it was.
pub fn day_from_input(text: &str) -> (r: Option<u8>)
    ensures
        r == parsed_u8(text@),
{
    parse_u8(text)
}

/// The interval typed into the custom interval field: at least one; text that is no number
/// leaves the field as it was.
pub fn interval_from_input(text: &str) -> (r: Option<i32>)
    ensures
        r == match parsed_i32(text@) {
            Some(v) => Some(if v > 1 { v } else { 1i32 }),
            None => None,
        },
{
    match parse_i32(text) {
        Some(v) => Some(if v > 1 { v } else { 1 }),
        None => None,
    }
}

/// The class of a bulk edit field's body: greyed out until its apply switch is on.
pub fn bulk_field_class(apply: bool) -> (r: &'static str)
    ensures
        apply ==> r@.len() == 0,
        !apply ==> r@ == "field-disabled"@,
{
    proof {
        reveal_strlit("");
    }
    if apply {
        ""
    } else {
        "field-disabled"
    }
}

/// The detail field a rhythm shows below the rhythm selector.
#[derive(Debug, Clone, Copy, PartialEq, Eq, Structural)]
pub enum DetailField {
    /// The rhythm needs no detail.
    NoDetail,
    /// Weekly: one day of the week.
    Weekday,
    /// Monthly: the day of the month.
    MonthDay,
    /// On some days of the week.
    Weekdays,
    /// On picked dates.
    CustomDates,
}

/// The detail field of each rhythm text.
pub open spec fn detail_field_of(recurrence: Seq<char>) -> DetailField {
    if recurrence == "weekly"@ {
        DetailField::Weekday
    } else if recurrence == "monthly"@ {
        DetailField::MonthDay
    } else if recurrence == "weekdays"@ {
        DetailField::Weekdays
    } else if recurrence == "custom"@ {
        DetailField::CustomDates
    } else {
        DetailField::NoDetail
    }
}

/// Which detail field the rhythm selector's value shows.
pub fn detail_field(recurrence: &str) -> (r: DetailField)
    ensures
        r == detail_field_of(recurrence@),
{
    if str_eq(recurrence, "weekly") {
        DetailField::Weekday
    } else if str_eq(recurrence, "monthly") {
        DetailField::MonthDay
    } else if str_eq(recurrence, "weekdays") {
        DetailField::Weekdays
    } else if str_eq(recurrence, "custom") {
        DetailField::CustomDates
    } else {
        DetailField::NoDetail
    }
}

} // verus!
