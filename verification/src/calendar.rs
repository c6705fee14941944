//! The date picker of custom rhythms: a list of days, kept in calendar order, with no day
//! twice once added through the picker.
use vstd::prelude::*;
use crate::dates::{parse_date_input, parsed_date_input};

verus! {

broadcast use vstd::seq_lib::group_to_multiset_ensures;

/// Days in calendar order.
pub open spec fn days_sorted(s: Seq<i32>) -> bool {
    forall|i: int, j: int| 0 <= i < j < s.len() ==> s[i] <= s[j]
}

/// Puts a day into an ordered list, after every day that is not later.
fn insert_day(v: &mut Vec<i32>, x: i32)
    requires
        days_sorted(old(v)@),
    ensures
        days_sorted(final(v)@),
        final(v)@.to_multiset() == old(v)@.to_multiset().insert(x),
{
    let mut p: usize = 0;
    while p < v.len() && v[p] <= x
        invariant
            0 <= p <= v@.len(),
            v@ == old(v)@,
            forall|k: int| 0 <= k < p ==> v@[k] <= x,
        decreases v@.len() - p,
    {
        p = p + 1;
    }
    let ghost before = v@;
    v.insert(p, x);
    assert(v@ == before.insert(p as int, x));
    assert forall|i: int, j: int| 0 <= i < j < v@.len() implies v@[i] <= v@[j] by {
        if j < p {
            assert(v@[i] == before[i] && v@[j] == before[j]);
        } else if j == p {
            assert(v@[i] == before[i]);
        } else if i < p {
            assert(v@[i] == before[i] && v@[j] == before[j - 1]);
            assert(before[i] <= x);
            if p < before.len() {
                assert(before[p as int] > x);
                assert(before[p as int] <= before[j - 1]);
            }
        } else if i == p {
            assert(before[p as int] > x);
            assert(v@[j] == before[j - 1]);
            assert(before[p as int] <= before[j - 1]);
        } else {
            assert(v@[i] == before[i - 1] && v@[j] == before[j - 1]);
        }
    }
}

/// The days in calendar order.
pub fn sort_days(days: &[i32]) -> (r: Vec<i32>)
    ensures
        days_sorted(r@),
        r@.to_multiset() == days@.to_multiset(),
{
    let mut r: Vec<i32> = Vec::new();
    let mut i: usize = 0;
    assert(days@.take(0) =~= Seq::<i32>::empty());
    while i < days.len()
        invariant
            0 <= i <= days@.len(),
            days_sorted(r@),
            r@.to_multiset() == days@.take(i as int).to_multiset(),
        decreases days@.len() - i,
    {
        insert_day(&mut r, days[i]);
        assert(days@.take(i + 1) =~= days@.take(i as int).push(days@[i as int]));
        i = i + 1;
    }
    assert(days@.take(days@.len() as int) =~= days@);
    r
}

/// Whether a day is in a list.
fn has_day(days: &[i32], d: i32) -> (r: bool)
    ensures
        r == days@.contains(d),
{
    let mut i: usize = 0;
    while i < days.len()
        invariant
            0 <= i <= days@.len(),
            forall|k: int| 0 <= k < i ==> days@[k] != d,
        decreases days@.len() - i,
    {
        if days[i] == d {
            return true;
        }
        i = i + 1;
    }
    false
}

/// Adds the day typed into the picker. An empty field is refused with "Please select a date"
/// and text that is no `YYYY-MM-DD` date with "Invalid date format. Use YYYY-MM-DD"; both
/// leave the list alone. A day already listed changes nothing; a new one joins the list, which
/// is then put in calendar order.
pub fn add_custom_date(dates: &mut Vec<i32>, input: &str) -> (r: Result<(), String>)
    ensures
        input@.len() == 0 ==> (r matches Err(e) && e@ == "Please select a date"@) && final(dates)@
            == old(dates)@,
        input@.len() > 0 && parsed_date_input(input@) is None ==> (r matches Err(e) && e@
            == "Invalid date format. Use YYYY-MM-DD"@) && final(dates)@ == old(dates)@,
        input@.len() > 0 && parsed_date_input(input@) is Some ==> r is Ok && final(dates)@.contains(
            parsed_date_input(input@)->0,
        ),
        input@.len() > 0 && parsed_date_input(input@) is Some && old(dates)@.contains(
            parsed_date_input(input@)->0,
        ) ==> final(dates)@ == old(dates)@,
        input@.len() > 0 && parsed_date_input(input@) is Some && !old(dates)@.contains(
            parsed_date_input(input@)->0,
        ) ==> days_sorted(final(dates)@) && final(dates)@.to_multiset() == old(
            dates,
        )@.to_multiset().insert(parsed_date_input(input@)->0),
{
    if input.is_empty() {
        return Err(String::from_str("Please select a date"));
    }
    match parse_date_input(input) {
        Some(d) => {
            if !has_day(dates.as_slice(), d) {
                let mut all = sort_days(dates.as_slice());
                insert_day(&mut all, d);
                assert(all@.to_multiset().count(d) > 0);
                *dates = all;
            }
            Ok(())
        },
        None => Err(String::from_str("Invalid date format. Use YYYY-MM-DD")),
    }
}

/// Removes every occurrence of a day.
pub fn remove_custom_date(dates: &mut Vec<i32>, d: i32)
    ensures
        final(dates)@ == old(dates)@.filter(|x: i32| x != d),
{
    let ghost keep = |x: i32| x != d;
    let mut kept: Vec<i32> = Vec::new();
    let mut i: usize = 0;
    assert(dates@.take(0).filter(keep) =~= Seq::<i32>::empty()) by {
        reveal(Seq::filter);
    }
    while i < dates.len()
        invariant
            0 <= i <= dates@.len(),
            dates@ == old(dates)@,
            keep == (|x: i32| x != d),
            kept@ == dates@.take(i as int).filter(keep),
        decreases dates@.len() - i,
    {
        let ghost s = dates@.take(i + 1);
        assert(s.drop_last() =~= dates@.take(i as int));
        assert(s.filter(keep) == if keep(dates@[i as int]) {
            dates@.take(i as int).filter(keep).push(dates@[i as int])
        } else {
            dates@.take(i as int).filter(keep)
        }) by {
            reveal(Seq::filter);
        }
        if dates[i] != d {
            kept.push(dates[i]);
        }
        i = i + 1;
    }
    assert(dates@.take(dates@.len() as int) =~= dates@);
    *dates = kept;
}

} // verus!
