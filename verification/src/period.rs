//! The habit tracker row: how each recent period of a task is rendered.
use vstd::prelude::*;

verus! {

/// How a finished period of a task ended.
#[derive(Debug, Clone, Copy, PartialEq, Eq, Structural)]
pub enum PeriodStatus {
    Completed,
    Failed,
    Skipped,
}

/// One recent period: the day it started (a day number, see `dates`) and how it ended.
#[derive(Debug, Clone, Copy, PartialEq, Eq, Structural)]
pub struct PeriodDisplay {
    pub period_start: i32,
    pub status: PeriodStatus,
}

/// Icon and colour class of a period.
pub open spec fn appearance_of(status: PeriodStatus, is_bad_habit: bool, is_bonus: bool) -> (
    Seq<char>,
    Seq<char>,
) {
    match status {
        PeriodStatus::Completed => if is_bad_habit {
            ("✓"@, "period-failed"@)
        } else {
            ("✓"@, "period-completed"@)
        },
        PeriodStatus::Failed => if is_bad_habit {
            ("✗"@, "period-completed"@)
        } else if is_bonus {
            ("-"@, "period-skipped"@)
        } else {
            ("✗"@, "period-failed"@)
        },
        PeriodStatus::Skipped => ("-"@, "period-skipped"@),
    }
}

/// How one period is rendered: its icon and the CSS class carrying the colour.
///
/// Bad habits invert the verdict — indulging is the failure, resisting is the success. Bonus
/// tasks have nothing they could have failed at, so they are never marked red.
pub fn period_appearance(status: PeriodStatus, is_bad_habit: bool, is_bonus: bool) -> (r: (
    &'static str,
    &'static str,
))
    ensures
        (r.0@, r.1@) == appearance_of(status, is_bad_habit, is_bonus),
{
    match status {
        PeriodStatus::Completed => {
            if is_bad_habit {
                ("✓", "period-failed")
            } else {
                ("✓", "period-completed")
            }
        },
        PeriodStatus::Failed => {
            if is_bad_habit {
                ("✗", "period-completed")
            } else if is_bonus {
                ("-", "period-skipped")
            } else {
                ("✗", "period-failed")
            }
        },
        PeriodStatus::Skipped => ("-", "period-skipped"),
    }
}

/// A bonus task that is not a bad habit never shows a red period, whatever its history.
pub proof fn lemma_bonus_is_never_red(status: PeriodStatus)
    ensures
        appearance_of(status, false, true).1 != "period-failed"@,
{
    reveal_strlit("period-failed");
    reveal_strlit("period-skipped");
    reveal_strlit("period-completed");
    assert("period-failed"@.len() != "period-skipped"@.len());
    assert("period-failed"@.len() != "period-completed"@.len());
}

/// A bad habit inverts the verdict, bonus or not: a completed period shows the colour a
/// good habit's missed period has (red), a missed one the colour a good habit's completed
/// period has (green); the icon keeps saying what happened, a skipped period is grey for
/// every task, and a missed bonus period looks like a skipped one.
pub proof fn lemma_bad_habits_invert_the_verdict(is_bonus: bool, other_bonus: bool)
    ensures
        appearance_of(PeriodStatus::Completed, true, is_bonus).1 == "period-failed"@,
        appearance_of(PeriodStatus::Failed, true, is_bonus).1 == "period-completed"@,
        appearance_of(PeriodStatus::Completed, true, is_bonus).1 == appearance_of(
            PeriodStatus::Failed,
            false,
            false,
        ).1,
        appearance_of(PeriodStatus::Failed, true, is_bonus).1 == appearance_of(
            PeriodStatus::Completed,
            false,
            other_bonus,
        ).1,
        appearance_of(PeriodStatus::Completed, true, is_bonus).0 == appearance_of(
            PeriodStatus::Completed,
            false,
            other_bonus,
        ).0,
        appearance_of(PeriodStatus::Failed, true, is_bonus).0 == appearance_of(
            PeriodStatus::Failed,
            false,
            false,
        ).0,
        appearance_of(PeriodStatus::Completed, false, is_bonus) == ("✓"@, "period-completed"@),
        appearance_of(PeriodStatus::Failed, false, false) == ("✗"@, "period-failed"@),
        appearance_of(PeriodStatus::Skipped, true, is_bonus) == ("-"@, "period-skipped"@),
        appearance_of(PeriodStatus::Skipped, false, is_bonus) == ("-"@, "period-skipped"@),
        appearance_of(PeriodStatus::Failed, false, true) == appearance_of(
            PeriodStatus::Skipped,
            false,
            true,
        ),
{
}

/// Whether today already has a finished entry among the periods.
pub fn today_has_entry(periods: &[PeriodDisplay], today: i32) -> (r: bool)
    ensures
        r == exists|i: int| 0 <= i < periods@.len() && (#[trigger] periods@[i]).period_start
            == today,
{
    let mut i: usize = 0;
    while i < periods.len()
        invariant
            0 <= i <= periods@.len(),
            forall|j: int| 0 <= j < i ==> (#[trigger] periods@[j]).period_start != today,
        decreases periods@.len() - i,
    {
        if periods[i].period_start == today {
            return true;
        }
        i = i + 1;
    }
    false
}

} // verus!
