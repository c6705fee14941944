use chrono::{Datelike, Utc};
use haushalt_frontend::period::{period_appearance, today_has_entry, PeriodDisplay, PeriodStatus};

fn today() -> i32 {
    Utc::now().date_naive().num_days_from_ce()
}

#[test]
fn test_today_has_entry_returns_true_when_today_exists() {
    let today = today();
    let periods = vec![PeriodDisplay { period_start: today, status: PeriodStatus::Completed }];
    assert!(today_has_entry(&periods, today));
}

#[test]
fn test_today_has_entry_returns_false_when_today_missing() {
    let today = today();
    let yesterday = today - 1;
    let periods = vec![PeriodDisplay { period_start: yesterday, status: PeriodStatus::Completed }];
    assert!(!today_has_entry(&periods, today));
}

#[test]
fn test_today_has_entry_returns_false_for_empty_periods() {
    let periods: Vec<PeriodDisplay> = vec![];
    assert!(!today_has_entry(&periods, today()));
}

#[test]
fn test_bonus_failed_period_renders_neutral_not_red() {
    let (icon, class) = period_appearance(PeriodStatus::Failed, false, true);
    assert_eq!(class, "period-skipped");
    assert_eq!(icon, "-");
}

#[test]
fn test_bonus_completed_period_stays_green() {
    let (icon, class) = period_appearance(PeriodStatus::Completed, false, true);
    assert_eq!(class, "period-completed");
    assert_eq!(icon, "✓");
}

#[test]
fn test_ordinary_failed_period_stays_red() {
    let (_, class) = period_appearance(PeriodStatus::Failed, false, false);
    assert_eq!(class, "period-failed");
}

#[test]
fn test_bad_habit_inversion_wins_over_bonus() {
    let (_, completed) = period_appearance(PeriodStatus::Completed, true, true);
    let (_, failed) = period_appearance(PeriodStatus::Failed, true, true);
    assert_eq!(completed, "period-failed");
    assert_eq!(failed, "period-completed");
}

#[test]
fn test_today_has_entry_with_multiple_periods() {
    let today = today();
    let yesterday = today - 1;
    let periods = vec![
        PeriodDisplay { period_start: yesterday, status: PeriodStatus::Completed },
        PeriodDisplay { period_start: today, status: PeriodStatus::Failed },
    ];
    assert!(today_has_entry(&periods, today));
}

#[test]
fn skipped_periods_are_neutral_for_every_kind_of_task() {
    for bad in [false, true] {
        for bonus in [false, true] {
            assert_eq!(period_appearance(PeriodStatus::Skipped, bad, bonus), ("-", "period-skipped"));
        }
    }
}
