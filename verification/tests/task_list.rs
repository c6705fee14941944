use std::collections::HashSet;

use chrono::{Datelike, NaiveDate};
use haushalt_frontend::task_list::{
    GroupTitle,
    category_state_key, group_open_state, group_tasks_by_category, group_tasks_by_due_date,
    remember_group_state, weekday_translation_key, DueDateGroup, GroupStates, TaskSummary,
    TaskWithHousehold, MenuHandlers, TaskMenuAction, task_menu_actions, shows_category_headers,
    category_bar_color,
};
use uuid::Uuid;

fn day(y: i32, m: u32, d: u32) -> i32 {
    NaiveDate::from_ymd_opt(y, m, d).unwrap().num_days_from_ce()
}

fn summary(title: &str) -> TaskSummary {
    TaskSummary {
        id: Uuid::new_v4().as_u128(),
        title: title.to_string(),
        category_name: None,
        category_color: None,
        next_due_date: None,
        paused: false,
    }
}

fn create_task_in_category(title: &str, category: Option<(&str, Option<&str>)>) -> TaskWithHousehold {
    let mut task = summary(title);
    if let Some((name, color)) = category {
        task.category_name = Some(name.to_string());
        task.category_color = color.map(|c| c.to_string());
    }
    TaskWithHousehold::from_task(task)
}

fn due_on(title: &str, date: Option<i32>) -> TaskWithHousehold {
    let mut task = summary(title);
    task.next_due_date = date;
    TaskWithHousehold::from_task(task)
}

#[test]
fn test_group_by_category_uses_configured_color() {
    let tasks = vec![create_task_in_category("Spülen", Some(("Küche", Some("#FF8800"))))];
    let groups = group_tasks_by_category(tasks, "Sonstige");
    assert_eq!(groups.len(), 1);
    assert_eq!(groups[0].name, "Küche");
    assert_eq!(groups[0].color.as_deref(), Some("#FF8800"));
}

#[test]
fn test_group_by_category_without_color_stays_none() {
    let tasks = vec![create_task_in_category("Spülen", Some(("Küche", None)))];
    let groups = group_tasks_by_category(tasks, "Sonstige");
    assert_eq!(groups[0].color, None);
}

#[test]
fn test_group_by_category_picks_color_from_first_task_that_has_one() {
    let tasks = vec![
        create_task_in_category("A Task", Some(("Küche", None))),
        create_task_in_category("B Task", Some(("Küche", Some("#00AA55")))),
    ];
    let groups = group_tasks_by_category(tasks, "Sonstige");
    assert_eq!(groups.len(), 1);
    assert_eq!(groups[0].tasks.len(), 2);
    assert_eq!(groups[0].color.as_deref(), Some("#00AA55"));
}

#[test]
fn test_group_by_category_uncategorized_goes_last_without_color() {
    let tasks = vec![
        create_task_in_category("Ohne", None),
        create_task_in_category("Mit", Some(("Küche", Some("#FF8800")))),
    ];
    let groups = group_tasks_by_category(tasks, "Sonstige");
    assert_eq!(groups.len(), 2);
    assert_eq!(groups[0].name, "Küche");
    assert_eq!(groups[1].name, "Sonstige");
    assert_eq!(groups[1].color, None);
}

#[test]
fn test_group_by_category_sorts_categories_and_tasks() {
    let tasks = vec![
        create_task_in_category("zebra", Some(("Wohnzimmer", None))),
        create_task_in_category("Apfel", Some(("Wohnzimmer", None))),
        create_task_in_category("Spülen", Some(("Küche", None))),
    ];
    let groups = group_tasks_by_category(tasks, "Sonstige");
    assert_eq!(groups[0].name, "Küche");
    assert_eq!(groups[1].name, "Wohnzimmer");
    assert_eq!(groups[1].tasks[0].title(), "Apfel");
    assert_eq!(groups[1].tasks[1].title(), "zebra");
}

#[test]
fn tasks_with_equal_titles_keep_their_order() {
    let tasks = vec![
        create_task_in_category("b", None),
        create_task_in_category("A", None),
        create_task_in_category("a", None),
    ];
    let first_a = tasks[1].task.id;
    let second_a = tasks[2].task.id;
    let groups = group_tasks_by_category(tasks, "Other");
    assert_eq!(groups.len(), 1);
    assert_eq!(groups[0].name, "Other");
    assert_eq!(groups[0].tasks[0].task.id, first_a);
    assert_eq!(groups[0].tasks[1].task.id, second_a);
    assert_eq!(groups[0].tasks[2].title(), "b");
}

#[test]
fn no_tasks_make_no_groups() {
    assert!(group_tasks_by_category(Vec::new(), "Other").is_empty());
}

#[test]
fn test_today_is_not_collapsible_and_starts_expanded() {
    assert!(!DueDateGroup::Today.is_collapsible());
    assert!(DueDateGroup::Today.starts_expanded());
}

#[test]
fn test_other_date_groups_are_collapsible_and_start_collapsed() {
    let groups = [
        DueDateGroup::Tomorrow,
        DueDateGroup::Weekday(3, "dates.wednesday".to_string()),
        DueDateGroup::Later(day(2026, 8, 15)),
        DueDateGroup::NoSchedule,
    ];
    for group in groups {
        assert!(group.is_collapsible(), "{:?} should be collapsible", group);
        assert!(!group.starts_expanded(), "{:?} should start collapsed", group);
    }
}

#[test]
fn test_state_key_is_distinct_per_group() {
    let keys = [
        DueDateGroup::Today.state_key(),
        DueDateGroup::Tomorrow.state_key(),
        DueDateGroup::Weekday(3, "dates.wednesday".to_string()).state_key(),
        DueDateGroup::Weekday(5, "dates.friday".to_string()).state_key(),
        DueDateGroup::Later(day(2026, 8, 15)).state_key(),
        DueDateGroup::NoSchedule.state_key(),
    ];
    let unique: HashSet<&String> = keys.iter().collect();
    assert_eq!(unique.len(), keys.len(), "every group needs its own key: {:?}", keys);
}

#[test]
fn state_keys_have_their_exact_text() {
    assert_eq!(DueDateGroup::Today.state_key(), "today");
    assert_eq!(DueDateGroup::Weekday(3, String::new()).state_key(), "weekday-3");
    assert_eq!(DueDateGroup::Later(day(2026, 8, 15)).state_key(), "later-2026-08-15");
    assert_eq!(DueDateGroup::NoSchedule.state_key(), "no-schedule");
}

#[test]
fn test_state_key_ignores_weekday_label() {
    let monday = DueDateGroup::Weekday(3, "dates.monday".to_string());
    let mittwoch = DueDateGroup::Weekday(3, "dates.wednesday".to_string());
    assert_eq!(monday.state_key(), mittwoch.state_key());
}

#[test]
fn test_category_state_key_is_scoped_to_its_date_group() {
    let today = category_state_key(&DueDateGroup::Today.state_key(), "Küche");
    let tomorrow = category_state_key(&DueDateGroup::Tomorrow.state_key(), "Küche");
    assert_ne!(today, tomorrow);
    assert!(today.starts_with("today/"));
}

#[test]
fn test_group_open_state_falls_back_to_default() {
    let states = GroupStates::new();
    assert!(group_open_state(&states, "today", true));
    assert!(!group_open_state(&states, "tomorrow", false));
}

#[test]
fn test_group_open_state_prefers_remembered_choice() {
    let mut states = GroupStates::new();
    states.insert("tomorrow".to_string(), true);
    states.insert("today".to_string(), false);
    assert!(group_open_state(&states, "tomorrow", false));
    assert!(!group_open_state(&states, "today", true));
}

#[test]
fn a_remembered_state_is_read_back() {
    let mut states = GroupStates::new();
    remember_group_state(&mut states, "later-2026-08-15", true);
    assert!(group_open_state(&states, "later-2026-08-15", false));
    remember_group_state(&mut states, "later-2026-08-15", false);
    assert!(!group_open_state(&states, "later-2026-08-15", true));
}

#[test]
fn due_dates_fall_into_their_groups() {
    let today = day(2026, 8, 10); // a Monday
    assert_eq!(DueDateGroup::from_date(None, today), DueDateGroup::NoSchedule);
    assert_eq!(DueDateGroup::from_date(Some(today), today), DueDateGroup::Today);
    assert_eq!(DueDateGroup::from_date(Some(today + 1), today), DueDateGroup::Tomorrow);
    assert_eq!(
        DueDateGroup::from_date(Some(today + 2), today),
        DueDateGroup::Weekday(2, "weekday.wednesday".to_string())
    );
    assert_eq!(
        DueDateGroup::from_date(Some(today + 6), today),
        DueDateGroup::Weekday(6, "weekday.sunday".to_string())
    );
    assert_eq!(DueDateGroup::from_date(Some(today + 7), today), DueDateGroup::Later(today + 7));
    assert_eq!(DueDateGroup::from_date(Some(today - 1), today), DueDateGroup::Later(today - 1));
    assert_eq!(weekday_translation_key(0), "weekday.monday");
}

#[test]
fn the_list_is_grouped_by_due_date_in_order() {
    let today = day(2026, 8, 10);
    let tasks = vec![
        due_on("unscheduled", None),
        due_on("next month", Some(today + 30)),
        due_on("today 1", Some(today)),
        due_on("overdue", Some(today - 3)),
        due_on("in three days", Some(today + 3)),
        due_on("today 2", Some(today)),
        due_on("tomorrow", Some(today + 1)),
    ];
    let groups = group_tasks_by_due_date(&tasks, today);
    let shape: Vec<(DueDateGroup, Vec<String>)> = groups
        .into_iter()
        .map(|(g, ts)| (g, ts.iter().map(|t| t.title().to_string()).collect()))
        .collect();
    assert_eq!(
        shape,
        vec![
            (DueDateGroup::Today, vec!["today 1".to_string(), "today 2".to_string()]),
            (DueDateGroup::Tomorrow, vec!["tomorrow".to_string()]),
            (DueDateGroup::Weekday(3, "weekday.thursday".to_string()), vec!["in three days".to_string()]),
            (DueDateGroup::Later(today - 3), vec!["overdue".to_string()]),
            (DueDateGroup::Later(today + 30), vec!["next month".to_string()]),
            (DueDateGroup::NoSchedule, vec!["unscheduled".to_string()]),
        ]
    );
}

#[test]
fn task_ids_print_as_hyphenated_uuids() {
    let id = Uuid::parse_str("550e8400-e29b-41d4-a716-446655440000").unwrap();
    let mut task = summary("x");
    task.id = id.as_u128();
    let twh = TaskWithHousehold::with_household(task, "h1".to_string(), "Home".to_string());
    assert_eq!(twh.task_id(), "550e8400-e29b-41d4-a716-446655440000");
    assert_eq!(twh.household_name.as_deref(), Some("Home"));
}

#[test]
fn group_headings_translate_or_show_the_date() {
    let today = NaiveDate::from_ymd_opt(2024, 6, 10).unwrap().num_days_from_ce();
    assert_eq!(DueDateGroup::from_date(Some(today), today).title(), Some(GroupTitle::Key("dates.today".to_string())));
    assert_eq!(DueDateGroup::from_date(None, today).title(), Some(GroupTitle::Key("dates.no_schedule".to_string())));
    assert_eq!(
        DueDateGroup::from_date(Some(today + 2), today).title(),
        Some(GroupTitle::Key("weekday.wednesday".to_string()))
    );
    assert_eq!(DueDateGroup::from_date(Some(today + 10), today).title(), Some(GroupTitle::Date("Jun 20".to_string())));
}

const ALL_HANDLERS: MenuHandlers = MenuHandlers { edit: true, set_date: true, pause: true };

fn in_household(mut task: TaskSummary) -> TaskWithHousehold {
    task.title = "Staubsaugen".to_string();
    TaskWithHousehold::with_household(task, "hh-1".to_string(), "WG".to_string())
}

#[test]
fn scheduled_task_menu_offers_edit_and_pause() {
    let mut task = summary("x");
    task.next_due_date = Some(day(2026, 3, 2));
    let actions = task_menu_actions(&in_household(task), ALL_HANDLERS, false);
    assert_eq!(actions, vec![TaskMenuAction::Edit, TaskMenuAction::Pause]);
}

#[test]
fn unscheduled_paused_task_menu_offers_set_date_and_unpause() {
    let mut task = summary("x");
    task.paused = true;
    let actions = task_menu_actions(&in_household(task), ALL_HANDLERS, false);
    assert_eq!(
        actions,
        vec![TaskMenuAction::Edit, TaskMenuAction::SetDate, TaskMenuAction::Unpause]
    );
}

#[test]
fn solo_mode_menu_only_sets_dates() {
    let actions = task_menu_actions(&in_household(summary("x")), ALL_HANDLERS, true);
    assert_eq!(actions, vec![TaskMenuAction::SetDate]);
    let mut scheduled = summary("x");
    scheduled.next_due_date = Some(day(2026, 3, 2));
    assert!(task_menu_actions(&in_household(scheduled), ALL_HANDLERS, true).is_empty());
}

#[test]
fn menu_needs_household_and_handlers() {
    let without_household = TaskWithHousehold::from_task(summary("x"));
    assert!(task_menu_actions(&without_household, ALL_HANDLERS, false).is_empty());
    let none = MenuHandlers { edit: false, set_date: false, pause: false };
    assert!(task_menu_actions(&in_household(summary("x")), none, false).is_empty());
    let only_pause = MenuHandlers { edit: false, set_date: false, pause: true };
    assert_eq!(
        task_menu_actions(&in_household(summary("x")), only_pause, false),
        vec![TaskMenuAction::Pause]
    );
}

#[test]
fn category_headers_show_unless_only_the_other_group() {
    let only_other = group_tasks_by_category(vec![create_task_in_category("a", None)], "Other");
    assert!(!shows_category_headers(&only_other, "Other"));
    let one_named =
        group_tasks_by_category(vec![create_task_in_category("a", Some(("Küche", None)))], "Other");
    assert!(shows_category_headers(&one_named, "Other"));
    let two = group_tasks_by_category(
        vec![create_task_in_category("a", Some(("Küche", None))), create_task_in_category("b", None)],
        "Other",
    );
    assert!(shows_category_headers(&two, "Other"));
    assert!(!shows_category_headers(&Vec::new(), "Other"));
}

#[test]
fn category_bar_falls_back_to_border_color() {
    assert_eq!(category_bar_color(Some("#FF8800")), "#FF8800");
    assert_eq!(category_bar_color(None), "var(--border-color)");
}
