//! Bulk edit: apply a handful of fields to many tasks at once.
use vstd::prelude::*;
use crate::archetype::{habit_from_text, recurrence_from_text, HabitType, RecurrenceType};
use crate::ids::{parse_uuid, parsed_uuid};
use crate::text::{parse_i32, parse_i64, parsed_i32, parsed_i64, str_eq};

verus! {

/// The detail a rhythm needs beyond its type.
#[derive(Debug, Clone, PartialEq, Eq)]
pub enum RecurrenceValue {
    /// Weekly: the day of the week (0 = Sunday, 1 = Monday, ...).
    WeekDay(u8),
    /// Monthly: the day of the month.
    MonthDay(u8),
    /// On these days of the week.
    Weekdays(Vec<u8>),
    /// On these days (day numbers, see `dates`).
    CustomDates(Vec<i32>),
}

/// A partial update of a task: `None` leaves a field as the server has it.
#[derive(Debug, Clone, PartialEq, Eq)]
pub struct UpdateTaskRequest {
    pub title: Option<String>,
    pub description: Option<String>,
    pub recurrence_type: Option<RecurrenceType>,
    pub recurrence_value: Option<RecurrenceValue>,
    pub assigned_user_id: Option<u128>,
    pub target_count: Option<i32>,
    pub time_period: Option<String>,
    pub allow_exceed_target: Option<bool>,
    pub anyone_can_complete: Option<bool>,
    pub assignee_cannot_uncomplete: Option<bool>,
    pub requires_review: Option<bool>,
    pub points_reward: Option<i64>,
    pub points_penalty: Option<i64>,
    pub due_time: Option<String>,
    pub habit_type: Option<HabitType>,
    /// `Some(None)` clears the category.
    pub category_id: Option<Option<u128>>,
    pub archived: Option<bool>,
    pub paused: Option<bool>,
}

/// Snapshot of the bulk edit form: which fields are ticked and with which value. Raw values
/// arrive exactly as typed (`*_raw`); parsing happens here in one place.
#[derive(Debug, Clone, PartialEq)]
pub struct BulkEditForm {
    pub apply_category: bool,
    pub category_id_raw: String,
    pub apply_assigned_user: bool,
    pub assigned_user_raw: String,
    pub apply_recurrence: bool,
    pub recurrence_type_raw: String,
    pub weekday: u8,
    pub month_day: u8,
    pub weekdays: Vec<u8>,
    pub custom_dates: Vec<i32>,
    pub apply_target_count: bool,
    pub target_count_raw: String,
    pub apply_allow_exceed: bool,
    pub allow_exceed_target: bool,
    pub apply_anyone_can_complete: bool,
    pub anyone_can_complete: bool,
    pub apply_assignee_cannot_uncomplete: bool,
    pub assignee_cannot_uncomplete: bool,
    pub apply_requires_review: bool,
    pub requires_review: bool,
    pub apply_points_reward: bool,
    pub points_reward_raw: String,
    pub apply_points_penalty: bool,
    pub points_penalty_raw: String,
    pub apply_due_time: bool,
    pub due_time_raw: String,
    pub apply_habit_type: bool,
    pub habit_type_raw: String,
    pub apply_paused: bool,
    pub paused: bool,
}

impl Default for BulkEditForm {
    /// A form with nothing ticked, every text empty and every number zero.
    fn default() -> (f: Self)
        ensures
            !f.apply_category && f.category_id_raw@.len() == 0,
            !f.apply_assigned_user && f.assigned_user_raw@.len() == 0,
            !f.apply_recurrence && f.recurrence_type_raw@.len() == 0,
            f.weekday == 0 && f.month_day == 0,
            f.weekdays@.len() == 0 && f.custom_dates@.len() == 0,
            !f.apply_target_count && f.target_count_raw@.len() == 0,
            !f.apply_allow_exceed && !f.allow_exceed_target,
            !f.apply_anyone_can_complete && !f.anyone_can_complete,
            !f.apply_assignee_cannot_uncomplete && !f.assignee_cannot_uncomplete,
            !f.apply_requires_review && !f.requires_review,
            !f.apply_points_reward && f.points_reward_raw@.len() == 0,
            !f.apply_points_penalty && f.points_penalty_raw@.len() == 0,
            !f.apply_due_time && f.due_time_raw@.len() == 0,
            !f.apply_habit_type && f.habit_type_raw@.len() == 0,
            !f.apply_paused && !f.paused,
    {
        BulkEditForm {
            apply_category: false,
            category_id_raw: String::new(),
            apply_assigned_user: false,
            assigned_user_raw: String::new(),
            apply_recurrence: false,
            recurrence_type_raw: String::new(),
            weekday: 0,
            month_day: 0,
            weekdays: Vec::new(),
            custom_dates: Vec::new(),
            apply_target_count: false,
            target_count_raw: String::new(),
            apply_allow_exceed: false,
            allow_exceed_target: false,
            apply_anyone_can_complete: false,
            anyone_can_complete: false,
            apply_assignee_cannot_uncomplete: false,
            assignee_cannot_uncomplete: false,
            apply_requires_review: false,
            requires_review: false,
            apply_points_reward: false,
            points_reward_raw: String::new(),
            apply_points_penalty: false,
            points_penalty_raw: String::new(),
            apply_due_time: false,
            due_time_raw: String::new(),
            apply_habit_type: false,
            habit_type_raw: String::new(),
            apply_paused: false,
            paused: false,
        }
    }
}

/// The detail a rhythm text carries: the weekday for `weekly`, the day of the month for
/// `monthly`, the chosen days for `weekdays` and `custom`, nothing for any other rhythm.
pub open spec fn recurrence_value_fits(
    v: Option<RecurrenceValue>,
    raw: Seq<char>,
    weekday: u8,
    month_day: u8,
    weekdays: Seq<u8>,
    custom_dates: Seq<i32>,
) -> bool {
    if raw == "weekly"@ {
        v == Some(RecurrenceValue::WeekDay(weekday))
    } else if raw == "monthly"@ {
        v == Some(RecurrenceValue::MonthDay(month_day))
    } else if raw == "weekdays"@ {
        v matches Some(RecurrenceValue::Weekdays(days)) && days@ == weekdays
    } else if raw == "custom"@ {
        v matches Some(RecurrenceValue::CustomDates(days)) && days@ == custom_dates
    } else {
        v is None
    }
}

/// The detail value a rhythm text needs.
pub fn recurrence_value_for(
    raw: &str,
    weekday: u8,
    month_day: u8,
    weekdays: &Vec<u8>,
    custom_dates: &Vec<i32>,
) -> (v: Option<RecurrenceValue>)
    ensures
        recurrence_value_fits(v, raw@, weekday, month_day, weekdays@, custom_dates@),
{
    if str_eq(raw, "weekly") {
        Some(RecurrenceValue::WeekDay(weekday))
    } else if str_eq(raw, "monthly") {
        Some(RecurrenceValue::MonthDay(month_day))
    } else if str_eq(raw, "weekdays") {
        Some(RecurrenceValue::Weekdays(weekdays.clone()))
    } else if str_eq(raw, "custom") {
        Some(RecurrenceValue::CustomDates(custom_dates.clone()))
    } else {
        None
    }
}

/// A target count as typed: unparsable text means one, anything below zero means zero.
pub open spec fn target_from_text(raw: Seq<char>) -> i32 {
    let v = match parsed_i32(raw) {
        Some(v) => v,
        None => 1i32,
    };
    if v > 0 {
        v
    } else {
        0i32
    }
}

/// Builds the update request from the ticked fields. Unticked fields stay `None`, so the
/// backend leaves them untouched. `title`, `description`, `time_period` and `archived` are
/// never bulk updated.
///
/// An empty category clears the category, an unparsable one too. An empty assignment or due
/// time, on the other hand, cannot clear anything: they leave the field untouched.
pub fn build_bulk_update_request(form: &BulkEditForm) -> (r: UpdateTaskRequest)
    ensures
        r.title is None && r.description is None,
        r.time_period is None && r.archived is None,
        r.category_id == (if form.apply_category {
            if form.category_id_raw@.len() == 0 {
                Some(None)
            } else {
                Some(parsed_uuid(form.category_id_raw@))
            }
        } else {
            None
        }),
        r.assigned_user_id == (if form.apply_assigned_user && form.assigned_user_raw@.len()
            > 0 {
            parsed_uuid(form.assigned_user_raw@)
        } else {
            None
        }),
        r.recurrence_type == (if form.apply_recurrence {
            Some(recurrence_from_text(form.recurrence_type_raw@))
        } else {
            None
        }),
        form.apply_recurrence ==> recurrence_value_fits(
            r.recurrence_value,
            form.recurrence_type_raw@,
            form.weekday,
            form.month_day,
            form.weekdays@,
            form.custom_dates@,
        ),
        !form.apply_recurrence ==> r.recurrence_value is None,
        r.target_count == (if form.apply_target_count {
            Some(target_from_text(form.target_count_raw@))
        } else {
            None
        }),
        r.allow_exceed_target == (if form.apply_allow_exceed {
            Some(form.allow_exceed_target)
        } else {
            None
        }),
        r.anyone_can_complete == (if form.apply_anyone_can_complete {
            Some(form.anyone_can_complete)
        } else {
            None
        }),
        r.assignee_cannot_uncomplete == (if form.apply_assignee_cannot_uncomplete {
            Some(form.assignee_cannot_uncomplete)
        } else {
            None
        }),
        r.requires_review == (if form.apply_requires_review {
            Some(form.requires_review)
        } else {
            None
        }),
        r.points_reward == (if form.apply_points_reward {
            parsed_i64(form.points_reward_raw@)
        } else {
            None
        }),
        r.points_penalty == (if form.apply_points_penalty {
            parsed_i64(form.points_penalty_raw@)
        } else {
            None
        }),
        form.apply_due_time && form.due_time_raw@.len() > 0 ==> (r.due_time matches Some(t)
            && t@ == form.due_time_raw@),
        !(form.apply_due_time && form.due_time_raw@.len() > 0) ==> r.due_time is None,
        r.habit_type == (if form.apply_habit_type {
            Some(habit_from_text(form.habit_type_raw@))
        } else {
            None
        }),
        r.paused == (if form.apply_paused {
            Some(form.paused)
        } else {
            None
        }),
{
    let category_id = if form.apply_category {
        if form.category_id_raw.as_str().is_empty() {
            Some(None)
        } else {
            Some(parse_uuid(form.category_id_raw.as_str()))
        }
    } else {
        None
    };
    let assigned_user_id = if form.apply_assigned_user && !form.assigned_user_raw.as_str().is_empty() {
        parse_uuid(form.assigned_user_raw.as_str())
    } else {
        None
    };
    let recurrence_type = if form.apply_recurrence {
        Some(RecurrenceType::from_text(form.recurrence_type_raw.as_str()))
    } else {
        None
    };
    let recurrence_value = if form.apply_recurrence {
        recurrence_value_for(
            form.recurrence_type_raw.as_str(),
            form.weekday,
            form.month_day,
            &form.weekdays,
            &form.custom_dates,
        )
    } else {
        None
    };
    let target_count = if form.apply_target_count {
        let parsed = match parse_i32(form.target_count_raw.as_str()) {
            Some(v) => v,
            None => 1,
        };
        Some(if parsed > 0 { parsed } else { 0 })
    } else {
        None
    };
    let points_reward = if form.apply_points_reward {
        parse_i64(form.points_reward_raw.as_str())
    } else {
        None
    };
    let points_penalty = if form.apply_points_penalty {
        parse_i64(form.points_penalty_raw.as_str())
    } else {
        None
    };
    let due_time = if form.apply_due_time && !form.due_time_raw.as_str().is_empty() {
        Some(form.due_time_raw.clone())
    } else {
        None
    };
    let habit_type = if form.apply_habit_type {
        Some(HabitType::from_text(form.habit_type_raw.as_str()))
    } else {
        None
    };
    UpdateTaskRequest {
        title: None,
        description: None,
        recurrence_type,
        recurrence_value,
        assigned_user_id,
        target_count,
        time_period: None,
        allow_exceed_target: if form.apply_allow_exceed {
            Some(form.allow_exceed_target)
        } else {
            None
        },
        anyone_can_complete: if form.apply_anyone_can_complete {
            Some(form.anyone_can_complete)
        } else {
            None
        },
        assignee_cannot_uncomplete: if form.apply_assignee_cannot_uncomplete {
            Some(form.assignee_cannot_uncomplete)
        } else {
            None
        },
        requires_review: if form.apply_requires_review {
            Some(form.requires_review)
        } else {
            None
        },
        points_reward,
        points_penalty,
        due_time,
        habit_type,
        category_id,
        archived: None,
        paused: if form.apply_paused {
            Some(form.paused)
        } else {
            None
        },
    }
}

} // verus!
