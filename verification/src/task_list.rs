//! The grouped task list: tasks by due date, then by category.
use vstd::prelude::*;
use vstd::hash_map::StringHashMap;
use crate::dates::{
    date_display_text, in_chrono_range, display_date, format_month_day, month_day_text, weekday_from_monday,
    weekday_of,
};
use crate::ids::{format_uuid, uuid_text};
use crate::sorted::{
    insert_sorted, lemma_text_le_transitive, lemma_text_lt_asymmetric, str_lt, strictly_sorted,
    text_lt, texts_of,
};
use crate::text::{
    i64_text, int_text, lemma_nat_text_injective, lowercase_text, nat_text, str_eq, to_lowercase,
};

verus! {

/// What the list reads of a task.
#[derive(Debug, PartialEq, Eq)]
pub struct TaskSummary {
    pub id: u128,
    pub title: String,
    pub category_name: Option<String>,
    /// Configured category color as a CSS color string, if the category has one.
    pub category_color: Option<String>,
    /// The next day the task is due (a day number, see `dates`), if it is scheduled.
    pub next_due_date: Option<i32>,
    pub paused: bool,
}

/// A copy of an optional text.
fn clone_opt_string(s: &Option<String>) -> (r: Option<String>)
    ensures
        r == *s,
{
    match s {
        Some(t) => Some(t.clone()),
        None => None,
    }
}

impl Clone for TaskSummary {
    fn clone(&self) -> (r: Self)
        ensures
            r == *self,
    {
        TaskSummary {
            id: self.id,
            title: self.title.clone(),
            category_name: clone_opt_string(&self.category_name),
            category_color: clone_opt_string(&self.category_color),
            next_due_date: self.next_due_date,
            paused: self.paused,
        }
    }
}

/// A task with the household it belongs to, when the list spans households.
#[derive(Debug, PartialEq, Eq)]
pub struct TaskWithHousehold {
    pub task: TaskSummary,
    pub household_name: Option<String>,
    pub household_id: Option<String>,
}

impl Clone for TaskWithHousehold {
    fn clone(&self) -> (r: Self)
        ensures
            r == *self,
    {
        TaskWithHousehold {
            task: self.task.clone(),
            household_name: clone_opt_string(&self.household_name),
            household_id: clone_opt_string(&self.household_id),
        }
    }
}

impl TaskWithHousehold {
    /// A task with the household information given.
    pub fn new(task: TaskSummary, household_id: Option<String>, household_name: Option<String>) -> (r:
        Self)
        ensures
            r == (TaskWithHousehold { task, household_name, household_id }),
    {
        TaskWithHousehold { task, household_id, household_name }
    }

    /// A task within a single household, shown without household information.
    pub fn from_task(task: TaskSummary) -> (r: Self)
        ensures
            r == (TaskWithHousehold { task, household_name: None, household_id: None }),
    {
        TaskWithHousehold { task, household_id: None, household_name: None }
    }

    /// A task with its household, as the dashboard shows it.
    pub fn with_household(task: TaskSummary, household_id: String, household_name: String) -> (r:
        Self)
        ensures
            r == (TaskWithHousehold {
                task,
                household_name: Some(household_name),
                household_id: Some(household_id),
            }),
    {
        TaskWithHousehold {
            task,
            household_id: Some(household_id),
            household_name: Some(household_name),
        }
    }

    /// The next due day of the task.
    pub fn next_due_date(&self) -> (r: Option<i32>)
        ensures
            r == self.task.next_due_date,
    {
        self.task.next_due_date
    }

    /// The category name of the task.
    pub fn category_name(&self) -> (r: Option<&String>)
        ensures
            r matches Some(n) ==> self.task.category_name == Some(*n),
            r is None <==> self.task.category_name is None,
    {
        match &self.task.category_name {
            Some(n) => Some(n),
            None => None,
        }
    }

    /// The configured category color of the task.
    pub fn category_color(&self) -> (r: Option<&String>)
        ensures
            r matches Some(c) ==> self.task.category_color == Some(*c),
            r is None <==> self.task.category_color is None,
    {
        match &self.task.category_color {
            Some(c) => Some(c),
            None => None,
        }
    }

    /// The task title.
    pub fn title(&self) -> (r: &str)
        ensures
            r@ == self.task.title@,
    {
        self.task.title.as_str()
    }

    /// The task id as text.
    pub fn task_id(&self) -> (r: String)
        ensures
            r@ == uuid_text(self.task.id),
    {
        format_uuid(self.task.id)
    }
}

/// The i18n key of each day of the week, counted from Monday = 0.
pub open spec fn weekday_key_text(w: u32) -> Seq<char> {
    if w == 0 {
        "weekday.monday"@
    } else if w == 1 {
        "weekday.tuesday"@
    } else if w == 2 {
        "weekday.wednesday"@
    } else if w == 3 {
        "weekday.thursday"@
    } else if w == 4 {
        "weekday.friday"@
    } else if w == 5 {
        "weekday.saturday"@
    } else {
        "weekday.sunday"@
    }
}

/// The translation key for a day of the week, counted from Monday = 0.
pub fn weekday_translation_key(weekday: u32) -> (k: &'static str)
    requires
        weekday < 7,
    ensures
        k@ == weekday_key_text(weekday),
{
    if weekday == 0 {
        "weekday.monday"
    } else if weekday == 1 {
        "weekday.tuesday"
    } else if weekday == 2 {
        "weekday.wednesday"
    } else if weekday == 3 {
        "weekday.thursday"
    } else if weekday == 4 {
        "weekday.friday"
    } else if weekday == 5 {
        "weekday.saturday"
    } else {
        "weekday.sunday"
    }
}

/// The key of a weekday group: the weekday's translation key, empty if chrono has no date.
pub open spec fn weekday_group_key(d: i32) -> Seq<char> {
    match weekday_from_monday(d) {
        Some(w) => weekday_key_text(w),
        None => Seq::<char>::empty(),
    }
}

/// The weekday key of a group names the weekday its day falls on: the seven days of the
/// week get seven different keys, the first week of the calendar (January 1 to 7 of year 1,
/// Monday to Sunday) gets them Monday first, and a day a week later gets the same key again.
pub proof fn lemma_weekday_keys_name_the_day(d: i32, w1: u32, w2: u32)
    ensures
        w1 < 7 && w2 < 7 && w1 != w2 ==> weekday_key_text(w1) != weekday_key_text(w2),
        weekday_group_key(1) == "weekday.monday"@,
        weekday_group_key(2) == "weekday.tuesday"@,
        weekday_group_key(3) == "weekday.wednesday"@,
        weekday_group_key(4) == "weekday.thursday"@,
        weekday_group_key(5) == "weekday.friday"@,
        weekday_group_key(6) == "weekday.saturday"@,
        weekday_group_key(7) == "weekday.sunday"@,
        in_chrono_range(d as int) && in_chrono_range(d + 7) && d + 7 <= i32::MAX ==>
            weekday_group_key((d + 7) as i32) == weekday_group_key(d),
{
    reveal_strlit("weekday.monday");
    reveal_strlit("weekday.tuesday");
    reveal_strlit("weekday.wednesday");
    reveal_strlit("weekday.thursday");
    reveal_strlit("weekday.friday");
    reveal_strlit("weekday.saturday");
    reveal_strlit("weekday.sunday");
    if w1 < 7 && w2 < 7 && w1 != w2 {
        let a = weekday_key_text(w1);
        let b = weekday_key_text(w2);
        if a == b {
            assert(a.len() == b.len());
            assert(a[8] == b[8]);
            assert(a[9] == b[9]);
        }
    }
    if in_chrono_range(d as int) && in_chrono_range(d + 7) && d + 7 <= i32::MAX {
        assert(((d + 7 - 1) as int) % 7 == ((d - 1) as int) % 7);
    }
}

/// Group of the task list by due date.
#[derive(Debug, Clone, PartialEq, Eq)]
pub enum DueDateGroup {
    Today,
    Tomorrow,
    /// Due within the week: days until due, and the weekday's translation key.
    Weekday(u32, String),
    /// Due later: the day.
    Later(i32),
    NoSchedule,
}

/// A group's heading, before translation.
#[derive(Debug, Clone, PartialEq, Eq)]
pub enum GroupTitle {
    /// A translation key.
    Key(String),
    /// A date, shown as it is.
    Date(String),
}

/// The group a due day falls into, seen from today.
pub open spec fn group_fits(g: DueDateGroup, date: Option<i32>, today: i32) -> bool {
    match date {
        None => g == DueDateGroup::NoSchedule,
        Some(d) => {
            let days = d - today;
            if days == 0 {
                g == DueDateGroup::Today
            } else if days == 1 {
                g == DueDateGroup::Tomorrow
            } else if 2 <= days <= 6 {
                g matches DueDateGroup::Weekday(n, key) && n == days && key@ == weekday_group_key(
                    d,
                )
            } else {
                g == DueDateGroup::Later(d)
            }
        },
    }
}

/// The order of the groups in the list: today, tomorrow, the days of the week by distance,
/// later days by date, unscheduled last.
pub open spec fn group_rank(g: DueDateGroup) -> (int, int) {
    match g {
        DueDateGroup::Today => (0, 0),
        DueDateGroup::Tomorrow => (1, 0),
        DueDateGroup::Weekday(n, _) => (2, n as int),
        DueDateGroup::Later(d) => (3, d as int),
        DueDateGroup::NoSchedule => (4, 0),
    }
}

/// The text of each group's stable identity.
pub open spec fn group_state_key(g: DueDateGroup) -> Seq<char> {
    match g {
        DueDateGroup::Today => "today"@,
        DueDateGroup::Tomorrow => "tomorrow"@,
        DueDateGroup::Weekday(n, _) => "weekday-"@ + int_text(n as int),
        DueDateGroup::Later(d) => "later-"@ + match date_display_text(d) {
            Some(t) => t,
            None => Seq::<char>::empty(),
        },
        DueDateGroup::NoSchedule => "no-schedule"@,
    }
}

/// Whether two groups are the same group: the same kind and, for a weekday, the same
/// distance and, for a later day, the same day. A weekday group's label plays no part.
pub open spec fn same_group(a: DueDateGroup, b: DueDateGroup) -> bool {
    match (a, b) {
        (DueDateGroup::Today, DueDateGroup::Today) => true,
        (DueDateGroup::Tomorrow, DueDateGroup::Tomorrow) => true,
        (DueDateGroup::Weekday(n, _), DueDateGroup::Weekday(m, _)) => n == m,
        (DueDateGroup::Later(d), DueDateGroup::Later(e)) => d == e,
        (DueDateGroup::NoSchedule, DueDateGroup::NoSchedule) => true,
        _ => false,
    }
}

/// Whether chrono can print the day of a later group (always, for the other groups).
pub open spec fn key_printable(g: DueDateGroup) -> bool {
    match g {
        DueDateGroup::Later(d) => date_display_text(d) is Some,
        _ => true,
    }
}

/// The first character of a group's key tells the kinds apart, today and tomorrow aside.
proof fn lemma_key_heads(g: DueDateGroup)
    ensures
        group_state_key(g).len() >= 5,
        group_state_key(g)[0] == match g {
            DueDateGroup::Today => 't',
            DueDateGroup::Tomorrow => 't',
            DueDateGroup::Weekday(..) => 'w',
            DueDateGroup::Later(_) => 'l',
            DueDateGroup::NoSchedule => 'n',
        },
        g is Today ==> group_state_key(g).len() == 5,
        g is Tomorrow ==> group_state_key(g).len() == 8,
{
    reveal_strlit("today");
    reveal_strlit("tomorrow");
    reveal_strlit("weekday-");
    reveal_strlit("later-");
    reveal_strlit("no-schedule");
    match g {
        DueDateGroup::Weekday(n, _) => {
            assert(group_state_key(g)[0] == "weekday-"@[0]);
        },
        DueDateGroup::Later(d) => {
            assert(group_state_key(g)[0] == "later-"@[0]);
        },
        _ => {},
    }
}

/// Two groups share a key exactly when they are the same group, as long as chrono can print
/// the day of the first one (`a`, where it is a later group).
proof fn lemma_state_keys_identify(a: DueDateGroup, b: DueDateGroup)
    requires
        match a {
            DueDateGroup::Later(d) => date_display_text(d) matches Some(t) && t.len() > 0
                && forall|e: i32| #[trigger] date_display_text(e) == Some(t) ==> e == d,
            _ => true,
        },
    ensures
        group_state_key(a) == group_state_key(b) <==> same_group(a, b),
{
    let ka = group_state_key(a);
    let kb = group_state_key(b);
    lemma_key_heads(a);
    lemma_key_heads(b);
    reveal_strlit("weekday-");
    reveal_strlit("later-");
    if ka == kb && !same_group(a, b) {
        assert(ka[0] == kb[0]);
        match (a, b) {
            (DueDateGroup::Weekday(n, _), DueDateGroup::Weekday(m, _)) => {
                assert(ka.skip(8) =~= nat_text(n as nat));
                assert(kb.skip(8) =~= nat_text(m as nat));
                lemma_nat_text_injective(n as nat, m as nat);
            },
            (DueDateGroup::Later(d), DueDateGroup::Later(e)) => {
                let t = date_display_text(d)->0;
                assert(ka.skip(6) =~= t);
                match date_display_text(e) {
                    Some(u) => {
                        assert(kb.skip(6) =~= u);
                    },
                    None => {
                        assert(kb.len() == 6);
                    },
                }
            },
            _ => {},
        }
    }
}

impl DueDateGroup {
    /// The group a task with this due day belongs in.
    pub fn from_date(date: Option<i32>, today: i32) -> (g: Self)
        ensures
            group_fits(g, date, today),
    {
        match date {
            None => DueDateGroup::NoSchedule,
            Some(d) => {
                let days_until: i64 = d as i64 - today as i64;
                if days_until == 0 {
                    DueDateGroup::Today
                } else if days_until == 1 {
                    DueDateGroup::Tomorrow
                } else if 2 <= days_until && days_until <= 6 {
                    let key = match weekday_of(d) {
                        Some(w) => String::from_str(weekday_translation_key(w)),
                        None => String::new(),
                    };
                    DueDateGroup::Weekday(days_until as u32, key)
                } else {
                    DueDateGroup::Later(d)
                }
            },
        }
    }

    /// Whether this date group can be collapsed: all but today.
    pub fn is_collapsible(&self) -> (r: bool)
        ensures
            r == !(*self is Today),
    {
        match self {
            DueDateGroup::Today => false,
            _ => true,
        }
    }

    /// Whether this date group starts expanded: only today.
    pub fn starts_expanded(&self) -> (r: bool)
        ensures
            r == (*self is Today),
    {
        match self {
            DueDateGroup::Today => true,
            _ => false,
        }
    }

    /// The group's heading: a translation key for today, tomorrow, a weekday and the
    /// unscheduled tasks, and the short date (such as `Mar 05`) for a later day; `None` for a
    /// day chrono cannot print.
    pub fn title(&self) -> (r: Option<GroupTitle>)
        ensures
            match *self {
                DueDateGroup::Today => r matches Some(GroupTitle::Key(k)) && k@ == "dates.today"@,
                DueDateGroup::Tomorrow => r matches Some(GroupTitle::Key(k)) && k@
                    == "dates.tomorrow"@,
                DueDateGroup::Weekday(_, key) => r matches Some(GroupTitle::Key(k)) && k@ == key@,
                DueDateGroup::Later(d) => match month_day_text(d) {
                    Some(t) => r matches Some(GroupTitle::Date(s)) && s@ == t,
                    None => r is None,
                },
                DueDateGroup::NoSchedule => r matches Some(GroupTitle::Key(k)) && k@
                    == "dates.no_schedule"@,
            },
    {
        match self {
            DueDateGroup::Today => Some(GroupTitle::Key(String::from_str("dates.today"))),
            DueDateGroup::Tomorrow => Some(GroupTitle::Key(String::from_str("dates.tomorrow"))),
            DueDateGroup::Weekday(_, key) => Some(GroupTitle::Key(key.clone())),
            DueDateGroup::Later(date) => match format_month_day(*date) {
                Some(t) => Some(GroupTitle::Date(t)),
                None => None,
            },
            DueDateGroup::NoSchedule => Some(GroupTitle::Key(String::from_str("dates.no_schedule"))),
        }
    }

    /// Stable identity of the group, independent of translation and task contents: two
    /// groups get the same key exactly when they are the same group (a weekday group's label
    /// aside), whenever chrono can print this group's day.
    pub fn state_key(&self) -> (k: String)
        ensures
            k@ == group_state_key(*self),
            key_printable(*self) ==> forall|other: DueDateGroup|
                #[trigger] group_state_key(other) == k@ <==> same_group(*self, other),
    {
        let k = match self {
            DueDateGroup::Today => String::from_str("today"),
            DueDateGroup::Tomorrow => String::from_str("tomorrow"),
            DueDateGroup::Weekday(days_until, _) => {
                let mut k = String::from_str("weekday-");
                let n = i64_text(*days_until as i64);
                k.append(n.as_str());
                k
            },
            DueDateGroup::Later(date) => {
                let mut k = String::from_str("later-");
                match display_date(*date) {
                    Some(t) => k.append(t.as_str()),
                    None => {},
                }
                proof {
                    assert(k@ =~= group_state_key(*self));
                }
                k
            },
            DueDateGroup::NoSchedule => String::from_str("no-schedule"),
        };
        proof {
            if key_printable(*self) {
                assert forall|other: DueDateGroup|
                    #[trigger] group_state_key(other) == k@ <==> same_group(*self, other) by {
                    lemma_state_keys_identify(*self, other);
                }
            }
        }
        k
    }
}

/// Remembered open/closed state of the collapsible groups, keyed by their state keys.
pub type GroupStates = StringHashMap<bool>;

/// Stable identity of a category sub-group within a date group.
pub fn category_state_key(date_key: &str, category_name: &str) -> (k: String)
    ensures
        k@ == date_key@ + "/"@ + category_name@,
{
    let mut k = String::from_str(date_key);
    k.append("/");
    k.append(category_name);
    k
}

/// Open state of a group: what the user last chose, otherwise the group's default.
pub fn group_open_state(states: &GroupStates, key: &str, default_open: bool) -> (r: bool)
    ensures
        r == (if states@.contains_key(key@) {
            states@[key@]
        } else {
            default_open
        }),
{
    match states.get(key) {
        Some(open) => *open,
        None => default_open,
    }
}

/// Records a group's new open state after the user toggled it.
pub fn remember_group_state(states: &mut GroupStates, key: &str, is_open: bool)
    ensures
        final(states)@ == old(states)@.insert(key@, is_open),
{
    states.insert(String::from_str(key), is_open);
}


/// The key tasks are sorted by within a category: the lowercase title.
pub open spec fn title_key(t: TaskWithHousehold) -> Seq<char> {
    lowercase_text(t.task.title@)
}

/// Where a stable insertion puts an element with key `k` into `sorted`: after every element
/// whose key does not sort after `k`.
pub open spec fn insertion_point(sorted: Seq<TaskWithHousehold>, k: Seq<char>) -> int
    decreases sorted.len(),
{
    if sorted.len() == 0 {
        0
    } else if text_lt(k, title_key(sorted.last())) {
        insertion_point(sorted.drop_last(), k)
    } else {
        sorted.len() as int
    }
}

/// The tasks stably sorted by lowercase title: tasks with equal keys keep their order.
pub open spec fn sorted_by_title(s: Seq<TaskWithHousehold>) -> Seq<TaskWithHousehold>
    decreases s.len(),
{
    if s.len() == 0 {
        s
    } else {
        let rest = sorted_by_title(s.drop_last());
        rest.insert(insertion_point(rest, title_key(s.last())), s.last())
    }
}

proof fn lemma_insertion_point_bounds(sorted: Seq<TaskWithHousehold>, k: Seq<char>)
    ensures
        0 <= insertion_point(sorted, k) <= sorted.len(),
    decreases sorted.len(),
{
    if sorted.len() > 0 && text_lt(k, title_key(sorted.last())) {
        lemma_insertion_point_bounds(sorted.drop_last(), k);
    }
}

proof fn lemma_sorted_by_title_len(s: Seq<TaskWithHousehold>)
    ensures
        sorted_by_title(s).len() == s.len(),
    decreases s.len(),
{
    if s.len() > 0 {
        lemma_sorted_by_title_len(s.drop_last());
        let rest = sorted_by_title(s.drop_last());
        lemma_insertion_point_bounds(rest, title_key(s.last()));
    }
}

/// Tasks in ascending order of their lowercase titles.
pub open spec fn title_sorted(s: Seq<TaskWithHousehold>) -> bool {
    forall|i: int, j: int|
        0 <= i < j < s.len() ==> !text_lt(title_key(#[trigger] s[j]), title_key(#[trigger] s[i]))
}

proof fn lemma_insertion_point_props(sorted: Seq<TaskWithHousehold>, k: Seq<char>)
    ensures
        forall|q: int|
            insertion_point(sorted, k) <= q < sorted.len() ==> text_lt(
                k,
                title_key(#[trigger] sorted[q]),
            ),
        insertion_point(sorted, k) > 0 ==> !text_lt(
            k,
            title_key(sorted[insertion_point(sorted, k) - 1]),
        ),
    decreases sorted.len(),
{
    if sorted.len() > 0 && text_lt(k, title_key(sorted.last())) {
        lemma_insertion_point_props(sorted.drop_last(), k);
        lemma_insertion_point_bounds(sorted.drop_last(), k);
        let p = insertion_point(sorted, k);
        assert forall|q: int| p <= q < sorted.len() implies text_lt(
            k,
            title_key(#[trigger] sorted[q]),
        ) by {
            if q < sorted.len() - 1 {
                assert(sorted[q] == sorted.drop_last()[q]);
            }
        }
        if p > 0 {
            assert(sorted[p - 1] == sorted.drop_last()[p - 1]);
        }
    }
}

/// A stable sort by title yields the same tasks, in ascending order of their lowercase
/// titles.
pub proof fn lemma_sorted_by_title_sorts(s: Seq<TaskWithHousehold>)
    ensures
        title_sorted(sorted_by_title(s)),
        sorted_by_title(s).to_multiset() == s.to_multiset(),
    decreases s.len(),
{
    broadcast use vstd::seq_lib::group_to_multiset_ensures;

    if s.len() > 0 {
        lemma_sorted_by_title_sorts(s.drop_last());
        let rest = sorted_by_title(s.drop_last());
        let x = s.last();
        let k = title_key(x);
        let p = insertion_point(rest, k);
        lemma_insertion_point_bounds(rest, k);
        lemma_insertion_point_props(rest, k);
        let t = rest.insert(p, x);
        assert(t == sorted_by_title(s));
        assert forall|i: int, j: int| 0 <= i < j < t.len() implies !text_lt(
            title_key(#[trigger] t[j]),
            title_key(#[trigger] t[i]),
        ) by {
            if j < p {
                assert(t[i] == rest[i] && t[j] == rest[j]);
            } else if j == p {
                assert(t[i] == rest[i]);
                if i < p - 1 {
                    lemma_text_le_transitive(title_key(rest[i]), title_key(rest[p - 1]), k);
                }
            } else if i == p {
                assert(t[j] == rest[j - 1]);
                lemma_text_lt_asymmetric(k, title_key(rest[j - 1]));
            } else if i < p {
                assert(t[i] == rest[i] && t[j] == rest[j - 1]);
            } else {
                assert(t[i] == rest[i - 1] && t[j] == rest[j - 1]);
            }
        }
        assert(t.remove(p) =~= rest);
        assert(t[p] == x);
        assert(s.drop_last().push(x) =~= s);
        assert(t.to_multiset() =~= rest.to_multiset().insert(x)) by {
            assert(t.remove(p).to_multiset() =~= t.to_multiset().remove(t[p]));
            assert(t.contains(x));
            assert(t.to_multiset().count(x) > 0);
        }
    }
}

/// Sorts tasks stably by their lowercase titles.
pub fn sort_by_title(items: &Vec<TaskWithHousehold>) -> (r: Vec<TaskWithHousehold>)
    ensures
        r@ == sorted_by_title(items@),
{
    let mut out: Vec<TaskWithHousehold> = Vec::new();
    let mut keys: Vec<String> = Vec::new();
    let mut i: usize = 0;
    assert(items@.take(0) =~= Seq::<TaskWithHousehold>::empty());
    while i < items.len()
        invariant
            0 <= i <= items@.len(),
            out@ == sorted_by_title(items@.take(i as int)),
            keys@.len() == out@.len(),
            forall|m: int| 0 <= m < out@.len() ==> (#[trigger] keys@[m])@ == title_key(out@[m]),
        decreases items@.len() - i,
    {
        let x = items[i].clone();
        let k = to_lowercase(x.title());
        assert(k@ == title_key(x));
        let mut j = out.len();
        proof {
            lemma_sorted_by_title_len(items@.take(i as int));
            assert(out@.subrange(0, j as int) =~= out@);
        }
        while j > 0 && str_lt(k.as_str(), keys[j - 1].as_str())
            invariant
                0 <= j <= out@.len(),
                keys@.len() == out@.len(),
                forall|m: int| 0 <= m < out@.len() ==> (#[trigger] keys@[m])@ == title_key(out@[m]),
                insertion_point(out@, k@) == insertion_point(out@.subrange(0, j as int), k@),
            decreases j,
        {
            proof {
                let pre = out@.subrange(0, j as int);
                assert(pre.last() == out@[j - 1]);
                assert(pre.drop_last() =~= out@.subrange(0, j - 1));
            }
            j = j - 1;
        }
        proof {
            let pre = out@.subrange(0, j as int);
            if j > 0 {
                assert(pre.last() == out@[j - 1]);
                assert(!text_lt(k@, title_key(pre.last())));
            }
            assert(insertion_point(out@, k@) == j);
            assert(items@.take(i + 1).drop_last() =~= items@.take(i as int));
            assert(items@.take(i + 1).last() == x);
        }
        let ghost old_keys = keys@;
        let ghost old_out = out@;
        out.insert(j, x);
        keys.insert(j, k);
        proof {
            assert forall|m: int| 0 <= m < out@.len() implies (#[trigger] keys@[m])@ == title_key(
                out@[m],
            ) by {
                if m < j {
                    assert(keys@[m] == old_keys[m] && out@[m] == old_out[m]);
                } else if m > j {
                    assert(keys@[m] == old_keys[m - 1] && out@[m] == old_out[m - 1]);
                }
            }
        }
        i = i + 1;
    }
    assert(items@.take(items@.len() as int) =~= items@);
    out
}

/// The task belongs to the category of that name.
pub open spec fn in_category(t: TaskWithHousehold, name: Seq<char>) -> bool {
    t.task.category_name matches Some(n) && n@ == name
}

/// The task has no category.
pub open spec fn uncategorized(t: TaskWithHousehold) -> bool {
    t.task.category_name is None
}

/// The category names the tasks carry.
pub open spec fn category_names(s: Seq<TaskWithHousehold>) -> Set<Seq<char>> {
    Set::new(|n: Seq<char>| exists|i: int| 0 <= i < s.len() && in_category(#[trigger] s[i], n))
}

/// The first configured color among the tasks, in their order.
pub open spec fn first_color(s: Seq<TaskWithHousehold>) -> Option<Seq<char>>
    decreases s.len(),
{
    if s.len() == 0 {
        None
    } else {
        match s[0].task.category_color {
            Some(c) => Some(c@),
            None => first_color(s.drop_first()),
        }
    }
}

/// A category sub-group within a date group.
#[derive(Debug)]
pub struct CategoryGroup {
    pub name: String,
    /// Configured category color as a CSS color string, if the category has one.
    pub color: Option<String>,
    pub tasks: Vec<TaskWithHousehold>,
}

/// The tasks of one category, in the order given.
fn tasks_in_category(tasks: &Vec<TaskWithHousehold>, name: &str) -> (r: Vec<TaskWithHousehold>)
    ensures
        r@ == tasks@.filter(|t: TaskWithHousehold| in_category(t, name@)),
{
    let ghost pred = |t: TaskWithHousehold| in_category(t, name@);
    let mut r: Vec<TaskWithHousehold> = Vec::new();
    let mut j: usize = 0;
    proof {
        assert(tasks@.take(0) =~= Seq::<TaskWithHousehold>::empty());
        reveal(Seq::filter);
    }
    while j < tasks.len()
        invariant
            0 <= j <= tasks@.len(),
            r@ == tasks@.take(j as int).filter(pred),
            pred == (|t: TaskWithHousehold| in_category(t, name@)),
        decreases tasks@.len() - j,
    {
        let matches = match &tasks[j].task.category_name {
            Some(n) => str_eq(n.as_str(), name),
            None => false,
        };
        proof {
            assert(tasks@.take(j + 1) =~= tasks@.take(j as int).push(tasks@[j as int]));
            tasks@.take(j as int).lemma_filter_push(tasks@[j as int], pred);
            assert(pred(tasks@[j as int]) == matches);
        }
        if matches {
            r.push(tasks[j].clone());
        }
        j = j + 1;
    }
    assert(tasks@.take(tasks@.len() as int) =~= tasks@);
    r
}

/// The tasks without a category, in the order given.
fn tasks_without_category(tasks: &Vec<TaskWithHousehold>) -> (r: Vec<TaskWithHousehold>)
    ensures
        r@ == tasks@.filter(|t: TaskWithHousehold| uncategorized(t)),
{
    let ghost pred = |t: TaskWithHousehold| uncategorized(t);
    let mut r: Vec<TaskWithHousehold> = Vec::new();
    let mut j: usize = 0;
    proof {
        assert(tasks@.take(0) =~= Seq::<TaskWithHousehold>::empty());
        reveal(Seq::filter);
    }
    while j < tasks.len()
        invariant
            0 <= j <= tasks@.len(),
            r@ == tasks@.take(j as int).filter(pred),
            pred == (|t: TaskWithHousehold| uncategorized(t)),
        decreases tasks@.len() - j,
    {
        proof {
            assert(tasks@.take(j + 1) =~= tasks@.take(j as int).push(tasks@[j as int]));
            tasks@.take(j as int).lemma_filter_push(tasks@[j as int], pred);
            assert(pred(tasks@[j as int]) == tasks@[j as int].task.category_name.is_none());
        }
        if tasks[j].task.category_name.is_none() {
            r.push(tasks[j].clone());
        }
        j = j + 1;
    }
    assert(tasks@.take(tasks@.len() as int) =~= tasks@);
    r
}

/// The first configured color among the tasks.
fn first_category_color(tasks: &Vec<TaskWithHousehold>) -> (r: Option<String>)
    ensures
        r is None <==> first_color(tasks@) is None,
        r matches Some(c) ==> first_color(tasks@) == Some(c@),
{
    let mut j: usize = 0;
    assert(tasks@.skip(0) =~= tasks@);
    while j < tasks.len()
        invariant
            0 <= j <= tasks@.len(),
            first_color(tasks@) == first_color(tasks@.skip(j as int)),
        decreases tasks@.len() - j,
    {
        assert(tasks@.skip(j as int)[0] == tasks@[j as int]);
        match &tasks[j].task.category_color {
            Some(c) => {
                return Some(c.clone());
            },
            None => {},
        }
        assert(tasks@.skip(j as int).drop_first() =~= tasks@.skip(j + 1));
        j = j + 1;
    }
    assert(tasks@.skip(j as int) =~= Seq::<TaskWithHousehold>::empty());
    None
}

/// The sorted, distinct category names of the tasks.
fn sorted_category_names(tasks: &Vec<TaskWithHousehold>) -> (names: Vec<String>)
    ensures
        strictly_sorted(texts_of(names@)),
        texts_of(names@).to_set() == category_names(tasks@),
{
    let mut names: Vec<String> = Vec::new();
    let mut i: usize = 0;
    assert(texts_of(names@).to_set() =~= category_names(tasks@.take(0)));
    while i < tasks.len()
        invariant
            0 <= i <= tasks@.len(),
            strictly_sorted(texts_of(names@)),
            texts_of(names@).to_set() == category_names(tasks@.take(i as int)),
        decreases tasks@.len() - i,
    {
        let ghost prev = tasks@.take(i as int);
        let ghost next = tasks@.take(i + 1);
        assert(next =~= prev.push(tasks@[i as int]));
        match &tasks[i].task.category_name {
            Some(n) => {
                insert_sorted(&mut names, n.clone());
                assert(category_names(next) =~= category_names(prev).insert(n@)) by {
                    assert(in_category(next[i as int], n@));
                    assert forall|m: Seq<char>| category_names(next).contains(m) implies
                        category_names(prev).insert(n@).contains(m) by {
                        let k = choose|k: int| 0 <= k < next.len() && in_category(next[k], m);
                        if k < i {
                            assert(prev[k] == next[k]);
                        }
                    }
                    assert forall|m: Seq<char>| category_names(prev).insert(n@).contains(m) implies
                        category_names(next).contains(m) by {
                        if m != n@ {
                            let k = choose|k: int| 0 <= k < prev.len() && in_category(prev[k], m);
                            assert(next[k] == prev[k]);
                        }
                    }
                }
            },
            None => {
                assert(category_names(next) =~= category_names(prev)) by {
                    assert forall|m: Seq<char>| category_names(next).contains(m) implies
                        category_names(prev).contains(m) by {
                        let k = choose|k: int| 0 <= k < next.len() && in_category(next[k], m);
                        assert(k < i);
                        assert(prev[k] == next[k]);
                    }
                    assert forall|m: Seq<char>| category_names(prev).contains(m) implies
                        category_names(next).contains(m) by {
                        let k = choose|k: int| 0 <= k < prev.len() && in_category(prev[k], m);
                        assert(next[k] == prev[k]);
                    }
                }
            },
        }
        i = i + 1;
    }
    assert(tasks@.take(tasks@.len() as int) =~= tasks@);
    names
}

/// The group for one category: its tasks sorted by title, and its first configured color.
pub open spec fn category_group_fits(g: CategoryGroup, tasks: Seq<TaskWithHousehold>) -> bool {
    &&& g.tasks@ == sorted_by_title(tasks.filter(|t: TaskWithHousehold| in_category(t, g.name@)))
    &&& (g.color is None <==> first_color(g.tasks@) is None)
    &&& (g.color matches Some(c) ==> first_color(g.tasks@) == Some(c@))
}

/// Whether any task has no category.
pub open spec fn has_uncategorized(tasks: Seq<TaskWithHousehold>) -> bool {
    exists|i: int| 0 <= i < tasks.len() && uncategorized(#[trigger] tasks[i])
}

/// Groups tasks by category: categories alphabetically, tasks alphabetically (by lowercase
/// title, stably) within each, and the uncategorized tasks last under `other_label`.
pub fn group_tasks_by_category(tasks: Vec<TaskWithHousehold>, other_label: &str) -> (r: Vec<
    CategoryGroup,
>)
    ensures
        ({
            let n = if has_uncategorized(tasks@) {
                r@.len() - 1
            } else {
                r@.len() as int
            };
            &&& 0 <= n <= r@.len()
            &&& strictly_sorted(r@.take(n).map_values(|g: CategoryGroup| g.name@))
            &&& r@.take(n).map_values(|g: CategoryGroup| g.name@).to_set() == category_names(
                tasks@,
            )
            &&& forall|i: int| 0 <= i < n ==> category_group_fits(#[trigger] r@[i], tasks@)
            &&& has_uncategorized(tasks@) ==> {
                let other = r@[r@.len() - 1];
                &&& other.name@ == other_label@
                &&& other.color is None
                &&& other.tasks@ == sorted_by_title(
                    tasks@.filter(|t: TaskWithHousehold| uncategorized(t)),
                )
            }
        }),
{
    let names = sorted_category_names(&tasks);
    let mut result: Vec<CategoryGroup> = Vec::new();
    let mut i: usize = 0;
    while i < names.len()
        invariant
            0 <= i <= names@.len(),
            result@.len() == i,
            forall|m: int| 0 <= m < i ==> (#[trigger] result@[m]).name@ == names@[m]@,
            forall|m: int| 0 <= m < i ==> category_group_fits(#[trigger] result@[m], tasks@),
        decreases names@.len() - i,
    {
        let name = names[i].clone();
        let members = tasks_in_category(&tasks, name.as_str());
        let sorted = sort_by_title(&members);
        let color = first_category_color(&sorted);
        result.push(CategoryGroup { name, color, tasks: sorted });
        i = i + 1;
    }
    let ghost n = result@.len() as int;
    assert(result@.map_values(|g: CategoryGroup| g.name@) =~= texts_of(names@));
    let others = tasks_without_category(&tasks);
    proof {
        let pred = |t: TaskWithHousehold| uncategorized(t);
        if has_uncategorized(tasks@) {
            let k = choose|k: int| 0 <= k < tasks@.len() && uncategorized(tasks@[k]);
            tasks@.lemma_filter_contains(pred, k);
            assert(tasks@.filter(pred).len() > 0);
        } else {
            assert(tasks@.filter(pred).len() == 0) by {
                if tasks@.filter(pred).len() > 0 {
                    let x = tasks@.filter(pred)[0];
                    tasks@.lemma_filter_pred(pred, 0);
                    assert(tasks@.filter(pred).contains(x));
                    tasks@.lemma_filter_contains_rev(pred, x);
                    let k = choose|k: int| 0 <= k < tasks@.len() && tasks@[k] == x;
                    assert(uncategorized(tasks@[k]));
                }
            }
        }
    }
    if others.len() > 0 {
        let sorted = sort_by_title(&others);
        result.push(CategoryGroup { name: String::from_str(other_label), color: None, tasks: sorted });
    }
    assert(result@.take(n) =~= result@.subrange(0, n));
    assert(result@.take(n).map_values(|g: CategoryGroup| g.name@) =~= texts_of(names@));
    result
}


/// The list position of the date group a due day falls into, seen from today (see
/// `group_rank`).
pub open spec fn due_rank(date: Option<i32>, today: i32) -> (int, int) {
    match date {
        None => (4, 0),
        Some(d) => {
            let days = d - today;
            if days == 0 {
                (0, 0)
            } else if days == 1 {
                (1, 0)
            } else if 2 <= days <= 6 {
                (2, days)
            } else {
                (3, d as int)
            }
        },
    }
}

/// A group's rank is the rank of the due days that fall into it.
pub proof fn lemma_group_rank_matches(g: DueDateGroup, date: Option<i32>, today: i32)
    requires
        group_fits(g, date, today),
    ensures
        group_rank(g) == due_rank(date, today),
{
}

/// Pairs in lexicographic order.
pub open spec fn rank_lt(a: (int, int), b: (int, int)) -> bool {
    a.0 < b.0 || (a.0 == b.0 && a.1 < b.1)
}

/// The ranks are in strictly ascending order.
pub open spec fn ranks_sorted(s: Seq<(int, int)>) -> bool {
    forall|i: int, j: int| 0 <= i < j < s.len() ==> rank_lt(#[trigger] s[i], #[trigger] s[j])
}

/// The ranks of the tasks' due days.
pub open spec fn due_ranks(s: Seq<TaskWithHousehold>, today: i32) -> Set<(int, int)> {
    Set::new(
        |r: (int, int)|
            exists|i: int| 0 <= i < s.len() && due_rank((#[trigger] s[i]).task.next_due_date, today) == r,
    )
}

/// The rank of a due day, computed.
fn rank_of(date: Option<i32>, today: i32) -> (r: (u8, i64))
    ensures
        (r.0 as int, r.1 as int) == due_rank(date, today),
{
    match date {
        None => (4, 0),
        Some(d) => {
            let days: i64 = d as i64 - today as i64;
            if days == 0 {
                (0, 0)
            } else if days == 1 {
                (1, 0)
            } else if 2 <= days && days <= 6 {
                (2, days)
            } else {
                (3, d as i64)
            }
        },
    }
}

/// The views of a list of ranks.
pub open spec fn rank_views(v: Seq<(u8, i64)>) -> Seq<(int, int)> {
    v.map_values(|r: (u8, i64)| (r.0 as int, r.1 as int))
}

/// Adds a rank to a strictly sorted list of ranks, keeping it sorted and free of repeats.
fn insert_rank(ranks: &mut Vec<(u8, i64)>, x: (u8, i64))
    requires
        ranks_sorted(rank_views(old(ranks)@)),
    ensures
        ranks_sorted(rank_views(final(ranks)@)),
        rank_views(final(ranks)@).to_set() == rank_views(old(ranks)@).to_set().insert(
            (x.0 as int, x.1 as int),
        ),
{
    let ghost old_v = rank_views(ranks@);
    let ghost xv = (x.0 as int, x.1 as int);
    let mut p: usize = 0;
    while p < ranks.len() && (ranks[p].0 < x.0 || (ranks[p].0 == x.0 && ranks[p].1 < x.1))
        invariant
            0 <= p <= ranks@.len(),
            ranks@ == old(ranks)@,
            old_v == rank_views(ranks@),
            ranks_sorted(old_v),
            forall|i: int| 0 <= i < p ==> rank_lt(#[trigger] old_v[i], xv),
            xv == (x.0 as int, x.1 as int),
        decreases ranks@.len() - p,
    {
        assert(old_v[p as int] == (ranks@[p as int].0 as int, ranks@[p as int].1 as int));
        p = p + 1;
    }
    if p < ranks.len() && ranks[p].0 == x.0 && ranks[p].1 == x.1 {
        proof {
            assert(old_v[p as int] == xv);
            assert(old_v.to_set().insert(xv) =~= old_v.to_set()) by {
                assert(old_v.contains(xv));
            }
        }
        return;
    }
    ranks.insert(p, x);
    proof {
        let nv = rank_views(ranks@);
        assert(nv =~= old_v.insert(p as int, xv));
        assert forall|i: int, j: int| 0 <= i < j < nv.len() implies rank_lt(
            #[trigger] nv[i],
            #[trigger] nv[j],
        ) by {
            if j < p {
            } else if i < p && j == p {
            } else if i < p && j > p {
                assert(nv[j] == old_v[j - 1]);
            } else if i == p {
                assert(nv[j] == old_v[j - 1]);
                if j > p + 1 {
                    assert(rank_lt(old_v[p as int], old_v[j - 1]));
                }
            } else {
                assert(nv[i] == old_v[i - 1]);
                assert(nv[j] == old_v[j - 1]);
            }
        }
        assert(nv.to_set() =~= old_v.to_set().insert(xv)) by {
            assert forall|t: (int, int)| nv.to_set().contains(t) implies old_v.to_set().insert(
                xv,
            ).contains(t) by {
                let k = choose|k: int| 0 <= k < nv.len() && nv[k] == t;
                if k < p {
                    assert(old_v[k] == t);
                } else if k > p {
                    assert(old_v[k - 1] == t);
                }
            }
            assert forall|t: (int, int)| old_v.to_set().insert(xv).contains(t) implies nv.to_set().contains(t) by {
                if t == xv {
                    assert(nv[p as int] == t);
                } else {
                    let k = choose|k: int| 0 <= k < old_v.len() && old_v[k] == t;
                    if k < p {
                        assert(nv[k] == t);
                    } else {
                        assert(nv[k + 1] == t);
                    }
                }
            }
        }
    }
}

/// The task is due in the date group of that rank.
pub open spec fn in_rank(t: TaskWithHousehold, today: i32, r: (int, int)) -> bool {
    due_rank(t.task.next_due_date, today) == r
}

/// A date group of the list: the group and its tasks in the order given.
pub open spec fn date_group_fits(
    g: (DueDateGroup, Vec<TaskWithHousehold>),
    tasks: Seq<TaskWithHousehold>,
    today: i32,
) -> bool {
    &&& g.1@.len() > 0
    &&& group_fits(g.0, g.1@[0].task.next_due_date, today)
    &&& g.1@ == tasks.filter(|t: TaskWithHousehold| in_rank(t, today, group_rank(g.0)))
}

/// Groups tasks by due date: today, tomorrow, the days of the week by distance, later days by
/// date, unscheduled last; tasks keep their order within a group. Only groups with tasks
/// appear.
pub fn group_tasks_by_due_date(tasks: &Vec<TaskWithHousehold>, today: i32) -> (r: Vec<
    (DueDateGroup, Vec<TaskWithHousehold>),
>)
    ensures
        ranks_sorted(r@.map_values(|g: (DueDateGroup, Vec<TaskWithHousehold>)| group_rank(g.0))),
        r@.map_values(|g: (DueDateGroup, Vec<TaskWithHousehold>)| group_rank(g.0)).to_set()
            == due_ranks(tasks@, today),
        forall|i: int| 0 <= i < r@.len() ==> date_group_fits(#[trigger] r@[i], tasks@, today),
{
    let mut ranks: Vec<(u8, i64)> = Vec::new();
    let mut i: usize = 0;
    assert(rank_views(ranks@).to_set() =~= due_ranks(tasks@.take(0), today));
    while i < tasks.len()
        invariant
            0 <= i <= tasks@.len(),
            ranks_sorted(rank_views(ranks@)),
            rank_views(ranks@).to_set() == due_ranks(tasks@.take(i as int), today),
        decreases tasks@.len() - i,
    {
        let ghost prev = tasks@.take(i as int);
        let ghost next = tasks@.take(i + 1);
        assert(next =~= prev.push(tasks@[i as int]));
        let rk = rank_of(tasks[i].task.next_due_date, today);
        insert_rank(&mut ranks, rk);
        let ghost rv = (rk.0 as int, rk.1 as int);
        assert(due_ranks(next, today) =~= due_ranks(prev, today).insert(rv)) by {
            assert(due_rank(next[i as int].task.next_due_date, today) == rv);
            assert forall|m: (int, int)| due_ranks(next, today).contains(m) implies due_ranks(
                prev,
                today,
            ).insert(rv).contains(m) by {
                let k = choose|k: int|
                    0 <= k < next.len() && due_rank(next[k].task.next_due_date, today) == m;
                if k < i {
                    assert(prev[k] == next[k]);
                }
            }
            assert forall|m: (int, int)| due_ranks(prev, today).insert(rv).contains(m) implies due_ranks(
                next,
                today,
            ).contains(m) by {
                if m != rv {
                    let k = choose|k: int|
                        0 <= k < prev.len() && due_rank(prev[k].task.next_due_date, today) == m;
                    assert(next[k] == prev[k]);
                }
            }
        }
        i = i + 1;
    }
    assert(tasks@.take(tasks@.len() as int) =~= tasks@);
    let mut result: Vec<(DueDateGroup, Vec<TaskWithHousehold>)> = Vec::new();
    let mut g: usize = 0;
    while g < ranks.len()
        invariant
            0 <= g <= ranks@.len(),
            result@.len() == g,
            ranks_sorted(rank_views(ranks@)),
            rank_views(ranks@).to_set() == due_ranks(tasks@, today),
            forall|m: int| 0 <= m < g ==> group_rank((#[trigger] result@[m]).0) == rank_views(ranks@)[m],
            forall|m: int| 0 <= m < g ==> date_group_fits(#[trigger] result@[m], tasks@, today),
        decreases ranks@.len() - g,
    {
        let rk = ranks[g];
        let ghost rv = (rk.0 as int, rk.1 as int);
        assert(rank_views(ranks@)[g as int] == rv);
        let ghost pred = |t: TaskWithHousehold| in_rank(t, today, rv);
        let mut members: Vec<TaskWithHousehold> = Vec::new();
        let mut j: usize = 0;
        proof {
            assert(tasks@.take(0) =~= Seq::<TaskWithHousehold>::empty());
            reveal(Seq::filter);
        }
        while j < tasks.len()
            invariant
                0 <= j <= tasks@.len(),
                members@ == tasks@.take(j as int).filter(pred),
                pred == (|t: TaskWithHousehold| in_rank(t, today, rv)),
                rv == (rk.0 as int, rk.1 as int),
            decreases tasks@.len() - j,
        {
            let tr = rank_of(tasks[j].task.next_due_date, today);
            let hit = tr.0 == rk.0 && tr.1 == rk.1;
            proof {
                assert(tasks@.take(j + 1) =~= tasks@.take(j as int).push(tasks@[j as int]));
                tasks@.take(j as int).lemma_filter_push(tasks@[j as int], pred);
                assert(pred(tasks@[j as int]) == hit);
            }
            if hit {
                members.push(tasks[j].clone());
            }
            j = j + 1;
        }
        assert(tasks@.take(tasks@.len() as int) =~= tasks@);
        proof {
            assert(rank_views(ranks@).to_set().contains(rv)) by {
                assert(rank_views(ranks@)[g as int] == rv);
            }
            let k = choose|k: int|
                0 <= k < tasks@.len() && due_rank((#[trigger] tasks@[k]).task.next_due_date, today) == rv;
            tasks@.lemma_filter_contains(pred, k);
            assert(members@.len() > 0);
            tasks@.lemma_filter_pred(pred, 0);
        }
        let group = DueDateGroup::from_date(members[0].task.next_due_date, today);
        proof {
            lemma_group_rank_matches(group, members@[0].task.next_due_date, today);
        }
        result.push((group, members));
        g = g + 1;
    }
    proof {
        let rs = result@.map_values(|x: (DueDateGroup, Vec<TaskWithHousehold>)| group_rank(x.0));
        assert(rs =~= rank_views(ranks@));
    }
    result
}

/// An entry of a task's context menu in the grouped list.
#[derive(Debug, Clone, Copy, PartialEq, Eq, Structural)]
pub enum TaskMenuAction {
    Edit,
    SetDate,
    Pause,
    Unpause,
}

/// Which context-menu handlers the page that shows the list provides.
#[derive(Debug, Clone, Copy, PartialEq, Eq, Structural)]
pub struct MenuHandlers {
    pub edit: bool,
    pub set_date: bool,
    pub pause: bool,
}

/// The context menu of a task: edit and pause/unpause only outside solo mode, set-date only
/// for a task without a schedule; every entry needs its handler and the task's household.
pub open spec fn menu_actions(task: TaskWithHousehold, handlers: MenuHandlers, solo_mode: bool) -> Seq<
    TaskMenuAction,
> {
    let in_household = task.household_id is Some;
    let edit = if !solo_mode && handlers.edit && in_household {
        seq![TaskMenuAction::Edit]
    } else {
        Seq::empty()
    };
    let set_date = if task.task.next_due_date is None && handlers.set_date && in_household {
        seq![TaskMenuAction::SetDate]
    } else {
        Seq::empty()
    };
    let pause = if !solo_mode && handlers.pause && in_household {
        if task.task.paused {
            seq![TaskMenuAction::Unpause]
        } else {
            seq![TaskMenuAction::Pause]
        }
    } else {
        Seq::empty()
    };
    edit + set_date + pause
}

/// The entries of a task's context menu, in the order they are shown.
pub fn task_menu_actions(task: &TaskWithHousehold, handlers: MenuHandlers, solo_mode: bool) -> (r:
    Vec<TaskMenuAction>)
    ensures
        r@ == menu_actions(*task, handlers, solo_mode),
{
    let mut r: Vec<TaskMenuAction> = Vec::new();
    let in_household = task.household_id.is_some();
    if !solo_mode && handlers.edit && in_household {
        r.push(TaskMenuAction::Edit);
    }
    if task.task.next_due_date.is_none() && handlers.set_date && in_household {
        r.push(TaskMenuAction::SetDate);
    }
    if !solo_mode && handlers.pause && in_household {
        if task.task.paused {
            r.push(TaskMenuAction::Unpause);
        } else {
            r.push(TaskMenuAction::Pause);
        }
    }
    proof {
        let ghost want = menu_actions(*task, handlers, solo_mode);
        assert(r@ =~= want);
    }
    r
}

/// Category headers show when a date group has more than one category, or its one category
/// is not the catch-all "other" group.
pub fn shows_category_headers(groups: &Vec<CategoryGroup>, other_label: &str) -> (r: bool)
    ensures
        r == (groups@.len() > 1 || (groups@.len() == 1 && groups@[0].name@ != other_label@)),
{
    if groups.len() > 1 {
        true
    } else if groups.len() == 1 {
        !str_eq(groups[0].name.as_str(), other_label)
    } else {
        false
    }
}

/// The color of a category header's bar when no color was configured.
pub open spec fn neutral_bar_color() -> Seq<char> {
    "var(--border-color)"@
}

/// The color of a category header's bar: the category's own, or the neutral border color.
pub fn category_bar_color(color: Option<&str>) -> (r: String)
    ensures
        r@ == match color {
            Some(c) => c@,
            None => neutral_bar_color(),
        },
{
    match color {
        Some(c) => String::from_str(c),
        None => String::from_str("var(--border-color)"),
    }
}

} // verus!
