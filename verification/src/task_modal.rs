//! The task modal's decisions: how a fresh or copied form starts, what picking a type writes
//! into it, which rewards and punishments it links, and which requests saving it sends.
use vstd::prelude::*;
use crate::archetype::{
    archetype_defaults, habit_from_text, recurrence_from_text, recurrence_text, Archetype,
    HabitType, RecurrenceType,
};
use crate::bulk_edit::{recurrence_value_fits, recurrence_value_for, target_from_text, RecurrenceValue, UpdateTaskRequest};
use crate::ids::{parse_uuid, parsed_uuid};
use crate::task_form_model::{
    archetype_preset, assignment_after_preset, recurrence_after, recurrence_after_preset, preset,
};
use crate::sorted::texts_of;
use crate::text::{parse_i32, parse_i64, parsed_i32, parsed_i64, str_eq, trim_ws};

verus! {

/// Whether the modal offers to delete the task: only for one existing task, and only when the
/// caller passed a delete callback, which is how permission is expressed.
pub fn delete_action_available(has_task: bool, has_callback: bool) -> (r: bool)
    ensures
        r == (has_task && has_callback),
{
    has_task && has_callback
}

/// The type a form starts with: an existing task's own type, or for a fresh form a one-off
/// when the caller asked for a one-time rhythm and a routine otherwise.
pub fn initial_archetype(source: Option<Archetype>, recurrence: &str) -> (r: Archetype)
    ensures
        r == match source {
            Some(a) => a,
            None => if recurrence@ == recurrence_text(RecurrenceType::OneTime) {
                Archetype::OneOff
            } else {
                Archetype::Routine
            },
        },
{
    match source {
        Some(a) => a,
        None => {
            if str_eq(recurrence, RecurrenceType::OneTime.as_str()) {
                Archetype::OneOff
            } else {
                Archetype::Routine
            }
        },
    }
}

/// The detail fields of every rhythm, as the form holds them side by side.
#[derive(Debug, Clone, PartialEq, Eq)]
pub struct RecurrenceDetails {
    /// Weekly: 0 = Sunday, 1 = Monday, ..., 6 = Saturday.
    pub weekday: u8,
    /// Monthly: 1 to 31.
    pub month_day: u8,
    pub weekdays: Vec<u8>,
    pub custom_dates: Vec<i32>,
}

/// The detail fields a form starts with: the task's own value in its field, and the
/// defaults everywhere else (Monday, the first of the month, Monday to Friday, no dates).
pub fn initial_recurrence_details(value: Option<&RecurrenceValue>) -> (r: RecurrenceDetails)
    ensures
        r.weekday == match value {
            Some(RecurrenceValue::WeekDay(d)) => *d,
            _ => 1u8,
        },
        r.month_day == match value {
            Some(RecurrenceValue::MonthDay(d)) => *d,
            _ => 1u8,
        },
        r.weekdays@ == match value {
            Some(RecurrenceValue::Weekdays(days)) => days@,
            _ => seq![1u8, 2u8, 3u8, 4u8, 5u8],
        },
        r.custom_dates@ == match value {
            Some(RecurrenceValue::CustomDates(days)) => days@,
            _ => Seq::<i32>::empty(),
        },
{
    let weekday = match value {
        Some(RecurrenceValue::WeekDay(d)) => *d,
        _ => 1,
    };
    let month_day = match value {
        Some(RecurrenceValue::MonthDay(d)) => *d,
        _ => 1,
    };
    let weekdays = match value {
        Some(RecurrenceValue::Weekdays(days)) => days.clone(),
        _ => vec![1, 2, 3, 4, 5],
    };
    let custom_dates = match value {
        Some(RecurrenceValue::CustomDates(days)) => days.clone(),
        _ => Vec::new(),
    };
    RecurrenceDetails { weekday, month_day, weekdays, custom_dates }
}

/// Who a form starts assigned to: the source task's assignee when there is a source; in a
/// fresh form, the only member when exactly one can be assigned, and nobody otherwise.
pub fn initial_assignee(source: Option<Option<u128>>, fresh: bool, members: &[u128]) -> (r:
    Option<u128>)
    ensures
        r == match source {
            Some(Some(id)) => Some(id),
            _ => if fresh && members@.len() == 1 {
                Some(members@[0])
            } else {
                None
            },
        },
{
    match source {
        Some(Some(id)) => Some(id),
        _ => {
            if fresh && members.len() == 1 {
                Some(members[0])
            } else {
                None
            }
        },
    }
}

/// The points a form starts with: the source task's own value, or in a fresh form the
/// household's default.
pub fn initial_points(source: Option<i64>, fresh: bool, household_default: Option<i64>) -> (r:
    Option<i64>)
    ensures
        r == match source {
            Some(p) => Some(p),
            None => if fresh {
                household_default
            } else {
                None
            },
        },
{
    match source {
        Some(p) => Some(p),
        None => if fresh {
            household_default
        } else {
            None
        },
    }
}

/// Copies of linked items with their amounts.
fn copy_links(links: &[(String, i32)]) -> (r: Vec<(String, i32)>)
    ensures
        r@ == links@,
{
    let mut r: Vec<(String, i32)> = Vec::new();
    let mut i: usize = 0;
    while i < links.len()
        invariant
            0 <= i <= links@.len(),
            r@ == links@.take(i as int),
        decreases links@.len() - i,
    {
        let (id, amount) = &links[i];
        r.push((id.clone(), *amount));
        assert(links@.take(i + 1) =~= links@.take(i as int).push(links@[i as int]));
        i = i + 1;
    }
    assert(links@.take(links@.len() as int) =~= links@);
    r
}

/// The rewards (or punishments) a form starts with: the task's existing links; when it has
/// none, the household's defaults in a fresh form; otherwise none.
pub fn initial_links(linked: &[(String, i32)], fresh: bool, defaults: &[(String, i32)]) -> (r:
    Vec<(String, i32)>)
    ensures
        r@ == if linked@.len() > 0 {
            linked@
        } else if fresh && defaults@.len() > 0 {
            defaults@
        } else {
            Seq::empty()
        },
{
    if linked.len() > 0 {
        copy_links(linked)
    } else if fresh && defaults.len() > 0 {
        copy_links(defaults)
    } else {
        Vec::new()
    }
}

/// What saving does about the dashboard: when the switch moved, `Some(true)` adds the task
/// and `Some(false)` removes it; when it did not, nothing is sent.
pub fn dashboard_change(current: bool, initial: bool) -> (r: Option<bool>)
    ensures
        r == if current != initial {
            Some(current)
        } else {
            None
        },
{
    if current != initial {
        Some(current)
    } else {
        None
    }
}

/// The i18n keys of the modal's heading and of its submit button, idle and busy.
#[derive(Debug, Clone, Copy, PartialEq, Eq)]
pub struct ModalLabels {
    pub title_key: &'static str,
    pub submit_key: &'static str,
    pub saving_key: &'static str,
}

/// The modal's labels: editing and suggesting have their own; creating names the chosen
/// type in the heading, so the form says what it produces.
pub fn modal_labels(is_edit: bool, is_suggestion: bool, selected: Archetype) -> (r: ModalLabels)
    requires
        selected != Archetype::Bonus,
    ensures
        is_edit ==> r.title_key@ == "task_modal.edit_title"@ && r.submit_key@
            == "task_modal.save_changes"@ && r.saving_key@ == "task_modal.saving"@,
        !is_edit && is_suggestion ==> r.title_key@ == "task_modal.suggest_title"@
            && r.submit_key@ == "suggestions.suggest_task"@ && r.saving_key@
            == "suggestions.suggesting"@,
        !is_edit && !is_suggestion ==> r.title_key == archetype_preset(selected).form_title_key
            && r.submit_key@ == "common.create"@ && r.saving_key@ == "task_modal.creating"@,
{
    if is_edit {
        ModalLabels {
            title_key: "task_modal.edit_title",
            submit_key: "task_modal.save_changes",
            saving_key: "task_modal.saving",
        }
    } else if is_suggestion {
        ModalLabels {
            title_key: "task_modal.suggest_title",
            submit_key: "suggestions.suggest_task",
            saving_key: "suggestions.suggesting",
        }
    } else {
        ModalLabels {
            title_key: preset(selected).form_title_key,
            submit_key: "common.create",
            saving_key: "task_modal.creating",
        }
    }
}

/// The ids of linked items, in order.
pub open spec fn link_ids(links: Seq<(String, i32)>) -> Seq<Seq<char>> {
    links.map_values(|l: (String, i32)| l.0@)
}

/// The linked items whose id is not among `ids`, in order.
pub open spec fn links_without(links: Seq<(String, i32)>, ids: Seq<Seq<char>>) -> Seq<(String, i32)>
    decreases links.len(),
{
    if links.len() == 0 {
        Seq::empty()
    } else {
        let rest = links_without(links.drop_last(), ids);
        if ids.contains(links.last().0@) {
            rest
        } else {
            rest.push(links.last())
        }
    }
}

/// The texts of `s` that are not among `ids`, in order.
pub open spec fn texts_without(s: Seq<Seq<char>>, ids: Seq<Seq<char>>) -> Seq<Seq<char>>
    decreases s.len(),
{
    if s.len() == 0 {
        Seq::empty()
    } else {
        let rest = texts_without(s.drop_last(), ids);
        if ids.contains(s.last()) {
            rest
        } else {
            rest.push(s.last())
        }
    }
}

/// An element is in a sequence with one more element exactly when it is that element or was
/// there before.
pub proof fn lemma_push_contains<A>(s: Seq<A>, a: A, x: A)
    ensures
        s.push(a).contains(x) <==> (s.contains(x) || x == a),
{
    if s.push(a).contains(x) {
        let k = choose|k: int| 0 <= k < s.push(a).len() && s.push(a)[k] == x;
        if k < s.len() {
            assert(s[k] == x);
        }
    }
    if s.contains(x) {
        let k = choose|k: int| 0 <= k < s.len() && s[k] == x;
        assert(s.push(a)[k] == x);
    }
    if x == a {
        assert(s.push(a)[s.len() as int] == x);
    }
}

/// An id is among the kept items exactly when it was linked and is not excluded.
pub proof fn lemma_links_without_ids(links: Seq<(String, i32)>, ids: Seq<Seq<char>>, x: Seq<char>)
    ensures
        link_ids(links_without(links, ids)).contains(x) <==> (link_ids(links).contains(x)
            && !ids.contains(x)),
    decreases links.len(),
{
    if links.len() > 0 {
        let init = links.drop_last();
        let last = links.last();
        lemma_links_without_ids(init, ids, x);
        assert(link_ids(links) =~= link_ids(init).push(last.0@));
        lemma_push_contains(link_ids(init), last.0@, x);
        let rest = links_without(init, ids);
        if !ids.contains(last.0@) {
            assert(link_ids(rest.push(last)) =~= link_ids(rest).push(last.0@));
            lemma_push_contains(link_ids(rest), last.0@, x);
        }
    } else {
        assert(link_ids(links) =~= Seq::<Seq<char>>::empty());
        assert(link_ids(links_without(links, ids)) =~= Seq::<Seq<char>>::empty());
    }
}

/// A text is kept exactly when it was there and is not excluded.
pub proof fn lemma_texts_without(s: Seq<Seq<char>>, ids: Seq<Seq<char>>, x: Seq<char>)
    ensures
        texts_without(s, ids).contains(x) <==> (s.contains(x) && !ids.contains(x)),
    decreases s.len(),
{
    if s.len() > 0 {
        let init = s.drop_last();
        lemma_texts_without(init, ids, x);
        assert(init.push(s.last()) =~= s);
        lemma_push_contains(init, s.last(), x);
        lemma_push_contains(texts_without(init, ids), s.last(), x);
    }
}

/// Whether some linked item has this id.
pub fn has_link(links: &[(String, i32)], id: &str) -> (r: bool)
    ensures
        r == link_ids(links@).contains(id@),
{
    let mut i: usize = 0;
    while i < links.len()
        invariant
            0 <= i <= links@.len(),
            forall|k: int| 0 <= k < i ==> link_ids(links@)[k] != id@,
        decreases links@.len() - i,
    {
        if str_eq(links[i].0.as_str(), id) {
            assert(link_ids(links@)[i as int] == id@);
            return true;
        }
        i = i + 1;
    }
    proof {
        if link_ids(links@).contains(id@) {
            let k = choose|k: int| 0 <= k < link_ids(links@).len() && link_ids(links@)[k] == id@;
            assert(link_ids(links@)[k] != id@);
        }
    }
    false
}

/// The links to create when saving an edited task: every selected item, with its amount, whose
/// id was not linked before, in the order of the selection.
pub fn links_to_add(selected: &[(String, i32)], original: &[(String, i32)]) -> (r: Vec<(String, i32)>)
    ensures
        r@ == links_without(selected@, link_ids(original@)),
{
    let mut r: Vec<(String, i32)> = Vec::new();
    let mut i: usize = 0;
    while i < selected.len()
        invariant
            0 <= i <= selected@.len(),
            r@ == links_without(selected@.take(i as int), link_ids(original@)),
        decreases selected@.len() - i,
    {
        let ghost s = selected@.take(i + 1);
        assert(s.drop_last() =~= selected@.take(i as int));
        assert(s.last() == selected@[i as int]);
        let (id, amount) = &selected[i];
        if !has_link(original, id.as_str()) {
            r.push((id.clone(), *amount));
        }
        i = i + 1;
    }
    assert(selected@.take(selected@.len() as int) =~= selected@);
    r
}

/// The links to drop when saving an edited task: the ids that were linked before and are no
/// longer selected, in their original order.
pub fn links_to_remove(original: &[(String, i32)], selected: &[(String, i32)]) -> (r: Vec<String>)
    ensures
        texts_of(r@) == texts_without(link_ids(original@), link_ids(selected@)),
{
    let mut r: Vec<String> = Vec::new();
    let mut i: usize = 0;
    while i < original.len()
        invariant
            0 <= i <= original@.len(),
            texts_of(r@) == texts_without(link_ids(original@.take(i as int)), link_ids(selected@)),
        decreases original@.len() - i,
    {
        let ghost s = link_ids(original@.take(i + 1));
        assert(s.drop_last() =~= link_ids(original@.take(i as int)));
        assert(s.last() == original@[i as int].0@);
        let id = &original[i].0;
        if !has_link(selected, id.as_str()) {
            let ghost before = r@;
            r.push(id.clone());
            assert(texts_of(r@) =~= texts_of(before).push(id@));
        }
        i = i + 1;
    }
    assert(original@.take(original@.len() as int) =~= original@);
    r
}

/// The ids on offer in the "add" list: every id of the household that is not linked yet, in
/// the household's order.
pub fn unlinked_ids(all: &[String], links: &[(String, i32)]) -> (r: Vec<String>)
    ensures
        texts_of(r@) == texts_without(texts_of(all@), link_ids(links@)),
{
    let mut r: Vec<String> = Vec::new();
    let mut i: usize = 0;
    while i < all.len()
        invariant
            0 <= i <= all@.len(),
            texts_of(r@) == texts_without(texts_of(all@.take(i as int)), link_ids(links@)),
        decreases all@.len() - i,
    {
        let ghost s = texts_of(all@.take(i + 1));
        assert(s.drop_last() =~= texts_of(all@.take(i as int)));
        assert(s.last() == all@[i as int]@);
        if !has_link(links, all[i].as_str()) {
            let ghost before = r@;
            r.push(all[i].clone());
            assert(texts_of(r@) =~= texts_of(before).push(all@[i as int]@));
        }
        i = i + 1;
    }
    assert(all@.take(all@.len() as int) =~= all@);
    r
}

/// Links an item with an amount. An empty id (nothing chosen) and an id already linked change
/// nothing; the answer says whether the item was added.
pub fn add_link(links: &mut Vec<(String, i32)>, id: &str, amount: i32) -> (added: bool)
    ensures
        added == (id@.len() > 0 && !link_ids(old(links)@).contains(id@)),
        added ==> final(links)@.len() == old(links)@.len() + 1 && final(links)@.drop_last()
            == old(links)@ && final(links)@.last().0@ == id@ && final(links)@.last().1 == amount,
        !added ==> final(links)@ == old(links)@,
{
    if id.is_empty() {
        return false;
    }
    if has_link(links.as_slice(), id) {
        return false;
    }
    links.push((String::from_str(id), amount));
    true
}

/// Unlinks every item with this id.
pub fn remove_link(links: &mut Vec<(String, i32)>, id: &str)
    ensures
        final(links)@ == links_without(old(links)@, seq![id@]),
{
    let old_links = copy_links(links.as_slice());
    let mut r: Vec<(String, i32)> = Vec::new();
    let mut i: usize = 0;
    while i < old_links.len()
        invariant
            0 <= i <= old_links@.len(),
            old_links@ == old(links)@,
            r@ == links_without(old_links@.take(i as int), seq![id@]),
        decreases old_links@.len() - i,
    {
        let ghost s = old_links@.take(i + 1);
        assert(s.drop_last() =~= old_links@.take(i as int));
        assert(s.last() == old_links@[i as int]);
        let (lid, amount) = &old_links[i];
        if !str_eq(lid.as_str(), id) {
            assert(!seq![id@].contains(lid@)) by {
                if seq![id@].contains(lid@) {
                    let k = choose|k: int| 0 <= k < 1 && seq![id@][k] == lid@;
                }
            }
            r.push((lid.clone(), *amount));
        } else {
            assert(seq![id@][0] == lid@);
        }
        i = i + 1;
    }
    assert(old_links@.take(old_links@.len() as int) =~= old_links@);
    *links = r;
}

/// The amount typed into the amount field: at least one; text that is no number is ignored.
pub fn amount_from_input(text: &str) -> (r: Option<i32>)
    ensures
        r == match parsed_i32(text@) {
            Some(v) => Some(if v > 1 { v } else { 1i32 }),
            None => None,
        },
{
    match parse_i32(text) {
        Some(v) => Some(if v > 1 { v } else { 1 }),
        None => None,
    }
}

/// Saving an edited task brings its links from the original ones to the selection: the ids
/// linked afterwards, those before minus those removed plus those added, are exactly the
/// selected ids.
pub proof fn lemma_link_changes_reach_selection(original: Seq<(String, i32)>, selected: Seq<(String, i32)>)
    ensures
        link_ids(original).to_set().difference(
            texts_without(link_ids(original), link_ids(selected)).to_set(),
        ).union(link_ids(links_without(selected, link_ids(original))).to_set())
            == link_ids(selected).to_set(),
{
    let removed = texts_without(link_ids(original), link_ids(selected));
    let added = links_without(selected, link_ids(original));
    assert forall|x: Seq<char>|
        link_ids(original).to_set().difference(removed.to_set()).union(
            link_ids(added).to_set(),
        ).contains(x) == link_ids(selected).to_set().contains(x) by {
        lemma_texts_without(link_ids(original), link_ids(selected), x);
        lemma_links_without_ids(selected, link_ids(original), x);
    }
    assert(link_ids(original).to_set().difference(removed.to_set()).union(
        link_ids(added).to_set(),
    ) =~= link_ids(selected).to_set());
}

/// Unlinking an item just linked gives the selection back, as long as it was not linked
/// before.
pub proof fn lemma_remove_undoes_add(links: Seq<(String, i32)>, item: (String, i32))
    requires
        !link_ids(links).contains(item.0@),
    ensures
        links_without(links.push(item), seq![item.0@]) == links,
    decreases links.len(),
{
    assert(links.push(item).drop_last() =~= links);
    assert(seq![item.0@].contains(item.0@)) by {
        assert(seq![item.0@][0] == item.0@);
    }
    lemma_nothing_to_remove(links, item.0@);
}

/// Unlinking an id that is not linked changes nothing.
pub proof fn lemma_nothing_to_remove(links: Seq<(String, i32)>, id: Seq<char>)
    requires
        !link_ids(links).contains(id),
    ensures
        links_without(links, seq![id]) == links,
    decreases links.len(),
{
    if links.len() > 0 {
        let init = links.drop_last();
        assert(!link_ids(init).contains(id)) by {
            if link_ids(init).contains(id) {
                let k = choose|k: int| 0 <= k < link_ids(init).len() && link_ids(init)[k] == id;
                assert(link_ids(links)[k] == id);
            }
        }
        lemma_nothing_to_remove(init, id);
        assert(link_ids(links)[links.len() - 1] == links.last().0@);
        assert(!seq![id].contains(links.last().0@)) by {
            if seq![id].contains(links.last().0@) {
                let k = choose|k: int| 0 <= k < 1 && seq![id][k] == links.last().0@;
            }
        }
        assert(init.push(links.last()) =~= links);
    } else {
        assert(links =~= Seq::<(String, i32)>::empty());
    }
}

/// The form's fields as the user left them: every text exactly as typed.
#[derive(Debug, Clone, PartialEq, Eq)]
pub struct TaskFormValues {
    pub title: String,
    pub description: String,
    pub recurrence_type: String,
    pub details: RecurrenceDetails,
    /// The assignee's id, or empty for nobody.
    pub assigned_user: String,
    pub target_count: String,
    pub allow_exceed_target: bool,
    pub anyone_can_complete: bool,
    pub assignee_cannot_uncomplete: bool,
    pub requires_review: bool,
    pub habit_type: String,
    /// The category's id, or empty for none.
    pub category_id: String,
    pub points_reward: String,
    pub points_penalty: String,
    /// `HH:MM`, or empty for none.
    pub due_time: String,
}

/// The text of a field as an optional value: empty means none.
fn optional_text(t: &String) -> (r: Option<String>)
    ensures
        t@.len() == 0 ==> r is None,
        t@.len() > 0 ==> (r matches Some(v) && v@ == t@),
{
    if t.as_str().is_empty() {
        None
    } else {
        Some(t.clone())
    }
}

/// The assignee of a form: nobody when the field is empty, else the id the field names (or
/// nobody when it names none).
pub open spec fn form_assignee(raw: Seq<char>) -> Option<u128> {
    if raw.len() == 0 {
        None
    } else {
        parsed_uuid(raw)
    }
}

/// The assignee a form names.
fn assignee_of(raw: &String) -> (r: Option<u128>)
    ensures
        r == form_assignee(raw@),
{
    if raw.as_str().is_empty() {
        None
    } else {
        parse_uuid(raw.as_str())
    }
}

/// The target count of a form: unparsable text counts as one, anything below zero as zero.
fn target_of(raw: &String) -> (r: i32)
    ensures
        r == target_from_text(raw@),
{
    let parsed = match parse_i32(raw.as_str()) {
        Some(v) => v,
        None => 1,
    };
    if parsed > 0 {
        parsed
    } else {
        0
    }
}

/// The update an edit of a task sends: every field of the form, parsed. An empty category
/// clears the task's category; an empty assignment or due time sends none. Unparsable points
/// are left out, and the time period, archive and pause state are never touched here.
pub fn build_task_update(v: &TaskFormValues) -> (r: UpdateTaskRequest)
    ensures
        r.title matches Some(t) && t@ == v.title@,
        r.description matches Some(d) && d@ == v.description@,
        r.recurrence_type == Some(recurrence_from_text(v.recurrence_type@)),
        recurrence_value_fits(
            r.recurrence_value,
            v.recurrence_type@,
            v.details.weekday,
            v.details.month_day,
            v.details.weekdays@,
            v.details.custom_dates@,
        ),
        r.assigned_user_id == form_assignee(v.assigned_user@),
        r.target_count == Some(target_from_text(v.target_count@)),
        r.time_period is None,
        r.allow_exceed_target == Some(v.allow_exceed_target),
        r.anyone_can_complete == Some(v.anyone_can_complete),
        r.assignee_cannot_uncomplete == Some(v.assignee_cannot_uncomplete),
        r.requires_review == Some(v.requires_review),
        r.points_reward == parsed_i64(v.points_reward@),
        r.points_penalty == parsed_i64(v.points_penalty@),
        v.due_time@.len() == 0 ==> r.due_time is None,
        v.due_time@.len() > 0 ==> (r.due_time matches Some(t) && t@ == v.due_time@),
        r.habit_type == Some(habit_from_text(v.habit_type@)),
        r.category_id == if v.category_id@.len() == 0 {
            Some(None)
        } else {
            Some(parsed_uuid(v.category_id@))
        },
        r.archived is None,
        r.paused is None,
{
    UpdateTaskRequest {
        title: Some(v.title.clone()),
        description: Some(v.description.clone()),
        recurrence_type: Some(RecurrenceType::from_text(v.recurrence_type.as_str())),
        recurrence_value: recurrence_value_for(
            v.recurrence_type.as_str(),
            v.details.weekday,
            v.details.month_day,
            &v.details.weekdays,
            &v.details.custom_dates,
        ),
        assigned_user_id: assignee_of(&v.assigned_user),
        target_count: Some(target_of(&v.target_count)),
        time_period: None,
        allow_exceed_target: Some(v.allow_exceed_target),
        anyone_can_complete: Some(v.anyone_can_complete),
        assignee_cannot_uncomplete: Some(v.assignee_cannot_uncomplete),
        requires_review: Some(v.requires_review),
        points_reward: parse_i64(v.points_reward.as_str()),
        points_penalty: parse_i64(v.points_penalty.as_str()),
        due_time: optional_text(&v.due_time),
        habit_type: Some(HabitType::from_text(v.habit_type.as_str())),
        category_id: if v.category_id.as_str().is_empty() {
            Some(None)
        } else {
            Some(parse_uuid(v.category_id.as_str()))
        },
        archived: None,
        paused: None,
    }
}

/// A new task as the server takes it.
#[derive(Debug, Clone, PartialEq, Eq)]
pub struct CreateTaskRequest {
    pub title: String,
    pub description: Option<String>,
    pub recurrence_type: RecurrenceType,
    pub recurrence_value: Option<RecurrenceValue>,
    pub assigned_user_id: Option<u128>,
    pub target_count: Option<i32>,
    pub time_period: Option<String>,
    pub allow_exceed_target: Option<bool>,
    pub anyone_can_complete: Option<bool>,
    pub assignee_cannot_uncomplete: Option<bool>,
    pub requires_review: Option<bool>,
    pub points_reward: Option<i64>,
    pub points_penalty: Option<i64>,
    pub due_time: Option<String>,
    pub habit_type: Option<HabitType>,
    pub category_id: Option<u128>,
    pub is_suggestion: Option<bool>,
}

/// The request creating a task from the form: the same fields an edit sends, except that an
/// empty category simply means none, and a suggestion is marked as one.
pub fn build_task_create(v: &TaskFormValues, is_suggestion: bool) -> (r: CreateTaskRequest)
    ensures
        r.title@ == v.title@,
        r.description matches Some(d) && d@ == v.description@,
        r.recurrence_type == recurrence_from_text(v.recurrence_type@),
        recurrence_value_fits(
            r.recurrence_value,
            v.recurrence_type@,
            v.details.weekday,
            v.details.month_day,
            v.details.weekdays@,
            v.details.custom_dates@,
        ),
        r.assigned_user_id == form_assignee(v.assigned_user@),
        r.target_count == Some(target_from_text(v.target_count@)),
        r.time_period is None,
        r.allow_exceed_target == Some(v.allow_exceed_target),
        r.anyone_can_complete == Some(v.anyone_can_complete),
        r.assignee_cannot_uncomplete == Some(v.assignee_cannot_uncomplete),
        r.requires_review == Some(v.requires_review),
        r.points_reward == parsed_i64(v.points_reward@),
        r.points_penalty == parsed_i64(v.points_penalty@),
        v.due_time@.len() == 0 ==> r.due_time is None,
        v.due_time@.len() > 0 ==> (r.due_time matches Some(t) && t@ == v.due_time@),
        r.habit_type == Some(habit_from_text(v.habit_type@)),
        r.category_id == form_assignee(v.category_id@),
        r.is_suggestion == if is_suggestion {
            Some(true)
        } else {
            None
        },
{
    CreateTaskRequest {
        title: v.title.clone(),
        description: Some(v.description.clone()),
        recurrence_type: RecurrenceType::from_text(v.recurrence_type.as_str()),
        recurrence_value: recurrence_value_for(
            v.recurrence_type.as_str(),
            v.details.weekday,
            v.details.month_day,
            &v.details.weekdays,
            &v.details.custom_dates,
        ),
        assigned_user_id: assignee_of(&v.assigned_user),
        target_count: Some(target_of(&v.target_count)),
        time_period: None,
        allow_exceed_target: Some(v.allow_exceed_target),
        anyone_can_complete: Some(v.anyone_can_complete),
        assignee_cannot_uncomplete: Some(v.assignee_cannot_uncomplete),
        requires_review: Some(v.requires_review),
        points_reward: parse_i64(v.points_reward.as_str()),
        points_penalty: parse_i64(v.points_penalty.as_str()),
        due_time: optional_text(&v.due_time),
        habit_type: Some(HabitType::from_text(v.habit_type.as_str())),
        category_id: assignee_of(&v.category_id),
        is_suggestion: if is_suggestion {
            Some(true)
        } else {
            None
        },
    }
}

/// Whether the form shows the points-penalty field for a type: a bonus task cannot be
/// missed, so a penalty could never trigger on it.
pub fn shows_points_penalty(archetype: Archetype) -> (r: bool)
    ensures
        r == (archetype != Archetype::Bonus),
{
    match archetype {
        Archetype::Bonus => false,
        _ => true,
    }
}

/// Picking a type writes its preset into the form: the habit type and the two permissions of
/// the type, the rhythm the type fixes or keeps, the type's preset target count
/// (`preset_target`, whatever was typed before), an emptied penalty where the type hides the
/// penalty field, and a bad habit's tracker prefilled with the current user while nobody is
/// assigned. Nothing else changes.
pub fn apply_archetype(
    v: &mut TaskFormValues,
    archetype: Archetype,
    current_user_id: Option<&str>,
    preset_target: &str,
)
    ensures
        final(v).habit_type@ == (if archetype_defaults(archetype).habit_type == HabitType::Bad {
            "bad"@
        } else {
            "good"@
        }),
        final(v).anyone_can_complete == archetype_defaults(archetype).anyone_can_complete,
        final(v).assignee_cannot_uncomplete == archetype_defaults(
            archetype,
        ).assignee_cannot_uncomplete,
        final(v).recurrence_type@ == recurrence_after(old(v).recurrence_type@, archetype),
        final(v).target_count@ == preset_target@,
        archetype == Archetype::Bonus ==> final(v).points_penalty@.len() == 0,
        archetype != Archetype::Bonus ==> final(v).points_penalty == old(v).points_penalty,
        archetype == Archetype::BadHabit && trim_ws(old(v).assigned_user@).len() == 0
            ==> final(v).assigned_user@ == match current_user_id {
            Some(id) => id@,
            None => Seq::<char>::empty(),
        },
        !(archetype == Archetype::BadHabit && trim_ws(old(v).assigned_user@).len() == 0)
            ==> final(v).assigned_user@ == old(v).assigned_user@,
        final(v).title == old(v).title && final(v).description == old(v).description,
        final(v).details == old(v).details,
        final(v).allow_exceed_target == old(v).allow_exceed_target,
        final(v).requires_review == old(v).requires_review,
        final(v).category_id == old(v).category_id,
        final(v).points_reward == old(v).points_reward,
        final(v).due_time == old(v).due_time,
{
    let defaults = archetype.defaults();
    v.habit_type = String::from_str(defaults.habit_type.as_str());
    proof {
        reveal_strlit("bad");
        reveal_strlit("good");
    }
    v.anyone_can_complete = defaults.anyone_can_complete;
    v.assignee_cannot_uncomplete = defaults.assignee_cannot_uncomplete;
    let rec = recurrence_after_preset(v.recurrence_type.as_str(), archetype);
    v.recurrence_type = rec;
    v.target_count = String::from_str(preset_target);
    if !shows_points_penalty(archetype) {
        v.points_penalty = String::new();
    }
    let assigned = assignment_after_preset(archetype, v.assigned_user.as_str(), current_user_id);
    v.assigned_user = assigned;
}

/// The class of the chip naming the type the switches add up to: marked as changed when that
/// type drifted away from the one picked.
pub fn archetype_chip_class(derived: Archetype, selected: Archetype) -> (r: &'static str)
    ensures
        derived != selected ==> r@ == "task-archetype-chip changed"@,
        derived == selected ==> r@ == "task-archetype-chip"@,
{
    if derived != selected {
        "task-archetype-chip changed"
    } else {
        "task-archetype-chip"
    }
}

} // verus!
