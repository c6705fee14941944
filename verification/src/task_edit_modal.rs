//! The compact edit dialog of a task: title, description, rhythm, assignee, and which rewards
//! and punishments are linked, each picked by a checkbox.
use vstd::prelude::*;
use crate::archetype::RecurrenceType;
use crate::bulk_edit::UpdateTaskRequest;
use crate::ids::{parse_uuid, parsed_uuid};
use crate::sorted::texts_of;
use crate::task_modal::{lemma_texts_without, texts_without};
use crate::text::str_eq;

verus! {

/// The rhythm the dialog's selector names: it offers daily, weekly, monthly and weekdays, and
/// anything else counts as daily.
pub open spec fn dialog_recurrence(raw: Seq<char>) -> RecurrenceType {
    if raw == "weekly"@ {
        RecurrenceType::Weekly
    } else if raw == "monthly"@ {
        RecurrenceType::Monthly
    } else if raw == "weekdays"@ {
        RecurrenceType::Weekdays
    } else {
        RecurrenceType::Daily
    }
}

/// The rhythm the selector's value names.
pub fn dialog_recurrence_of(raw: &str) -> (r: RecurrenceType)
    ensures
        r == dialog_recurrence(raw@),
{
    if str_eq(raw, "weekly") {
        RecurrenceType::Weekly
    } else if str_eq(raw, "monthly") {
        RecurrenceType::Monthly
    } else if str_eq(raw, "weekdays") {
        RecurrenceType::Weekdays
    } else {
        RecurrenceType::Daily
    }
}

/// The update the dialog sends: title, description, rhythm without a detail value, and the
/// assignee (nobody for an empty choice or one that names no id). Nothing else is touched.
pub fn build_dialog_update(title: &str, description: &str, recurrence: &str, assigned: &str) -> (r:
    UpdateTaskRequest)
    ensures
        r.title matches Some(t) && t@ == title@,
        r.description matches Some(d) && d@ == description@,
        r.recurrence_type == Some(dialog_recurrence(recurrence@)),
        r.recurrence_value is None,
        r.assigned_user_id == if assigned@.len() == 0 {
            None
        } else {
            parsed_uuid(assigned@)
        },
        r.target_count is None && r.time_period is None && r.allow_exceed_target is None,
        r.anyone_can_complete is None && r.assignee_cannot_uncomplete is None,
        r.requires_review is None && r.points_reward is None && r.points_penalty is None,
        r.due_time is None && r.habit_type is None && r.category_id is None,
        r.archived is None && r.paused is None,
{
    UpdateTaskRequest {
        title: Some(String::from_str(title)),
        description: Some(String::from_str(description)),
        recurrence_type: Some(dialog_recurrence_of(recurrence)),
        recurrence_value: None,
        assigned_user_id: if assigned.is_empty() {
            None
        } else {
            parse_uuid(assigned)
        },
        target_count: None,
        time_period: None,
        allow_exceed_target: None,
        anyone_can_complete: None,
        assignee_cannot_uncomplete: None,
        requires_review: None,
        points_reward: None,
        points_penalty: None,
        due_time: None,
        habit_type: None,
        category_id: None,
        archived: None,
        paused: None,
    }
}

/// Whether a text is among some texts.
fn has_text(texts: &[String], id: &str) -> (r: bool)
    ensures
        r == texts_of(texts@).contains(id@),
{
    let mut i: usize = 0;
    while i < texts.len()
        invariant
            0 <= i <= texts@.len(),
            forall|k: int| 0 <= k < i ==> texts_of(texts@)[k] != id@,
        decreases texts@.len() - i,
    {
        if str_eq(texts[i].as_str(), id) {
            assert(texts_of(texts@)[i as int] == id@);
            return true;
        }
        i = i + 1;
    }
    proof {
        if texts_of(texts@).contains(id@) {
            let k = choose|k: int| 0 <= k < texts_of(texts@).len() && texts_of(texts@)[k] == id@;
            assert(texts_of(texts@)[k] != id@);
        }
    }
    false
}

/// The ids of `from` that are not among `others`, in order.
pub fn ids_not_in(from: &[String], others: &[String]) -> (r: Vec<String>)
    ensures
        texts_of(r@) == texts_without(texts_of(from@), texts_of(others@)),
{
    let mut r: Vec<String> = Vec::new();
    let mut i: usize = 0;
    while i < from.len()
        invariant
            0 <= i <= from@.len(),
            texts_of(r@) == texts_without(texts_of(from@.take(i as int)), texts_of(others@)),
        decreases from@.len() - i,
    {
        let ghost s = texts_of(from@.take(i + 1));
        assert(s.drop_last() =~= texts_of(from@.take(i as int)));
        assert(s.last() == from@[i as int]@);
        if !has_text(others, from[i].as_str()) {
            let ghost before = r@;
            r.push(from[i].clone());
            assert(texts_of(r@) =~= texts_of(before).push(from@[i as int]@));
        }
        i = i + 1;
    }
    assert(from@.take(from@.len() as int) =~= from@);
    r
}

/// The ids after a checkbox changed: ticking adds the id at the end unless it is there;
/// unticking removes it.
pub fn set_checked(ids: &[String], id: &str, checked: bool) -> (r: Vec<String>)
    ensures
        checked && texts_of(ids@).contains(id@) ==> texts_of(r@) == texts_of(ids@),
        checked && !texts_of(ids@).contains(id@) ==> texts_of(r@) == texts_of(ids@).push(id@),
        !checked ==> texts_of(r@) == texts_without(texts_of(ids@), seq![id@]),
{
    let one = vec![String::from_str(id)];
    assert(texts_of(one@) =~= seq![id@]);
    if checked {
        let none: Vec<String> = Vec::new();
        let mut r = ids_not_in(ids, none.as_slice());
        assert(texts_of(r@) == texts_of(ids@)) by {
            lemma_texts_without_nothing(texts_of(ids@));
            assert(texts_of(none@) =~= Seq::<Seq<char>>::empty());
        }
        if !has_text(ids, id) {
            let ghost before = r@;
            r.push(String::from_str(id));
            assert(texts_of(r@) =~= texts_of(before).push(id@));
        }
        r
    } else {
        ids_not_in(ids, one.as_slice())
    }
}

/// Excluding nothing keeps every text.
pub proof fn lemma_texts_without_nothing(s: Seq<Seq<char>>)
    ensures
        texts_without(s, Seq::empty()) == s,
    decreases s.len(),
{
    if s.len() > 0 {
        lemma_texts_without_nothing(s.drop_last());
        assert(s.drop_last().push(s.last()) =~= s);
    } else {
        assert(s =~= Seq::<Seq<char>>::empty());
    }
}

/// Saving the dialog brings the links from the original ids to the ticked ones: those before,
/// minus those removed, plus those added, are exactly the ticked ids.
pub proof fn lemma_checked_links_reach_selection(original: Seq<Seq<char>>, selected: Seq<Seq<char>>)
    ensures
        original.to_set().difference(texts_without(original, selected).to_set()).union(
            texts_without(selected, original).to_set(),
        ) == selected.to_set(),
{
    assert forall|x: Seq<char>|
        original.to_set().difference(texts_without(original, selected).to_set()).union(
            texts_without(selected, original).to_set(),
        ).contains(x) == selected.to_set().contains(x) by {
        lemma_texts_without(original, selected, x);
        lemma_texts_without(selected, original, x);
    }
    assert(original.to_set().difference(texts_without(original, selected).to_set()).union(
        texts_without(selected, original).to_set(),
    ) =~= selected.to_set());
}

} // verus!
