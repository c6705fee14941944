//! Form logic of the archetype-driven task form.
//!
//! The form asks *what* is being created and derives the flags from that. The archetype is an
//! entry point, never a cage: nothing here disables, hides or locks a field; it only decides
//! what a form starts with and which groups start expanded.
use vstd::prelude::*;
use crate::archetype::{
    archetype_defaults, recurrence_text, Archetype, HabitType, RecurrenceType,
};
use crate::dates::{date_input_text, format_date_input};
use crate::text::{str_eq, trim, trim_ws};

verus! {

/// Order of the type cards in create mode.
pub const ALL_ARCHETYPES: [Archetype; 5] = [
    Archetype::OneOff,
    Archetype::Routine,
    Archetype::Shared,
    Archetype::BadHabit,
    Archetype::Maintenance,
];

/// Visual weight of an archetype's explanatory note.
#[derive(Debug, Clone, Copy, PartialEq, Eq, Structural)]
pub enum NoteKind {
    /// Explains a consequence of the choice.
    Info,
    /// Warns about a restriction the user cannot undo from inside the task.
    Danger,
}

impl NoteKind {
    /// CSS classes of the note: `task-form-note`, plus `danger` for a warning.
    pub fn css_class(&self) -> (c: &'static str)
        ensures
            c@ == (match *self {
                NoteKind::Info => "task-form-note"@,
                NoteKind::Danger => "task-form-note danger"@,
            }),
    {
        match self {
            NoteKind::Info => "task-form-note",
            NoteKind::Danger => "task-form-note danger",
        }
    }
}

/// What an archetype knows about itself inside the form. All texts are i18n keys.
#[derive(Debug, Clone, Copy, PartialEq, Eq)]
pub struct ArchetypePreset {
    pub icon: &'static str,
    pub name_key: &'static str,
    pub desc_key: &'static str,
    pub form_title_key: &'static str,
    /// Only three archetypes carry a note; `OneOff` and `Routine` need no explanation.
    pub note: Option<(NoteKind, &'static str)>,
    pub assign_label_key: &'static str,
    pub assign_hint_key: &'static str,
    /// `true` only for `OneOff`: its base field is a single date, not a recurrence selector.
    pub base_is_date: bool,
}

/// The presentation preset of each archetype of the form.
pub open spec fn archetype_preset(a: Archetype) -> ArchetypePreset {
    match a {
        Archetype::OneOff => ArchetypePreset {
            icon: "☑️",
            name_key: "task_modal.archetype.oneoff.name",
            desc_key: "task_modal.archetype.oneoff.desc",
            form_title_key: "task_modal.archetype.oneoff.form_title",
            note: None,
            assign_label_key: "task_modal.archetype.oneoff.assign_label",
            assign_hint_key: "task_modal.archetype.oneoff.assign_hint",
            base_is_date: true,
        },
        Archetype::Routine => ArchetypePreset {
            icon: "🔁",
            name_key: "task_modal.archetype.routine.name",
            desc_key: "task_modal.archetype.routine.desc",
            form_title_key: "task_modal.archetype.routine.form_title",
            note: None,
            assign_label_key: "task_modal.archetype.routine.assign_label",
            assign_hint_key: "task_modal.archetype.routine.assign_hint",
            base_is_date: false,
        },
        Archetype::Shared => ArchetypePreset {
            icon: "👥",
            name_key: "task_modal.archetype.shared.name",
            desc_key: "task_modal.archetype.shared.desc",
            form_title_key: "task_modal.archetype.shared.form_title",
            note: Some((NoteKind::Info, "task_modal.archetype.shared.note")),
            assign_label_key: "task_modal.archetype.shared.assign_label",
            assign_hint_key: "task_modal.archetype.shared.assign_hint",
            base_is_date: false,
        },
        Archetype::BadHabit => ArchetypePreset {
            icon: "⚠️",
            name_key: "task_modal.archetype.bad_habit.name",
            desc_key: "task_modal.archetype.bad_habit.desc",
            form_title_key: "task_modal.archetype.bad_habit.form_title",
            note: Some((NoteKind::Info, "task_modal.archetype.bad_habit.note")),
            assign_label_key: "task_modal.archetype.bad_habit.assign_label",
            assign_hint_key: "task_modal.archetype.bad_habit.assign_hint",
            base_is_date: false,
        },
        _ => ArchetypePreset {
            icon: "🛡️",
            name_key: "task_modal.archetype.maintenance.name",
            desc_key: "task_modal.archetype.maintenance.desc",
            form_title_key: "task_modal.archetype.maintenance.form_title",
            note: Some((NoteKind::Danger, "task_modal.archetype.maintenance.note")),
            assign_label_key: "task_modal.archetype.maintenance.assign_label",
            assign_hint_key: "task_modal.archetype.maintenance.assign_hint",
            base_is_date: false,
        },
    }
}

/// The presentation preset behind one of the five archetypes the form offers (`Bonus` has no
/// type card in the form).
pub fn preset(archetype: Archetype) -> (p: ArchetypePreset)
    requires
        archetype != Archetype::Bonus,
    ensures
        p == archetype_preset(archetype),
{
    match archetype {
        Archetype::OneOff => ArchetypePreset {
            icon: "☑️",
            name_key: "task_modal.archetype.oneoff.name",
            desc_key: "task_modal.archetype.oneoff.desc",
            form_title_key: "task_modal.archetype.oneoff.form_title",
            note: None,
            assign_label_key: "task_modal.archetype.oneoff.assign_label",
            assign_hint_key: "task_modal.archetype.oneoff.assign_hint",
            base_is_date: true,
        },
        Archetype::Routine => ArchetypePreset {
            icon: "🔁",
            name_key: "task_modal.archetype.routine.name",
            desc_key: "task_modal.archetype.routine.desc",
            form_title_key: "task_modal.archetype.routine.form_title",
            note: None,
            assign_label_key: "task_modal.archetype.routine.assign_label",
            assign_hint_key: "task_modal.archetype.routine.assign_hint",
            base_is_date: false,
        },
        Archetype::Shared => ArchetypePreset {
            icon: "👥",
            name_key: "task_modal.archetype.shared.name",
            desc_key: "task_modal.archetype.shared.desc",
            form_title_key: "task_modal.archetype.shared.form_title",
            note: Some((NoteKind::Info, "task_modal.archetype.shared.note")),
            assign_label_key: "task_modal.archetype.shared.assign_label",
            assign_hint_key: "task_modal.archetype.shared.assign_hint",
            base_is_date: false,
        },
        Archetype::BadHabit => ArchetypePreset {
            icon: "⚠️",
            name_key: "task_modal.archetype.bad_habit.name",
            desc_key: "task_modal.archetype.bad_habit.desc",
            form_title_key: "task_modal.archetype.bad_habit.form_title",
            note: Some((NoteKind::Info, "task_modal.archetype.bad_habit.note")),
            assign_label_key: "task_modal.archetype.bad_habit.assign_label",
            assign_hint_key: "task_modal.archetype.bad_habit.assign_hint",
            base_is_date: false,
        },
        _ => ArchetypePreset {
            icon: "🛡️",
            name_key: "task_modal.archetype.maintenance.name",
            desc_key: "task_modal.archetype.maintenance.desc",
            form_title_key: "task_modal.archetype.maintenance.form_title",
            note: Some((NoteKind::Danger, "task_modal.archetype.maintenance.note")),
            assign_label_key: "task_modal.archetype.maintenance.assign_label",
            assign_hint_key: "task_modal.archetype.maintenance.assign_hint",
            base_is_date: false,
        },
    }
}

/// The common start of every type card's i18n key.
pub open spec fn preset_key_prefix() -> Seq<char> {
    "task_modal.archetype."@
}

/// One of the five i18n keys of a type card: 0 the name, 1 the description, 2 the form
/// title, 3 the assignee label, 4 the assignee hint.
pub open spec fn preset_key(a: Archetype, field: int) -> Seq<char> {
    let p = archetype_preset(a);
    if field == 0 {
        p.name_key@
    } else if field == 1 {
        p.desc_key@
    } else if field == 2 {
        p.form_title_key@
    } else if field == 3 {
        p.assign_label_key@
    } else {
        p.assign_hint_key@
    }
}

/// The word naming a type inside its keys.
spec fn archetype_word(a: Archetype) -> Seq<char> {
    match a {
        Archetype::OneOff => "oneoff"@,
        Archetype::Routine => "routine"@,
        Archetype::Shared => "shared"@,
        Archetype::BadHabit => "bad_habit"@,
        Archetype::Maintenance => "maintenance"@,
        Archetype::Bonus => "bonus"@,
    }
}

/// The word naming a field inside the keys.
spec fn field_word(field: int) -> Seq<char> {
    if field == 0 {
        "name"@
    } else if field == 1 {
        "desc"@
    } else if field == 2 {
        "form_title"@
    } else if field == 3 {
        "assign_label"@
    } else {
        "assign_hint"@
    }
}

/// A key is the prefix, the type's word, a dot and the field's word.
proof fn lemma_preset_key_shape(a: Archetype, field: int)
    requires
        a != Archetype::Bonus,
        0 <= field < 5,
    ensures
        preset_key(a, field) == preset_key_prefix() + archetype_word(a) + "."@ + field_word(field),
{
    reveal_strlit("task_modal.archetype.");
    reveal_strlit(".");
    reveal_strlit("name");
    reveal_strlit("desc");
    reveal_strlit("form_title");
    reveal_strlit("assign_label");
    reveal_strlit("assign_hint");
    match a {
        Archetype::OneOff => {
            reveal_strlit("oneoff");
            reveal_strlit("task_modal.archetype.oneoff.name");
            reveal_strlit("task_modal.archetype.oneoff.desc");
            reveal_strlit("task_modal.archetype.oneoff.form_title");
            reveal_strlit("task_modal.archetype.oneoff.assign_label");
            reveal_strlit("task_modal.archetype.oneoff.assign_hint");
        },
        Archetype::Routine => {
            reveal_strlit("routine");
            reveal_strlit("task_modal.archetype.routine.name");
            reveal_strlit("task_modal.archetype.routine.desc");
            reveal_strlit("task_modal.archetype.routine.form_title");
            reveal_strlit("task_modal.archetype.routine.assign_label");
            reveal_strlit("task_modal.archetype.routine.assign_hint");
        },
        Archetype::Shared => {
            reveal_strlit("shared");
            reveal_strlit("task_modal.archetype.shared.name");
            reveal_strlit("task_modal.archetype.shared.desc");
            reveal_strlit("task_modal.archetype.shared.form_title");
            reveal_strlit("task_modal.archetype.shared.assign_label");
            reveal_strlit("task_modal.archetype.shared.assign_hint");
        },
        Archetype::BadHabit => {
            reveal_strlit("bad_habit");
            reveal_strlit("task_modal.archetype.bad_habit.name");
            reveal_strlit("task_modal.archetype.bad_habit.desc");
            reveal_strlit("task_modal.archetype.bad_habit.form_title");
            reveal_strlit("task_modal.archetype.bad_habit.assign_label");
            reveal_strlit("task_modal.archetype.bad_habit.assign_hint");
        },
        Archetype::Maintenance => {
            reveal_strlit("maintenance");
            reveal_strlit("task_modal.archetype.maintenance.name");
            reveal_strlit("task_modal.archetype.maintenance.desc");
            reveal_strlit("task_modal.archetype.maintenance.form_title");
            reveal_strlit("task_modal.archetype.maintenance.assign_label");
            reveal_strlit("task_modal.archetype.maintenance.assign_hint");
        },
        Archetype::Bonus => {},
    }
    assert(preset_key(a, field) =~= preset_key_prefix() + archetype_word(a) + "."@ + field_word(
        field,
    ));
}

/// The type and field words hold no dot, and their first letter (and length, for the two
/// assignee fields) tell them apart.
proof fn lemma_words(a: Archetype, field: int)
    requires
        a != Archetype::Bonus,
        0 <= field < 5,
    ensures
        archetype_word(a).len() > 0,
        !archetype_word(a).contains('.'),
        field_word(field).len() > 0,
        archetype_word(a)[0] == match a {
            Archetype::OneOff => 'o',
            Archetype::Routine => 'r',
            Archetype::Shared => 's',
            Archetype::BadHabit => 'b',
            _ => 'm',
        },
        field_word(field)[0] == (if field == 0 {
            'n'
        } else if field == 1 {
            'd'
        } else if field == 2 {
            'f'
        } else {
            'a'
        }),
        field == 3 ==> field_word(field).len() == 12,
        field == 4 ==> field_word(field).len() == 11,
{
    reveal_strlit("oneoff");
    reveal_strlit("routine");
    reveal_strlit("shared");
    reveal_strlit("bad_habit");
    reveal_strlit("maintenance");
    reveal_strlit("name");
    reveal_strlit("desc");
    reveal_strlit("form_title");
    reveal_strlit("assign_label");
    reveal_strlit("assign_hint");
}

/// Every type card's five texts are i18n keys under `task_modal.archetype.`, and no two of
/// the keys of the five type cards coincide.
pub proof fn lemma_preset_keys_distinct(a: Archetype, b: Archetype, f: int, g: int)
    requires
        a != Archetype::Bonus,
        b != Archetype::Bonus,
        0 <= f < 5,
        0 <= g < 5,
    ensures
        preset_key_prefix().is_prefix_of(preset_key(a, f)),
        preset_key(a, f) == preset_key(b, g) ==> a == b && f == g,
{
    lemma_preset_key_shape(a, f);
    lemma_preset_key_shape(b, g);
    lemma_words(a, f);
    lemma_words(b, g);
    reveal_strlit(".");
    let p = preset_key_prefix();
    let wa = archetype_word(a);
    let wb = archetype_word(b);
    let ta = wa + "."@ + field_word(f);
    let tb = wb + "."@ + field_word(g);
    assert(preset_key(a, f) =~= p + ta);
    assert(preset_key(b, g) =~= p + tb);
    assert(preset_key(a, f).take(p.len() as int) =~= p);
    if preset_key(a, f) == preset_key(b, g) {
        assert(ta =~= preset_key(a, f).skip(p.len() as int));
        assert(tb =~= preset_key(b, g).skip(p.len() as int));
        assert(ta == tb);
        assert(ta[wa.len() as int] == '.');
        assert(tb[wb.len() as int] == '.');
        if wa.len() < wb.len() {
            assert(tb[wa.len() as int] == wb[wa.len() as int]);
            assert(wb.contains(wb[wa.len() as int]));
        }
        if wb.len() < wa.len() {
            assert(ta[wb.len() as int] == wa[wb.len() as int]);
            assert(wa.contains(wa[wb.len() as int]));
        }
        assert(wa.len() == wb.len());
        assert(ta[0] == wa[0]);
        assert(tb[0] == wb[0]);
        assert(a == b);
        assert(field_word(f) =~= ta.skip(wa.len() + 1int));
        assert(field_word(g) =~= tb.skip(wb.len() + 1int));
        assert(field_word(f)[0] == field_word(g)[0]);
        assert(field_word(f).len() == field_word(g).len());
    }
}

/// Snapshot of the switches that decide which archetype the form currently *is*.
#[derive(Debug, Clone, PartialEq, Eq)]
pub struct FormFlags {
    pub habit_bad: bool,
    pub anyone_can_complete: bool,
    pub assignee_cannot_uncomplete: bool,
    pub recurrence: String,
}

/// The archetype a set of flags reads as; the `OneOff`/`Routine` tie goes to the user's pick.
pub open spec fn derived_archetype(
    habit_bad: bool,
    anyone_can_complete: bool,
    assignee_cannot_uncomplete: bool,
    recurrence: Seq<char>,
    selected: Archetype,
) -> Archetype {
    if assignee_cannot_uncomplete {
        Archetype::Maintenance
    } else if habit_bad {
        Archetype::BadHabit
    } else if anyone_can_complete {
        Archetype::Shared
    } else if recurrence == recurrence_text(RecurrenceType::OneTime) || selected
        == Archetype::OneOff {
        Archetype::OneOff
    } else {
        Archetype::Routine
    }
}

/// Which archetype the form currently is: the lock reads as maintenance, a bad habit as a bad
/// habit, anyone-can-complete as shared; a one-time rhythm or a one-off pick is a one-off,
/// everything else a routine.
pub fn derive_archetype(flags: &FormFlags, selected: Archetype) -> (a: Archetype)
    ensures
        a == derived_archetype(
            flags.habit_bad,
            flags.anyone_can_complete,
            flags.assignee_cannot_uncomplete,
            flags.recurrence@,
            selected,
        ),
{
    if flags.assignee_cannot_uncomplete {
        Archetype::Maintenance
    } else if flags.habit_bad {
        Archetype::BadHabit
    } else if flags.anyone_can_complete {
        Archetype::Shared
    } else if str_eq(flags.recurrence.as_str(), RecurrenceType::OneTime.as_str()) || selected
        == Archetype::OneOff {
        Archetype::OneOff
    } else {
        Archetype::Routine
    }
}

/// The switches decide the type in a fixed precedence: the uncomplete lock means
/// maintenance, else a bad habit means bad habit, else shared completion means shared
/// (whatever the rhythm and the pick), and only with none of the three does the rhythm or the
/// pick choose between one-off and routine; a bonus never comes out of the form.
pub proof fn lemma_switches_decide_the_type(
    habit_bad: bool,
    anyone_can_complete: bool,
    assignee_cannot_uncomplete: bool,
    recurrence: Seq<char>,
    selected: Archetype,
)
    ensures
        ({
            let a = derived_archetype(
                habit_bad,
                anyone_can_complete,
                assignee_cannot_uncomplete,
                recurrence,
                selected,
            );
            &&& a != Archetype::Bonus
            &&& (a == Archetype::Maintenance <==> assignee_cannot_uncomplete)
            &&& (a == Archetype::BadHabit <==> !assignee_cannot_uncomplete && habit_bad)
            &&& (a == Archetype::Shared <==> !assignee_cannot_uncomplete && !habit_bad
                && anyone_can_complete)
            &&& (a == Archetype::OneOff <==> !assignee_cannot_uncomplete && !habit_bad
                && !anyone_can_complete && (recurrence == "onetime"@ || selected
                == Archetype::OneOff))
        }),
{
    reveal_strlit("onetime");
}

/// Whether the form creates a new task or edits an existing one. Duplicating is `Create`.
#[derive(Debug, Clone, Copy, PartialEq, Eq, Structural)]
pub enum FormMode {
    Create,
    Edit,
}

/// Full snapshot for the "starts expanded" decision.
#[derive(Debug, Clone, PartialEq, Eq)]
pub struct FormSnapshot {
    pub description_empty: bool,
    pub category_set: bool,
    pub due_time_set: bool,
    pub recurrence: String,
    pub custom_dates_len: usize,
    pub target_count: String,
    pub allow_exceed: bool,
    pub habit_bad: bool,
    pub points_reward_set: bool,
    pub points_penalty_set: bool,
    pub linked_rewards: usize,
    pub linked_punishments: usize,
    pub anyone_can_complete: bool,
    pub assignee_cannot_uncomplete: bool,
    pub requires_review: bool,
}

/// Which of the four accordion groups start expanded.
#[derive(Debug, Clone, Copy, PartialEq, Eq, Structural)]
pub struct OpenGroups {
    pub details: bool,
    pub goal: bool,
    pub points: bool,
    pub rules: bool,
}

/// Whether a stored rhythm is what the archetype's preset would have produced: for a fixed
/// one-time preset a single custom date counts too; a free preset only rules out one-time.
pub open spec fn recurrence_fits_preset(
    recurrence: Seq<char>,
    custom_dates_len: int,
    selected: Archetype,
) -> bool {
    match archetype_defaults(selected).recurrence_type {
        Some(RecurrenceType::OneTime) => recurrence == recurrence_text(RecurrenceType::OneTime) || (
        recurrence == recurrence_text(RecurrenceType::Custom) && custom_dates_len == 1),
        Some(other) => recurrence == recurrence_text(other),
        None => recurrence != recurrence_text(RecurrenceType::OneTime),
    }
}

/// Whether the stored recurrence is what the archetype's preset would have produced.
fn recurrence_matches_preset(recurrence: &str, custom_dates_len: usize, selected: Archetype) -> (r:
    bool)
    ensures
        r == recurrence_fits_preset(recurrence@, custom_dates_len as int, selected),
{
    match selected.defaults().recurrence_type {
        Some(RecurrenceType::OneTime) => {
            str_eq(recurrence, RecurrenceType::OneTime.as_str()) || (str_eq(
                recurrence,
                RecurrenceType::Custom.as_str(),
            ) && custom_dates_len == 1)
        },
        Some(other) => str_eq(recurrence, other.as_str()),
        None => !str_eq(recurrence, RecurrenceType::OneTime.as_str()),
    }
}

/// The groups that start expanded for a snapshot of the form.
pub open spec fn open_groups_of(
    mode: FormMode,
    s: FormSnapshot,
    selected: Archetype,
) -> OpenGroups {
    let preset_habit_bad = archetype_defaults(selected).habit_type == HabitType::Bad;
    let habit_deviates = s.habit_bad != preset_habit_bad;
    let recurrence_deviates = !recurrence_fits_preset(
        s.recurrence@,
        s.custom_dates_len as int,
        selected,
    );
    let rules = s.anyone_can_complete || s.assignee_cannot_uncomplete || s.requires_review;
    match mode {
        FormMode::Create => OpenGroups {
            details: recurrence_deviates,
            goal: habit_deviates,
            points: false,
            rules,
        },
        FormMode::Edit => OpenGroups {
            details: recurrence_deviates || !s.description_empty || s.category_set
                || s.due_time_set,
            goal: habit_deviates || trim_ws(s.target_count@) != "1"@ || !s.allow_exceed,
            points: s.points_reward_set || s.points_penalty_set || s.linked_rewards > 0
                || s.linked_punishments > 0,
            rules,
        },
    }
}

/// A group starts expanded when it holds a value that deviates from the archetype's preset.
///
/// In create mode only preset-driven deviations count; the rules group opens whenever any
/// permission is set at all, in both modes.
pub fn initial_open_groups(mode: FormMode, s: &FormSnapshot, selected: Archetype) -> (g:
    OpenGroups)
    ensures
        g == open_groups_of(mode, *s, selected),
{
    let preset_habit_bad = match selected.defaults().habit_type {
        HabitType::Bad => true,
        HabitType::Good => false,
    };
    let habit_deviates = s.habit_bad != preset_habit_bad;
    let recurrence_deviates = !recurrence_matches_preset(
        s.recurrence.as_str(),
        s.custom_dates_len,
        selected,
    );
    let rules = s.anyone_can_complete || s.assignee_cannot_uncomplete || s.requires_review;
    match mode {
        FormMode::Create => OpenGroups {
            details: recurrence_deviates,
            goal: habit_deviates,
            points: false,
            rules,
        },
        FormMode::Edit => OpenGroups {
            details: recurrence_deviates || !s.description_empty || s.category_set
                || s.due_time_set,
            goal: habit_deviates || !str_eq(trim(s.target_count.as_str()), "1")
                || !s.allow_exceed,
            points: s.points_reward_set || s.points_penalty_set || s.linked_rewards > 0
                || s.linked_punishments > 0,
            rules,
        },
    }
}

/// Maintenance without a responsible person: its lock would never engage.
pub fn assignment_missing(selected: Archetype, assigned_user: &str) -> (r: bool)
    ensures
        r == (selected == Archetype::Maintenance && trim_ws(assigned_user@).len() == 0),
{
    selected.assignment_required() && trim(assigned_user).is_empty()
}

/// The rhythm after switching type: a fixed preset wins, otherwise the current rhythm is kept
/// unless it was one-time, which no recurring archetype can live with.
pub open spec fn recurrence_after(current: Seq<char>, selected: Archetype) -> Seq<char> {
    match archetype_defaults(selected).recurrence_type {
        Some(fixed) => recurrence_text(fixed),
        None => if current == recurrence_text(RecurrenceType::OneTime) {
            recurrence_text(RecurrenceType::Daily)
        } else {
            current
        },
    }
}

/// Recurrence after switching type: a fixed preset wins, otherwise the user's own choice is
/// kept — unless it was `onetime`, which becomes `daily`.
pub fn recurrence_after_preset(current: &str, selected: Archetype) -> (r: String)
    ensures
        r@ == recurrence_after(current@, selected),
{
    match selected.defaults().recurrence_type {
        Some(fixed) => String::from_str(fixed.as_str()),
        None => {
            if str_eq(current, RecurrenceType::OneTime.as_str()) {
                String::from_str(RecurrenceType::Daily.as_str())
            } else {
                String::from_str(current)
            }
        },
    }
}

/// A bad habit is prefilled with the current user, but only while nobody is assigned yet;
/// every other archetype keeps the assignment as it is.
pub fn assignment_after_preset(
    selected: Archetype,
    current: &str,
    current_user_id: Option<&str>,
) -> (r: String)
    ensures
        selected == Archetype::BadHabit && trim_ws(current@).len() == 0 ==> r@ == (
        match current_user_id {
            Some(id) => id@,
            None => Seq::<char>::empty(),
        }),
        !(selected == Archetype::BadHabit && trim_ws(current@).len() == 0) ==> r@ == current@,
{
    if selected == Archetype::BadHabit && trim(current).is_empty() {
        match current_user_id {
            Some(id) => String::from_str(id),
            None => String::new(),
        }
    } else {
        String::from_str(current)
    }
}

/// The date field's text for a rhythm and its dates: the single custom date, printed as a
/// date input prints it; empty for anything else.
pub open spec fn date_value_of(recurrence: Seq<char>, custom_dates: Seq<i32>) -> Seq<char> {
    if recurrence == recurrence_text(RecurrenceType::Custom) && custom_dates.len() == 1 {
        match date_input_text(custom_dates[0]) {
            Some(t) => t,
            None => Seq::<char>::empty(),
        }
    } else {
        Seq::<char>::empty()
    }
}

/// Value for the `OneOff` date base field: a date *is* a custom rhythm holding exactly that
/// one day. Several days belong to the calendar picker, so the field stays empty for them.
pub fn onetime_date_value(recurrence: &str, custom_dates: &[i32]) -> (r: String)
    ensures
        r@ == date_value_of(recurrence@, custom_dates@),
{
    if str_eq(recurrence, RecurrenceType::Custom.as_str()) && custom_dates.len() == 1 {
        match format_date_input(custom_dates[0]) {
            Some(t) => t,
            None => String::new(),
        }
    } else {
        String::new()
    }
}

/// Inverse of [`onetime_date_value`]: what the rhythm becomes when a date is picked or cleared.
pub fn apply_onetime_date(date: Option<i32>) -> (r: (&'static str, Vec<i32>))
    ensures
        date matches Some(day) ==> r.0@ == recurrence_text(RecurrenceType::Custom) && r.1@ == seq![
            day,
        ],
        date is None ==> r.0@ == recurrence_text(RecurrenceType::OneTime) && r.1@.len() == 0,
{
    match date {
        Some(day) => {
            let mut days = Vec::new();
            days.push(day);
            (RecurrenceType::Custom.as_str(), days)
        },
        None => (RecurrenceType::OneTime.as_str(), Vec::new()),
    }
}

/// Picking a date and reading the date field back gives the picked day as a date input
/// prints it; clearing the date leaves the field empty.
pub proof fn lemma_date_field_round_trip(date: Option<i32>, recurrence: Seq<char>, days: Seq<i32>)
    requires
        date matches Some(day) ==> recurrence == recurrence_text(RecurrenceType::Custom)
            && days == seq![day],
        date is None ==> recurrence == recurrence_text(RecurrenceType::OneTime) && days.len()
            == 0,
    ensures
        date matches Some(day) ==> date_value_of(recurrence, days) == (match date_input_text(
            day,
        ) {
            Some(t) => t,
            None => Seq::<char>::empty(),
        }),
        date is None ==> date_value_of(recurrence, days) == Seq::<char>::empty(),
{
}

/// Whether the reward/punishment linking section is shown: when the feature is on, or when
/// the task already carries links that hiding would silently drop.
pub fn links_section_visible(enabled: bool, already_linked: usize) -> (r: bool)
    ensures
        r == (enabled || already_linked > 0),
{
    enabled || already_linked > 0
}

/// Picking a type makes the form read as that type: whatever rhythm the form had, the flags
/// and rhythm the pick writes derive back to the type picked (every type the form offers).
pub proof fn lemma_picked_type_reads_back(a: Archetype, current: Seq<char>)
    requires
        a != Archetype::Bonus,
    ensures
        derived_archetype(
            archetype_defaults(a).habit_type == HabitType::Bad,
            archetype_defaults(a).anyone_can_complete,
            archetype_defaults(a).assignee_cannot_uncomplete,
            recurrence_after(current, a),
            a,
        ) == a,
{
    reveal_strlit("onetime");
    reveal_strlit("daily");
    assert("onetime"@ != "daily"@) by {
        assert("onetime"@[0] != "daily"@[0]);
    }
}

} // verus!
