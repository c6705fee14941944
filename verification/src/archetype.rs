//! The task vocabulary the form and the card speak: archetypes, habit types and rhythms.
use vstd::prelude::*;

verus! {

/// What kind of task something is, as the user thinks of it.
#[derive(Debug, Clone, Copy, PartialEq, Eq, Structural)]
pub enum Archetype {
    OneOff,
    Routine,
    Shared,
    BadHabit,
    Maintenance,
    Bonus,
}

/// Whether doing a task is good (worth doing) or bad (a lapse worth avoiding).
#[derive(Debug, Clone, Copy, PartialEq, Eq, Structural)]
pub enum HabitType {
    Good,
    Bad,
}

/// The rhythm a task repeats in.
#[derive(Debug, Clone, Copy, PartialEq, Eq, Structural)]
pub enum RecurrenceType {
    OneTime,
    Daily,
    Weekly,
    Monthly,
    Weekdays,
    Custom,
}

} // verus!

verus! {

/// What picking an archetype writes into a fresh form.
#[derive(Debug, Clone, Copy, PartialEq, Eq, Structural)]
pub struct ArchetypeDefaults {
    /// A fixed rhythm, or `None` when the archetype leaves the rhythm to the user.
    pub recurrence_type: Option<RecurrenceType>,
    pub habit_type: HabitType,
    pub anyone_can_complete: bool,
    pub assignee_cannot_uncomplete: bool,
}

/// The text form of a rhythm, as stored in form fields and sent to the server.
pub open spec fn recurrence_text(r: RecurrenceType) -> Seq<char> {
    match r {
        RecurrenceType::OneTime => "onetime"@,
        RecurrenceType::Daily => "daily"@,
        RecurrenceType::Weekly => "weekly"@,
        RecurrenceType::Monthly => "monthly"@,
        RecurrenceType::Weekdays => "weekdays"@,
        RecurrenceType::Custom => "custom"@,
    }
}

/// The rhythm a form field names; anything unknown reads as `Daily`.
pub open spec fn recurrence_from_text(s: Seq<char>) -> RecurrenceType {
    if s == "onetime"@ {
        RecurrenceType::OneTime
    } else if s == "daily"@ {
        RecurrenceType::Daily
    } else if s == "weekly"@ {
        RecurrenceType::Weekly
    } else if s == "monthly"@ {
        RecurrenceType::Monthly
    } else if s == "weekdays"@ {
        RecurrenceType::Weekdays
    } else if s == "custom"@ {
        RecurrenceType::Custom
    } else {
        RecurrenceType::Daily
    }
}

/// The habit type a form field names: `bad` is bad, anything else is good.
pub open spec fn habit_from_text(s: Seq<char>) -> HabitType {
    if s == "bad"@ {
        HabitType::Bad
    } else {
        HabitType::Good
    }
}

impl RecurrenceType {
    /// The rhythm's text form.
    pub fn as_str(&self) -> (s: &'static str)
        ensures
            s@ == recurrence_text(*self),
    {
        match self {
            RecurrenceType::OneTime => "onetime",
            RecurrenceType::Daily => "daily",
            RecurrenceType::Weekly => "weekly",
            RecurrenceType::Monthly => "monthly",
            RecurrenceType::Weekdays => "weekdays",
            RecurrenceType::Custom => "custom",
        }
    }

    /// Reads a rhythm from its text form; unknown text falls back to `Daily`.
    pub fn from_text(s: &str) -> (r: RecurrenceType)
        ensures
            r == recurrence_from_text(s@),
    {
        if crate::text::str_eq(s, "onetime") {
            RecurrenceType::OneTime
        } else if crate::text::str_eq(s, "daily") {
            RecurrenceType::Daily
        } else if crate::text::str_eq(s, "weekly") {
            RecurrenceType::Weekly
        } else if crate::text::str_eq(s, "monthly") {
            RecurrenceType::Monthly
        } else if crate::text::str_eq(s, "weekdays") {
            RecurrenceType::Weekdays
        } else if crate::text::str_eq(s, "custom") {
            RecurrenceType::Custom
        } else {
            RecurrenceType::Daily
        }
    }
}

impl HabitType {
    /// The habit type's text form.
    pub fn as_str(&self) -> (s: &'static str)
        ensures
            s@ == (match *self {
                HabitType::Good => "good"@,
                HabitType::Bad => "bad"@,
            }),
    {
        match self {
            HabitType::Good => "good",
            HabitType::Bad => "bad",
        }
    }

    /// Reads a habit type from its text form: `bad` is bad, anything else is good.
    pub fn from_text(s: &str) -> (r: HabitType)
        ensures
            r == habit_from_text(s@),
    {
        if crate::text::str_eq(s, "bad") {
            HabitType::Bad
        } else {
            HabitType::Good
        }
    }

    /// Bad habits turn the reading around: indulging is the failure.
    pub fn is_inverted(&self) -> (r: bool)
        ensures
            r == (*self == HabitType::Bad),
    {
        match self {
            HabitType::Good => false,
            HabitType::Bad => true,
        }
    }
}

/// The preset behind each archetype.
pub open spec fn archetype_defaults(a: Archetype) -> ArchetypeDefaults {
    match a {
        Archetype::OneOff => ArchetypeDefaults {
            recurrence_type: Some(RecurrenceType::OneTime),
            habit_type: HabitType::Good,
            anyone_can_complete: false,
            assignee_cannot_uncomplete: false,
        },
        Archetype::Routine => ArchetypeDefaults {
            recurrence_type: None,
            habit_type: HabitType::Good,
            anyone_can_complete: false,
            assignee_cannot_uncomplete: false,
        },
        Archetype::Shared => ArchetypeDefaults {
            recurrence_type: None,
            habit_type: HabitType::Good,
            anyone_can_complete: true,
            assignee_cannot_uncomplete: false,
        },
        Archetype::BadHabit => ArchetypeDefaults {
            recurrence_type: None,
            habit_type: HabitType::Bad,
            anyone_can_complete: false,
            assignee_cannot_uncomplete: false,
        },
        Archetype::Maintenance => ArchetypeDefaults {
            recurrence_type: None,
            habit_type: HabitType::Bad,
            anyone_can_complete: false,
            assignee_cannot_uncomplete: true,
        },
        Archetype::Bonus => ArchetypeDefaults {
            recurrence_type: None,
            habit_type: HabitType::Good,
            anyone_can_complete: false,
            assignee_cannot_uncomplete: false,
        },
    }
}

impl Archetype {
    /// The flags and rhythm a fresh form of this archetype starts with.
    pub fn defaults(&self) -> (d: ArchetypeDefaults)
        ensures
            d == archetype_defaults(*self),
    {
        match self {
            Archetype::OneOff => ArchetypeDefaults {
                recurrence_type: Some(RecurrenceType::OneTime),
                habit_type: HabitType::Good,
                anyone_can_complete: false,
                assignee_cannot_uncomplete: false,
            },
            Archetype::Routine => ArchetypeDefaults {
                recurrence_type: None,
                habit_type: HabitType::Good,
                anyone_can_complete: false,
                assignee_cannot_uncomplete: false,
            },
            Archetype::Shared => ArchetypeDefaults {
                recurrence_type: None,
                habit_type: HabitType::Good,
                anyone_can_complete: true,
                assignee_cannot_uncomplete: false,
            },
            Archetype::BadHabit => ArchetypeDefaults {
                recurrence_type: None,
                habit_type: HabitType::Bad,
                anyone_can_complete: false,
                assignee_cannot_uncomplete: false,
            },
            Archetype::Maintenance => ArchetypeDefaults {
                recurrence_type: None,
                habit_type: HabitType::Bad,
                anyone_can_complete: false,
                assignee_cannot_uncomplete: true,
            },
            Archetype::Bonus => ArchetypeDefaults {
                recurrence_type: None,
                habit_type: HabitType::Good,
                anyone_can_complete: false,
                assignee_cannot_uncomplete: false,
            },
        }
    }

    /// Only maintenance needs a responsible person: without one its lock never engages.
    pub fn assignment_required(&self) -> (r: bool)
        ensures
            r == (*self == Archetype::Maintenance),
    {
        match self {
            Archetype::Maintenance => true,
            _ => false,
        }
    }
}

} // verus!
