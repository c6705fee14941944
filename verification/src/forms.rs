//! The small editors of a household: notes, journal entries, announcements and task
//! categories. Each checks its required field, then sends a create or an update request.
use vstd::prelude::*;
use crate::dates::{
    datetime_input_text, date_input_text, format_date_input, format_datetime_input,
    parse_date_input, parse_datetime_input, parsed_date_input, parsed_datetime_input,
};
use crate::keyed::Keyed;
use crate::text::{trim, trim_ws};

verus! {

/// The note editor as the user left it.
#[derive(Debug, Clone, PartialEq, Eq)]
pub struct NoteForm {
    pub title: String,
    pub content: String,
    pub is_shared: bool,
}

/// What saving a note sends.
#[derive(Debug, Clone, PartialEq, Eq)]
pub enum NoteRequest {
    Update { title: Option<String>, content: Option<String>, is_shared: Option<bool> },
    Create { title: String, content: Option<String>, is_shared: bool },
}

/// Saving a note: a title of nothing but white space is refused with "Note title is
/// required"; an edit sends all three fields, a new note its title, content and sharing.
pub fn note_submit(form: &NoteForm, editing: bool) -> (r: Result<NoteRequest, String>)
    ensures
        trim_ws(form.title@).len() == 0 ==> (r matches Err(e) && e@ == "Note title is required"@),
        trim_ws(form.title@).len() > 0 && editing ==> (r matches Ok(
            NoteRequest::Update { title: Some(t), content: Some(c), is_shared: Some(s) },
        ) && t@ == form.title@ && c@ == form.content@ && s == form.is_shared),
        trim_ws(form.title@).len() > 0 && !editing ==> (r matches Ok(
            NoteRequest::Create { title: t, content: Some(c), is_shared: s },
        ) && t@ == form.title@ && c@ == form.content@ && s == form.is_shared),
{
    if trim(form.title.as_str()).is_empty() {
        return Err(String::from_str("Note title is required"));
    }
    if editing {
        Ok(
            NoteRequest::Update {
                title: Some(form.title.clone()),
                content: Some(form.content.clone()),
                is_shared: Some(form.is_shared),
            },
        )
    } else {
        Ok(
            NoteRequest::Create {
                title: form.title.clone(),
                content: Some(form.content.clone()),
                is_shared: form.is_shared,
            },
        )
    }
}

/// The journal editor as the user left it; the date as typed in a date input.
#[derive(Debug, Clone, PartialEq, Eq)]
pub struct JournalForm {
    pub title: String,
    pub content: String,
    pub entry_date: String,
    pub is_shared: bool,
}

/// What saving a journal entry sends; dates are day numbers (see `dates`).
#[derive(Debug, Clone, PartialEq, Eq)]
pub enum JournalRequest {
    Update {
        title: Option<String>,
        content: Option<String>,
        entry_date: Option<i32>,
        is_shared: Option<bool>,
    },
    Create { title: Option<String>, content: String, entry_date: Option<i32>, is_shared: bool },
}

/// The text of the editor's date field: the entry's own date, or today for a new entry.
pub fn entry_date_field(entry_date: Option<i32>, today: i32) -> (r: Option<String>)
    ensures
        ({
            let day = match entry_date {
                Some(d) => d,
                None => today,
            };
            match date_input_text(day) {
                Some(t) => r matches Some(s) && s@ == t,
                None => r is None,
            }
        }),
{
    let day = match entry_date {
        Some(d) => d,
        None => today,
    };
    format_date_input(day)
}

/// Saving a journal entry: the content must hold more than white space, then the date must
/// read as `YYYY-MM-DD`; each failure is the i18n key of its message. An edit sends every
/// field; a new entry leaves out an empty title.
pub fn journal_submit(form: &JournalForm, editing: bool) -> (r: Result<JournalRequest, &'static str>)
    ensures
        trim_ws(form.content@).len() == 0 ==> (r matches Err(k) && k@ == "journal.content_required"@),
        trim_ws(form.content@).len() > 0 && parsed_date_input(form.entry_date@) is None ==> (r matches Err(
            k,
        ) && k@ == "journal.invalid_date"@),
        trim_ws(form.content@).len() > 0 && editing ==> (parsed_date_input(form.entry_date@) matches Some(
            day,
        ) ==> (r matches Ok(
            JournalRequest::Update {
                title: Some(t),
                content: Some(c),
                entry_date: Some(d),
                is_shared: Some(s),
            },
        ) && t@ == form.title@ && c@ == form.content@ && d == day && s == form.is_shared)),
        trim_ws(form.content@).len() > 0 && !editing ==> (parsed_date_input(form.entry_date@) matches Some(
            day,
        ) ==> (r matches Ok(
            JournalRequest::Create { title: t, content: c, entry_date: Some(d), is_shared: s },
        ) && c@ == form.content@ && d == day && s == form.is_shared && (form.title@.len() == 0
            ==> t is None) && (form.title@.len() > 0 ==> (t matches Some(tt) && tt@
            == form.title@)))),
{
    if trim(form.content.as_str()).is_empty() {
        return Err("journal.content_required");
    }
    let day = match parse_date_input(form.entry_date.as_str()) {
        Some(d) => d,
        None => {
            return Err("journal.invalid_date");
        },
    };
    if editing {
        Ok(
            JournalRequest::Update {
                title: Some(form.title.clone()),
                content: Some(form.content.clone()),
                entry_date: Some(day),
                is_shared: Some(form.is_shared),
            },
        )
    } else {
        Ok(
            JournalRequest::Create {
                title: if form.title.as_str().is_empty() {
                    None
                } else {
                    Some(form.title.clone())
                },
                content: form.content.clone(),
                entry_date: Some(day),
                is_shared: form.is_shared,
            },
        )
    }
}

/// The announcement editor as the user left it; start and end as typed in date-time inputs.
#[derive(Debug, Clone, PartialEq, Eq)]
pub struct AnnouncementForm {
    pub title: String,
    pub content: String,
    pub starts_at: String,
    pub ends_at: String,
}

/// What saving an announcement sends; moments in seconds since the Unix epoch. An update's
/// `Some(None)` clears a moment.
#[derive(Debug, Clone, PartialEq, Eq)]
pub enum AnnouncementRequest {
    Update {
        title: Option<String>,
        content: Option<String>,
        starts_at: Option<Option<i64>>,
        ends_at: Option<Option<i64>>,
    },
    Create { title: String, content: Option<String>, starts_at: Option<i64>, ends_at: Option<i64> },
}

/// The moment a date-time field names: none when empty, else chrono's reading of it as UTC.
pub open spec fn field_moment(text: Seq<char>) -> Option<i64> {
    if text.len() == 0 {
        None
    } else {
        parsed_datetime_input(text)
    }
}

/// The moment a date-time field names.
fn moment_of(text: &String) -> (r: Option<i64>)
    ensures
        r == field_moment(text@),
{
    if text.as_str().is_empty() {
        None
    } else {
        parse_datetime_input(text.as_str())
    }
}

/// The text of a date-time field for a moment: empty when there is none.
pub fn moment_field(moment: Option<i64>) -> (r: String)
    ensures
        match moment {
            Some(secs) => match datetime_input_text(secs) {
                Some(t) => r@ == t,
                None => r@.len() == 0,
            },
            None => r@.len() == 0,
        },
{
    match moment {
        Some(secs) => match format_datetime_input(secs) {
            Some(t) => t,
            None => String::new(),
        },
        None => String::new(),
    }
}

/// Saving an announcement: a title of nothing but white space is refused with "Title is
/// required". Start and end are read from their fields; an edit sends every field, setting
/// or clearing both moments.
pub fn announcement_submit(form: &AnnouncementForm, editing: bool) -> (r: Result<AnnouncementRequest, String>)
    ensures
        trim_ws(form.title@).len() == 0 ==> (r matches Err(e) && e@ == "Title is required"@),
        trim_ws(form.title@).len() > 0 && editing ==> (r matches Ok(
            AnnouncementRequest::Update {
                title: Some(t),
                content: Some(c),
                starts_at: Some(s),
                ends_at: Some(e),
            },
        ) && t@ == form.title@ && c@ == form.content@ && s == field_moment(form.starts_at@) && e
            == field_moment(form.ends_at@)),
        trim_ws(form.title@).len() > 0 && !editing ==> (r matches Ok(
            AnnouncementRequest::Create { title: t, content: Some(c), starts_at: s, ends_at: e },
        ) && t@ == form.title@ && c@ == form.content@ && s == field_moment(form.starts_at@) && e
            == field_moment(form.ends_at@)),
{
    if trim(form.title.as_str()).is_empty() {
        return Err(String::from_str("Title is required"));
    }
    let starts_at = moment_of(&form.starts_at);
    let ends_at = moment_of(&form.ends_at);
    if editing {
        Ok(
            AnnouncementRequest::Update {
                title: Some(form.title.clone()),
                content: Some(form.content.clone()),
                starts_at: Some(starts_at),
                ends_at: Some(ends_at),
            },
        )
    } else {
        Ok(
            AnnouncementRequest::Create {
                title: form.title.clone(),
                content: Some(form.content.clone()),
                starts_at,
                ends_at,
            },
        )
    }
}

/// What the announcement manager shows: the list, the editor of a new one, or the editor of
/// an existing one.
#[derive(Debug, Clone, Copy, PartialEq, Eq, Structural)]
pub enum AnnouncementMode {
    List,
    Create,
    Edit,
}

/// The manager's heading in each mode.
pub fn announcement_heading(mode: AnnouncementMode) -> (r: &'static str)
    ensures
        mode == AnnouncementMode::List ==> r@ == "Manage Announcements"@,
        mode == AnnouncementMode::Create ==> r@ == "Create Announcement"@,
        mode == AnnouncementMode::Edit ==> r@ == "Edit Announcement"@,
{
    match mode {
        AnnouncementMode::List => "Manage Announcements",
        AnnouncementMode::Create => "Create Announcement",
        AnnouncementMode::Edit => "Edit Announcement",
    }
}

/// A task category as the category manager lists it.
#[derive(Debug, Clone, PartialEq, Eq)]
pub struct CategoryRow {
    pub id: u128,
    pub name: String,
    pub color: Option<String>,
}

impl Keyed for CategoryRow {
    open spec fn key_of(&self) -> u128 {
        self.id
    }

    fn key(&self) -> (k: u128) {
        self.id
    }
}

/// The colour a category gets when none was picked.
pub open spec fn default_category_color() -> Seq<char> {
    "#4A90D9"@
}

/// The colour the editor shows for a category: its own, or the default.
pub fn category_color_field(color: Option<&str>) -> (r: String)
    ensures
        r@ == match color {
            Some(c) => c@,
            None => default_category_color(),
        },
{
    match color {
        Some(c) => String::from_str(c),
        None => String::from_str("#4A90D9"),
    }
}

/// What saving a category sends; the sort order is never set here.
#[derive(Debug, Clone, PartialEq, Eq)]
pub enum CategoryRequest {
    Update { id: u128, name: Option<String>, color: Option<String>, sort_order: Option<i32> },
    Create { name: String, color: Option<String>, sort_order: Option<i32> },
}

/// Saving a category: a name of nothing but white space sends nothing; otherwise the category
/// being edited is updated, or a new one is created, with the name and colour as given.
pub fn category_submit(name: &str, color: &str, editing: Option<u128>) -> (r: Option<CategoryRequest>)
    ensures
        trim_ws(name@).len() == 0 ==> r is None,
        trim_ws(name@).len() > 0 ==> match editing {
            Some(id) => r matches Some(
                CategoryRequest::Update { id: i, name: Some(n), color: Some(c), sort_order: None },
            ) && i == id && n@ == name@ && c@ == color@,
            None => r matches Some(
                CategoryRequest::Create { name: n, color: Some(c), sort_order: None },
            ) && n@ == name@ && c@ == color@,
        },
{
    if trim(name).is_empty() {
        return None;
    }
    match editing {
        Some(id) => Some(
            CategoryRequest::Update {
                id,
                name: Some(String::from_str(name)),
                color: Some(String::from_str(color)),
                sort_order: None,
            },
        ),
        None => Some(
            CategoryRequest::Create {
                name: String::from_str(name),
                color: Some(String::from_str(color)),
                sort_order: None,
            },
        ),
    }
}

} // verus!
