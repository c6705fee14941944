use chrono::{Datelike, NaiveDate};
use haushalt_frontend::forms::{
    announcement_heading, announcement_submit, category_color_field, category_submit,
    entry_date_field, journal_submit, moment_field, note_submit, AnnouncementForm,
    AnnouncementMode, AnnouncementRequest, CategoryRequest, JournalForm, JournalRequest, NoteForm,
    NoteRequest,
};

#[test]
fn notes_need_a_title() {
    let f = NoteForm { title: "  ".to_string(), content: "x".to_string(), is_shared: true };
    assert_eq!(note_submit(&f, false), Err("Note title is required".to_string()));
    let f = NoteForm { title: "Shopping".to_string(), content: "milk".to_string(), is_shared: false };
    assert_eq!(
        note_submit(&f, true),
        Ok(NoteRequest::Update {
            title: Some("Shopping".to_string()),
            content: Some("milk".to_string()),
            is_shared: Some(false)
        })
    );
    assert_eq!(
        note_submit(&f, false),
        Ok(NoteRequest::Create { title: "Shopping".to_string(), content: Some("milk".to_string()), is_shared: false })
    );
}

fn day(y: i32, m: u32, d: u32) -> i32 {
    NaiveDate::from_ymd_opt(y, m, d).unwrap().num_days_from_ce()
}

#[test]
fn journal_entries_need_content_and_a_date() {
    let mut f = JournalForm {
        title: String::new(),
        content: " ".to_string(),
        entry_date: "2024-05-01".to_string(),
        is_shared: false,
    };
    assert_eq!(journal_submit(&f, false), Err("journal.content_required"));
    f.content = "A good day".to_string();
    f.entry_date = "01.05.2024".to_string();
    assert_eq!(journal_submit(&f, false), Err("journal.invalid_date"));
    f.entry_date = "2024-05-01".to_string();
    assert_eq!(
        journal_submit(&f, false),
        Ok(JournalRequest::Create {
            title: None,
            content: "A good day".to_string(),
            entry_date: Some(day(2024, 5, 1)),
            is_shared: false
        })
    );
    f.title = "May".to_string();
    assert_eq!(
        journal_submit(&f, true),
        Ok(JournalRequest::Update {
            title: Some("May".to_string()),
            content: Some("A good day".to_string()),
            entry_date: Some(day(2024, 5, 1)),
            is_shared: Some(false)
        })
    );
}

#[test]
fn the_date_field_starts_at_the_entry_or_today() {
    assert_eq!(entry_date_field(Some(day(2024, 5, 1)), day(2024, 6, 1)), Some("2024-05-01".to_string()));
    assert_eq!(entry_date_field(None, day(2024, 6, 1)), Some("2024-06-01".to_string()));
}

#[test]
fn announcements_read_their_moments() {
    let f = AnnouncementForm {
        title: "Party".to_string(),
        content: "Bring snacks".to_string(),
        starts_at: "2024-05-01T18:30".to_string(),
        ends_at: String::new(),
    };
    let start = NaiveDate::from_ymd_opt(2024, 5, 1).unwrap().and_hms_opt(18, 30, 0).unwrap().and_utc().timestamp();
    assert_eq!(
        announcement_submit(&f, true),
        Ok(AnnouncementRequest::Update {
            title: Some("Party".to_string()),
            content: Some("Bring snacks".to_string()),
            starts_at: Some(Some(start)),
            ends_at: Some(None)
        })
    );
    assert_eq!(
        announcement_submit(&f, false),
        Ok(AnnouncementRequest::Create {
            title: "Party".to_string(),
            content: Some("Bring snacks".to_string()),
            starts_at: Some(start),
            ends_at: None
        })
    );
    let mut blank = f.clone();
    blank.title = " ".to_string();
    assert_eq!(announcement_submit(&blank, false), Err("Title is required".to_string()));
    assert_eq!(moment_field(Some(start)), "2024-05-01T18:30");
    assert_eq!(moment_field(None), "");
}

#[test]
fn the_manager_heading_follows_its_mode() {
    assert_eq!(announcement_heading(AnnouncementMode::List), "Manage Announcements");
    assert_eq!(announcement_heading(AnnouncementMode::Create), "Create Announcement");
    assert_eq!(announcement_heading(AnnouncementMode::Edit), "Edit Announcement");
}

#[test]
fn categories_need_a_name() {
    assert_eq!(category_submit(" ", "#fff", None), None);
    assert_eq!(
        category_submit("Kitchen", "#fff", None),
        Some(CategoryRequest::Create { name: "Kitchen".to_string(), color: Some("#fff".to_string()), sort_order: None })
    );
    assert_eq!(
        category_submit("Kitchen", "#000", Some(4)),
        Some(CategoryRequest::Update {
            id: 4,
            name: Some("Kitchen".to_string()),
            color: Some("#000".to_string()),
            sort_order: None
        })
    );
    assert_eq!(category_color_field(None), "#4A90D9");
    assert_eq!(category_color_field(Some("#123456")), "#123456");
}
