use haushalt_frontend::keyed::{remove_keyed, replace_keyed, upsert_keyed};
use haushalt_frontend::settings::{
    copied_after_flash, default_household, household_label, household_name, last_used_text,
    new_report_name, new_token_request, toggle_household, ApiTokenRow, PublicReportRow,
};

#[test]
fn test_household_name_resolves_and_falls_back() {
    let a = uuid::Uuid::new_v4().as_u128();
    let b = uuid::Uuid::new_v4().as_u128();
    let households = [(a, "Kitchen".to_string()), (b, "Studio".to_string())];

    assert_eq!(household_name(&households, b).as_deref(), Some("Studio"));
    // An id not in the list (e.g. a household the user has since left) resolves to None,
    // so the caller can fall back to showing the raw id rather than an empty label.
    assert_eq!(household_name(&households, uuid::Uuid::new_v4().as_u128()), None);
}

#[test]
fn an_unknown_household_is_labelled_by_its_id() {
    let id = uuid::Uuid::parse_str("67e55044-10b1-426f-9247-bb680e5fe0c8").unwrap();
    let households = [(1u128, "Home".to_string())];
    assert_eq!(household_label(&households, 1), "Home");
    assert_eq!(household_label(&households, id.as_u128()), "67e55044-10b1-426f-9247-bb680e5fe0c8");
}

#[test]
fn the_first_household_is_the_default() {
    let households = [(4u128, "A".to_string()), (5u128, "B".to_string())];
    assert_eq!(default_household(None, &households), Some(4));
    assert_eq!(default_household(Some(5), &households), Some(5));
    assert_eq!(default_household(None, &[]), None);
}

#[test]
fn new_names_are_trimmed_and_required() {
    assert_eq!(new_report_name("  Weekly  "), Ok("Weekly".to_string()));
    assert_eq!(new_report_name("   "), Err("public_reports.name_required"));
    assert_eq!(new_token_request(" ci ", Some(3)), Ok(("ci".to_string(), 3)));
    assert_eq!(new_token_request("", Some(3)), Err("api_tokens.name_required"));
    assert_eq!(new_token_request("ci", None), Err("api_tokens.no_households"));
}

#[test]
fn household_checkboxes_add_and_remove() {
    assert_eq!(toggle_household(&[1, 2], 3, true), vec![1, 2, 3]);
    assert_eq!(toggle_household(&[1, 2], 2, true), vec![1, 2]);
    assert_eq!(toggle_household(&[1, 2, 1], 1, false), vec![2]);
}

#[test]
fn a_flash_ends_only_for_its_own_link() {
    assert_eq!(copied_after_flash(Some(5), 5), None);
    assert_eq!(copied_after_flash(Some(6), 5), Some(6));
    assert_eq!(copied_after_flash(None, 5), None);
}

#[test]
fn last_use_is_shown_to_the_minute() {
    assert_eq!(last_used_text(Some(0)), Some("1970-01-01 00:00 UTC".to_string()));
    assert_eq!(last_used_text(Some(1_700_000_000)), Some("2023-11-14 22:13 UTC".to_string()));
    assert_eq!(last_used_text(None), None);
}

fn report(id: u128, name: &str) -> PublicReportRow {
    PublicReportRow { id, name: name.to_string(), language: "en".to_string(), enabled: true, household_ids: vec![] }
}

#[test]
fn records_are_replaced_in_place_and_removed_by_id() {
    let mut list = vec![report(1, "a"), report(2, "b")];
    replace_keyed(&mut list, report(2, "B"));
    assert_eq!(list[1].name, "B");
    replace_keyed(&mut list, report(9, "z"));
    assert_eq!(list.len(), 2);
    upsert_keyed(&mut list, report(9, "z"));
    assert_eq!(list.len(), 3);
    upsert_keyed(&mut list, report(1, "A"));
    assert_eq!(list[0].name, "A");
    let list = remove_keyed(list, 2);
    assert_eq!(list.iter().map(|r| r.id).collect::<Vec<_>>(), vec![1, 9]);
    let tokens = vec![ApiTokenRow { id: 3, name: "t".to_string(), household_id: 1, can_write: false, enabled: true, last_used_at: None }];
    assert!(remove_keyed(tokens, 3).is_empty());
}
