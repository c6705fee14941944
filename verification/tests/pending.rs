use haushalt_frontend::pending::{
    confirmation_error_shown, confirmations_hidden, is_forbidden_error, pending_count_suffix,
    review_queue_hidden, settle_pending, PendingEntry,
};

#[test]
fn forbidden_failures_are_recognised() {
    assert!(is_forbidden_error("403|Forbidden"));
    assert!(is_forbidden_error("You lack permission"));
    assert!(!is_forbidden_error("500|Internal"));
}

#[test]
fn review_queues_hide_when_empty_or_forbidden() {
    assert!(review_queue_hidden(false, true, None));
    assert!(!review_queue_hidden(true, true, None));
    assert!(!review_queue_hidden(false, false, None));
    assert!(review_queue_hidden(false, false, Some("403|Forbidden")));
    assert!(!review_queue_hidden(false, true, Some("500|Internal")));
}

#[test]
fn confirmations_hide_for_a_disabled_feature() {
    assert!(confirmations_hidden(false, true, true, None));
    assert!(confirmations_hidden(false, true, true, Some("Rewards are not enabled")));
    assert!(!confirmations_hidden(false, true, true, Some("boom")));
    assert!(!confirmations_hidden(false, false, true, None));
    assert_eq!(confirmation_error_shown(Some("Rewards are not enabled")), None);
    assert_eq!(confirmation_error_shown(Some("boom")), Some("boom".to_string()));
}

#[test]
fn counts_above_one_are_shown() {
    assert_eq!(pending_count_suffix(3), Some(" (x3)".to_string()));
    assert_eq!(pending_count_suffix(1), None);
}

fn e(id: u128, pending: i32, settled: i32) -> PendingEntry {
    PendingEntry { id, pending, settled }
}

#[test]
fn settled_entries_leave_the_queue() {
    let items = vec![e(1, 2, 0), e(2, 1, 0)];
    assert_eq!(settle_pending(&items, 1, 1, Some(1)), vec![e(1, 1, 1), e(2, 1, 0)]);
    assert_eq!(settle_pending(&items, 2, 0, None), vec![e(1, 2, 0)]);
    assert_eq!(settle_pending(&items, 9, 0, None), items);
}
