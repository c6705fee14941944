use haushalt_frontend::links::{join_origin, ws_url, HouseholdTab};

#[test]
fn test_join_origin_produces_a_single_slash() {
    let path = "/api/public/reports/abc";
    assert_eq!(
        join_origin("https://haushalt.example", path),
        "https://haushalt.example/api/public/reports/abc"
    );
    assert_eq!(
        join_origin("https://haushalt.example/", path),
        "https://haushalt.example/api/public/reports/abc"
    );
}

#[test]
fn test_join_origin_tolerates_an_empty_origin() {
    assert_eq!(join_origin("", "/api/public/reports/abc"), "/api/public/reports/abc");
}

#[test]
fn join_origin_drops_every_trailing_slash() {
    assert_eq!(join_origin("https://a.example///", "/x"), "https://a.example/x");
}

#[test]
fn household_tabs_link_below_the_household() {
    assert_eq!(HouseholdTab::Overview.path("abc"), "/households/abc");
    assert_eq!(HouseholdTab::Tasks.path("abc"), "/households/abc/tasks");
    assert_eq!(HouseholdTab::Rewards.path("abc"), "/households/abc/rewards");
    assert_eq!(HouseholdTab::Punishments.path("abc"), "/households/abc/punishments");
    assert_eq!(HouseholdTab::Punishments.label(), "Punishments");
}

#[test]
fn the_socket_follows_the_page_protocol() {
    assert_eq!(ws_url("https:", "example.org"), "wss://example.org/api/ws");
    assert_eq!(ws_url("http:", "localhost:8080"), "ws://localhost:8080/api/ws");
}
