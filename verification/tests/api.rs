use haushalt_frontend::api::{
    activities_path, api_url, chat_path, error_message, failure_text, household_path,
    is_unauthorized, AuthState, HttpMethod, RequestAction, RequestEvent, RequestFlow,
    RequestPhase, SessionFlags, TokenStore,
};
use haushalt_frontend::endpoints::Endpoint;

fn s(x: &str) -> String {
    x.to_string()
}

#[test]
fn test_api_base_constant() {
    assert_eq!(api_url(""), "/api");
}

#[test]
fn test_url_format_households() {
    assert_eq!(api_url("/households"), "/api/households");
}

#[test]
fn test_url_format_household_tasks() {
    let path = household_path("abc-123", "/tasks");
    assert_eq!(api_url(&path), "/api/households/abc-123/tasks");
    let e = Endpoint::ListTasks { household_id: s("abc-123") };
    assert_eq!(api_url(&e.path()), "/api/households/abc-123/tasks");
}

#[test]
fn test_url_format_task_complete() {
    let e = Endpoint::CompleteTask { household_id: s("house-1"), task_id: s("task-1") };
    assert_eq!(api_url(&e.path()), "/api/households/house-1/tasks/task-1/complete");
    assert_eq!(e.method(), HttpMethod::Post);
    assert!(e.auth());
}

#[test]
fn test_url_format_task_rewards() {
    let e = Endpoint::RemoveTaskReward { household_id: s("h1"), task_id: s("t1"), reward_id: s("r1") };
    assert_eq!(api_url(&e.path()), "/api/households/h1/tasks/t1/rewards/r1");
    assert_eq!(e.method(), HttpMethod::Delete);
}

#[test]
fn test_url_format_invitations() {
    let e = Endpoint::AcceptInvitation { invitation_id: s("inv-123") };
    assert_eq!(api_url(&e.path()), "/api/invitations/inv-123/accept");
}

#[test]
fn test_url_format_member_points() {
    let e = Endpoint::AdjustMemberPoints { household_id: s("h1"), user_id: s("u1") };
    assert_eq!(api_url(&e.path()), "/api/households/h1/members/u1/points");
    assert_eq!(e.method(), HttpMethod::Post);
}

#[test]
fn task_link_amount_goes_into_the_query() {
    let e = Endpoint::AddTaskReward { household_id: s("h1"), task_id: s("t1"), reward_id: s("r1"), amount: 3 };
    assert_eq!(e.path(), "/households/h1/tasks/t1/rewards/r1?amount=3");
    let e = Endpoint::AddTaskPunishment {
        household_id: s("h1"),
        task_id: s("t1"),
        punishment_id: s("p1"),
        amount: -2,
    };
    assert_eq!(e.path(), "/households/h1/tasks/t1/punishments/p1?amount=-2");
}

#[test]
fn activities_limit_is_optional() {
    assert_eq!(activities_path("h", None), "/households/h/activities");
    assert_eq!(activities_path("h", Some(50)), "/households/h/activities?limit=50");
}

#[test]
fn chat_query_joins_the_given_parameters() {
    assert_eq!(chat_path("h", None, None), "/households/h/chat");
    assert_eq!(chat_path("h", Some(20), None), "/households/h/chat?limit=20");
    assert_eq!(chat_path("h", None, Some("m9")), "/households/h/chat?before=m9");
    assert_eq!(chat_path("h", Some(20), Some("m9")), "/households/h/chat?limit=20&before=m9");
}

#[test]
fn methods_are_read_by_name() {
    assert_eq!(HttpMethod::from_name("GET"), Ok(HttpMethod::Get));
    assert_eq!(HttpMethod::from_name("POST"), Ok(HttpMethod::Post));
    assert_eq!(HttpMethod::from_name("PUT"), Ok(HttpMethod::Put));
    assert_eq!(HttpMethod::from_name("DELETE"), Ok(HttpMethod::Delete));
    assert_eq!(HttpMethod::from_name("PATCH"), Err("Invalid method".to_string()));
    assert_eq!(HttpMethod::from_name("get"), Err("Invalid method".to_string()));
    assert_eq!(HttpMethod::Delete.as_str(), "DELETE");
}

#[test]
fn failures_are_reported_as_status_and_message() {
    assert_eq!(failure_text(404, Some("Task not found")), "404|Task not found");
    assert_eq!(failure_text(500, None), "500|An unknown error occurred");
}

#[test]
fn the_message_is_the_part_after_the_status() {
    assert_eq!(error_message("404|Task not found"), "Task not found");
    assert_eq!(error_message("400|a|b"), "a");
    assert_eq!(error_message("network down"), "network down");
    assert_eq!(error_message("500|"), "");
}

#[test]
fn only_401_reports_are_unauthorized() {
    assert!(is_unauthorized("401|Token expired"));
    assert!(!is_unauthorized("403|Forbidden"));
    assert!(!is_unauthorized("401"));
    assert!(!is_unauthorized(""));
}

fn fresh() -> (TokenStore, SessionFlags) {
    (TokenStore::new(Some("t".to_string()), Some("r".to_string())), SessionFlags::new())
}

#[test]
fn a_successful_call_is_delivered() {
    let (mut store, mut flags) = fresh();
    let mut flow = RequestFlow::new(true);
    let action = flow.step(RequestEvent::Succeeded, &mut store, &mut flags);
    assert!(matches!(action, RequestAction::Deliver));
    assert_eq!(flow.phase, RequestPhase::Finished);
}

#[test]
fn an_unauthorized_call_refreshes_then_retries_once() {
    let (mut store, mut flags) = fresh();
    let mut flow = RequestFlow::new(true);
    let a = flow.step(RequestEvent::Failed("401|expired".to_string()), &mut store, &mut flags);
    assert!(matches!(a, RequestAction::Refresh));
    let a = flow.step(RequestEvent::Refreshed(true), &mut store, &mut flags);
    assert!(matches!(a, RequestAction::Retry));
    let a = flow.step(RequestEvent::Failed("401|still expired".to_string()), &mut store, &mut flags);
    match a {
        RequestAction::Fail(m) => assert_eq!(m, "still expired"),
        _ => panic!("the retry must not refresh again"),
    }
    assert_eq!(flow.phase, RequestPhase::Finished);
    assert!(!flags.auth_failed);
    assert_eq!(store.token.as_deref(), Some("t"));
}

#[test]
fn a_failed_refresh_expires_the_session() {
    let (mut store, mut flags) = fresh();
    let mut flow = RequestFlow::new(true);
    flow.step(RequestEvent::Failed("401|expired".to_string()), &mut store, &mut flags);
    let a = flow.step(RequestEvent::Refreshed(false), &mut store, &mut flags);
    match a {
        RequestAction::Fail(m) => assert_eq!(m, "Session expired. Please log in again."),
        _ => panic!("expected a failure"),
    }
    assert!(flags.auth_failed);
    assert!(store.token.is_none() && store.refresh_token.is_none());
    let page = AuthState { token: Some("t".to_string()), user: Some(7) };
    assert!(!page.is_authenticated(&flags));
}

#[test]
fn anonymous_calls_report_401_without_refreshing() {
    let (mut store, mut flags) = fresh();
    let mut flow = RequestFlow::new(false);
    let a = flow.step(RequestEvent::Failed("401|Bad credentials".to_string()), &mut store, &mut flags);
    match a {
        RequestAction::Fail(m) => assert_eq!(m, "Bad credentials"),
        _ => panic!("expected a failure"),
    }
}

#[test]
fn events_out_of_phase_are_ignored() {
    let (mut store, mut flags) = fresh();
    let mut flow = RequestFlow::new(true);
    let a = flow.step(RequestEvent::Refreshed(true), &mut store, &mut flags);
    assert!(matches!(a, RequestAction::Ignore));
    assert_eq!(flow.phase, RequestPhase::FirstAttempt);
}

#[test]
fn only_one_refresh_runs_at_a_time() {
    let (mut store, mut flags) = fresh();
    assert!(flags.begin_refresh());
    assert!(!flags.begin_refresh());
    let r = haushalt_frontend::api::complete_refresh(
        &mut store,
        &mut flags,
        Ok(("t2".to_string(), "r2".to_string())),
    );
    assert_eq!(r, Ok(()));
    assert!(!flags.refresh_in_progress);
    assert_eq!(store.token.as_deref(), Some("t2"));
    assert_eq!(store.refresh_token.as_deref(), Some("r2"));
    assert!(flags.begin_refresh());
}

#[test]
fn refresh_needs_a_refresh_token() {
    let store = TokenStore::new(Some("t".to_string()), None);
    assert_eq!(store.refresh_request(), Err("No refresh token".to_string()));
    let store = TokenStore::new(None, Some("r".to_string()));
    assert_eq!(store.refresh_request(), Ok("r".to_string()));
    assert_eq!(store.after_waiting(), Err("Refresh failed".to_string()));
}

#[test]
fn a_failed_refresh_passes_its_error_on() {
    let (mut store, mut flags) = fresh();
    flags.begin_refresh();
    let r = haushalt_frontend::api::complete_refresh(&mut store, &mut flags, Err("boom".to_string()));
    assert_eq!(r, Err("boom".to_string()));
    assert!(!flags.refresh_in_progress);
    assert_eq!(store.token.as_deref(), Some("t"));
}

#[test]
fn stored_tokens_end_an_expiry() {
    let (mut store, mut flags) = fresh();
    flags.auth_failed = true;
    store.store_tokens(&mut flags, "n", "m");
    assert!(!flags.auth_failed);
    assert_eq!(store.authorization(true), Some("Bearer n".to_string()));
    assert_eq!(store.authorization(false), None);
}

#[test]
fn an_expiry_is_reported_once() {
    let (mut store, mut flags) = fresh();
    let mut page = AuthState::new(&store);
    assert_eq!(page.get_token(), Some("t".to_string()));
    assert!(page.is_authenticated(&flags));
    flags.auth_failed = true;
    assert!(!page.is_authenticated(&flags));
    assert!(page.check_and_clear_auth_failed(&mut flags));
    assert!(page.token.is_none() && page.user.is_none());
    assert!(!page.check_and_clear_auth_failed(&mut flags));
    page.set_auth(&mut store, "x".to_string(), "y".to_string(), 42);
    assert!(page.is_authenticated(&flags));
    assert_eq!(page.user, Some(42));
    assert_eq!(page.logout(&mut store), Some("y".to_string()));
    assert!(!page.is_authenticated(&flags));
    assert!(store.token.is_none() && store.refresh_token.is_none());
}

#[test]
fn only_register_and_login_go_without_the_session() {
    assert!(!Endpoint::Register.auth());
    assert!(!Endpoint::Login.auth());
    assert!(Endpoint::GetCurrentUser.auth());
    assert_eq!(Endpoint::Login.path(), "/auth/login");
    assert_eq!(Endpoint::GetUserSettings.path(), "/users/me/settings");
    assert_eq!(Endpoint::UpdateUserSettings.method(), HttpMethod::Put);
}

#[test]
fn paged_endpoints_build_their_queries() {
    let e = Endpoint::ListActivities { household_id: s("h"), limit: Some(5) };
    assert_eq!(e.path(), "/households/h/activities?limit=5");
    let e = Endpoint::ListChatMessages { household_id: s("h"), limit: None, before: Some(s("m")) };
    assert_eq!(e.path(), "/households/h/chat?before=m");
    let e = Endpoint::IsTaskOnDashboard { task_id: s("t") };
    assert_eq!(e.path(), "/dashboard/tasks/t");
    assert_eq!(e.method(), HttpMethod::Get);
    assert_eq!(Endpoint::RemoveTaskFromDashboard { task_id: s("t") }.method(), HttpMethod::Delete);
}
