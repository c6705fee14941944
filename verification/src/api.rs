//! The REST client's own logic: where each call goes, how a failed call is reported, when the
//! session is refreshed, and what the session keeps between calls.
//!
//! The HTTP round trips, the browser storage and the timers stay outside; they hand these
//! functions what they read and carry out what these functions decide.
use vstd::prelude::*;
use crate::text::{
    chars_of, find_from, find_text, i64_text, int_text, lemma_find_text_bounds, nat_text, str_eq,
    string_of,
};

verus! {

/// Every path of the REST API lives below this prefix.
pub open spec fn api_base() -> Seq<char> {
    seq!['/', 'a', 'p', 'i']
}

/// The full URL of an API path: the `/api` prefix followed by the path.
pub fn api_url(path: &str) -> (r: String)
    ensures
        r@ == api_base() + path@,
{
    let mut r = String::new();
    r.append("/api");
    proof {
        reveal_strlit("/api");
    }
    assert(Seq::<char>::empty() + "/api"@ =~= api_base());
    r.append(path);
    r
}

/// The HTTP methods the client uses.
#[derive(Debug, Clone, Copy, PartialEq, Eq, Structural)]
pub enum HttpMethod {
    Get,
    Post,
    Put,
    Delete,
}

/// The name of each method as a request line spells it.
pub open spec fn method_name(m: HttpMethod) -> Seq<char> {
    match m {
        HttpMethod::Get => "GET"@,
        HttpMethod::Post => "POST"@,
        HttpMethod::Put => "PUT"@,
        HttpMethod::Delete => "DELETE"@,
    }
}

impl HttpMethod {
    /// The method's name.
    pub fn as_str(&self) -> (r: &'static str)
        ensures
            r@ == method_name(*self),
    {
        match self {
            HttpMethod::Get => "GET",
            HttpMethod::Post => "POST",
            HttpMethod::Put => "PUT",
            HttpMethod::Delete => "DELETE",
        }
    }

    /// The method a name stands for; any other name is refused with "Invalid method".
    pub fn from_name(name: &str) -> (r: Result<HttpMethod, String>)
        ensures
            r matches Ok(m) ==> method_name(m) == name@,
            r is Err <==> (name@ != "GET"@ && name@ != "POST"@ && name@ != "PUT"@ && name@
                != "DELETE"@),
            r matches Err(e) ==> e@ == "Invalid method"@,
    {
        if str_eq(name, "GET") {
            Ok(HttpMethod::Get)
        } else if str_eq(name, "POST") {
            Ok(HttpMethod::Post)
        } else if str_eq(name, "PUT") {
            Ok(HttpMethod::Put)
        } else if str_eq(name, "DELETE") {
            Ok(HttpMethod::Delete)
        } else {
            Err(String::from_str("Invalid method"))
        }
    }
}

/// The message shown when a failed response carries no readable error body.
pub open spec fn unknown_error_message() -> Seq<char> {
    "An unknown error occurred"@
}

/// How a failed call is first reported: the status code, a bar, and the server's message.
pub open spec fn failure_line(status: u16, message: Seq<char>) -> Seq<char> {
    nat_text(status as nat) + seq!['|'] + message
}

/// The report of a failed response: `status|message`, with the server's message where its
/// body held one and the generic message otherwise.
pub fn failure_text(status: u16, message: Option<&str>) -> (r: String)
    ensures
        r@ == failure_line(
            status,
            match message {
                Some(m) => m@,
                None => unknown_error_message(),
            },
        ),
{
    let mut r = i64_text(status as i64);
    assert(int_text(status as int) == nat_text(status as nat));
    r.append("|");
    proof {
        reveal_strlit("|");
    }
    match message {
        Some(m) => r.append(m),
        None => r.append("An unknown error occurred"),
    }
    r
}

/// What a failure report shows the user: the part between the first and the second bar of
/// `status|message`, or the whole report when it has no bar (`split('|').nth(1)`).
pub open spec fn error_detail(e: Seq<char>) -> Seq<char> {
    match find_text(e, seq!['|']) {
        None => e,
        Some(i) => {
            let rest = e.skip(i + 1);
            match find_text(rest, seq!['|']) {
                None => rest,
                Some(j) => rest.take(j),
            }
        },
    }
}

/// The user-facing message of a failure report.
pub fn error_message(e: &str) -> (r: String)
    ensures
        r@ == error_detail(e@),
{
    let cs = chars_of(e);
    let n = cs.len();
    let bar = vec!['|'];
    assert(bar@ =~= seq!['|']);
    assert(cs@.skip(0) =~= cs@);
    proof {
        lemma_find_text_bounds(e@, seq!['|']);
    }
    match find_from(cs.as_slice(), 0, bar.as_slice()) {
        None => String::from_str(e),
        Some(i) => {
            assert(find_text(e@, seq!['|']) == Some(i as int));
            let start = i + 1;
            let ghost rest = cs@.skip(start as int);
            proof {
                lemma_find_text_bounds(rest, seq!['|']);
            }
            match find_from(cs.as_slice(), start, bar.as_slice()) {
                None => {
                    let r = string_of(cs.as_slice(), start, n);
                    assert(r@ =~= rest);
                    r
                },
                Some(j) => {
                    let r = string_of(cs.as_slice(), start, j);
                    assert(r@ =~= rest.take(j - start));
                    r
                },
            }
        },
    }
}

/// The report of a failure whose status is 401 Unauthorized.
pub open spec fn is_unauthorized_report(e: Seq<char>) -> bool {
    e.len() >= 4 && e.take(4) == seq!['4', '0', '1', '|']
}

/// Whether a failure report starts with `401|`.
pub fn is_unauthorized(e: &str) -> (r: bool)
    ensures
        r == is_unauthorized_report(e@),
{
    let cs = chars_of(e);
    if cs.len() < 4 {
        return false;
    }
    let r = cs[0] == '4' && cs[1] == '0' && cs[2] == '1' && cs[3] == '|';
    if r {
        assert(cs@.take(4) =~= seq!['4', '0', '1', '|']);
    } else {
        assert(cs@.take(4) != seq!['4', '0', '1', '|']) by {
            if cs@.take(4) == seq!['4', '0', '1', '|'] {
                assert(cs@.take(4)[0] == cs@[0]);
                assert(cs@.take(4)[1] == cs@[1]);
                assert(cs@.take(4)[2] == cs@[2]);
                assert(cs@.take(4)[3] == cs@[3]);
            }
        }
    }
    r
}

/// What follows a failed first attempt.
enum FirstFailure {
    /// Refresh the session, then try once more.
    RefreshSession,
    /// Give up and report this message.
    Report(String),
}

/// The decision after a first attempt failed: a call made with the session's token that was
/// refused as unauthorized refreshes the session; any other failure is reported with its
/// user-facing message.
fn after_first_failure(auth: bool, error: &str) -> (r: FirstFailure)
    ensures
        r is RefreshSession <==> (auth && is_unauthorized_report(error@)),
        r matches FirstFailure::Report(m) ==> m@ == error_detail(error@),
{
    if auth && is_unauthorized(error) {
        FirstFailure::RefreshSession
    } else {
        FirstFailure::Report(error_message(error))
    }
}

/// A path below one household: `/households/{household_id}` and then `tail`.
pub fn household_path(household_id: &str, tail: &str) -> (r: String)
    ensures
        r@ == "/households/"@ + household_id@ + tail@,
{
    let mut r = String::from_str("/households/");
    r.append(household_id);
    r.append(tail);
    r
}

/// The activity log's path, with the number of entries to fetch when one is given.
pub fn activities_path(household_id: &str, limit: Option<i64>) -> (r: String)
    ensures
        r@ == "/households/"@ + household_id@ + "/activities"@ + match limit {
            Some(n) => "?limit="@ + int_text(n as int),
            None => Seq::<char>::empty(),
        },
{
    let mut r = household_path(household_id, "/activities");
    match limit {
        Some(n) => {
            r.append("?limit=");
            let t = i64_text(n);
            r.append(t.as_str());
        },
        None => {
            assert(r@ + Seq::<char>::empty() =~= r@);
        },
    }
    r
}

/// The query of a chat page request: `limit=` and `before=` for the parameters given, joined
/// by `&`, after a `?`; nothing when neither is given.
pub open spec fn chat_query(limit: Option<i64>, before: Option<Seq<char>>) -> Seq<char> {
    match (limit, before) {
        (None, None) => Seq::empty(),
        (Some(n), None) => "?limit="@ + int_text(n as int),
        (None, Some(b)) => "?before="@ + b,
        (Some(n), Some(b)) => "?limit="@ + int_text(n as int) + "&before="@ + b,
    }
}

/// The chat's path, paged by an optional limit and an optional message to read before.
pub fn chat_path(household_id: &str, limit: Option<i64>, before: Option<&str>) -> (r: String)
    ensures
        r@ == "/households/"@ + household_id@ + "/chat"@ + chat_query(
            limit,
            match before {
                Some(b) => Some(b@),
                None => None,
            },
        ),
{
    let mut r = household_path(household_id, "/chat");
    let ghost base = r@;
    match limit {
        Some(n) => {
            r.append("?limit=");
            let t = i64_text(n);
            r.append(t.as_str());
            match before {
                Some(b) => {
                    r.append("&before=");
                    r.append(b);
                    assert(r@ =~= base + ("?limit="@ + int_text(n as int) + "&before="@ + b@));
                },
                None => {
                    assert(r@ =~= base + ("?limit="@ + int_text(n as int)));
                },
            }
        },
        None => {
            match before {
                Some(b) => {
                    r.append("?before=");
                    r.append(b);
                    assert(r@ =~= base + ("?before="@ + b@));
                },
                None => {
                    assert(r@ =~= base + Seq::<char>::empty());
                },
            }
        },
    }
    r
}

/// A copy of an optional text.
fn copy_text(t: &Option<String>) -> (r: Option<String>)
    ensures
        r == *t,
{
    match t {
        Some(s) => Some(s.clone()),
        None => None,
    }
}

/// The two tokens the browser keeps between page loads: the access token sent with each call
/// and the refresh token that buys a new pair.
#[derive(Debug)]
pub struct TokenStore {
    pub token: Option<String>,
    pub refresh_token: Option<String>,
}

/// The two process-wide flags of the session: whether the session has expired beyond
/// recovery, and whether a refresh is under way.
#[derive(Debug, Clone, Copy, PartialEq, Eq, Structural)]
pub struct SessionFlags {
    pub auth_failed: bool,
    pub refresh_in_progress: bool,
}

/// The message a call fails with once the session could not be refreshed.
pub open spec fn session_expired_message() -> Seq<char> {
    "Session expired. Please log in again."@
}

/// Whether a caller asking to refresh the session gets to perform the refresh.
pub open spec fn refresh_claimable(flags: SessionFlags) -> bool {
    !flags.refresh_in_progress
}

impl SessionFlags {
    /// Neither flag raised, as at page load.
    pub fn new() -> (r: SessionFlags)
        ensures
            !r.auth_failed,
            !r.refresh_in_progress,
    {
        SessionFlags { auth_failed: false, refresh_in_progress: false }
    }

    /// Claims the refresh for the caller. Only one refresh runs at a time: when one is
    /// already under way the caller is told to wait for it and nothing changes; otherwise the
    /// caller performs it and the flag is raised.
    pub fn begin_refresh(&mut self) -> (perform: bool)
        ensures
            perform == refresh_claimable(*old(self)),
            final(self).refresh_in_progress,
            final(self).auth_failed == old(self).auth_failed,
    {
        if self.refresh_in_progress {
            false
        } else {
            self.refresh_in_progress = true;
            true
        }
    }
}

impl TokenStore {
    /// The tokens as read from storage.
    pub fn new(token: Option<String>, refresh_token: Option<String>) -> (r: TokenStore)
        ensures
            r.token == token,
            r.refresh_token == refresh_token,
    {
        TokenStore { token, refresh_token }
    }

    /// Keeps a fresh pair of tokens. Valid tokens end any expiry the session had signalled.
    pub fn store_tokens(&mut self, flags: &mut SessionFlags, token: &str, refresh_token: &str)
        ensures
            final(self).token matches Some(t) && t@ == token@,
            final(self).refresh_token matches Some(t) && t@ == refresh_token@,
            !final(flags).auth_failed,
            final(flags).refresh_in_progress == old(flags).refresh_in_progress,
    {
        self.token = Some(String::from_str(token));
        self.refresh_token = Some(String::from_str(refresh_token));
        flags.auth_failed = false;
    }

    /// Forgets both tokens.
    pub fn clear_tokens(&mut self)
        ensures
            final(self).token is None,
            final(self).refresh_token is None,
    {
        self.token = None;
        self.refresh_token = None;
    }

    /// The `Authorization` header of a call: `Bearer {token}` when the call is made with the
    /// session and a token is stored, none otherwise.
    pub fn authorization(&self, auth: bool) -> (r: Option<String>)
        ensures
            r is Some <==> (auth && self.token is Some),
            r matches Some(h) ==> h@ == "Bearer "@ + self.token->0@,
    {
        if !auth {
            return None;
        }
        match &self.token {
            Some(t) => {
                let mut h = String::from_str("Bearer ");
                h.append(t.as_str());
                Some(h)
            },
            None => None,
        }
    }

    /// The refresh token to send for a new pair, or "No refresh token" when none is stored.
    pub fn refresh_request(&self) -> (r: Result<String, String>)
        ensures
            r is Ok <==> self.refresh_token is Some,
            r matches Ok(t) ==> t == self.refresh_token->0,
            r matches Err(e) ==> e@ == "No refresh token"@,
    {
        match &self.refresh_token {
            Some(t) => Ok(t.clone()),
            None => Err(String::from_str("No refresh token")),
        }
    }

    /// The outcome for a caller that waited on someone else's refresh: it succeeded when a
    /// token is stored now, and failed with "Refresh failed" otherwise.
    pub fn after_waiting(&self) -> (r: Result<(), String>)
        ensures
            r is Ok <==> self.token is Some,
            r matches Err(e) ==> e@ == "Refresh failed"@,
    {
        if self.token.is_some() {
            Ok(())
        } else {
            Err(String::from_str("Refresh failed"))
        }
    }
}

/// Ends the refresh this caller performed, with the server's reply: a new pair of tokens is
/// stored, and an error is passed on. Either way the refresh is no longer under way.
pub fn complete_refresh(
    store: &mut TokenStore,
    flags: &mut SessionFlags,
    reply: Result<(String, String), String>,
) -> (r: Result<(), String>)
    ensures
        !final(flags).refresh_in_progress,
        r is Ok <==> reply is Ok,
        reply matches Ok(pair) ==> (final(store).token matches Some(t) && t@ == pair.0@)
            && (final(store).refresh_token matches Some(t) && t@ == pair.1@)
            && !final(flags).auth_failed,
        reply matches Err(e) ==> r == Err::<(), String>(e) && *final(store) == *old(store)
            && final(flags).auth_failed == old(flags).auth_failed,
{
    let r = match reply {
        Ok((token, refresh_token)) => {
            store.store_tokens(flags, token.as_str(), refresh_token.as_str());
            Ok(())
        },
        Err(e) => Err(e),
    };
    flags.refresh_in_progress = false;
    r
}

/// The decision after the session refresh that an unauthorized call asked for. When it
/// worked, the call is tried once more (`None`). When it did not, both tokens are forgotten,
/// the session is marked as expired, and the call fails with "Session expired. Please log in
/// again.".
fn after_refresh(refreshed: bool, store: &mut TokenStore, flags: &mut SessionFlags) -> (r:
    Option<String>)
    ensures
        refreshed ==> r is None && *final(store) == *old(store) && *final(flags) == *old(flags),
        !refreshed ==> (r matches Some(m) && m@ == session_expired_message())
            && final(store).token is None && final(store).refresh_token is None
            && final(flags).auth_failed
            && final(flags).refresh_in_progress == old(flags).refresh_in_progress,
{
    if refreshed {
        None
    } else {
        store.clear_tokens();
        flags.auth_failed = true;
        Some(String::from_str("Session expired. Please log in again."))
    }
}

/// The signed-in user as the page holds it: the access token and the user's id.
#[derive(Debug)]
pub struct AuthState {
    pub token: Option<String>,
    pub user: Option<u128>,
}

/// Whether a page state counts as signed in: it holds a token and the session has not
/// expired.
pub open spec fn signed_in(a: AuthState, flags: SessionFlags) -> bool {
    !flags.auth_failed && a.token is Some
}

impl AuthState {
    /// The state at page load: the stored token, and no user until the server names one.
    pub fn new(store: &TokenStore) -> (r: AuthState)
        ensures
            r.token == store.token,
            r.user is None,
    {
        AuthState { token: copy_text(&store.token), user: None }
    }

    /// Signed in: a token is held and the session has not expired.
    pub fn is_authenticated(&self, flags: &SessionFlags) -> (r: bool)
        ensures
            r == signed_in(*self, *flags),
    {
        if flags.auth_failed {
            return false;
        }
        self.token.is_some()
    }

    /// Takes note of an expired session: when the session had expired, the flag is lowered,
    /// the page forgets token and user, and the answer is `true`; otherwise nothing changes.
    pub fn check_and_clear_auth_failed(&mut self, flags: &mut SessionFlags) -> (r: bool)
        ensures
            r == old(flags).auth_failed,
            !final(flags).auth_failed,
            final(flags).refresh_in_progress == old(flags).refresh_in_progress,
            r ==> final(self).token is None && final(self).user is None,
            !r ==> *final(self) == *old(self),
    {
        if flags.auth_failed {
            flags.auth_failed = false;
            self.token = None;
            self.user = None;
            true
        } else {
            false
        }
    }

    /// Signs in with the server's answer: both tokens are stored, and the page holds the
    /// token and the user.
    pub fn set_auth(&mut self, store: &mut TokenStore, token: String, refresh_token: String, user: u128)
        ensures
            final(store).token == Some(token),
            final(store).refresh_token == Some(refresh_token),
            final(self).token == Some(token),
            final(self).user == Some(user),
    {
        store.token = Some(token.clone());
        store.refresh_token = Some(refresh_token);
        self.token = Some(token);
        self.user = Some(user);
    }

    /// Signs out: both tokens are forgotten and the page holds neither token nor user. The
    /// refresh token that was stored is handed back, so that the server can be told to
    /// revoke it.
    pub fn logout(&mut self, store: &mut TokenStore) -> (r: Option<String>)
        ensures
            r == old(store).refresh_token,
            final(store).token is None,
            final(store).refresh_token is None,
            final(self).token is None,
            final(self).user is None,
    {
        let r = copy_text(&store.refresh_token);
        store.clear_tokens();
        self.token = None;
        self.user = None;
        r
    }

    /// The token the page holds.
    pub fn get_token(&self) -> (r: Option<String>)
        ensures
            r == self.token,
    {
        copy_text(&self.token)
    }
}

/// Where a call stands: before its first answer, waiting for a session refresh, waiting for
/// the answer to its one retry, or done.
#[derive(Debug, Clone, Copy, PartialEq, Eq, Structural)]
pub enum RequestPhase {
    FirstAttempt,
    Refreshing,
    Retrying,
    Finished,
}

/// What the caller of a request reports back.
#[derive(Debug)]
pub enum RequestEvent {
    /// The request was answered with success.
    Succeeded,
    /// The request failed; the report is `status|message` or a transport error's text.
    Failed(String),
    /// The session refresh ended; `true` when it worked.
    Refreshed(bool),
}

/// What a request's caller does next.
#[derive(Debug)]
pub enum RequestAction {
    /// Hand the answer's data to the code that made the call.
    Deliver,
    /// Refresh the session, then report how that went.
    Refresh,
    /// Send the same request again.
    Retry,
    /// Fail the call with this message.
    Fail(String),
    /// Nothing: the event does not belong to the call's phase.
    Ignore,
}

/// The order of the phases.
pub open spec fn phase_rank(p: RequestPhase) -> int {
    match p {
        RequestPhase::FirstAttempt => 0,
        RequestPhase::Refreshing => 1,
        RequestPhase::Retrying => 2,
        RequestPhase::Finished => 3,
    }
}

/// The phase a call reaches from `p` on an event.
pub open spec fn phase_after(p: RequestPhase, auth: bool, e: RequestEvent) -> RequestPhase {
    match (p, e) {
        (RequestPhase::FirstAttempt, RequestEvent::Succeeded) => RequestPhase::Finished,
        (RequestPhase::FirstAttempt, RequestEvent::Failed(report)) => if auth
            && is_unauthorized_report(report@) {
            RequestPhase::Refreshing
        } else {
            RequestPhase::Finished
        },
        (RequestPhase::Refreshing, RequestEvent::Refreshed(ok)) => if ok {
            RequestPhase::Retrying
        } else {
            RequestPhase::Finished
        },
        (RequestPhase::Retrying, RequestEvent::Succeeded) => RequestPhase::Finished,
        (RequestPhase::Retrying, RequestEvent::Failed(_)) => RequestPhase::Finished,
        _ => p,
    }
}

/// One call to the API, from its first attempt to its outcome. A call made with the session
/// whose first attempt is refused as unauthorized refreshes the session once and is retried
/// once; every other failure is reported with its user-facing message.
#[derive(Debug)]
pub struct RequestFlow {
    pub auth: bool,
    pub phase: RequestPhase,
}

impl RequestFlow {
    /// A call about to be sent, with or without the session's token.
    pub fn new(auth: bool) -> (r: RequestFlow)
        ensures
            r.auth == auth,
            r.phase == RequestPhase::FirstAttempt,
    {
        RequestFlow { auth, phase: RequestPhase::FirstAttempt }
    }

    /// Takes the next event of the call and says what to do. The session's tokens and flags
    /// change only when a refresh fails: then both tokens are forgotten and the session is
    /// marked as expired.
    pub fn step(&mut self, event: RequestEvent, store: &mut TokenStore, flags: &mut SessionFlags) -> (r:
        RequestAction)
        ensures
            final(self).auth == old(self).auth,
            final(self).phase == phase_after(old(self).phase, old(self).auth, event),
            match (old(self).phase, event) {
                (RequestPhase::FirstAttempt, RequestEvent::Succeeded) => r is Deliver,
                (RequestPhase::FirstAttempt, RequestEvent::Failed(report)) => if old(self).auth
                    && is_unauthorized_report(report@) {
                    r is Refresh
                } else {
                    r matches RequestAction::Fail(m) && m@ == error_detail(report@)
                },
                (RequestPhase::Refreshing, RequestEvent::Refreshed(ok)) => if ok {
                    r is Retry
                } else {
                    r matches RequestAction::Fail(m) && m@ == session_expired_message()
                },
                (RequestPhase::Retrying, RequestEvent::Succeeded) => r is Deliver,
                (RequestPhase::Retrying, RequestEvent::Failed(report)) => r matches RequestAction::Fail(
                    m,
                ) && m@ == error_detail(report@),
                _ => r is Ignore,
            },
            (old(self).phase == RequestPhase::Refreshing && event == RequestEvent::Refreshed(false))
                ==> final(store).token is None && final(store).refresh_token is None
                && final(flags).auth_failed
                && final(flags).refresh_in_progress == old(flags).refresh_in_progress,
            !(old(self).phase == RequestPhase::Refreshing && event == RequestEvent::Refreshed(false))
                ==> *final(store) == *old(store) && *final(flags) == *old(flags),
    {
        match (self.phase, event) {
            (RequestPhase::FirstAttempt, RequestEvent::Succeeded) => {
                self.phase = RequestPhase::Finished;
                RequestAction::Deliver
            },
            (RequestPhase::FirstAttempt, RequestEvent::Failed(report)) => {
                match after_first_failure(self.auth, report.as_str()) {
                    FirstFailure::RefreshSession => {
                        self.phase = RequestPhase::Refreshing;
                        RequestAction::Refresh
                    },
                    FirstFailure::Report(m) => {
                        self.phase = RequestPhase::Finished;
                        RequestAction::Fail(m)
                    },
                }
            },
            (RequestPhase::Refreshing, RequestEvent::Refreshed(ok)) => {
                match after_refresh(ok, store, flags) {
                    None => {
                        self.phase = RequestPhase::Retrying;
                        RequestAction::Retry
                    },
                    Some(m) => {
                        self.phase = RequestPhase::Finished;
                        RequestAction::Fail(m)
                    },
                }
            },
            (RequestPhase::Retrying, RequestEvent::Succeeded) => {
                self.phase = RequestPhase::Finished;
                RequestAction::Deliver
            },
            (RequestPhase::Retrying, RequestEvent::Failed(report)) => {
                self.phase = RequestPhase::Finished;
                RequestAction::Fail(error_message(report.as_str()))
            },
            _ => RequestAction::Ignore,
        }
    }
}

/// A call only moves forward: no event takes it back to an earlier phase.
pub proof fn lemma_phases_only_advance(p: RequestPhase, auth: bool, e: RequestEvent)
    ensures
        phase_rank(p) <= phase_rank(phase_after(p, auth, e)),
{
}

/// A call refreshes the session at most once and is retried at most once: a refresh starts
/// only from the first attempt, and a retry only after a refresh that worked.
pub proof fn lemma_one_refresh_one_retry(p: RequestPhase, auth: bool, e: RequestEvent)
    ensures
        phase_after(p, auth, e) == RequestPhase::Refreshing ==> p == RequestPhase::FirstAttempt
            || p == RequestPhase::Refreshing,
        phase_after(p, auth, e) == RequestPhase::Retrying && p != RequestPhase::Retrying ==> p
            == RequestPhase::Refreshing && e == RequestEvent::Refreshed(true),
{
}

/// A call made without the session never refreshes it.
pub proof fn lemma_anonymous_calls_never_refresh(e: RequestEvent)
    ensures
        phase_after(RequestPhase::FirstAttempt, false, e) != RequestPhase::Refreshing,
{
}

/// Once the session is marked as expired, no page state counts as signed in, whatever token
/// it still holds.
pub proof fn lemma_expired_session_is_signed_out(a: AuthState, flags: SessionFlags)
    requires
        flags.auth_failed,
    ensures
        !signed_in(a, flags),
{
}

/// Only one refresh runs at a time: once a caller has claimed it, the next caller is told to
/// wait until the refresh is completed.
pub proof fn lemma_one_refresh_at_a_time(flags: SessionFlags)
    ensures
        !refresh_claimable(SessionFlags { refresh_in_progress: true, ..flags }),
        refresh_claimable(SessionFlags { refresh_in_progress: false, ..flags }),
{
}

/// A text without the character has no match for it.
pub proof fn lemma_find_char_absent(s: Seq<char>, c: char)
    requires
        !s.contains(c),
    ensures
        find_text(s, seq![c]) is None,
    decreases s.len(),
{
    if s.len() >= 1 {
        assert(s.take(1) != seq![c]) by {
            assert(s.take(1)[0] == s[0]);
            assert(s[0] != c) by {
                if s[0] == c {
                    assert(s.contains(c));
                }
            }
        }
        assert(!s.drop_first().contains(c)) by {
            if s.drop_first().contains(c) {
                let k = choose|k: int| 0 <= k < s.drop_first().len() && s.drop_first()[k] == c;
                assert(s[k + 1] == c);
            }
        }
        lemma_find_char_absent(s.drop_first(), c);
    }
}

/// The first match of a character is where it first occurs.
pub proof fn lemma_find_char_first(a: Seq<char>, c: char, b: Seq<char>)
    requires
        !a.contains(c),
    ensures
        find_text(a + seq![c] + b, seq![c]) == Some(a.len() as int),
    decreases a.len(),
{
    let s = a + seq![c] + b;
    if a.len() == 0 {
        assert(s.take(1) =~= seq![c]);
    } else {
        assert(s.take(1) != seq![c]) by {
            assert(s.take(1)[0] == a[0]);
            if a[0] == c {
                assert(a.contains(c));
            }
        }
        assert(!a.drop_first().contains(c)) by {
            if a.drop_first().contains(c) {
                let k = choose|k: int| 0 <= k < a.drop_first().len() && a.drop_first()[k] == c;
                assert(a[k + 1] == c);
            }
        }
        assert(s.drop_first() =~= a.drop_first() + seq![c] + b);
        lemma_find_char_first(a.drop_first(), c, b);
    }
}

/// The decimal text of a number holds digits only.
pub proof fn lemma_nat_text_digits(n: nat)
    ensures
        forall|i: int| 0 <= i < nat_text(n).len() ==> '0' <= #[trigger] nat_text(n)[i] <= '9',
    decreases n,
{
    if n >= 10 {
        lemma_nat_text_digits(n / 10);
        let t = nat_text(n / 10) + seq![crate::text::digit_char(n % 10)];
        assert forall|i: int| 0 <= i < t.len() implies '0' <= #[trigger] t[i] <= '9' by {
            if i < nat_text(n / 10).len() {
                assert(t[i] == nat_text(n / 10)[i]);
            }
        }
    }
}

/// What a failed call shows is what the server said: reading the user-facing message back
/// from a `status|message` report gives the server's message, as long as it holds no bar of
/// its own.
pub proof fn lemma_reported_message_reads_back(status: u16, message: Seq<char>)
    requires
        !message.contains('|'),
    ensures
        error_detail(failure_line(status, message)) == message,
{
    let t = nat_text(status as nat);
    lemma_nat_text_digits(status as nat);
    assert(!t.contains('|')) by {
        if t.contains('|') {
            let k = choose|k: int| 0 <= k < t.len() && t[k] == '|';
            assert('0' <= t[k] <= '9');
        }
    }
    lemma_find_char_first(t, '|', message);
    let s = failure_line(status, message);
    assert(s == t + seq!['|'] + message);
    assert(s.skip(t.len() as int + 1) =~= message);
    lemma_find_char_absent(message, '|');
}

/// A page without a token is signed out, as after `logout`.
pub proof fn lemma_no_token_is_signed_out(a: AuthState, flags: SessionFlags)
    requires
        a.token is None,
    ensures
        !signed_in(a, flags),
{
}

} // verus!
