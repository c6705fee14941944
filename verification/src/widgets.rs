//! Decisions of the smaller widgets: the solo mode banner's countdown, a chat message's
//! actions, the cards of notes and journal entries, the context menu, and which household tab
//! a page belongs to.
use vstd::prelude::*;
use crate::text::{digit_char, i64_text, int_text};

verus! {

/// Rust's integer division, which rounds toward zero.
pub open spec fn div_toward_zero(a: int, b: int) -> int {
    if a >= 0 {
        a / b
    } else {
        -((-a) / b)
    }
}

/// Rust's integer remainder, which takes the sign of the dividend.
pub open spec fn rem_toward_zero(a: int, b: int) -> int {
    if a >= 0 {
        a % b
    } else {
        -((-a) % b)
    }
}

/// A number printed at least two characters wide, zero-padded as `{:02}` pads: `05`, `42`,
/// `-5`, `123`.
pub open spec fn two_wide(n: int) -> Seq<char> {
    if 0 <= n < 10 {
        seq!['0', digit_char(n as nat)]
    } else {
        int_text(n)
    }
}

/// A number printed as `{:02}` prints it.
fn two_wide_text(n: i128) -> (r: String)
    requires
        i64::MIN <= n <= i64::MAX,
    ensures
        r@ == two_wide(n as int),
{
    if 0 <= n && n < 10 {
        let mut r = String::from_str("0");
        let d = i64_text(n as i64);
        assert(int_text(n as int) == seq![digit_char(n as nat)]);
        r.append(d.as_str());
        proof {
            reveal_strlit("0");
        }
        assert(r@ =~= seq!['0', digit_char(n as nat)]);
        r
    } else {
        i64_text(n as i64)
    }
}

/// The countdown until solo mode ends, as `HH:MM:SS` from the remaining seconds; hours are
/// not capped at a day.
pub open spec fn countdown(secs: int) -> Seq<char> {
    let hours = div_toward_zero(secs, 3600);
    let mins = div_toward_zero(rem_toward_zero(secs, 3600), 60);
    let rest = rem_toward_zero(secs, 60);
    two_wide(hours) + ":"@ + two_wide(mins) + ":"@ + two_wide(rest)
}

/// The countdown text for some remaining seconds.
pub fn countdown_text(secs: i64) -> (r: String)
    ensures
        r@ == countdown(secs as int),
{
    let s = secs as i128;
    let (hours, mins, rest): (i128, i128, i128) = if s >= 0 {
        (s / 3600, (s % 3600) / 60, s % 60)
    } else {
        let m = -s;
        (-(m / 3600), -((m % 3600) / 60), -(m % 60))
    };
    assert(hours == div_toward_zero(secs as int, 3600));
    assert(mins == div_toward_zero(rem_toward_zero(secs as int, 3600), 60));
    assert(rest == rem_toward_zero(secs as int, 60));
    let mut r = two_wide_text(hours);
    r.append(":");
    let m = two_wide_text(mins);
    r.append(m.as_str());
    r.append(":");
    let t = two_wide_text(rest);
    r.append(t.as_str());
    r
}

/// What the solo mode banner shows while solo mode is on.
#[derive(Debug, Clone, PartialEq, Eq)]
pub enum SoloBanner {
    /// Solo mode is on: its title, and the button to ask for the end of it.
    Active { title_key: &'static str, action_key: &'static str, action_class: &'static str },
    /// The end was asked for: the title, the countdown, and the button that withdraws it.
    ExitPending {
        title_key: &'static str,
        countdown: String,
        action_key: &'static str,
        action_class: &'static str,
    },
}

/// The banner for the household's solo mode: none while it is off; with a countdown while an
/// exit is pending.
pub fn solo_banner(solo_mode: bool, exit_pending: bool, remaining_secs: i64) -> (r: Option<SoloBanner>)
    ensures
        !solo_mode ==> r is None,
        solo_mode && !exit_pending ==> (r matches Some(
            SoloBanner::Active { title_key: t, action_key: a, action_class: c },
        ) && t@ == "solo_mode.active"@ && a@ == "solo_mode.request_exit"@ && c@
            == "btn btn-sm btn-warning"@),
        solo_mode && exit_pending ==> (r matches Some(
            SoloBanner::ExitPending { title_key: t, countdown: n, action_key: a, action_class: c },
        ) && t@ == "solo_mode.exit_in"@ && n@ == countdown(remaining_secs as int) && a@
            == "solo_mode.cancel_exit"@ && c@ == "btn btn-sm btn-secondary"@),
{
    if !solo_mode {
        None
    } else if exit_pending {
        Some(
            SoloBanner::ExitPending {
                title_key: "solo_mode.exit_in",
                countdown: countdown_text(remaining_secs),
                action_key: "solo_mode.cancel_exit",
                action_class: "btn btn-sm btn-secondary",
            },
        )
    } else {
        Some(
            SoloBanner::Active {
                title_key: "solo_mode.active",
                action_key: "solo_mode.request_exit",
                action_class: "btn btn-sm btn-warning",
            },
        )
    }
}

/// A chat message's class: the user's own messages stand apart.
pub fn chat_message_class(is_own: bool) -> (r: &'static str)
    ensures
        is_own ==> r@ == "chat-message chat-message-own"@,
        !is_own ==> r@ == "chat-message"@,
{
    if is_own {
        "chat-message chat-message-own"
    } else {
        "chat-message"
    }
}

/// A chat message's time, marked as edited when it was changed after it was sent (moments in
/// seconds since the Unix epoch).
pub fn chat_time_label(time_text: &str, created_at: i64, updated_at: i64) -> (r: String)
    ensures
        updated_at > created_at ==> r@ == time_text@ + " (edited)"@,
        updated_at <= created_at ==> r@ == time_text@,
{
    let mut r = String::from_str(time_text);
    if updated_at > created_at {
        r.append(" (edited)");
    }
    r
}

/// Whether the edit and delete actions show on a chat message: only on the user's own
/// message, when it is not deleted and not being edited.
pub fn chat_actions_shown(is_own: bool, is_deleted: bool, editing: bool) -> (r: bool)
    ensures
        r == (is_own && !is_deleted && !editing),
{
    is_own && !is_deleted && !editing
}

/// Whether an edited chat message can be saved: it must hold more than white space.
pub fn chat_edit_savable(content: &str) -> (r: bool)
    ensures
        r == (crate::text::trim_ws(content@).len() > 0),
{
    !crate::text::trim(content).is_empty()
}

/// Who may act on a note or journal entry, and how it is marked: its author may edit and
/// delete it, and one that is not shared is marked private.
pub fn card_permissions(author_id: u128, current_user_id: u128, is_shared: bool) -> (r: (bool, bool))
    ensures
        r.0 == (author_id == current_user_id),
        r.1 == !is_shared,
{
    (author_id == current_user_id, !is_shared)
}

/// A context menu item's class: destructive actions are marked.
pub fn context_item_class(danger: bool) -> (r: &'static str)
    ensures
        danger ==> r@ == "context-menu-item danger"@,
        !danger ==> r@ == "context-menu-item"@,
{
    if danger {
        "context-menu-item danger"
    } else {
        "context-menu-item"
    }
}

/// The pages of a household, each with its own tab.
#[derive(Debug, Clone, Copy, PartialEq, Eq, Structural)]
pub enum PageTab {
    Overview,
    Tasks,
    Notes,
    Journal,
    Rewards,
    Punishments,
    Chat,
    Activity,
    Statistics,
    Settings,
}

/// Whether a text ends with a suffix.
pub open spec fn ends_with(s: Seq<char>, suffix: Seq<char>) -> bool {
    s.len() >= suffix.len() && s.skip(s.len() - suffix.len()) == suffix
}

/// Whether a text ends with a suffix.
fn ends_with_text(s: &str, suffix: &str) -> (r: bool)
    ensures
        r == ends_with(s@, suffix@),
{
    let cs = crate::text::chars_of(s);
    let xs = crate::text::chars_of(suffix);
    let n = cs.len();
    let m = xs.len();
    if n < m {
        return false;
    }
    let mut k: usize = 0;
    while k < m
        invariant
            0 <= k <= m,
            n == cs@.len(),
            m == xs@.len(),
            m <= n,
            cs@ == s@,
            xs@ == suffix@,
            forall|j: int| 0 <= j < k ==> cs@[n - m + j] == xs@[j],
        decreases m - k,
    {
        if cs[n - m + k] != xs[k] {
            assert(s@.skip(n - m)[k as int] != suffix@[k as int]);
            return false;
        }
        k = k + 1;
    }
    assert(s@.skip(n - m) =~= suffix@);
    true
}

/// The tab of the page a path leads to, by the path's last segment; the overview for any other
/// path.
pub open spec fn page_tab(path: Seq<char>) -> PageTab {
    if ends_with(path, "/tasks"@) {
        PageTab::Tasks
    } else if ends_with(path, "/notes"@) {
        PageTab::Notes
    } else if ends_with(path, "/journal"@) {
        PageTab::Journal
    } else if ends_with(path, "/rewards"@) {
        PageTab::Rewards
    } else if ends_with(path, "/punishments"@) {
        PageTab::Punishments
    } else if ends_with(path, "/chat"@) {
        PageTab::Chat
    } else if ends_with(path, "/activity"@) {
        PageTab::Activity
    } else if ends_with(path, "/statistics"@) {
        PageTab::Statistics
    } else if ends_with(path, "/settings"@) {
        PageTab::Settings
    } else {
        PageTab::Overview
    }
}

/// The active tab for the current path.
pub fn active_tab(path: &str) -> (r: PageTab)
    ensures
        r == page_tab(path@),
{
    if ends_with_text(path, "/tasks") {
        PageTab::Tasks
    } else if ends_with_text(path, "/notes") {
        PageTab::Notes
    } else if ends_with_text(path, "/journal") {
        PageTab::Journal
    } else if ends_with_text(path, "/rewards") {
        PageTab::Rewards
    } else if ends_with_text(path, "/punishments") {
        PageTab::Punishments
    } else if ends_with_text(path, "/chat") {
        PageTab::Chat
    } else if ends_with_text(path, "/activity") {
        PageTab::Activity
    } else if ends_with_text(path, "/statistics") {
        PageTab::Statistics
    } else if ends_with_text(path, "/settings") {
        PageTab::Settings
    } else {
        PageTab::Overview
    }
}

/// A tab link's class: the active tab is marked.
pub fn tab_link_class(is_active: bool) -> (r: &'static str)
    ensures
        is_active ==> r@ == "tab-link active"@,
        !is_active ==> r@ == "tab-link"@,
{
    if is_active {
        "tab-link active"
    } else {
        "tab-link"
    }
}

} // verus!
