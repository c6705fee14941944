//! The URLs the frontend builds: shared report links, household tabs and the chat socket.
use vstd::prelude::*;
use crate::text::{str_eq, trim_end_char, trim_end_char_matches};

verus! {

/// Join an origin and a report path into the URL the user shares. The path starts with `/`,
/// so trailing slashes of the origin are dropped rather than doubled.
pub fn join_origin(origin: &str, path: &str) -> (r: String)
    ensures
        r@ == trim_end_char(origin@, '/') + path@,
{
    let mut r = String::from_str(trim_end_char_matches(origin, '/'));
    r.append(path);
    r
}

/// The tabs of a household page.
#[derive(Debug, Clone, Copy, PartialEq, Eq, Structural)]
pub enum HouseholdTab {
    Overview,
    Tasks,
    Rewards,
    Punishments,
}

/// The label of each tab.
pub open spec fn tab_label(t: HouseholdTab) -> Seq<char> {
    match t {
        HouseholdTab::Overview => "Overview"@,
        HouseholdTab::Tasks => "Tasks"@,
        HouseholdTab::Rewards => "Rewards"@,
        HouseholdTab::Punishments => "Punishments"@,
    }
}

/// The path of each tab below `/households/{id}`.
pub open spec fn tab_suffix(t: HouseholdTab) -> Seq<char> {
    match t {
        HouseholdTab::Overview => Seq::<char>::empty(),
        HouseholdTab::Tasks => "/tasks"@,
        HouseholdTab::Rewards => "/rewards"@,
        HouseholdTab::Punishments => "/punishments"@,
    }
}

impl HouseholdTab {
    /// The tab's label.
    pub fn label(&self) -> (l: &'static str)
        ensures
            l@ == tab_label(*self),
    {
        match self {
            HouseholdTab::Overview => "Overview",
            HouseholdTab::Tasks => "Tasks",
            HouseholdTab::Rewards => "Rewards",
            HouseholdTab::Punishments => "Punishments",
        }
    }

    /// The tab's link for a household: `/households/{id}` plus the tab's own suffix.
    pub fn path(&self, household_id: &str) -> (p: String)
        ensures
            p@ == "/households/"@ + household_id@ + tab_suffix(*self),
    {
        let mut p = String::from_str("/households/");
        p.append(household_id);
        match self {
            HouseholdTab::Overview => {},
            HouseholdTab::Tasks => p.append("/tasks"),
            HouseholdTab::Rewards => p.append("/rewards"),
            HouseholdTab::Punishments => p.append("/punishments"),
        }
        proof {
            assert(Seq::<char>::empty() + Seq::<char>::empty() == Seq::<char>::empty());
        }
        p
    }
}

/// The chat socket's URL for the page's protocol and host: `wss:` under `https:`, `ws:`
/// otherwise, at `/api/ws`.
pub fn ws_url(protocol: &str, host: &str) -> (r: String)
    ensures
        r@ == (if protocol@ == "https:"@ {
            "wss:"@
        } else {
            "ws:"@
        }) + "//"@ + host@ + "/api/ws"@,
{
    let mut r = if str_eq(protocol, "https:") {
        String::from_str("wss:")
    } else {
        String::from_str("ws:")
    };
    r.append("//");
    r.append(host);
    r.append("/api/ws");
    r
}

/// A shared URL never doubles the slash where origin and path meet: whatever slashes the
/// origin ends in are dropped, so the path's own leading slash is the only one.
pub proof fn lemma_no_double_slash(origin: Seq<char>)
    ensures
        trim_end_char(origin, '/').len() == 0 || trim_end_char(origin, '/').last() != '/',
    decreases origin.len(),
{
    if origin.len() > 0 && origin.last() == '/' {
        lemma_no_double_slash(origin.drop_last());
    }
}

} // verus!
