//! The two secret-bearing sections of the user settings: shared report links and API tokens.
//!
//! Both keep a list of records edited in place, both check a new record's name before asking
//! the server, and both flash a "copied" label for a moment after a secret was copied.
use vstd::prelude::*;
use crate::dates::{format_utc_minute, utc_minute_text};
use crate::keyed::Keyed;
use crate::ids::{format_uuid, uuid_text};
use crate::text::{trim, trim_ws};

verus! {

/// A shared report link as the section lists it.
#[derive(Debug, Clone, PartialEq, Eq)]
pub struct PublicReportRow {
    pub id: u128,
    pub name: String,
    pub language: String,
    pub enabled: bool,
    pub household_ids: Vec<u128>,
}

/// An API token as the section lists it; its secret is never part of it.
#[derive(Debug, Clone, PartialEq, Eq)]
pub struct ApiTokenRow {
    pub id: u128,
    pub name: String,
    pub household_id: u128,
    pub can_write: bool,
    pub enabled: bool,
    /// When the token was last used, in seconds since the Unix epoch.
    pub last_used_at: Option<i64>,
}

impl Keyed for PublicReportRow {
    open spec fn key_of(&self) -> u128 {
        self.id
    }

    fn key(&self) -> (k: u128) {
        self.id
    }
}

impl Keyed for ApiTokenRow {
    open spec fn key_of(&self) -> u128 {
        self.id
    }

    fn key(&self) -> (k: u128) {
        self.id
    }
}

/// A household as a picker lists it: its id and its name.
pub type HouseholdEntry = (u128, String);

/// The name of the first household with an id, for display next to a record bound to it.
pub open spec fn household_name_of(households: Seq<HouseholdEntry>, id: u128) -> Option<Seq<char>>
    decreases households.len(),
{
    if households.len() == 0 {
        None
    } else if households[0].0 == id {
        Some(households[0].1@)
    } else {
        household_name_of(households.drop_first(), id)
    }
}

/// The name of the household with this id, if the list has it.
pub fn household_name(households: &[HouseholdEntry], household_id: u128) -> (r: Option<String>)
    ensures
        match household_name_of(households@, household_id) {
            Some(n) => r matches Some(s) && s@ == n,
            None => r is None,
        },
{
    let mut i: usize = 0;
    assert(households@.skip(0) =~= households@);
    while i < households.len()
        invariant
            0 <= i <= households@.len(),
            household_name_of(households@.skip(i as int), household_id) == household_name_of(
                households@,
                household_id,
            ),
        decreases households@.len() - i,
    {
        let ghost rest = households@.skip(i as int);
        assert(rest[0] == households@[i as int]);
        assert(rest.drop_first() =~= households@.skip(i + 1));
        if households[i].0 == household_id {
            return Some(households[i].1.clone());
        }
        i = i + 1;
    }
    None
}

/// The label of a token's household: its name, or its id's text for a household the user has
/// since left.
pub fn household_label(households: &[HouseholdEntry], household_id: u128) -> (r: String)
    ensures
        r@ == match household_name_of(households@, household_id) {
            Some(n) => n,
            None => uuid_text(household_id),
        },
{
    match household_name(households, household_id) {
        Some(n) => n,
        None => format_uuid(household_id),
    }
}

/// The household a new token is bound to by default: the one already chosen, or else the
/// first of the user's households, so that one click makes a token for a single household.
pub fn default_household(chosen: Option<u128>, households: &[HouseholdEntry]) -> (r: Option<u128>)
    ensures
        r == match chosen {
            Some(h) => Some(h),
            None => if households@.len() > 0 {
                Some(households@[0].0)
            } else {
                None
            },
        },
{
    match chosen {
        Some(h) => Some(h),
        None => if households.len() > 0 {
            Some(households[0].0)
        } else {
            None
        },
    }
}

/// A new report's name: the trimmed text, or the i18n key of "name required" when nothing but
/// white space was typed.
pub fn new_report_name(raw: &str) -> (r: Result<String, &'static str>)
    ensures
        trim_ws(raw@).len() == 0 ==> (r matches Err(k) && k@ == "public_reports.name_required"@),
        trim_ws(raw@).len() > 0 ==> (r matches Ok(n) && n@ == trim_ws(raw@)),
{
    let name = trim(raw);
    if name.is_empty() {
        Err("public_reports.name_required")
    } else {
        Ok(String::from_str(name))
    }
}

/// A new token's name and household: the name must hold more than white space, then a
/// household must be chosen; each failure is the i18n key of its message.
pub fn new_token_request(raw_name: &str, household: Option<u128>) -> (r: Result<(String, u128), &'static str>)
    ensures
        trim_ws(raw_name@).len() == 0 ==> (r matches Err(k) && k@ == "api_tokens.name_required"@),
        trim_ws(raw_name@).len() > 0 && household is None ==> (r matches Err(k) && k@
            == "api_tokens.no_households"@),
        trim_ws(raw_name@).len() > 0 && household is Some ==> (r matches Ok((n, h)) && n@
            == trim_ws(raw_name@) && household == Some(h)),
{
    let name = trim(raw_name);
    if name.is_empty() {
        return Err("api_tokens.name_required");
    }
    match household {
        Some(h) => Ok((String::from_str(name), h)),
        None => Err("api_tokens.no_households"),
    }
}

/// The households of a report after its checkbox for one household changed: ticking adds the
/// household at the end unless it is there already; unticking removes it.
pub fn toggle_household(ids: &[u128], household_id: u128, checked: bool) -> (r: Vec<u128>)
    ensures
        checked && ids@.contains(household_id) ==> r@ == ids@,
        checked && !ids@.contains(household_id) ==> r@ == ids@.push(household_id),
        !checked ==> r@ == ids@.filter(|x: u128| x != household_id),
{
    let ghost keep = |x: u128| x != household_id;
    let mut r: Vec<u128> = Vec::new();
    let mut found = false;
    let mut i: usize = 0;
    assert(ids@.take(0).filter(keep) =~= Seq::<u128>::empty()) by {
        reveal(Seq::filter);
    }
    while i < ids.len()
        invariant
            0 <= i <= ids@.len(),
            keep == (|x: u128| x != household_id),
            found == ids@.take(i as int).contains(household_id),
            checked ==> r@ == ids@.take(i as int),
            !checked ==> r@ == ids@.take(i as int).filter(keep),
        decreases ids@.len() - i,
    {
        let ghost s = ids@.take(i + 1);
        assert(s.drop_last() =~= ids@.take(i as int));
        assert(s.last() == ids@[i as int]);
        assert(s.filter(keep) == if keep(ids@[i as int]) {
            ids@.take(i as int).filter(keep).push(ids@[i as int])
        } else {
            ids@.take(i as int).filter(keep)
        }) by {
            reveal(Seq::filter);
        }
        assert(s =~= ids@.take(i as int).push(ids@[i as int]));
        proof {
            crate::task_modal::lemma_push_contains(ids@.take(i as int), ids@[i as int], household_id);
        }
        let x = ids[i];
        if x == household_id {
            found = true;
        }
        if checked || x != household_id {
            r.push(x);
        }
        i = i + 1;
    }
    assert(ids@.take(ids@.len() as int) =~= ids@);
    if checked && !found {
        r.push(household_id);
    }
    r
}

/// The record whose "copied" label still shows once a flash ends: the flash of `copied` ends
/// only if no other link was copied in the meantime.
pub fn copied_after_flash(current: Option<u128>, copied: u128) -> (r: Option<u128>)
    ensures
        r == if current == Some(copied) {
            None::<u128>
        } else {
            current
        },
{
    if current == Some(copied) {
        None
    } else {
        current
    }
}

/// When a token was last used, to the minute in UTC; `None` for a token never used (and for a
/// moment chrono cannot date), which the section shows as "never used".
pub fn last_used_text(last_used_at: Option<i64>) -> (r: Option<String>)
    ensures
        match last_used_at {
            Some(secs) => match utc_minute_text(secs) {
                Some(t) => r matches Some(s) && s@ == t,
                None => r is None,
            },
            None => r is None,
        },
{
    match last_used_at {
        Some(secs) => format_utc_minute(secs),
        None => None,
    }
}

} // verus!
