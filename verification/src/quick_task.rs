//! The quick-add button: in which households the user may create a task, or at least suggest
//! one, and whether to open the task form at once, offer a choice of households, or explain
//! that there is none.
use vstd::prelude::*;

verus! {

/// A member's role in a household.
#[derive(Debug, Clone, Copy, PartialEq, Eq, Structural)]
pub enum Role {
    Owner,
    Admin,
    Member,
}

/// How a household shares the management of its tasks.
#[derive(Debug, Clone, Copy, PartialEq, Eq, Structural)]
pub enum HierarchyType {
    /// Every member manages tasks.
    Equals,
    /// Owners and admins manage tasks.
    Organized,
    /// Owners and admins manage tasks.
    Hierarchy,
}

/// Whether a role may manage tasks under a hierarchy.
pub open spec fn manages(h: HierarchyType, role: Role) -> bool {
    h == HierarchyType::Equals || role == Role::Owner || role == Role::Admin
}

impl HierarchyType {
    /// Whether a role may create and edit tasks: everyone among equals, and only owners and
    /// admins otherwise.
    pub fn can_manage(&self, role: &Role) -> (r: bool)
        ensures
            r == manages(*self, *role),
    {
        match self {
            HierarchyType::Equals => true,
            _ => match role {
                Role::Owner | Role::Admin => true,
                Role::Member => false,
            },
        }
    }
}

/// Whether the user creates a task or suggests one.
#[derive(Debug, Clone, Copy, PartialEq, Eq, Structural)]
pub enum TaskAction {
    Create,
    Suggest,
}

/// What the user may do with tasks in a household: create them when their role manages
/// tasks, else suggest them when the household takes suggestions, else nothing.
pub open spec fn action_for(h: HierarchyType, role: Role, allow_suggestions: bool) -> Option<TaskAction> {
    if manages(h, role) {
        Some(TaskAction::Create)
    } else if allow_suggestions {
        Some(TaskAction::Suggest)
    } else {
        None
    }
}

/// The role of the first membership of a user, given as `(user id, role)` pairs.
pub open spec fn role_of(members: Seq<(u128, Role)>, user: u128) -> Option<Role>
    decreases members.len(),
{
    if members.len() == 0 {
        None
    } else if members[0].0 == user {
        Some(members[0].1)
    } else {
        role_of(members.drop_first(), user)
    }
}

/// What the user may do in one household, from its members and settings: nothing when the
/// user is not among its members.
pub fn household_action(
    members: &[(u128, Role)],
    user: u128,
    hierarchy: HierarchyType,
    allow_suggestions: bool,
) -> (r: Option<(Role, TaskAction)>)
    ensures
        match role_of(members@, user) {
            Some(role) => match action_for(hierarchy, role, allow_suggestions) {
                Some(a) => r == Some((role, a)),
                None => r is None,
            },
            None => r is None,
        },
{
    let mut i: usize = 0;
    assert(members@.skip(0) =~= members@);
    while i < members.len()
        invariant
            0 <= i <= members@.len(),
            role_of(members@.skip(i as int), user) == role_of(members@, user),
        decreases members@.len() - i,
    {
        let ghost rest = members@.skip(i as int);
        assert(rest[0] == members@[i as int]);
        assert(rest.drop_first() =~= members@.skip(i + 1));
        if members[i].0 == user {
            let role = members[i].1;
            if hierarchy.can_manage(&role) {
                return Some((role, TaskAction::Create));
            } else if allow_suggestions {
                return Some((role, TaskAction::Suggest));
            } else {
                return None;
            }
        }
        i = i + 1;
    }
    None
}

/// A household where the user may create or suggest a task.
#[derive(Debug, Clone, PartialEq, Eq)]
pub struct EligibleHousehold {
    pub household_id: u128,
    pub name: String,
    pub role: Role,
    pub action: TaskAction,
}

/// What pressing the quick-add button leads to.
#[derive(Debug, Clone, PartialEq, Eq)]
pub enum FabOutcome {
    /// No household allows the user to create or suggest: explain that.
    NoPermission,
    /// Exactly one household does: open its task form at once.
    Open(EligibleHousehold),
    /// Several do: let the user pick one.
    Pick(Vec<EligibleHousehold>),
}

/// The outcome for the households where the user may act: a message for none, the form for
/// one, and the picker for several.
pub fn fab_outcome(eligible: Vec<EligibleHousehold>) -> (r: FabOutcome)
    ensures
        eligible@.len() == 0 ==> r == FabOutcome::NoPermission,
        eligible@.len() == 1 ==> r == FabOutcome::Open(eligible@[0]),
        eligible@.len() > 1 ==> (r matches FabOutcome::Pick(v) && v@ == eligible@),
{
    let mut eligible = eligible;
    if eligible.len() == 0 {
        FabOutcome::NoPermission
    } else if eligible.len() == 1 {
        let only = eligible.pop();
        match only {
            Some(e) => FabOutcome::Open(e),
            None => FabOutcome::NoPermission,
        }
    } else {
        FabOutcome::Pick(eligible)
    }
}

/// The picker's label key and class of each action.
pub fn action_label(action: TaskAction) -> (r: (&'static str, &'static str))
    ensures
        action == TaskAction::Create ==> r.0@ == "quick_task.action_create"@ && r.1@
            == "household-picker-action create"@,
        action == TaskAction::Suggest ==> r.0@ == "quick_task.action_suggest"@ && r.1@
            == "household-picker-action suggest"@,
{
    match action {
        TaskAction::Create => ("quick_task.action_create", "household-picker-action create"),
        TaskAction::Suggest => ("quick_task.action_suggest", "household-picker-action suggest"),
    }
}

/// Owners and admins may always create tasks, whatever the hierarchy; a plain member only
/// among equals.
pub proof fn lemma_owners_and_admins_always_create(h: HierarchyType, allow_suggestions: bool)
    ensures
        action_for(h, Role::Owner, allow_suggestions) == Some(TaskAction::Create),
        action_for(h, Role::Admin, allow_suggestions) == Some(TaskAction::Create),
        action_for(h, Role::Member, allow_suggestions) == Some(TaskAction::Create) <==> h
            == HierarchyType::Equals,
{
}

} // verus!
