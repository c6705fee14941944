use haushalt_frontend::quick_task::{
    action_label, fab_outcome, household_action, EligibleHousehold, FabOutcome, HierarchyType, Role,
    TaskAction,
};

#[test]
fn test_hierarchy_type_equals_allows_all() {
    assert!(HierarchyType::Equals.can_manage(&Role::Owner));
    assert!(HierarchyType::Equals.can_manage(&Role::Admin));
    assert!(HierarchyType::Equals.can_manage(&Role::Member));
}

#[test]
fn test_hierarchy_type_organized_restricts_members() {
    assert!(HierarchyType::Organized.can_manage(&Role::Owner));
    assert!(HierarchyType::Organized.can_manage(&Role::Admin));
    assert!(!HierarchyType::Organized.can_manage(&Role::Member));
}

#[test]
fn test_hierarchy_type_hierarchy_restricts_members() {
    assert!(HierarchyType::Hierarchy.can_manage(&Role::Owner));
    assert!(HierarchyType::Hierarchy.can_manage(&Role::Admin));
    assert!(!HierarchyType::Hierarchy.can_manage(&Role::Member));
}

#[test]
fn members_suggest_where_suggestions_are_allowed() {
    let members = [(1u128, Role::Owner), (2u128, Role::Member)];
    assert_eq!(household_action(&members, 1, HierarchyType::Organized, false), Some((Role::Owner, TaskAction::Create)));
    assert_eq!(household_action(&members, 2, HierarchyType::Organized, true), Some((Role::Member, TaskAction::Suggest)));
    assert_eq!(household_action(&members, 2, HierarchyType::Organized, false), None);
    assert_eq!(household_action(&members, 3, HierarchyType::Equals, true), None);
}

fn eligible(id: u128, action: TaskAction) -> EligibleHousehold {
    EligibleHousehold { household_id: id, name: format!("Test {}", id), role: Role::Owner, action }
}

#[test]
fn test_single_household_should_skip_picker() {
    assert_eq!(fab_outcome(vec![eligible(1, TaskAction::Create)]), FabOutcome::Open(eligible(1, TaskAction::Create)));
}

#[test]
fn test_multiple_households_should_show_picker() {
    let all = vec![eligible(1, TaskAction::Create), eligible(2, TaskAction::Suggest)];
    assert_eq!(fab_outcome(all.clone()), FabOutcome::Pick(all));
}

#[test]
fn test_zero_households_should_show_message() {
    assert_eq!(fab_outcome(vec![]), FabOutcome::NoPermission);
}

#[test]
fn picker_actions_are_labelled() {
    assert_eq!(action_label(TaskAction::Create), ("quick_task.action_create", "household-picker-action create"));
    assert_eq!(action_label(TaskAction::Suggest), ("quick_task.action_suggest", "household-picker-action suggest"));
}
