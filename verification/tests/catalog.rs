use haushalt_frontend::catalog::{
    punishment_submit, reward_submit, toggle_option, ChoiceKind, PunishmentForm, PunishmentRequest,
    RewardForm, RewardRequest,
};

#[test]
fn kinds_are_read_from_the_select() {
    assert_eq!(ChoiceKind::from_text("random_choice"), ChoiceKind::RandomChoice);
    assert_eq!(ChoiceKind::from_text("standard"), ChoiceKind::Standard);
    assert_eq!(ChoiceKind::from_text("other"), ChoiceKind::Standard);
    assert!(ChoiceKind::RandomChoice.is_random_choice());
}

#[test]
fn options_toggle_on_and_off() {
    let mut o = vec![1u128, 2];
    toggle_option(&mut o, 3);
    assert_eq!(o, vec![1, 2, 3]);
    toggle_option(&mut o, 1);
    assert_eq!(o, vec![2, 3]);
}

fn reward(kind: ChoiceKind, options: Vec<u128>) -> RewardForm {
    RewardForm {
        name: "Movie".to_string(),
        description: "Pick one".to_string(),
        point_cost: "50".to_string(),
        is_purchasable: true,
        requires_confirmation: false,
        kind,
        options,
    }
}

#[test]
fn a_random_choice_needs_two_options() {
    assert_eq!(reward_submit(&reward(ChoiceKind::RandomChoice, vec![1]), false), Err("rewards.min_options_error"));
    let p = PunishmentForm {
        name: "Chores".to_string(),
        description: String::new(),
        requires_confirmation: true,
        kind: ChoiceKind::RandomChoice,
        options: vec![],
    };
    assert_eq!(punishment_submit(&p, true), Err("punishments.min_options_error"));
}

#[test]
fn an_edit_clears_options_of_a_standard_reward() {
    match reward_submit(&reward(ChoiceKind::Standard, vec![1, 2]), true) {
        Ok(RewardRequest::Update(u)) => {
            assert_eq!(u.name.as_deref(), Some("Movie"));
            assert_eq!(u.point_cost, Some(50));
            assert_eq!(u.option_ids, Some(None));
        },
        other => panic!("unexpected {:?}", other),
    }
    match reward_submit(&reward(ChoiceKind::RandomChoice, vec![1, 2]), true) {
        Ok(RewardRequest::Update(u)) => assert_eq!(u.option_ids, Some(Some(vec![1, 2]))),
        other => panic!("unexpected {:?}", other),
    }
}

#[test]
fn a_new_reward_carries_options_only_as_a_random_choice() {
    let mut f = reward(ChoiceKind::Standard, vec![1, 2]);
    f.point_cost = "lots".to_string();
    match reward_submit(&f, false) {
        Ok(RewardRequest::Create(c)) => {
            assert_eq!(c.option_ids, None);
            assert_eq!(c.point_cost, None);
            assert!(c.is_purchasable);
        },
        other => panic!("unexpected {:?}", other),
    }
    let p = PunishmentForm {
        name: "Chores".to_string(),
        description: "x".to_string(),
        requires_confirmation: true,
        kind: ChoiceKind::RandomChoice,
        options: vec![4, 5],
    };
    match punishment_submit(&p, false) {
        Ok(PunishmentRequest::Create(c)) => {
            assert_eq!(c.option_ids, Some(vec![4, 5]));
            assert_eq!(c.requires_confirmation, Some(true));
        },
        other => panic!("unexpected {:?}", other),
    }
}
