//! The reward and punishment forms: a catalogue item is either a standard one or a random
//! choice among other items, and saving it sends a create or an update request.
use vstd::prelude::*;
use crate::text::{parse_i64, parsed_i64, str_eq};

verus! {

/// Whether a catalogue item is granted as it is, or picks one of its options at random.
#[derive(Debug, Clone, Copy, PartialEq, Eq, Structural)]
pub enum ChoiceKind {
    Standard,
    RandomChoice,
}

impl ChoiceKind {
    /// The kind a select value names: `random_choice` for a random choice, and the standard
    /// kind for `standard` and for anything unknown.
    pub fn from_text(s: &str) -> (r: ChoiceKind)
        ensures
            r == (if s@ == "random_choice"@ {
                ChoiceKind::RandomChoice
            } else {
                ChoiceKind::Standard
            }),
    {
        if str_eq(s, "random_choice") {
            ChoiceKind::RandomChoice
        } else {
            ChoiceKind::Standard
        }
    }

    /// Whether the item picks among options.
    pub fn is_random_choice(&self) -> (r: bool)
        ensures
            r == (*self == ChoiceKind::RandomChoice),
    {
        match self {
            ChoiceKind::RandomChoice => true,
            ChoiceKind::Standard => false,
        }
    }
}

/// Ticks an option that is not chosen yet, at the end, and unticks every occurrence of one
/// that is.
pub fn toggle_option(options: &mut Vec<u128>, id: u128)
    ensures
        old(options)@.contains(id) ==> final(options)@ == old(options)@.filter(|x: u128| x != id),
        !old(options)@.contains(id) ==> final(options)@ == old(options)@.push(id),
{
    let ghost keep = |x: u128| x != id;
    let mut kept: Vec<u128> = Vec::new();
    let mut found = false;
    let mut i: usize = 0;
    assert(options@.take(0).filter(keep) =~= Seq::<u128>::empty()) by {
        reveal(Seq::filter);
    }
    while i < options.len()
        invariant
            0 <= i <= options@.len(),
            options@ == old(options)@,
            keep == (|x: u128| x != id),
            found == options@.take(i as int).contains(id),
            kept@ == options@.take(i as int).filter(keep),
        decreases options@.len() - i,
    {
        let ghost s = options@.take(i + 1);
        assert(s.drop_last() =~= options@.take(i as int));
        assert(s =~= options@.take(i as int).push(options@[i as int]));
        assert(s.filter(keep) == if keep(options@[i as int]) {
            options@.take(i as int).filter(keep).push(options@[i as int])
        } else {
            options@.take(i as int).filter(keep)
        }) by {
            reveal(Seq::filter);
        }
        proof {
            crate::task_modal::lemma_push_contains(options@.take(i as int), options@[i as int], id);
        }
        let x = options[i];
        if x == id {
            found = true;
        } else {
            kept.push(x);
        }
        i = i + 1;
    }
    assert(options@.take(options@.len() as int) =~= options@);
    if found {
        *options = kept;
    } else {
        options.push(id);
    }
}

/// A random choice needs at least two options to choose from.
pub open spec fn options_suffice(kind: ChoiceKind, option_count: nat) -> bool {
    kind != ChoiceKind::RandomChoice || option_count >= 2
}

/// The reward form as the user left it; the point cost exactly as typed.
#[derive(Debug, Clone, PartialEq, Eq)]
pub struct RewardForm {
    pub name: String,
    pub description: String,
    pub point_cost: String,
    pub is_purchasable: bool,
    pub requires_confirmation: bool,
    pub kind: ChoiceKind,
    pub options: Vec<u128>,
}

/// A partial update of a reward; `option_ids: Some(None)` clears the options.
#[derive(Debug, Clone, PartialEq, Eq)]
pub struct UpdateRewardRequest {
    pub name: Option<String>,
    pub description: Option<String>,
    pub point_cost: Option<i64>,
    pub is_purchasable: Option<bool>,
    pub requires_confirmation: Option<bool>,
    pub reward_type: Option<ChoiceKind>,
    pub option_ids: Option<Option<Vec<u128>>>,
}

/// A new reward.
#[derive(Debug, Clone, PartialEq, Eq)]
pub struct CreateRewardRequest {
    pub name: String,
    pub description: Option<String>,
    pub point_cost: Option<i64>,
    pub is_purchasable: bool,
    pub requires_confirmation: Option<bool>,
    pub reward_type: Option<ChoiceKind>,
    pub option_ids: Option<Vec<u128>>,
}

/// What saving the reward form sends.
#[derive(Debug, Clone, PartialEq, Eq)]
pub enum RewardRequest {
    Update(UpdateRewardRequest),
    Create(CreateRewardRequest),
}

/// Saving the reward form. A random choice with fewer than two options is refused with the
/// i18n key of its message. Otherwise an edit sends every field, with the options of a random
/// choice or an explicit clearing of them; a new reward carries options only when it is a
/// random choice. A point cost that is no number is left out.
pub fn reward_submit(form: &RewardForm, editing: bool) -> (r: Result<RewardRequest, &'static str>)
    ensures
        !options_suffice(form.kind, form.options@.len()) ==> (r matches Err(k) && k@
            == "rewards.min_options_error"@),
        options_suffice(form.kind, form.options@.len()) && editing ==> (r matches Ok(
            RewardRequest::Update(u),
        ) && (u.name matches Some(n) && n@ == form.name@) && (u.description matches Some(d)
            && d@ == form.description@) && u.point_cost == parsed_i64(form.point_cost@)
            && u.is_purchasable == Some(form.is_purchasable) && u.requires_confirmation == Some(
            form.requires_confirmation,
        ) && u.reward_type == Some(form.kind) && (if form.kind == ChoiceKind::RandomChoice {
            u.option_ids matches Some(Some(o)) && o@ == form.options@
        } else {
            u.option_ids == Some(None::<Vec<u128>>)
        })),
        options_suffice(form.kind, form.options@.len()) && !editing ==> (r matches Ok(
            RewardRequest::Create(c),
        ) && c.name@ == form.name@ && (c.description matches Some(d) && d@ == form.description@)
            && c.point_cost == parsed_i64(form.point_cost@) && c.is_purchasable
            == form.is_purchasable && c.requires_confirmation == Some(form.requires_confirmation)
            && c.reward_type == Some(form.kind) && (if form.kind == ChoiceKind::RandomChoice {
            c.option_ids matches Some(o) && o@ == form.options@
        } else {
            c.option_ids is None
        })),
{
    let random = form.kind.is_random_choice();
    if random && form.options.len() < 2 {
        return Err("rewards.min_options_error");
    }
    let cost = parse_i64(form.point_cost.as_str());
    if editing {
        Ok(
            RewardRequest::Update(
                UpdateRewardRequest {
                    name: Some(form.name.clone()),
                    description: Some(form.description.clone()),
                    point_cost: cost,
                    is_purchasable: Some(form.is_purchasable),
                    requires_confirmation: Some(form.requires_confirmation),
                    reward_type: Some(form.kind),
                    option_ids: if random {
                        Some(Some(form.options.clone()))
                    } else {
                        Some(None)
                    },
                },
            ),
        )
    } else {
        Ok(
            RewardRequest::Create(
                CreateRewardRequest {
                    name: form.name.clone(),
                    description: Some(form.description.clone()),
                    point_cost: cost,
                    is_purchasable: form.is_purchasable,
                    requires_confirmation: Some(form.requires_confirmation),
                    reward_type: Some(form.kind),
                    option_ids: if random {
                        Some(form.options.clone())
                    } else {
                        None
                    },
                },
            ),
        )
    }
}

/// The punishment form as the user left it.
#[derive(Debug, Clone, PartialEq, Eq)]
pub struct PunishmentForm {
    pub name: String,
    pub description: String,
    pub requires_confirmation: bool,
    pub kind: ChoiceKind,
    pub options: Vec<u128>,
}

/// A partial update of a punishment; `option_ids: Some(None)` clears the options.
#[derive(Debug, Clone, PartialEq, Eq)]
pub struct UpdatePunishmentRequest {
    pub name: Option<String>,
    pub description: Option<String>,
    pub requires_confirmation: Option<bool>,
    pub punishment_type: Option<ChoiceKind>,
    pub option_ids: Option<Option<Vec<u128>>>,
}

/// A new punishment.
#[derive(Debug, Clone, PartialEq, Eq)]
pub struct CreatePunishmentRequest {
    pub name: String,
    pub description: Option<String>,
    pub requires_confirmation: Option<bool>,
    pub punishment_type: Option<ChoiceKind>,
    pub option_ids: Option<Vec<u128>>,
}

/// What saving the punishment form sends.
#[derive(Debug, Clone, PartialEq, Eq)]
pub enum PunishmentRequest {
    Update(UpdatePunishmentRequest),
    Create(CreatePunishmentRequest),
}

/// Saving the punishment form, by the same rules as the reward form.
pub fn punishment_submit(form: &PunishmentForm, editing: bool) -> (r: Result<PunishmentRequest, &'static str>)
    ensures
        !options_suffice(form.kind, form.options@.len()) ==> (r matches Err(k) && k@
            == "punishments.min_options_error"@),
        options_suffice(form.kind, form.options@.len()) && editing ==> (r matches Ok(
            PunishmentRequest::Update(u),
        ) && (u.name matches Some(n) && n@ == form.name@) && (u.description matches Some(d)
            && d@ == form.description@) && u.requires_confirmation == Some(
            form.requires_confirmation,
        ) && u.punishment_type == Some(form.kind) && (if form.kind == ChoiceKind::RandomChoice {
            u.option_ids matches Some(Some(o)) && o@ == form.options@
        } else {
            u.option_ids == Some(None::<Vec<u128>>)
        })),
        options_suffice(form.kind, form.options@.len()) && !editing ==> (r matches Ok(
            PunishmentRequest::Create(c),
        ) && c.name@ == form.name@ && (c.description matches Some(d) && d@ == form.description@)
            && c.requires_confirmation == Some(form.requires_confirmation) && c.punishment_type
            == Some(form.kind) && (if form.kind == ChoiceKind::RandomChoice {
            c.option_ids matches Some(o) && o@ == form.options@
        } else {
            c.option_ids is None
        })),
{
    let random = form.kind.is_random_choice();
    if random && form.options.len() < 2 {
        return Err("punishments.min_options_error");
    }
    if editing {
        Ok(
            PunishmentRequest::Update(
                UpdatePunishmentRequest {
                    name: Some(form.name.clone()),
                    description: Some(form.description.clone()),
                    requires_confirmation: Some(form.requires_confirmation),
                    punishment_type: Some(form.kind),
                    option_ids: if random {
                        Some(Some(form.options.clone()))
                    } else {
                        Some(None)
                    },
                },
            ),
        )
    } else {
        Ok(
            PunishmentRequest::Create(
                CreatePunishmentRequest {
                    name: form.name.clone(),
                    description: Some(form.description.clone()),
                    requires_confirmation: Some(form.requires_confirmation),
                    punishment_type: Some(form.kind),
                    option_ids: if random {
                        Some(form.options.clone())
                    } else {
                        None
                    },
                },
            ),
        )
    }
}

/// Ticking an option and unticking it again gives the choice back, when the option was not
/// chosen before.
pub proof fn lemma_toggle_twice_restores(options: Seq<u128>, id: u128)
    requires
        !options.contains(id),
    ensures
        options.push(id).filter(|x: u128| x != id) == options,
{
    let keep = |x: u128| x != id;
    assert(options.push(id).drop_last() =~= options);
    assert(options.push(id).filter(keep) == options.filter(keep)) by {
        reveal(Seq::filter);
    }
    options.lemma_filter_len(keep);
    assert forall|i: int| 0 <= i < options.len() implies keep(#[trigger] options[i]) by {
        if options[i] == id {
            assert(options.contains(id));
        }
    }
    lemma_filter_all(options, keep);
}

/// Filtering by a predicate that every element meets keeps the sequence.
pub proof fn lemma_filter_all(s: Seq<u128>, p: spec_fn(u128) -> bool)
    requires
        forall|i: int| 0 <= i < s.len() ==> p(#[trigger] s[i]),
    ensures
        s.filter(p) == s,
    decreases s.len(),
{
    reveal(Seq::filter);
    if s.len() > 0 {
        lemma_filter_all(s.drop_last(), p);
        assert(p(s[s.len() - 1]));
        assert(s.drop_last().push(s.last()) =~= s);
    } else {
        assert(s =~= Seq::<u128>::empty());
    }
}

} // verus!
