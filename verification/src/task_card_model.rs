//! What a task card offers, given the task's flags and the user's permissions.
//!
//! The archetype decides wording and colour, never the mechanics: what somebody may do still
//! comes from the permission flags handed in.
use vstd::prelude::*;
use crate::archetype::Archetype;

verus! {

/// Visual weight of the primary action button.
#[derive(Debug, Clone, Copy, PartialEq, Eq, Structural)]
pub enum ActionStyle {
    /// Something worth doing — the normal case.
    Primary,
    /// Logging a lapse of one's own bad habit.
    Warn,
    /// Reporting somebody else's lapse.
    Danger,
}

/// The button classes of each style; all carry the 44 px touch target of `task-action-btn`.
pub open spec fn action_style_class(s: ActionStyle) -> Seq<char> {
    match s {
        ActionStyle::Primary => "btn task-action-btn btn-primary"@,
        ActionStyle::Warn => "btn task-action-btn btn-warn"@,
        ActionStyle::Danger => "btn task-action-btn btn-danger"@,
    }
}

impl ActionStyle {
    /// The CSS classes of the card's primary action button in this style.
    pub fn css_class(&self) -> (c: &'static str)
        ensures
            c@ == action_style_class(*self),
    {
        match self {
            ActionStyle::Primary => "btn task-action-btn btn-primary",
            ActionStyle::Warn => "btn task-action-btn btn-warn",
            ActionStyle::Danger => "btn task-action-btn btn-danger",
        }
    }
}

/// What the action area of a card offers.
#[derive(Debug, Clone, Copy, PartialEq, Eq)]
pub enum CardAction {
    /// `−` / count / `+` — needed whenever a target has to be worked towards step by step.
    Counter,
    /// One button that says what it does.
    Single { label_key: &'static str, style: ActionStyle },
    /// Somebody else logged something the user is not allowed to clear.
    Locked,
    /// Completing is not allowed here: only the count is displayed.
    ReadOnly,
}

/// The i18n key of the single action button of each archetype.
pub open spec fn single_label(a: Archetype) -> Seq<char> {
    match a {
        Archetype::OneOff => "task_card.action.oneoff"@,
        Archetype::Routine => "task_card.action.routine"@,
        Archetype::Shared => "task_card.action.shared"@,
        Archetype::Bonus => "task_card.action.bonus"@,
        Archetype::BadHabit => "task_card.action.bad_habit"@,
        Archetype::Maintenance => "task_card.action.maintenance"@,
    }
}

/// The style of the single action button of each archetype: a lapse of one's own habit warns,
/// reporting somebody else's lapse is a danger, everything else is primary.
pub open spec fn single_style(a: Archetype) -> ActionStyle {
    match a {
        Archetype::BadHabit => ActionStyle::Warn,
        Archetype::Maintenance => ActionStyle::Danger,
        _ => ActionStyle::Primary,
    }
}

/// What the card's action area offers.
///
/// A user who may not complete the task only sees it; something logged that the user may not
/// take back locks the card; a target above one needs the step-by-step counter, whatever the
/// archetype; otherwise one button named and styled by the archetype.
pub fn card_action(
    archetype: Archetype,
    target_count: i32,
    completions: i32,
    can_uncomplete: bool,
    is_completable_by_user: bool,
) -> (r: CardAction)
    ensures
        !is_completable_by_user ==> r is ReadOnly,
        is_completable_by_user && completions > 0 && !can_uncomplete ==> r is Locked,
        is_completable_by_user && !(completions > 0 && !can_uncomplete) && target_count > 1
            ==> r is Counter,
        is_completable_by_user && !(completions > 0 && !can_uncomplete) && target_count <= 1
            ==> r is Single,
        r matches CardAction::Single { label_key, style } ==> label_key@ == single_label(
            archetype,
        ) && style == single_style(archetype),
{
    if !is_completable_by_user {
        return CardAction::ReadOnly;
    }
    if completions > 0 && !can_uncomplete {
        return CardAction::Locked;
    }
    if target_count > 1 {
        return CardAction::Counter;
    }
    let (label_key, style) = match archetype {
        Archetype::OneOff => ("task_card.action.oneoff", ActionStyle::Primary),
        Archetype::Routine => ("task_card.action.routine", ActionStyle::Primary),
        Archetype::Shared => ("task_card.action.shared", ActionStyle::Primary),
        Archetype::Bonus => ("task_card.action.bonus", ActionStyle::Primary),
        Archetype::BadHabit => ("task_card.action.bad_habit", ActionStyle::Warn),
        Archetype::Maintenance => ("task_card.action.maintenance", ActionStyle::Danger),
    };
    CardAction::Single { label_key, style }
}

/// The CSS modifier carrying each archetype's colour accent.
pub open spec fn accent_text(a: Archetype) -> Seq<char> {
    match a {
        Archetype::OneOff => "task-item--oneoff"@,
        Archetype::Routine => "task-item--routine"@,
        Archetype::Shared => "task-item--shared"@,
        Archetype::BadHabit => "task-item--bad-habit"@,
        Archetype::Maintenance => "task-item--maintenance"@,
        Archetype::Bonus => "task-item--bonus"@,
    }
}

/// CSS modifier carrying the archetype's colour accent on the left edge of the card.
pub fn accent_class(archetype: Archetype) -> (c: &'static str)
    ensures
        c@ == accent_text(archetype),
{
    match archetype {
        Archetype::OneOff => "task-item--oneoff",
        Archetype::Routine => "task-item--routine",
        Archetype::Shared => "task-item--shared",
        Archetype::BadHabit => "task-item--bad-habit",
        Archetype::Maintenance => "task-item--maintenance",
        Archetype::Bonus => "task-item--bonus",
    }
}

/// Icon and i18n key of the type badge; `OneOff` and `Routine` carry none.
pub open spec fn badge_parts(a: Archetype) -> Option<(Seq<char>, Seq<char>)> {
    match a {
        Archetype::OneOff | Archetype::Routine => None,
        Archetype::Shared => Some(("👥"@, "task_card.badge.shared"@)),
        Archetype::BadHabit => Some(("⚠️"@, "task_card.badge.bad_habit"@)),
        Archetype::Maintenance => Some(("🛡️"@, "task_card.badge.maintenance"@)),
        Archetype::Bonus => Some(("🎁"@, "task_card.badge.bonus"@)),
    }
}

/// Icon and i18n key for the type badge in the meta line.
///
/// `None` for `OneOff` and `Routine`: they are what a task looks like by default.
pub fn type_badge(archetype: Archetype) -> (b: Option<(&'static str, &'static str)>)
    ensures
        b is None <==> badge_parts(archetype) is None,
        b matches Some((icon, key)) ==> badge_parts(archetype) == Some((icon@, key@)),
{
    match archetype {
        Archetype::OneOff | Archetype::Routine => None,
        Archetype::Shared => Some(("👥", "task_card.badge.shared")),
        Archetype::BadHabit => Some(("⚠️", "task_card.badge.bad_habit")),
        Archetype::Maintenance => Some(("🛡️", "task_card.badge.maintenance")),
        Archetype::Bonus => Some(("🎁", "task_card.badge.bonus")),
    }
}

/// How long the card waits for further taps before it talks to the server, in milliseconds.
pub const COUNTER_FLUSH_MS: u64 = 500;

/// The count on display: server count plus pending taps, never below zero.
pub open spec fn shown_count(server_completions: int, pending_delta: int) -> int {
    if server_completions + pending_delta > 0 {
        server_completions + pending_delta
    } else {
        0
    }
}

/// The count to display while taps are still pending, clamped at zero.
pub fn effective_completions(server_completions: i32, pending_delta: i32) -> (r: i32)
    requires
        i32::MIN <= server_completions + pending_delta <= i32::MAX,
    ensures
        r == shown_count(server_completions as int, pending_delta as int),
        r >= 0,
{
    let sum = server_completions + pending_delta;
    if sum > 0 {
        sum
    } else {
        0
    }
}

/// Whether `+` is open: a target that is set and met closes it unless exceeding is allowed.
pub open spec fn plus_open(
    is_completable_by_user: bool,
    allow_exceed_target: bool,
    target_count: int,
    effective: int,
) -> bool {
    let target_met = target_count > 0 && effective >= target_count;
    is_completable_by_user && (allow_exceed_target || !target_met)
}

/// Whether `+` is still available, judged on the optimistic count rather than the server's.
pub fn can_complete_pending(
    is_completable_by_user: bool,
    allow_exceed_target: bool,
    target_count: i32,
    effective_completions: i32,
) -> (r: bool)
    ensures
        r == plus_open(
            is_completable_by_user,
            allow_exceed_target,
            target_count as int,
            effective_completions as int,
        ),
{
    let target_met = target_count > 0 && effective_completions >= target_count;
    is_completable_by_user && (allow_exceed_target || !target_met)
}

/// Whether `−` is still available. There has to be something left to take back.
pub fn can_undo_pending(can_uncomplete: bool, effective_completions: i32) -> (r: bool)
    ensures
        r == (can_uncomplete && effective_completions > 0),
{
    can_uncomplete && effective_completions > 0
}

} // verus!

verus! {

/// What a flush hands to the server: the whole burst of taps as one call.
#[derive(Debug, Clone, Copy, PartialEq, Eq, Structural)]
pub enum FlushAction {
    /// Nothing piled up.
    Nothing,
    /// Complete the task this many times.
    Complete(i32),
    /// Take back this many completions.
    Uncomplete(i32),
}

/// The optimistic tap counter of a task card.
///
/// Taps land in `pending_delta` first and are only sent once the tapping stops; the count on
/// screen follows the server count plus the pending taps, so the buttons react instantly.
#[derive(Debug, Clone, Copy, PartialEq, Eq, Structural)]
pub struct PendingCounter {
    pub server_completions: i32,
    pub pending_delta: i32,
    pub target_count: i32,
    pub allow_exceed_target: bool,
    pub is_completable_by_user: bool,
    pub can_uncomplete: bool,
}

impl PendingCounter {
    /// The count on display.
    pub open spec fn shown(self) -> int {
        shown_count(self.server_completions as int, self.pending_delta as int)
    }

    /// Whether `+` is open on the optimistic count.
    pub open spec fn plus_enabled(self) -> bool {
        plus_open(
            self.is_completable_by_user,
            self.allow_exceed_target,
            self.target_count as int,
            self.shown(),
        )
    }

    /// Whether `−` is open on the optimistic count.
    pub open spec fn minus_enabled(self) -> bool {
        self.can_uncomplete && self.shown() > 0
    }

    /// The counter after a tap on `+`: one more pending completion when `+` is open.
    pub open spec fn after_plus(self) -> Self {
        if self.plus_enabled() {
            PendingCounter { pending_delta: (self.pending_delta + 1) as i32, ..self }
        } else {
            self
        }
    }

    /// The counter after a tap on `−`: one completion less when `−` is open.
    pub open spec fn after_minus(self) -> Self {
        if self.minus_enabled() {
            PendingCounter { pending_delta: (self.pending_delta - 1) as i32, ..self }
        } else {
            self
        }
    }

    /// What a flush of `delta` pending taps sends.
    pub open spec fn flush_of(delta: int) -> FlushAction {
        if delta > 0 {
            FlushAction::Complete(delta as i32)
        } else if delta < 0 {
            FlushAction::Uncomplete((-delta) as i32)
        } else {
            FlushAction::Nothing
        }
    }

    /// The sums the counter computes stay inside `i32`.
    pub open spec fn fits(self) -> bool {
        &&& i32::MIN < self.pending_delta < i32::MAX
        &&& i32::MIN < self.server_completions + self.pending_delta < i32::MAX
    }

    /// A card fresh from the server: nothing pending.
    pub fn new(
        server_completions: i32,
        target_count: i32,
        allow_exceed_target: bool,
        is_completable_by_user: bool,
        can_uncomplete: bool,
    ) -> (c: Self)
        ensures
            c == (PendingCounter {
                server_completions,
                pending_delta: 0,
                target_count,
                allow_exceed_target,
                is_completable_by_user,
                can_uncomplete,
            }),
    {
        PendingCounter {
            server_completions,
            pending_delta: 0,
            target_count,
            allow_exceed_target,
            is_completable_by_user,
            can_uncomplete,
        }
    }

    /// The count on display.
    pub fn shown_completions(&self) -> (r: i32)
        requires
            self.fits(),
        ensures
            r == self.shown(),
    {
        effective_completions(self.server_completions, self.pending_delta)
    }

    /// Whether `+` is open.
    pub fn plus_open(&self) -> (r: bool)
        requires
            self.fits(),
        ensures
            r == self.plus_enabled(),
    {
        let shown = self.shown_completions();
        can_complete_pending(
            self.is_completable_by_user,
            self.allow_exceed_target,
            self.target_count,
            shown,
        )
    }

    /// Whether `−` is open.
    pub fn minus_open(&self) -> (r: bool)
        requires
            self.fits(),
        ensures
            r == self.minus_enabled(),
    {
        let shown = self.shown_completions();
        can_undo_pending(self.can_uncomplete, shown)
    }

    /// A tap on `+`. Returns whether it counted, in which case the flush timer restarts.
    pub fn tap_plus(&mut self) -> (counted: bool)
        requires
            old(self).fits(),
            old(self).pending_delta + 1 < i32::MAX,
            old(self).server_completions + old(self).pending_delta + 1 < i32::MAX,
        ensures
            counted == old(self).plus_enabled(),
            *final(self) == old(self).after_plus(),
            final(self).fits(),
    {
        if self.plus_open() {
            self.pending_delta = self.pending_delta + 1;
            true
        } else {
            false
        }
    }

    /// A tap on `−`. Returns whether it counted, in which case the flush timer restarts.
    pub fn tap_minus(&mut self) -> (counted: bool)
        requires
            old(self).fits(),
        ensures
            counted == old(self).minus_enabled(),
            *final(self) == old(self).after_minus(),
            final(self).fits(),
    {
        if self.minus_open() {
            self.pending_delta = self.pending_delta - 1;
            true
        } else {
            false
        }
    }

    /// Sends what has piled up and clears the slate: one call carries the whole burst.
    pub fn flush(&mut self) -> (action: FlushAction)
        requires
            old(self).pending_delta > i32::MIN,
        ensures
            action == Self::flush_of(old(self).pending_delta as int),
            *final(self) == (PendingCounter { pending_delta: 0, ..*old(self) }),
    {
        let delta = self.pending_delta;
        self.pending_delta = 0;
        if delta > 0 {
            FlushAction::Complete(delta)
        } else if delta < 0 {
            FlushAction::Uncomplete(-delta)
        } else {
            FlushAction::Nothing
        }
    }
}

/// The displayed count never goes negative, whatever the pending taps.
pub proof fn lemma_shown_never_negative(c: PendingCounter)
    ensures
        c.shown() >= 0,
{
}

/// A tap on `+` never carries the count past a target that may not be exceeded: when the
/// count was within the target before the tap, it still is after it.
pub proof fn lemma_plus_respects_target(c: PendingCounter)
    requires
        c.fits(),
        c.pending_delta + 1 < i32::MAX,
        c.server_completions + c.pending_delta + 1 < i32::MAX,
        !c.allow_exceed_target,
        c.target_count > 0,
        c.shown() <= c.target_count,
    ensures
        c.after_plus().shown() <= c.target_count,
{
}

/// A counted tap on `+` followed by a tap on `−` of a user who may undo leaves the counter
/// as it was.
pub proof fn lemma_minus_undoes_plus(c: PendingCounter)
    requires
        c.fits(),
        c.pending_delta + 1 < i32::MAX,
        c.server_completions + c.pending_delta + 1 < i32::MAX,
        c.plus_enabled(),
        c.can_uncomplete,
        c.shown() >= 0,
        c.server_completions + c.pending_delta >= 0,
    ensures
        c.after_plus().after_minus() == c,
{
}

/// Without a permission to complete, `+` never opens, whatever the target and count.
pub proof fn lemma_permission_overrides(c: PendingCounter)
    requires
        !c.is_completable_by_user,
    ensures
        !c.plus_enabled(),
        c.after_plus() == c,
{
}

/// The server count once it has processed a flush.
pub open spec fn server_after(server_completions: int, action: FlushAction) -> int {
    match action {
        FlushAction::Nothing => server_completions,
        FlushAction::Complete(n) => server_completions + n,
        FlushAction::Uncomplete(n) => server_completions - n,
    }
}

/// Once the server has processed a flush it holds exactly the count the card was showing,
/// as long as the taps never took back more than there was.
pub proof fn lemma_flush_settles_on_shown_count(c: PendingCounter)
    requires
        c.pending_delta > i32::MIN,
        c.server_completions + c.pending_delta >= 0,
    ensures
        server_after(c.server_completions as int, PendingCounter::flush_of(c.pending_delta as int))
            == c.shown(),
{
}

} // verus!
