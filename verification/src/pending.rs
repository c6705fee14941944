//! The review queues of a household: completions awaiting review, suggested tasks, and
//! redemptions and punishments awaiting confirmation. Each queue hides itself when there is
//! nothing to show, and shrinks as items are settled.
use vstd::prelude::*;
use crate::text::{contains_text, find_text, i64_text, int_text, lowercase_text, to_lowercase};

verus! {

/// A failure that means the user may not see the queue: its lowercase text mentions
/// "forbidden", or its text mentions "permission".
pub open spec fn forbidden_error(e: Seq<char>) -> bool {
    find_text(lowercase_text(e), "forbidden"@) is Some || find_text(e, "permission"@) is Some
}

/// A failure that means the feature is switched off for the household.
pub open spec fn feature_disabled_error(e: Seq<char>) -> bool {
    find_text(e, "not enabled"@) is Some
}

/// Whether a failure means the user may not see the queue.
pub fn is_forbidden_error(e: &str) -> (r: bool)
    ensures
        r == forbidden_error(e@),
{
    let lower = to_lowercase(e);
    contains_text(lower.as_str(), "forbidden") || contains_text(e, "permission")
}

/// Whether the review or suggestion queue stays hidden: once loaded, it hides when it is
/// empty or forbidden, unless some other failure needs showing.
pub fn review_queue_hidden(loading: bool, empty: bool, error: Option<&str>) -> (r: bool)
    ensures
        r == {
            let forbidden = match error {
                Some(e) => forbidden_error(e@),
                None => false,
            };
            !loading && (empty || forbidden) && (error is None || forbidden)
        },
{
    let forbidden = match error {
        Some(e) => is_forbidden_error(e),
        None => false,
    };
    !loading && (empty || forbidden) && (error.is_none() || forbidden)
}

/// Whether the confirmation queue stays hidden: once loaded with nothing pending, unless a
/// failure other than a switched-off feature needs showing.
pub fn confirmations_hidden(
    loading: bool,
    rewards_empty: bool,
    punishments_empty: bool,
    error: Option<&str>,
) -> (r: bool)
    ensures
        r == (!loading && rewards_empty && punishments_empty && match error {
            None => true,
            Some(e) => feature_disabled_error(e@),
        }),
{
    let quiet = match error {
        None => true,
        Some(e) => contains_text(e, "not enabled"),
    };
    !loading && rewards_empty && punishments_empty && quiet
}

/// The failure the confirmation queue shows: none for a switched-off feature.
pub fn confirmation_error_shown(error: Option<&str>) -> (r: Option<String>)
    ensures
        match error {
            Some(e) => if feature_disabled_error(e@) {
                r is None
            } else {
                r matches Some(s) && s@ == e@
            },
            None => r is None,
        },
{
    match error {
        Some(e) => if contains_text(e, "not enabled") {
            None
        } else {
            Some(String::from_str(e))
        },
        None => None,
    }
}

/// How often an item is pending, shown after its name when more than once: ` (x3)`.
pub fn pending_count_suffix(count: i64) -> (r: Option<String>)
    ensures
        count > 1 ==> (r matches Some(s) && s@ == " (x"@ + int_text(count as int) + ")"@),
        count <= 1 ==> r is None,
{
    if count > 1 {
        let mut s = String::from_str(" (x");
        let n = i64_text(count);
        s.append(n.as_str());
        s.append(")");
        Some(s)
    } else {
        None
    }
}

/// A reward redemption or punishment completion awaiting confirmation: how many are pending
/// and how many were settled already.
#[derive(Debug, Clone, Copy, PartialEq, Eq, Structural)]
pub struct PendingEntry {
    pub id: u128,
    pub pending: i32,
    pub settled: i32,
}

/// The entry with the server's new counts: the pending count always, the settled count when
/// the answer carries one (an approval does, a rejection does not).
pub open spec fn with_counts(e: PendingEntry, pending: i32, settled: Option<i32>) -> PendingEntry {
    PendingEntry {
        pending,
        settled: match settled {
            Some(s) => s,
            None => e.settled,
        },
        ..e
    }
}

/// The queue with the first entry of an id given the server's new counts.
pub open spec fn with_first_updated(
    s: Seq<PendingEntry>,
    id: u128,
    pending: i32,
    settled: Option<i32>,
) -> Seq<PendingEntry>
    decreases s.len(),
{
    if s.len() == 0 {
        s
    } else if s[0].id == id {
        s.update(0, with_counts(s[0], pending, settled))
    } else {
        seq![s[0]] + with_first_updated(s.drop_first(), id, pending, settled)
    }
}

/// The queue after the server settled one of its entries: the entry's new counts applied,
/// then only the entries with something still pending.
pub open spec fn settled_queue(
    items: Seq<PendingEntry>,
    id: u128,
    pending: i32,
    settled: Option<i32>,
) -> Seq<PendingEntry> {
    with_first_updated(items, id, pending, settled).filter(|e: PendingEntry| e.pending > 0)
}

/// The queue after the server settled one of its entries: that entry takes the new counts,
/// then every entry with nothing left pending leaves the queue.
pub fn settle_pending(items: &[PendingEntry], id: u128, pending: i32, settled: Option<i32>) -> (r: Vec<PendingEntry>)
    ensures
        r@ == settled_queue(items@, id, pending, settled),
{
    let ghost target = with_first_updated(items@, id, pending, settled);
    let mut updated: Vec<PendingEntry> = Vec::new();
    let mut i: usize = 0;
    let mut done = false;
    assert(items@.skip(0) =~= items@);
    assert(items@.take(0) + items@ =~= items@);
    while i < items.len()
        invariant
            0 <= i <= items@.len(),
            target == with_first_updated(items@, id, pending, settled),
            !done ==> (forall|j: int| 0 <= j < i ==> items@[j].id != id) && updated@ == items@.take(
                i as int,
            ) && with_first_updated(items@, id, pending, settled) == items@.take(i as int)
                + with_first_updated(items@.skip(i as int), id, pending, settled),
            done ==> updated@ + items@.skip(i as int) == target,
        decreases items@.len() - i,
    {
        let e = items[i];
        let ghost rest = items@.skip(i as int);
        assert(rest[0] == e);
        assert(rest.drop_first() =~= items@.skip(i + 1));
        if !done && e.id == id {
            let s = match settled {
                Some(s) => s,
                None => e.settled,
            };
            updated.push(PendingEntry { id: e.id, pending, settled: s });
            done = true;
            assert(updated@ + items@.skip(i + 1) =~= items@.take(i as int) + rest.update(
                0,
                with_counts(rest[0], pending, settled),
            ));
        } else {
            updated.push(e);
            if !done {
                assert(items@.take(i + 1) =~= items@.take(i as int).push(e));
                assert(items@.take(i as int) + with_first_updated(rest, id, pending, settled)
                    =~= items@.take(i + 1) + with_first_updated(
                    items@.skip(i + 1),
                    id,
                    pending,
                    settled,
                ));
            } else {
                assert(updated@ + items@.skip(i + 1) =~= (updated@.drop_last() + items@.skip(
                    i as int,
                )));
            }
        }
        i = i + 1;
    }
    if !done {
        assert(items@.skip(i as int) =~= Seq::<PendingEntry>::empty());
        assert(items@.take(i as int) =~= items@);
        assert(target =~= updated@);
    } else {
        assert(items@.skip(i as int) =~= Seq::<PendingEntry>::empty());
        assert(updated@ + Seq::<PendingEntry>::empty() =~= updated@);
    }
    let ghost keep = |e: PendingEntry| e.pending > 0;
    let mut r: Vec<PendingEntry> = Vec::new();
    let mut k: usize = 0;
    assert(updated@.take(0).filter(keep) =~= Seq::<PendingEntry>::empty()) by {
        reveal(Seq::filter);
    }
    while k < updated.len()
        invariant
            0 <= k <= updated@.len(),
            updated@ == target,
            keep == (|e: PendingEntry| e.pending > 0),
            r@ == updated@.take(k as int).filter(keep),
        decreases updated@.len() - k,
    {
        let ghost s = updated@.take(k + 1);
        assert(s.drop_last() =~= updated@.take(k as int));
        assert(s.filter(keep) == if keep(updated@[k as int]) {
            updated@.take(k as int).filter(keep).push(updated@[k as int])
        } else {
            updated@.take(k as int).filter(keep)
        }) by {
            reveal(Seq::filter);
        }
        if updated[k].pending > 0 {
            r.push(updated[k]);
        }
        k = k + 1;
    }
    assert(updated@.take(updated@.len() as int) =~= updated@);
    r
}

/// A settled queue never shows an entry with nothing pending.
pub proof fn lemma_settled_queue_is_all_pending(
    items: Seq<PendingEntry>,
    id: u128,
    pending: i32,
    settled: Option<i32>,
)
    ensures
        forall|j: int|
            0 <= j < settled_queue(items, id, pending, settled).len() ==> #[trigger] settled_queue(
                items,
                id,
                pending,
                settled,
            )[j].pending > 0,
{
    let keep = |e: PendingEntry| e.pending > 0;
    let s = with_first_updated(items, id, pending, settled);
    assert forall|j: int| 0 <= j < s.filter(keep).len() implies #[trigger] s.filter(keep)[j].pending
        > 0 by {
        s.lemma_filter_pred(keep, j);
    }
}

} // verus!
