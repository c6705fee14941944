//! Texts in the order `String` sorts them: lexicographically by character.
use vstd::prelude::*;
use crate::text::chars_of;

verus! {

/// `a` sorts strictly before `b`: at the first differing position `a` has the smaller
/// character, or `a` is a proper prefix of `b`.
pub open spec fn text_lt(a: Seq<char>, b: Seq<char>) -> bool
    decreases a.len(),
{
    if a.len() == 0 {
        b.len() > 0
    } else if b.len() == 0 {
        false
    } else if (a[0] as int) < (b[0] as int) {
        true
    } else if a[0] == b[0] {
        text_lt(a.drop_first(), b.drop_first())
    } else {
        false
    }
}

/// No text sorts before itself.
pub proof fn lemma_text_lt_irreflexive(a: Seq<char>)
    ensures
        !text_lt(a, a),
    decreases a.len(),
{
    if a.len() > 0 {
        lemma_text_lt_irreflexive(a.drop_first());
    }
}

/// Sorting before is transitive.
pub proof fn lemma_text_lt_transitive(a: Seq<char>, b: Seq<char>, c: Seq<char>)
    requires
        text_lt(a, b),
        text_lt(b, c),
    ensures
        text_lt(a, c),
    decreases a.len(),
{
    if a.len() > 0 && b.len() > 0 && c.len() > 0 {
        if a[0] == b[0] && b[0] == c[0] {
            lemma_text_lt_transitive(a.drop_first(), b.drop_first(), c.drop_first());
        }
    }
}

/// Two different texts are ordered one way or the other.
pub proof fn lemma_text_lt_total(a: Seq<char>, b: Seq<char>)
    requires
        a != b,
    ensures
        text_lt(a, b) || text_lt(b, a),
    decreases a.len(),
{
    if a.len() > 0 && b.len() > 0 {
        if a[0] == b[0] {
            if a.drop_first() == b.drop_first() {
                assert(a =~= seq![a[0]] + a.drop_first());
                assert(b =~= seq![b[0]] + b.drop_first());
            }
            lemma_text_lt_total(a.drop_first(), b.drop_first());
        } else {
            assert((a[0] as int) != (b[0] as int));
        }
    } else if a.len() == 0 && b.len() == 0 {
        assert(a =~= b);
    }
}

/// A text never sorts both before and after another.
pub proof fn lemma_text_lt_asymmetric(a: Seq<char>, b: Seq<char>)
    requires
        text_lt(a, b),
    ensures
        !text_lt(b, a),
{
    if text_lt(b, a) {
        lemma_text_lt_transitive(a, b, a);
        lemma_text_lt_irreflexive(a);
    }
}

/// "Sorts no later than" is transitive.
pub proof fn lemma_text_le_transitive(a: Seq<char>, b: Seq<char>, c: Seq<char>)
    requires
        !text_lt(b, a),
        !text_lt(c, b),
    ensures
        !text_lt(c, a),
{
    if text_lt(c, a) {
        if a == b {
        } else if b == c {
        } else {
            lemma_text_lt_total(a, b);
            lemma_text_lt_total(b, c);
            lemma_text_lt_transitive(a, b, c);
            lemma_text_lt_asymmetric(a, c);
        }
    }
}

/// Whether `a` sorts strictly before `b`, character by character.
pub fn chars_lt(a: &[char], b: &[char]) -> (r: bool)
    ensures
        r == text_lt(a@, b@),
{
    let mut i: usize = 0;
    proof {
        assert(a@.skip(0) =~= a@);
        assert(b@.skip(0) =~= b@);
    }
    while i < a.len() && i < b.len() && a[i] == b[i]
        invariant
            0 <= i <= a@.len(),
            i <= b@.len(),
            text_lt(a@, b@) == text_lt(a@.skip(i as int), b@.skip(i as int)),
        decreases a@.len() - i,
    {
        proof {
            let sa = a@.skip(i as int);
            let sb = b@.skip(i as int);
            assert(sa.drop_first() =~= a@.skip(i + 1));
            assert(sb.drop_first() =~= b@.skip(i + 1));
        }
        i = i + 1;
    }
    let ghost sa = a@.skip(i as int);
    let ghost sb = b@.skip(i as int);
    if i == a.len() {
        assert(sa.len() == 0);
        i < b.len()
    } else if i == b.len() {
        assert(sa.len() > 0 && sb.len() == 0);
        false
    } else {
        let ca = a[i];
        let cb = b[i];
        assert(sa[0] == ca && sb[0] == cb);
        assert(ca != cb);
        let r = ca < cb;
        assert(r == ((ca as int) < (cb as int)));
        r
    }
}

/// Whether the text `a` sorts strictly before the text `b`.
pub fn str_lt(a: &str, b: &str) -> (r: bool)
    ensures
        r == text_lt(a@, b@),
{
    let ca = chars_of(a);
    let cb = chars_of(b);
    chars_lt(ca.as_slice(), cb.as_slice())
}

/// The texts are in strictly ascending order, so none repeats.
pub open spec fn strictly_sorted(s: Seq<Seq<char>>) -> bool {
    forall|i: int, j: int| 0 <= i < j < s.len() ==> text_lt(#[trigger] s[i], #[trigger] s[j])
}

/// The texts of a list of strings.
pub open spec fn texts_of(v: Seq<String>) -> Seq<Seq<char>> {
    v.map_values(|s: String| s@)
}

/// Adds a text to a strictly sorted list of texts, keeping it sorted; a text already there is
/// not added twice.
pub fn insert_sorted(set: &mut Vec<String>, x: String)
    requires
        strictly_sorted(texts_of(old(set)@)),
    ensures
        strictly_sorted(texts_of(final(set)@)),
        texts_of(final(set)@).to_set() == texts_of(old(set)@).to_set().insert(x@),
{
    let ghost old_texts = texts_of(set@);
    let mut p: usize = 0;
    while p < set.len() && str_lt(set[p].as_str(), x.as_str())
        invariant
            0 <= p <= set@.len(),
            set@ == old(set)@,
            old_texts == texts_of(set@),
            strictly_sorted(old_texts),
            forall|i: int| 0 <= i < p ==> text_lt(#[trigger] old_texts[i], x@),
        decreases set@.len() - p,
    {
        p = p + 1;
    }
    if p < set.len() && crate::text::str_eq(set[p].as_str(), x.as_str()) {
        proof {
            assert(old_texts[p as int] == x@);
            assert(old_texts.to_set().insert(x@) =~= old_texts.to_set()) by {
                assert(old_texts.contains(x@));
            }
        }
        return;
    }
    proof {
        if p < old_texts.len() {
            lemma_text_lt_total(old_texts[p as int], x@);
            assert(text_lt(x@, old_texts[p as int]));
            assert forall|j: int| p <= j < old_texts.len() implies text_lt(
                x@,
                #[trigger] old_texts[j],
            ) by {
                if j > p {
                    lemma_text_lt_transitive(x@, old_texts[p as int], old_texts[j]);
                }
            }
        }
    }
    let ghost xv = x@;
    set.insert(p, x);
    proof {
        let nt = texts_of(set@);
        assert(nt =~= old_texts.insert(p as int, xv));
        assert forall|i: int, j: int| 0 <= i < j < nt.len() implies text_lt(
            #[trigger] nt[i],
            #[trigger] nt[j],
        ) by {
            if j < p {
            } else if i < p && j == p {
            } else if i < p && j > p {
                assert(nt[j] == old_texts[j - 1]);
            } else if i == p {
                assert(nt[j] == old_texts[j - 1]);
            } else {
                assert(nt[i] == old_texts[i - 1]);
                assert(nt[j] == old_texts[j - 1]);
            }
        }
        assert(nt.to_set() =~= old_texts.to_set().insert(xv)) by {
            assert forall|t: Seq<char>| nt.to_set().contains(t) implies old_texts.to_set().insert(
                xv,
            ).contains(t) by {
                let k = choose|k: int| 0 <= k < nt.len() && nt[k] == t;
                if k < p {
                    assert(old_texts[k] == t);
                } else if k > p {
                    assert(old_texts[k - 1] == t);
                }
            }
            assert forall|t: Seq<char>| old_texts.to_set().insert(xv).contains(t) implies nt.to_set().contains(t) by {
                if t == xv {
                    assert(nt[p as int] == t);
                } else {
                    let k = choose|k: int| 0 <= k < old_texts.len() && old_texts[k] == t;
                    if k < p {
                        assert(nt[k] == t);
                    } else {
                        assert(nt[k + 1] == t);
                    }
                }
            }
        }
    }
}

} // verus!
