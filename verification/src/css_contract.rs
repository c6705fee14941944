//! The contract between markup and stylesheet: which classes markup uses, and whether the
//! stylesheet defines a rule for a class.
//!
//! A typo in a `class="..."` attribute compiles cleanly and only shows up as a broken layout;
//! these readers compare what the markup uses with what the stylesheet defines.
use vstd::prelude::*;
use crate::sorted::{insert_sorted, strictly_sorted, text_lt, texts_of};
use crate::text::{
    char_is_alphanumeric, chars_of, find_from, find_text, is_alphanumeric, is_white_space,
    is_whitespace, lemma_find_text_bounds, string_of,
};

verus! {

/// The elements of two sequences joined are the elements of either.
pub proof fn lemma_concat_to_set<A>(a: Seq<A>, b: Seq<A>)
    ensures
        (a + b).to_set() == a.to_set() + b.to_set(),
{
    assert forall|x: A| (a + b).to_set().contains(x) == (a.to_set() + b.to_set()).contains(x) by {
        if (a + b).contains(x) {
            let k = choose|k: int| 0 <= k < (a + b).len() && (a + b)[k] == x;
            if k < a.len() {
                assert(a[k] == x);
            } else {
                assert(b[k - a.len()] == x);
            }
        }
        if a.contains(x) {
            let k = choose|k: int| 0 <= k < a.len() && a[k] == x;
            assert((a + b)[k] == x);
        }
        if b.contains(x) {
            let k = choose|k: int| 0 <= k < b.len() && b[k] == x;
            assert((a + b)[k + a.len()] == x);
        }
    }
    assert((a + b).to_set() =~= a.to_set() + b.to_set());
}

/// A one-element sequence holds just that element.
pub proof fn lemma_singleton_to_set<A>(x: A)
    ensures
        seq![x].to_set() == Set::<A>::empty().insert(x),
{
    assert forall|y: A| seq![x].to_set().contains(y) == Set::<A>::empty().insert(x).contains(y) by {
        if y == x {
            assert(seq![x][0] == y);
        }
    }
    assert(seq![x].to_set() =~= Set::<A>::empty().insert(x));
}

/// The words of a text: its maximal runs of non-white-space characters, in order, where
/// `cur` is the part of a word already read.
pub open spec fn words_from(s: Seq<char>, cur: Seq<char>) -> Seq<Seq<char>>
    decreases s.len(),
{
    if s.len() == 0 {
        if cur.len() > 0 {
            seq![cur]
        } else {
            Seq::empty()
        }
    } else if is_white_space(s[0]) {
        (if cur.len() > 0 {
            seq![cur]
        } else {
            Seq::empty()
        }) + words_from(s.drop_first(), Seq::empty())
    } else {
        words_from(s.drop_first(), cur.push(s[0]))
    }
}

/// The words of a text, as `str::split_whitespace` yields them.
pub open spec fn words(s: Seq<char>) -> Seq<Seq<char>> {
    words_from(s, Seq::empty())
}

/// The text that opens a class attribute: `class="`.
pub open spec fn class_attr_open() -> Seq<char> {
    seq!['c', 'l', 'a', 's', 's', '=', '"']
}

/// Every word of every `class="..."` attribute of a source text, in order. An attribute that
/// is never closed ends the scan.
pub open spec fn class_words(rest: Seq<char>) -> Seq<Seq<char>>
    decreases rest.len(),
{
    match find_text(rest, class_attr_open()) {
        None => Seq::empty(),
        Some(start) => {
            let after = rest.skip(start + 7);
            match find_text(after, seq!['"']) {
                None => Seq::empty(),
                Some(end) => {
                    proof {
                        lemma_find_text_bounds(rest, class_attr_open());
                        lemma_find_text_bounds(after, seq!['"']);
                    }
                    words(after.take(end)) + class_words(after.skip(end + 1))
                },
            }
        },
    }
}

/// Adds every word of `cs[from..to]` to a strictly sorted set of words.
fn add_words(cs: &[char], from: usize, to: usize, set: &mut Vec<String>)
    requires
        from <= to <= cs@.len(),
        strictly_sorted(texts_of(old(set)@)),
    ensures
        strictly_sorted(texts_of(final(set)@)),
        texts_of(final(set)@).to_set() == texts_of(old(set)@).to_set() + words(
            cs@.subrange(from as int, to as int),
        ).to_set(),
{
    let ghost target = texts_of(old(set)@).to_set() + words(cs@.subrange(from as int, to as int)).to_set();
    let mut i = from;
    let mut wstart = from;
    assert(cs@.subrange(from as int, from as int) =~= Seq::<char>::empty());
    while i < to
        invariant
            from <= wstart <= i <= to <= cs@.len(),
            strictly_sorted(texts_of(set@)),
            texts_of(set@).to_set() + words_from(
                cs@.subrange(i as int, to as int),
                cs@.subrange(wstart as int, i as int),
            ).to_set() == target,
        decreases to - i,
    {
        let ghost rest = cs@.subrange(i as int, to as int);
        let ghost cur = cs@.subrange(wstart as int, i as int);
        assert(rest[0] == cs@[i as int]);
        assert(rest.drop_first() =~= cs@.subrange(i + 1, to as int));
        if is_whitespace(cs[i]) {
            if wstart < i {
                let w = string_of(cs, wstart, i);
                let ghost before = texts_of(set@).to_set();
                insert_sorted(set, w);
                assert(texts_of(set@).to_set() == before.insert(cur));
                proof {
                    lemma_singleton_to_set(cur);
                    lemma_concat_to_set(seq![cur], words_from(rest.drop_first(), Seq::empty()));
                }
                assert(texts_of(set@).to_set() + words_from(rest.drop_first(), Seq::empty()).to_set() =~= target);
            } else {
                assert(cur.len() == 0);
                assert(Seq::<Seq<char>>::empty() + words_from(rest.drop_first(), Seq::empty()) =~= words_from(rest.drop_first(), Seq::empty()));
            }
            assert(cs@.subrange(i + 1, i + 1) =~= Seq::<char>::empty());
            i = i + 1;
            wstart = i;
        } else {
            assert(cur.push(cs@[i as int]) =~= cs@.subrange(wstart as int, i + 1));
            i = i + 1;
        }
    }
    let ghost cur = cs@.subrange(wstart as int, i as int);
    if wstart < i {
        let w = string_of(cs, wstart, i);
        let ghost before = texts_of(set@).to_set();
        insert_sorted(set, w);
        assert(words_from(cs@.subrange(i as int, to as int), cur) =~= seq![cur]);
        proof {
            lemma_singleton_to_set(cur);
        }
        assert(texts_of(set@).to_set() =~= target);
    } else {
        assert(words_from(cs@.subrange(i as int, to as int), cur) =~= Seq::<Seq<char>>::empty());
        assert(texts_of(set@).to_set() =~= target);
    }
}

/// Collects every class name appearing in a `class="..."` attribute, in sorted order and
/// without repeats.
pub fn classes_in(source: &str) -> (r: Vec<String>)
    ensures
        strictly_sorted(texts_of(r@)),
        texts_of(r@).to_set() == class_words(source@).to_set(),
{
    let cs = chars_of(source);
    let open_attr = vec!['c', 'l', 'a', 's', 's', '=', '"'];
    let quote = vec!['"'];
    assert(open_attr@ =~= class_attr_open());
    assert(quote@ =~= seq!['"']);
    let mut set: Vec<String> = Vec::new();
    let mut pos: usize = 0;
    let n = cs.len();
    assert(cs@.skip(0) =~= cs@);
    assert(texts_of(set@).to_set() =~= Set::empty());
    loop
        invariant
            n == cs@.len(),
            pos <= cs@.len(),
            open_attr@ == class_attr_open(),
            quote@ == seq!['"'],
            strictly_sorted(texts_of(set@)),
            texts_of(set@).to_set() + class_words(cs@.skip(pos as int)).to_set() == class_words(
                source@,
            ).to_set(),
        decreases cs@.len() - pos,
    {
        let ghost rest = cs@.skip(pos as int);
        proof {
            lemma_find_text_bounds(rest, class_attr_open());
        }
        let start = match find_from(cs.as_slice(), pos, open_attr.as_slice()) {
            Some(start) => start,
            None => {
                assert(class_words(rest) =~= Seq::<Seq<char>>::empty());
                assert(texts_of(set@).to_set() =~= class_words(source@).to_set());
                return set;
            },
        };
        assert(start + 7 <= cs@.len());
        let a = start + 7;
        let ghost after = rest.skip(start - pos + 7);
        assert(after =~= cs@.skip(a as int));
        proof {
            lemma_find_text_bounds(after, seq!['"']);
        }
        let end = match find_from(cs.as_slice(), a, quote.as_slice()) {
            Some(end) => end,
            None => {
                assert(class_words(rest) =~= Seq::<Seq<char>>::empty());
                assert(texts_of(set@).to_set() =~= class_words(source@).to_set());
                return set;
            },
        };
        assert(end < cs@.len());
        let ghost before = texts_of(set@).to_set();
        add_words(cs.as_slice(), a, end, &mut set);
        assert(after.take(end - a) =~= cs@.subrange(a as int, end as int));
        assert(after.skip(end - a + 1) =~= cs@.skip(end + 1));
        assert(class_words(rest) == words(cs@.subrange(a as int, end as int)) + class_words(
            cs@.skip(end + 1),
        ));
        proof {
            lemma_concat_to_set(
                words(cs@.subrange(a as int, end as int)),
                class_words(cs@.skip(end + 1)),
            );
        }
        pos = end + 1;
    }
}

/// A character that can continue a class name: alphanumeric, `-` or `_`.
pub open spec fn continues_name(c: char) -> bool {
    char_is_alphanumeric(c) || c == '-' || c == '_'
}

/// Whether some occurrence of `needle` in `rest`, searched from left to right with each search
/// resuming after the previous occurrence, is not followed by a character that continues a
/// name.
pub open spec fn selector_found(rest: Seq<char>, needle: Seq<char>) -> bool
    decreases rest.len(),
{
    if needle.len() == 0 {
        false
    } else {
        match find_text(rest, needle) {
            None => false,
            Some(p) => {
                proof {
                    lemma_find_text_bounds(rest, needle);
                }
                let after = rest.skip(p + needle.len());
                if !(after.len() > 0 && continues_name(after[0])) {
                    true
                } else {
                    selector_found(after, needle)
                }
            },
        }
    }
}

/// True when the stylesheet contains a `.class` selector: the class name after a dot and
/// followed by a character that cannot continue a name (or by the end of the text).
pub fn is_defined(stylesheet: &str, class: &str) -> (r: bool)
    ensures
        r == selector_found(stylesheet@, seq!['.'] + class@),
{
    let cs = chars_of(stylesheet);
    let class_chars = chars_of(class);
    let mut needle: Vec<char> = vec!['.'];
    let mut j: usize = 0;
    while j < class_chars.len()
        invariant
            0 <= j <= class_chars@.len(),
            needle@ == seq!['.'] + class_chars@.subrange(0, j as int),
        decreases class_chars@.len() - j,
    {
        needle.push(class_chars[j]);
        j = j + 1;
    }
    assert(class_chars@.subrange(0, j as int) =~= class@);
    let n = cs.len();
    let m = needle.len();
    let mut pos: usize = 0;
    assert(cs@.skip(0) =~= cs@);
    loop
        invariant
            n == cs@.len(),
            m == needle@.len(),
            m > 0,
            pos <= n,
            needle@ == seq!['.'] + class@,
            selector_found(cs@.skip(pos as int), needle@) == selector_found(stylesheet@, needle@),
        decreases n - pos,
    {
        let ghost rest = cs@.skip(pos as int);
        proof {
            lemma_find_text_bounds(rest, needle@);
        }
        let p = match find_from(cs.as_slice(), pos, needle.as_slice()) {
            Some(p) => p,
            None => {
                return false;
            },
        };
        assert(p + m <= n);
        let after_pos = p + m;
        let ghost after = rest.skip(p - pos + m);
        assert(after =~= cs@.skip(after_pos as int));
        let continues = after_pos < n && (is_alphanumeric(cs[after_pos]) || cs[after_pos] == '-'
            || cs[after_pos] == '_');
        if !continues {
            return true;
        }
        pos = after_pos;
    }
}

/// Whether a text starts with a prefix.
pub open spec fn starts_with(s: Seq<char>, prefix: Seq<char>) -> bool {
    s.len() >= prefix.len() && s.take(prefix.len() as int) == prefix
}

/// Whether a text starts with a prefix.
fn starts_with_text(s: &str, prefix: &str) -> (r: bool)
    ensures
        r == starts_with(s@, prefix@),
{
    let cs = chars_of(s);
    let ps = chars_of(prefix);
    if cs.len() < ps.len() {
        return false;
    }
    let mut k: usize = 0;
    while k < ps.len()
        invariant
            0 <= k <= ps@.len(),
            ps@.len() <= cs@.len(),
            cs@ == s@,
            ps@ == prefix@,
            forall|j: int| 0 <= j < k ==> cs@[j] == ps@[j],
        decreases ps@.len() - k,
    {
        if cs[k] != ps[k] {
            assert(s@.take(prefix@.len() as int)[k as int] != prefix@[k as int]);
            return false;
        }
        k = k + 1;
    }
    assert(s@.take(prefix@.len() as int) =~= prefix@);
    true
}

/// Only classes in these namespaces are checked: they drive modal layout, form appearance,
/// the shared-report section and the API tokens, where a missing rule breaks the page rather
/// than merely looking off.
pub open spec fn checked_class(class: Seq<char>) -> bool {
    starts_with(class, "modal-"@) || starts_with(class, "form-"@) || starts_with(
        class,
        "public-report"@,
    ) || starts_with(class, "api-token"@)
}

/// Classes used in markup on purpose without a stylesheet rule: `modal-body` is a semantic
/// wrapper only, and `modal-sm` is a size modifier that never had a rule.
pub open spec fn unstyled_class(class: Seq<char>) -> bool {
    class == "modal-body"@ || class == "modal-sm"@
}

/// Whether a class used in markup must have a stylesheet rule.
pub fn is_checked_class(class: &str) -> (r: bool)
    ensures
        r == (checked_class(class@) && !unstyled_class(class@)),
{
    let checked = starts_with_text(class, "modal-") || starts_with_text(class, "form-")
        || starts_with_text(class, "public-report") || starts_with_text(class, "api-token");
    checked && !(crate::text::str_eq(class, "modal-body") || crate::text::str_eq(class, "modal-sm"))
}

/// Whether a class used in markup lacks the rule it needs: it is checked, not knowingly
/// unstyled, and the stylesheet has no selector for it.
pub open spec fn lacks_rule(stylesheet: Seq<char>, class: Seq<char>) -> bool {
    checked_class(class) && !unstyled_class(class) && !selector_found(stylesheet, seq!['.'] + class)
}

/// The classes a source uses in markup that need a stylesheet rule and have none, in sorted
/// order without repeats.
pub fn undefined_classes(source: &str, stylesheet: &str) -> (r: Vec<String>)
    ensures
        strictly_sorted(texts_of(r@)),
        texts_of(r@).to_set() == class_words(source@).to_set().filter(
            |c: Seq<char>| lacks_rule(stylesheet@, c),
        ),
{
    let classes = classes_in(source);
    let mut r: Vec<String> = Vec::new();
    let mut i: usize = 0;
    while i < classes.len()
        invariant
            0 <= i <= classes@.len(),
            strictly_sorted(texts_of(classes@)),
            texts_of(classes@).to_set() == class_words(source@).to_set(),
            strictly_sorted(texts_of(r@)),
            forall|x: Seq<char>|
                #[trigger] texts_of(r@).contains(x) <==> (texts_of(classes@.take(i as int)).contains(
                    x,
                ) && lacks_rule(stylesheet@, x)),
        decreases classes@.len() - i,
    {
        let c = &classes[i];
        let ghost cv = c@;
        assert(texts_of(classes@.take(i + 1)) =~= texts_of(classes@.take(i as int)).push(cv));
        if is_checked_class(c.as_str()) && !is_defined(stylesheet, c.as_str()) {
            let ghost before = texts_of(r@);
            assert forall|k: int| 0 <= k < before.len() implies text_lt(before[k], cv) by {
                assert(before.contains(before[k]));
                let t = texts_of(classes@.take(i as int));
                assert(t.contains(before[k]));
                let w = choose|w: int| 0 <= w < t.len() && t[w] == before[k];
                assert(classes@.take(i as int)[w] == classes@[w]);
                assert(texts_of(classes@)[w] == before[k]);
                assert(texts_of(classes@)[i as int] == cv);
            }
            r.push(c.clone());
            assert(texts_of(r@) =~= before.push(cv));
            assert forall|x: Seq<char>| #[trigger] texts_of(r@).contains(x) <==> (texts_of(
                classes@.take(i + 1),
            ).contains(x) && lacks_rule(stylesheet@, x)) by {
                crate::task_modal::lemma_push_contains(before, cv, x);
                crate::task_modal::lemma_push_contains(
                    texts_of(classes@.take(i as int)),
                    cv,
                    x,
                );
            }
        } else {
            assert forall|x: Seq<char>| #[trigger] texts_of(r@).contains(x) <==> (texts_of(
                classes@.take(i + 1),
            ).contains(x) && lacks_rule(stylesheet@, x)) by {
                crate::task_modal::lemma_push_contains(
                    texts_of(classes@.take(i as int)),
                    cv,
                    x,
                );
            }
        }
        assert(forall|x: Seq<char>|
            #[trigger] texts_of(r@).contains(x) <==> (texts_of(classes@.take(i + 1)).contains(x)
                && lacks_rule(stylesheet@, x)));
        i = i + 1;
    }
    assert(classes@.take(classes@.len() as int) =~= classes@);
    assert(texts_of(r@).to_set() =~= class_words(source@).to_set().filter(
        |c: Seq<char>| lacks_rule(stylesheet@, c),
    )) by {
        assert forall|x: Seq<char>| texts_of(r@).to_set().contains(x) == class_words(
            source@,
        ).to_set().filter(|c: Seq<char>| lacks_rule(stylesheet@, c)).contains(x) by {
            assert(texts_of(classes@).to_set().contains(x) == texts_of(classes@).contains(x));
            assert(texts_of(r@).to_set().contains(x) == texts_of(r@).contains(x));
            assert(class_words(source@).to_set().contains(x) == texts_of(classes@).contains(x));
            assert(class_words(source@).to_set().filter(|c: Seq<char>| lacks_rule(stylesheet@, c)).contains(x)
                == (class_words(source@).to_set().contains(x) && lacks_rule(stylesheet@, x)));
        }
    }
    r
}

/// The report of a class a source uses without a stylesheet rule: the source's name, then
/// "uses undefined", then the selector.
pub fn undefined_report(label: &str, class: &str) -> (r: String)
    ensures
        r@ == label@ + " uses undefined ."@ + class@,
{
    let mut r = String::from_str(label);
    r.append(" uses undefined .");
    r.append(class);
    r
}

/// The directory of the frontend crate, which the build names (`CARGO_MANIFEST_DIR`).
pub fn frontend_root(manifest_dir: &str) -> (r: String)
    ensures
        r@ == manifest_dir@,
{
    String::from_str(manifest_dir)
}

/// The path that, joined onto `base`, gives `path`, as `Path::strip_prefix` computes it
/// (prefixes match whole components), or `None` when `base` is no prefix of `path`.
pub uninterp spec fn stripped_path(path: Seq<char>, base: Seq<char>) -> Option<Seq<char>>;

/// `Path::strip_prefix` on two UTF-8 paths, its result displayed as text. Claims only that
/// the result is the named path.
#[verifier::external_body]
fn strip_path_prefix(path: &str, base: &str) -> (r: Option<String>)
    ensures
        match stripped_path(path@, base@) {
            Some(p) => r matches Some(s) && s@ == p,
            None => r is None,
        },
{
    match std::path::Path::new(path).strip_prefix(base) {
        Ok(rest) => Some(rest.display().to_string()),
        Err(_) => None,
    }
}

/// A source file's path as a report shows it: relative to the frontend's directory when it
/// lies inside it, and as given otherwise.
pub fn relative(path: &str, root: &str) -> (r: String)
    ensures
        r@ == match stripped_path(path@, root@) {
            Some(p) => p,
            None => path@,
        },
{
    match strip_path_prefix(path, root) {
        Some(p) => p,
        None => String::from_str(path),
    }
}

} // verus!
