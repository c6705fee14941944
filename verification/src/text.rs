//! Small text primitives on `Seq<char>` and the std string calls the library relies on.
use vstd::prelude::*;

verus! {

/// Unicode `White_Space`, the set `char::is_whitespace` tests for.
pub open spec fn is_white_space(c: char) -> bool {
    ||| ('\u{9}' <= c && c <= '\u{d}')
    ||| c == ' '
    ||| c == '\u{85}'
    ||| c == '\u{a0}'
    ||| c == '\u{1680}'
    ||| ('\u{2000}' <= c && c <= '\u{200a}')
    ||| c == '\u{2028}'
    ||| c == '\u{2029}'
    ||| c == '\u{202f}'
    ||| c == '\u{205f}'
    ||| c == '\u{3000}'
}

/// `s` with every leading white-space character removed.
pub open spec fn trim_start_ws(s: Seq<char>) -> Seq<char>
    decreases s.len(),
{
    if s.len() > 0 && is_white_space(s[0]) {
        trim_start_ws(s.drop_first())
    } else {
        s
    }
}

/// `s` with every trailing white-space character removed.
pub open spec fn trim_end_ws(s: Seq<char>) -> Seq<char>
    decreases s.len(),
{
    if s.len() > 0 && is_white_space(s.last()) {
        trim_end_ws(s.drop_last())
    } else {
        s
    }
}

/// `s` without leading and trailing white space.
pub open spec fn trim_ws(s: Seq<char>) -> Seq<char> {
    trim_end_ws(trim_start_ws(s))
}

/// `char::is_whitespace`: whether the character has the Unicode `White_Space` property.
#[verifier::external_body]
pub fn is_whitespace(c: char) -> (r: bool)
    ensures
        r == is_white_space(c),
{
    c.is_whitespace()
}

/// Whether a character is alphabetic or numeric in Unicode's sense, as
/// `char::is_alphanumeric` answers it.
pub uninterp spec fn char_is_alphanumeric(c: char) -> bool;

/// `char::is_alphanumeric`. Claims only that the result is the named answer for `c`.
#[verifier::external_body]
pub fn is_alphanumeric(c: char) -> (r: bool)
    ensures
        r == char_is_alphanumeric(c),
{
    c.is_alphanumeric()
}

/// The lowercase form of a text, as `str::to_lowercase` maps it.
pub uninterp spec fn lowercase_text(s: Seq<char>) -> Seq<char>;

/// `str::to_lowercase`. Claims only that the result is the named lowercase form of `s`.
#[verifier::external_body]
pub fn to_lowercase(s: &str) -> (r: String)
    ensures
        r@ == lowercase_text(s@),
{
    s.to_lowercase()
}

/// `str::trim`: the string without leading and trailing white space.
#[verifier::external_body]
pub fn trim(s: &str) -> (r: &str)
    ensures
        r@ == trim_ws(s@),
{
    s.trim()
}

/// `==` on two string slices: equal exactly when they hold the same characters.
#[verifier::external_body]
pub fn str_eq(a: &str, b: &str) -> (r: bool)
    ensures
        r == (a@ == b@),
{
    a == b
}

/// `s` with every trailing `c` removed.
pub open spec fn trim_end_char(s: Seq<char>, c: char) -> Seq<char>
    decreases s.len(),
{
    if s.len() > 0 && s.last() == c {
        trim_end_char(s.drop_last(), c)
    } else {
        s
    }
}

/// `str::trim_end_matches` with a single character: the string without that character at its
/// end, however often it repeats there.
#[verifier::external_body]
pub fn trim_end_char_matches(s: &str, c: char) -> (r: &str)
    ensures
        r@ == trim_end_char(s@, c),
{
    s.trim_end_matches(c)
}

/// `String::push`: appends one character.
#[verifier::external_body]
pub fn push_char(s: &mut String, c: char)
    ensures
        final(s)@ == old(s)@.push(c),
{
    s.push(c)
}

/// The characters of a string slice, in order.
pub fn chars_of(s: &str) -> (r: Vec<char>)
    ensures
        r@ == s@,
{
    let mut r: Vec<char> = Vec::new();
    for c in it: s.chars()
        invariant
            it.seq() == s@,
            r@ == it.seq().take(it.index()),
    {
        r.push(c);
    }
    r
}

/// A string holding the characters `cs[from..to]`.
pub fn string_of(cs: &[char], from: usize, to: usize) -> (r: String)
    requires
        from <= to <= cs@.len(),
    ensures
        r@ == cs@.subrange(from as int, to as int),
{
    let mut r = String::new();
    let mut i = from;
    while i < to
        invariant
            from <= i <= to <= cs@.len(),
            r@ == cs@.subrange(from as int, i as int),
        decreases to - i,
    {
        push_char(&mut r, cs[i]);
        i = i + 1;
    }
    r
}

/// The character of a decimal digit `d < 10`.
pub open spec fn digit_char(d: nat) -> char {
    (d + 48) as char
}

/// The decimal digits of a natural number, most significant first, without leading zeros.
pub open spec fn nat_text(n: nat) -> Seq<char>
    decreases n,
{
    if n < 10 {
        seq![digit_char(n)]
    } else {
        nat_text(n / 10) + seq![digit_char(n % 10)]
    }
}

/// The decimal text of an integer, with a leading `-` for negative numbers.
pub open spec fn int_text(n: int) -> Seq<char> {
    if n < 0 {
        seq!['-'] + nat_text((-n) as nat)
    } else {
        nat_text(n as nat)
    }
}

/// A number's decimal text has at least one digit.
pub proof fn lemma_nat_text_nonempty(n: nat)
    ensures
        nat_text(n).len() >= 1,
    decreases n,
{
    if n >= 10 {
        lemma_nat_text_nonempty(n / 10);
    }
}

/// Different digits have different characters.
proof fn lemma_digit_char_injective(a: nat, b: nat)
    requires
        a < 10,
        b < 10,
        digit_char(a) == digit_char(b),
    ensures
        a == b,
{
    assert(digit_char(a) as int == a + 48);
    assert(digit_char(b) as int == b + 48);
}

/// Different numbers have different decimal texts.
pub proof fn lemma_nat_text_injective(a: nat, b: nat)
    requires
        nat_text(a) == nat_text(b),
    ensures
        a == b,
    decreases a,
{
    if a < 10 {
        if b >= 10 {
            lemma_nat_text_nonempty(b / 10);
            assert(nat_text(b).len() >= 2);
        }
        assert(b < 10);
        assert(nat_text(a) == seq![digit_char(a)]);
        assert(nat_text(b) == seq![digit_char(b)]);
        assert(seq![digit_char(a)][0] == digit_char(a));
        assert(seq![digit_char(b)][0] == digit_char(b));
        assert(digit_char(a) == digit_char(b));
        lemma_digit_char_injective(a, b);
    } else {
        lemma_nat_text_nonempty(a / 10);
        assert(nat_text(a).len() >= 2);
        if b < 10 {
            assert(nat_text(b).len() == 1);
        }
        let ta = nat_text(a);
        let tb = nat_text(b);
        assert(ta.last() == digit_char(a % 10));
        assert(tb.last() == digit_char(b % 10));
        assert(ta.drop_last() =~= nat_text(a / 10));
        assert(tb.drop_last() =~= nat_text(b / 10));
        lemma_digit_char_injective(a % 10, b % 10);
        lemma_nat_text_injective(a / 10, b / 10);
    }
}

/// `i64::to_string`: the integer's decimal text, as `Display` for integers prints it.
#[verifier::external_body]
pub fn i64_text(n: i64) -> (r: String)
    ensures
        r@ == int_text(n as int),
{
    n.to_string()
}

/// An ASCII decimal digit.
pub open spec fn is_ascii_digit(c: char) -> bool {
    '0' <= c && c <= '9'
}

/// The value of a string of ASCII decimal digits.
pub open spec fn digits_value(s: Seq<char>) -> int
    decreases s.len(),
{
    if s.len() == 0 {
        0
    } else {
        digits_value(s.drop_last()) * 10 + (s.last() as int - '0' as int)
    }
}

/// Every character of `s` is an ASCII decimal digit, and there is at least one.
pub open spec fn all_digits(s: Seq<char>) -> bool {
    s.len() > 0 && forall|i: int| 0 <= i < s.len() ==> is_ascii_digit(#[trigger] s[i])
}

/// The integer a decimal text names: an optional `+` or `-` followed by one or more ASCII
/// digits, nothing else.
pub open spec fn decimal_value(s: Seq<char>) -> Option<int> {
    if s.len() > 0 && s[0] == '-' {
        if all_digits(s.drop_first()) {
            Some(-digits_value(s.drop_first()))
        } else {
            None
        }
    } else if s.len() > 0 && s[0] == '+' {
        if all_digits(s.drop_first()) {
            Some(digits_value(s.drop_first()))
        } else {
            None
        }
    } else if all_digits(s) {
        Some(digits_value(s))
    } else {
        None
    }
}

/// What `str::parse::<i32>` yields: the decimal value when it fits in `i32`.
pub open spec fn parsed_i32(s: Seq<char>) -> Option<i32> {
    match decimal_value(s) {
        Some(v) => if i32::MIN <= v <= i32::MAX {
            Some(v as i32)
        } else {
            None
        },
        None => None,
    }
}

/// What `str::parse::<i64>` yields: the decimal value when it fits in `i64`.
pub open spec fn parsed_i64(s: Seq<char>) -> Option<i64> {
    match decimal_value(s) {
        Some(v) => if i64::MIN <= v <= i64::MAX {
            Some(v as i64)
        } else {
            None
        },
        None => None,
    }
}

/// `str::parse::<i32>`, with its error mapped to `None`. As std documents for integers, the
/// text is an optional sign followed by decimal digits, and values out of range are errors.
#[verifier::external_body]
pub fn parse_i32(s: &str) -> (r: Option<i32>)
    ensures
        r == parsed_i32(s@),
{
    match s.parse::<i32>() {
        Ok(v) => Some(v),
        Err(_) => None,
    }
}

/// `str::parse::<i64>`, with its error mapped to `None`. As std documents for integers, the
/// text is an optional sign followed by decimal digits, and values out of range are errors.
#[verifier::external_body]
pub fn parse_i64(s: &str) -> (r: Option<i64>)
    ensures
        r == parsed_i64(s@),
{
    match s.parse::<i64>() {
        Ok(v) => Some(v),
        Err(_) => None,
    }
}

/// The first position at which `pat` occurs in `s`.
pub open spec fn find_text(s: Seq<char>, pat: Seq<char>) -> Option<int>
    decreases s.len(),
{
    if s.len() < pat.len() {
        None
    } else if s.take(pat.len() as int) == pat {
        Some(0)
    } else if s.len() == 0 {
        None
    } else {
        match find_text(s.drop_first(), pat) {
            Some(i) => Some(i + 1),
            None => None,
        }
    }
}

/// A match found by `find_text` lies inside the text.
pub proof fn lemma_find_text_bounds(s: Seq<char>, pat: Seq<char>)
    ensures
        find_text(s, pat) matches Some(i) ==> 0 <= i && i + pat.len() <= s.len(),
    decreases s.len(),
{
    if s.len() >= pat.len() && s.take(pat.len() as int) != pat && s.len() > 0 {
        lemma_find_text_bounds(s.drop_first(), pat);
    }
}

/// The first position at or after `from` where `pat` occurs in `hay`.
pub fn find_from(hay: &[char], from: usize, pat: &[char]) -> (r: Option<usize>)
    requires
        from <= hay@.len(),
    ensures
        r matches Some(p) ==> find_text(hay@.skip(from as int), pat@) == Some(p - from) && from
            <= p,
        r is None ==> find_text(hay@.skip(from as int), pat@) is None,
{
    let n = hay.len();
    let mut p = from;
    while p <= n
        invariant
            n == hay@.len(),
            from <= p <= hay@.len() + 1,
            p <= hay@.len() ==> find_text(hay@.skip(from as int), pat@) == (match find_text(
                hay@.skip(p as int),
                pat@,
            ) {
                Some(i) => Some(i + (p - from)),
                None => None,
            }),
            p > hay@.len() ==> find_text(hay@.skip(from as int), pat@) is None,
        decreases hay@.len() + 1 - p,
    {
        let ghost s = hay@.skip(p as int);
        if n - p < pat.len() {
            assert(s.len() < pat@.len());
            return None;
        }
        let mut k: usize = 0;
        while k < pat.len() && hay[p + k] == pat[k]
            invariant
                0 <= k <= pat@.len(),
                n == hay@.len(),
                p + pat@.len() <= n,
                s == hay@.skip(p as int),
                forall|j: int| 0 <= j < k ==> s[j] == pat@[j],
            decreases pat@.len() - k,
        {
            k = k + 1;
        }
        if k == pat.len() {
            assert(s.take(pat@.len() as int) =~= pat@);
            return Some(p);
        }
        assert(s.take(pat@.len() as int) != pat@) by {
            assert(s.take(pat@.len() as int)[k as int] != pat@[k as int]);
        }
        assert(s.drop_first() =~= hay@.skip(p + 1));
        p = p + 1;
    }
    None
}

/// Whether `needle` occurs in `hay`, as `str::contains` answers for a text pattern.
pub fn contains_text(hay: &str, needle: &str) -> (r: bool)
    ensures
        r == find_text(hay@, needle@) is Some,
{
    let h = chars_of(hay);
    let n = chars_of(needle);
    assert(h@.skip(0) =~= h@);
    find_from(h.as_slice(), 0, n.as_slice()).is_some()
}

/// `s` with every occurrence of `pat`, found from left to right without overlaps, replaced by
/// `with`.
pub open spec fn replaced(s: Seq<char>, pat: Seq<char>, with: Seq<char>) -> Seq<char>
    decreases s.len(),
{
    if pat.len() == 0 {
        s
    } else {
        match find_text(s, pat) {
            None => s,
            Some(i) => {
                proof {
                    lemma_find_text_bounds(s, pat);
                }
                s.take(i) + with + replaced(s.skip(i + pat.len()), pat, with)
            },
        }
    }
}

/// Replaces every occurrence of a non-empty pattern, as `str::replace` does.
pub fn replace_all(s: &str, pat: &str, with: &str) -> (r: String)
    requires
        pat@.len() > 0,
    ensures
        r@ == replaced(s@, pat@, with@),
{
    let cs = chars_of(s);
    let ps = chars_of(pat);
    let n = cs.len();
    let m = ps.len();
    let mut r = String::new();
    let mut pos: usize = 0;
    assert(cs@.skip(0) =~= s@);
    assert(Seq::<char>::empty() + replaced(s@, pat@, with@) =~= replaced(s@, pat@, with@));
    loop
        invariant
            n == cs@.len(),
            m == ps@.len(),
            m > 0,
            ps@ == pat@,
            cs@ == s@,
            pos <= n,
            r@ + replaced(cs@.skip(pos as int), pat@, with@) == replaced(s@, pat@, with@),
        decreases n - pos,
    {
        let ghost rest = cs@.skip(pos as int);
        proof {
            lemma_find_text_bounds(rest, pat@);
        }
        match find_from(cs.as_slice(), pos, ps.as_slice()) {
            None => {
                let tail = string_of(cs.as_slice(), pos, n);
                assert(tail@ =~= rest);
                r.append(tail.as_str());
                return r;
            },
            Some(p) => {
                let piece = string_of(cs.as_slice(), pos, p);
                assert(piece@ =~= rest.take(p - pos));
                let ghost before = r@;
                r.append(piece.as_str());
                r.append(with);
                assert(rest.skip(p - pos + m) =~= cs@.skip(p + m));
                assert(r@ + replaced(cs@.skip(p + m), pat@, with@) =~= before + replaced(
                    rest,
                    pat@,
                    with@,
                ));
                pos = p + m;
            },
        }
    }
}

/// What `str::parse::<u8>` yields: the decimal value when it fits in `u8`; an unsigned number
/// takes an optional `+` but no `-`.
pub open spec fn parsed_u8(s: Seq<char>) -> Option<u8> {
    if s.len() > 0 && s[0] == '-' {
        None
    } else {
        match decimal_value(s) {
            Some(v) => if 0 <= v <= u8::MAX {
                Some(v as u8)
            } else {
                None
            },
            None => None,
        }
    }
}

/// `str::parse::<u8>`, with its error mapped to `None`. As std documents for unsigned
/// integers, the text is an optional `+` followed by decimal digits, and values out of range
/// are errors.
#[verifier::external_body]
pub fn parse_u8(s: &str) -> (r: Option<u8>)
    ensures
        r == parsed_u8(s@),
{
    match s.parse::<u8>() {
        Ok(v) => Some(v),
        Err(_) => None,
    }
}

} // verus!
