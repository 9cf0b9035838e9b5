//! Character-level helpers shared by the note stripper, the lexer and the
//! LaTeX helpers: conversions between `str`/`String` and character vectors,
//! and the Unicode character classes that the DSL's lexical rules rely on.

use vstd::prelude::*;

verus! {

/// The characters of `s`, in order.
pub fn chars_of(s: &str) -> (v: Vec<char>)
    ensures
        v@ == s@,
{
    let mut v: Vec<char> = Vec::new();
    for c in it: s.chars()
        invariant
            v@ == it.seq().take(it.index() as int),
    {
        v.push(c);
    }
    v
}

/// Collects a character slice into a `String` (`FromIterator<char>` for
/// `String`); std documents that the string consists of exactly those
/// characters, in order.
#[verifier::external_body]
pub(crate) fn string_of(v: &[char]) -> (s: String)
    ensures
        s@ == v@,
{
    v.iter().collect::<String>()
}

/// The `{:?}` text of a string (`<str as Debug>::fmt`: the characters in
/// double quotes, each written as `char::escape_debug` gives it); a
/// function of the string alone, not restated here.
pub uninterp spec fn str_debug_text(s: Seq<char>) -> Seq<char>;

/// Formats a string with `{:?}`; the result is named, not restated.
#[verifier::external_body]
pub(crate) fn str_debug(s: &str) -> (r: String)
    ensures
        r@ == str_debug_text(s@),
{
    format!("{:?}", s)
}

/// Whether `char::is_alphabetic` holds of a non-ASCII `c` (the Unicode
/// `Alphabetic` property; its table is not restated here).
pub uninterp spec fn char_is_alphabetic(c: char) -> bool;

/// Whether `char::is_numeric` holds of a non-ASCII `c` (Unicode general
/// categories `Nd`, `Nl`, `No`; not restated here).
pub uninterp spec fn char_is_numeric(c: char) -> bool;

/// An ASCII letter, `A`-`Z` or `a`-`z`.
pub open spec fn is_ascii_letter(c: char) -> bool {
    ('a' <= c && c <= 'z') || ('A' <= c && c <= 'Z')
}

/// `char::is_alphabetic`: on ASCII exactly the letters, beyond ASCII the
/// Unicode `Alphabetic` property.
pub open spec fn is_alpha(c: char) -> bool {
    if (c as u32) < 128 {
        is_ascii_letter(c)
    } else {
        char_is_alphabetic(c)
    }
}

/// `char::is_numeric`: on ASCII exactly the digits `0`-`9`, beyond ASCII
/// the Unicode numeric categories.
pub open spec fn is_num(c: char) -> bool {
    if (c as u32) < 128 {
        '0' <= c && c <= '9'
    } else {
        char_is_numeric(c)
    }
}

/// `char::is_whitespace`: the Unicode `White_Space` property, which holds
/// of exactly these code points.
pub open spec fn char_is_whitespace(c: char) -> bool {
    let u = c as u32;
    (0x9 <= u && u <= 0xD) || u == 0x20 || u == 0x85 || u == 0xA0 || u == 0x1680
        || (0x2000 <= u && u <= 0x200A) || u == 0x2028 || u == 0x2029 || u == 0x202F
        || u == 0x205F || u == 0x3000
}

/// Calls `char::is_alphabetic`. std documents it as the Unicode
/// `Alphabetic` property, which on ASCII holds of exactly the letters; the
/// table beyond ASCII is named, not restated.
#[verifier::external_body]
pub(crate) fn is_alphabetic(c: char) -> (r: bool)
    ensures
        (c as u32) < 128 ==> r == is_ascii_letter(c),
        (c as u32) >= 128 ==> r == char_is_alphabetic(c),
{
    c.is_alphabetic()
}

/// Calls `char::is_numeric`. std documents it as the Unicode general
/// categories `Nd`, `Nl`, `No`, which on ASCII hold of exactly the digits
/// `0`-`9`; the table beyond ASCII is named, not restated.
#[verifier::external_body]
pub(crate) fn is_numeric(c: char) -> (r: bool)
    ensures
        (c as u32) < 128 ==> r == ('0' <= c && c <= '9'),
        (c as u32) >= 128 ==> r == char_is_numeric(c),
{
    c.is_numeric()
}

/// Whether `c` is white space (see [`char_is_whitespace`]).
pub fn is_whitespace(c: char) -> (r: bool)
    ensures
        r == char_is_whitespace(c),
{
    let u = c as u32;
    (0x9 <= u && u <= 0xD) || u == 0x20 || u == 0x85 || u == 0xA0 || u == 0x1680
        || (0x2000 <= u && u <= 0x200A) || u == 0x2028 || u == 0x2029 || u == 0x202F
        || u == 0x205F || u == 0x3000
}

/// `char::is_alphanumeric`, which std defines as
/// `is_alphabetic() || is_numeric()`.
pub open spec fn char_is_alphanumeric(c: char) -> bool {
    is_alpha(c) || is_num(c)
}

pub fn is_alphanumeric(c: char) -> (r: bool)
    ensures
        r == char_is_alphanumeric(c),
{
    is_alphabetic(c) || is_numeric(c)
}

/// `char::is_ascii_digit`.
pub open spec fn is_digit(c: char) -> bool {
    '0' <= c && c <= '9'
}

/// ASCII lower-casing of one character (`char::to_ascii_lowercase`).
pub open spec fn ascii_lower(c: char) -> char {
    if 'A' <= c && c <= 'Z' {
        ((c as u32) + 32) as char
    } else {
        c
    }
}

pub fn to_ascii_lower(c: char) -> (r: char)
    ensures
        r == ascii_lower(c),
{
    if 'A' <= c && c <= 'Z' {
        let b: u8 = (c as u32) as u8;
        assert(b == c as u32);
        ((b + 32) as char)
    } else {
        c
    }
}

/// `str::eq_ignore_ascii_case` on character sequences.
pub open spec fn eq_ignore_ascii_case(a: Seq<char>, b: Seq<char>) -> bool {
    a.len() == b.len() && forall|i: int| 0 <= i < a.len() ==> ascii_lower(#[trigger] a[i]) == ascii_lower(b[i])
}

} // verus!

verus! {

/// Decimal digits of a natural number (no sign, no leading zeros; `0` is
/// written `0`).
pub open spec fn decimal(n: nat) -> Seq<char>
    decreases n,
{
    if n < 10 {
        seq![digit_char(n)]
    } else {
        decimal(n / 10) + seq![digit_char(n % 10)]
    }
}

pub open spec fn digit_char(d: nat) -> char {
    (('0' as u32) + d) as char
}

pub fn digit_of(d: usize) -> (c: char)
    requires
        d < 10,
    ensures
        c == digit_char(d as nat),
{
    let b: u8 = (d as u8) + 48u8;
    b as char
}

/// The decimal text of `n` (what `n.to_string()` yields).
pub fn usize_to_decimal(n: usize) -> (v: Vec<char>)
    ensures
        v@ == decimal(n as nat),
    decreases n,
{
    if n < 10 {
        let mut v = Vec::new();
        v.push(digit_of(n));
        v
    } else {
        let mut v = usize_to_decimal(n / 10);
        v.push(digit_of(n % 10));
        v
    }
}

/// Appends the characters of `s` to `v`.
pub fn push_str(v: &mut Vec<char>, s: &str)
    ensures
        final(v)@ == old(v)@ + s@,
{
    let cs = chars_of(s);
    let ghost v0 = v@;
    for i in 0..cs.len()
        invariant
            v@ == v0 + cs@.take(i as int),
    {
        v.push(cs[i]);
        assert(cs@.take(i + 1) == cs@.take(i as int).push(cs@[i as int]));
    }
    assert(cs@.take(cs.len() as int) == cs@);
}

/// Appends `w` to `v`.
pub fn push_chars(v: &mut Vec<char>, w: &[char])
    ensures
        final(v)@ == old(v)@ + w@,
{
    let ghost v0 = v@;
    for i in 0..w.len()
        invariant
            v@ == v0 + w@.take(i as int),
    {
        v.push(w[i]);
        assert(w@.take(i + 1) == w@.take(i as int).push(w@[i as int]));
    }
    assert(w@.take(w.len() as int) == w@);
}

} // verus!

verus! {

/// Whether two strings are equal.
pub fn str_eq(a: &str, b: &str) -> (r: bool)
    ensures
        r == (a@ == b@),
{
    let x = chars_of(a);
    let y = chars_of(b);
    if x.len() != y.len() {
        return false;
    }
    let mut i: usize = 0;
    while i < x.len()
        invariant
            x@ == a@,
            y@ == b@,
            x@.len() == y@.len(),
            i <= x@.len(),
            forall|k: int| 0 <= k < i ==> x@[k] == y@[k],
        decreases x.len() - i,
    {
        if x[i] != y[i] {
            return false;
        }
        i = i + 1;
    }
    assert(x@ == y@);
    true
}

/// `prefix` followed by `rest`.
pub fn concat_str(prefix: &str, rest: &str) -> (s: String)
    ensures
        s@ == prefix@ + rest@,
{
    let mut s = String::from_str(prefix);
    s.append(rest);
    s
}

/// The decimal text of `n` as a `String`.
pub fn decimal_string(n: usize) -> (s: String)
    ensures
        s@ == decimal(n as nat),
{
    let v = usize_to_decimal(n);
    string_of(v.as_slice())
}

/// Whether `pat` occurs in `s` at index `i`.
pub open spec fn occurs_at(s: Seq<char>, pat: Seq<char>, i: int) -> bool {
    0 <= i && i + pat.len() <= s.len() && s.subrange(i, i + pat.len()) == pat
}

/// `str::contains` for a string pattern.
pub open spec fn contains_text(s: Seq<char>, pat: Seq<char>) -> bool {
    exists|i: int| occurs_at(s, pat, i)
}

pub fn contains_str(s: &str, pat: &str) -> (r: bool)
    ensures
        r == contains_text(s@, pat@),
{
    let x = chars_of(s);
    let p = chars_of(pat);
    if p.len() > x.len() {
        assert forall|i: int| !occurs_at(s@, pat@, i) by {}
        return false;
    }
    let n = x.len();
    let last = n - p.len();
    let mut i: usize = 0;
    loop
        invariant
            x@ == s@,
            p@ == pat@,
            last == x@.len() - p@.len(),
            p@.len() <= x@.len(),
            n == x@.len(),
            i <= last,
            forall|k: int| 0 <= k < i ==> !occurs_at(s@, pat@, k),
        ensures
            forall|k: int| 0 <= k <= last ==> !occurs_at(s@, pat@, k),
        decreases last - i,
    {
        let mut j: usize = 0;
        let mut same = true;
        while j < p.len()
            invariant
                x@ == s@,
                p@ == pat@,
                i <= last,
                last == x@.len() - p@.len(),
                p@.len() <= x@.len(),
                n == x@.len(),
                j <= p@.len(),
                same == (forall|m: int| 0 <= m < j ==> x@[i + m] == p@[m]),
            decreases p.len() - j,
        {
            if x[i + j] != p[j] {
                same = false;
            }
            j = j + 1;
        }
        if same {
            assert(x@.subrange(i as int, i + p@.len()) == p@);
            assert(occurs_at(s@, pat@, i as int));
            return true;
        }
        assert(!occurs_at(s@, pat@, i as int)) by {
            if occurs_at(s@, pat@, i as int) {
                assert forall|m: int| 0 <= m < p@.len() implies x@[i + m] == p@[m] by {
                    assert(x@.subrange(i as int, i + p@.len())[m] == x@[i + m]);
                }
            }
        }
        if i == last {
            break;
        }
        i = i + 1;
    }
    assert forall|k: int| !occurs_at(s@, pat@, k) by {
        if occurs_at(s@, pat@, k) {
            assert(k <= last);
        }
    }
    false
}

} // verus!

verus! {

/// `s` with every occurrence of the character `c` replaced by `r`
/// (`str::replace` with a character pattern).
pub open spec fn replace_char(s: Seq<char>, c: char, r: Seq<char>) -> Seq<char>
    decreases s.len(),
{
    if s.len() == 0 {
        Seq::empty()
    } else {
        replace_char(s.drop_last(), c, r) + if s.last() == c { r } else { seq![s.last()] }
    }
}

/// Replacing a character that does not occur changes nothing.
pub proof fn lemma_replace_absent(s: Seq<char>, c: char, r: Seq<char>)
    requires
        !s.contains(c),
    ensures
        replace_char(s, c, r) == s,
    decreases s.len(),
{
    if s.len() > 0 {
        assert(!s.drop_last().contains(c)) by {
            if s.drop_last().contains(c) {
                let k = choose|k: int| 0 <= k < s.drop_last().len() && s.drop_last()[k] == c;
                assert(s[k] == c);
            }
        }
        assert(s[s.len() - 1] != c);
        lemma_replace_absent(s.drop_last(), c, r);
        assert(s.drop_last().push(s.last()) == s);
    }
}

/// Every occurrence of `c` in `s` comes right after a backslash.
pub open spec fn escaped_everywhere(s: Seq<char>, c: char) -> bool {
    forall|i: int| 0 <= i < s.len() && #[trigger] s[i] == c ==> i > 0 && s[i - 1] == '\\'
}

/// Replacing `c` by a backslash and `c` leaves no `c` without a backslash
/// before it.
pub proof fn lemma_replace_escapes(s: Seq<char>, c: char)
    requires
        c != '\\',
    ensures
        escaped_everywhere(replace_char(s, c, seq!['\\', c]), c),
    decreases s.len(),
{
    if s.len() > 0 {
        lemma_replace_escapes(s.drop_last(), c);
        let p = replace_char(s.drop_last(), c, seq!['\\', c]);
        let t: Seq<char> = if s.last() == c { seq!['\\', c] } else { seq![s.last()] };
        let out = p + t;
        assert(replace_char(s, c, seq!['\\', c]) == out);
        assert forall|i: int| 0 <= i < out.len() && #[trigger] out[i] == c implies i > 0 && out[i
            - 1] == '\\' by {
            if i < p.len() {
                assert(out[i] == p[i]);
                assert(out[i - 1] == p[i - 1]);
            } else {
                assert(out[i] == t[i - p.len()]);
                if s.last() == c {
                    assert(i - p.len() == 1);
                    assert(out[i - 1] == t[0]);
                }
            }
        }
    }
}

/// Replacing `c` by text without `d` keeps every `d` escaped, as long as
/// `c` is not a backslash and differs from `d`.
pub proof fn lemma_replace_keeps_escaped(s: Seq<char>, c: char, r: Seq<char>, d: char)
    requires
        escaped_everywhere(s, d),
        c != '\\',
        c != d,
        !r.contains(d),
    ensures
        escaped_everywhere(replace_char(s, c, r), d),
    decreases s.len(),
{
    if s.len() > 0 {
        let q = s.drop_last();
        assert(escaped_everywhere(q, d)) by {
            assert forall|i: int| 0 <= i < q.len() && #[trigger] q[i] == d implies i > 0 && q[i
                - 1] == '\\' by {
                assert(s[i] == q[i]);
            }
        }
        lemma_replace_keeps_escaped(q, c, r, d);
        let p = replace_char(q, c, r);
        let t: Seq<char> = if s.last() == c { r } else { seq![s.last()] };
        let out = p + t;
        assert(replace_char(s, c, r) == out);
        assert forall|i: int| 0 <= i < out.len() && #[trigger] out[i] == d implies i > 0 && out[i
            - 1] == '\\' by {
            if i < p.len() {
                assert(out[i] == p[i]);
                assert(out[i - 1] == p[i - 1]);
            } else {
                assert(out[i] == t[i - p.len()]);
                if s.last() == c {
                    assert(r[i - p.len()] == d);
                    assert(false);
                } else {
                    assert(s[s.len() - 1] == d);
                    let k = s.len() - 1;
                    assert(k > 0 && s[k - 1] == '\\');
                    assert(q.last() == '\\');
                    assert(replace_char(q, c, r) == replace_char(q.drop_last(), c, r) + seq![
                        q.last(),
                    ]);
                    assert(p.len() > 0 && p[p.len() - 1] == '\\');
                    assert(i == p.len());
                    assert(out[i - 1] == p[p.len() - 1]);
                }
            }
        }
    }
}

pub fn replace_char_str(s: &str, c: char, r: &str) -> (out: String)
    ensures
        out@ == replace_char(s@, c, r@),
{
    let x = chars_of(s);
    let rv = chars_of(r);
    let mut v: Vec<char> = Vec::new();
    let mut i: usize = 0;
    while i < x.len()
        invariant
            x@ == s@,
            rv@ == r@,
            i <= x@.len(),
            v@ == replace_char(x@.take(i as int), c, r@),
        decreases x.len() - i,
    {
        assert(x@.take(i + 1).drop_last() == x@.take(i as int));
        if x[i] == c {
            push_chars(&mut v, rv.as_slice());
        } else {
            v.push(x[i]);
        }
        i = i + 1;
    }
    assert(x@.take(x@.len() as int) == x@);
    string_of(v.as_slice())
}

/// The views of a sequence of strings.
pub open spec fn strings_view(v: Seq<String>) -> Seq<Seq<char>> {
    v.map_values(|s: String| s@)
}

/// `parts` joined with `sep` between consecutive parts (`[T]::join`).
pub open spec fn join(parts: Seq<Seq<char>>, sep: Seq<char>) -> Seq<char>
    decreases parts.len(),
{
    if parts.len() == 0 {
        Seq::empty()
    } else if parts.len() == 1 {
        parts[0]
    } else {
        join(parts.drop_last(), sep) + sep + parts.last()
    }
}

pub fn join_strings(parts: &Vec<String>, sep: &str) -> (s: String)
    ensures
        s@ == join(strings_view(parts@), sep@),
{
    let ghost pv = strings_view(parts@);
    let mut out = String::new();
    let mut i: usize = 0;
    while i < parts.len()
        invariant
            pv == strings_view(parts@),
            i <= parts@.len(),
            out@ == join(pv.take(i as int), sep@),
        decreases parts.len() - i,
    {
        assert(pv.take(i + 1).drop_last() == pv.take(i as int));
        if i != 0 {
            out.append(sep);
        }
        out.append(parts[i].as_str());
        i = i + 1;
    }
    assert(pv.take(parts@.len() as int) == pv);
    out
}

} // verus!
