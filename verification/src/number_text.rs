//! How a number literal is written back in messages: as `f64`'s `Debug`
//! writes the value the literal denotes.

use vstd::prelude::*;
use crate::checks::{dot_index, numeral_bounds, numeral_canon, strip_leading_zeros, strip_trailing_zeros};
use crate::text::{chars_of, decimal, decimal_string, push_str};

verus! {

/// Scientific notation as `f64`'s `Debug` writes it: the first significant
/// digit, the others after a `.` (if any), then `e` and the exponent.
pub open spec fn exponent_text(digits: Seq<char>, exp: int) -> Seq<char> {
    seq![digits[0]] + (if digits.len() > 1 { seq!['.'] + digits.skip(1) } else { Seq::empty() }) + seq!['e']
        + (if exp < 0 { seq!['-'] } else { Seq::empty() }) + decimal((if exp < 0 { -exp } else { exp }) as nat)
}

/// The `{:?}` text of the number a literal denotes, as `f64` writes it:
/// zero is `0.0`; a value of at least `1e16`, or below `1e-4`, is written
/// in scientific notation (`1e16`, `1.5e-5`); any other value in decimal
/// notation with at least one fraction digit (`2.0`, `7.25`, `0.0001`).
///
/// The digits are those of the literal, without leading and trailing
/// zeros. `f64`'s `Debug` writes the shortest digits that denote the same
/// `f64`, which are these exactly when the literal has at most 15
/// significant digits and is below `1e308`; a longer literal is written
/// here with all its digits, where `f64` would round them.
pub open spec fn num_debug_text(s: Seq<char>) -> Seq<char> {
    let (i, f) = numeral_canon(s);
    if i.len() == 0 && f.len() == 0 {
        seq!['0', '.', '0']
    } else if i.len() > 0 {
        if i.len() >= 17 {
            exponent_text(strip_trailing_zeros(i + f), i.len() - 1)
        } else {
            i + seq!['.'] + (if f.len() == 0 { seq!['0'] } else { f })
        }
    } else {
        let sig = strip_leading_zeros(f);
        let zeros = f.len() - sig.len();
        if zeros >= 4 {
            exponent_text(sig, -(zeros + 1))
        } else {
            seq!['0', '.'] + f
        }
    }
}

proof fn lemma_strip_trailing_last(s: Seq<char>)
    ensures
        strip_trailing_zeros(s).len() <= s.len(),
        strip_trailing_zeros(s).len() > 0 ==> strip_trailing_zeros(s).last() != '0',
        strip_trailing_zeros(s) == s.take(strip_trailing_zeros(s).len() as int),
        s.len() > 0 && s.last() != '0' ==> strip_trailing_zeros(s) == s,
    decreases s.len(),
{
    if s.len() > 0 && s.last() == '0' {
        lemma_strip_trailing_last(s.drop_last());
        assert(s.drop_last().take(strip_trailing_zeros(s).len() as int) =~= s.take(strip_trailing_zeros(s).len() as int));
    } else {
        assert(s.take(s.len() as int) =~= s);
    }
}

proof fn lemma_strip_leading(s: Seq<char>)
    ensures
        strip_leading_zeros(s).len() <= s.len(),
        strip_leading_zeros(s) == s.skip(s.len() - strip_leading_zeros(s).len()),
        forall|k: int| 0 <= k < s.len() - strip_leading_zeros(s).len() ==> s[k] == '0',
        strip_leading_zeros(s).len() > 0 ==> strip_leading_zeros(s)[0] != '0',
    decreases s.len(),
{
    if s.len() > 0 && s[0] == '0' {
        lemma_strip_leading(s.drop_first());
        let t = strip_leading_zeros(s);
        assert(s.drop_first().skip(s.drop_first().len() - t.len()) =~= s.skip(s.len() - t.len()));
        assert forall|k: int| 0 <= k < s.len() - t.len() implies s[k] == '0' by {
            if k > 0 {
                assert(s[k] == s.drop_first()[k - 1]);
            }
        }
    } else {
        assert(s.skip(0) =~= s);
    }
}

/// Appends `s[a..b]` to `out`.
fn push_range(out: &mut Vec<char>, s: &Vec<char>, a: usize, b: usize)
    requires
        a <= b <= s@.len(),
    ensures
        final(out)@ == old(out)@ + s@.subrange(a as int, b as int),
{
    let ghost o0 = out@;
    let mut k: usize = a;
    while k < b
        invariant
            a <= k <= b <= s@.len(),
            out@ == o0 + s@.subrange(a as int, k as int),
        decreases b - k,
    {
        out.push(s[k]);
        assert(s@.subrange(a as int, k + 1) == s@.subrange(a as int, k as int).push(s@[k as int]));
        k = k + 1;
    }
}

/// Appends [`exponent_text`] of `digits` and the exponent `±mag`.
fn push_exponent(out: &mut Vec<char>, digits: &Vec<char>, negative: bool, mag: usize)
    requires
        digits@.len() > 0,
        negative ==> mag > 0,
    ensures
        final(out)@ == old(out)@ + exponent_text(digits@, if negative { -(mag as int) } else { mag as int }),
{
    let ghost o0 = out@;
    let ghost e: int = if negative { -(mag as int) } else { mag as int };
    let ghost p1 = seq![digits@[0]] + (if digits@.len() > 1 { seq!['.'] + digits@.skip(1) } else { Seq::empty() });
    out.push(digits[0]);
    if digits.len() > 1 {
        out.push('.');
        push_range(out, digits, 1, digits.len());
        assert(digits@.subrange(1, digits@.len() as int) =~= digits@.skip(1));
    }
    assert(out@ =~= o0 + p1);
    out.push('e');
    if negative {
        out.push('-');
    }
    let ghost p2 = p1 + seq!['e'] + (if e < 0 { seq!['-'] } else { Seq::empty() });
    assert(out@ =~= o0 + p2);
    let ds = decimal_string(mag);
    push_str(out, ds.as_str());
    assert((if e < 0 { -e } else { e }) as nat == mag as nat);
    assert(out@ =~= o0 + (p2 + decimal(mag as nat)));
}

/// The characters of [`num_debug_text`].
pub fn num_debug(x: &String) -> (r: Vec<char>)
    ensures
        r@ == num_debug_text(x@),
{
    let v = chars_of(x.as_str());
    let (a, b, c, d) = numeral_bounds(&v);
    let ghost i = numeral_canon(x@).0;
    let ghost f = numeral_canon(x@).1;
    proof {
        let d0 = dot_index(v@);
        let tail = if d0 < v@.len() { v@.skip(d0 + 1 as int) } else { Seq::<char>::empty() };
        lemma_strip_trailing_last(tail);
        lemma_strip_leading(v@.take(d0 as int));
    }
    let mut out: Vec<char> = Vec::new();
    if a == b && c == d {
        out.push('0');
        out.push('.');
        out.push('0');
        assert(out@ =~= seq!['0', '.', '0']);
    } else if a < b {
        if b - a >= 17 {
            let mut digits: Vec<char> = Vec::new();
            push_range(&mut digits, &v, a, b);
            push_range(&mut digits, &v, c, d);
            assert(digits@ =~= i + f);
            let mut k: usize = digits.len();
            proof {
                lemma_strip_trailing_last(i + f);
                assert(digits@.take(k as int) =~= digits@);
            }
            while k > 0 && digits[k - 1] == '0'
                invariant
                    k <= digits@.len(),
                    digits@ == i + f,
                    forall|m: int| k <= m < digits@.len() ==> digits@[m] == '0',
                    strip_trailing_zeros(i + f) == strip_trailing_zeros(digits@.take(k as int)),
                decreases k,
            {
                assert(digits@.take(k as int).drop_last() =~= digits@.take(k - 1));
                k = k - 1;
            }
            let mut sig: Vec<char> = Vec::new();
            push_range(&mut sig, &digits, 0, k);
            proof {
                assert(sig@ =~= digits@.take(k as int));
                let t = digits@.take(k as int);
                if k > 0 {
                    assert(t.last() != '0');
                    lemma_strip_trailing_last(t);
                } else {
                    assert(t.len() == 0);
                }
                assert(i.len() > 0 && i[0] != '0');
                assert(sig@.len() > 0) by {
                    assert(k >= 1) by {
                        if k == 0 {
                            assert(digits@[0] == i[0]);
                        }
                    }
                }
            }
            push_exponent(&mut out, &sig, false, b - a - 1);
        } else {
            push_range(&mut out, &v, a, b);
            out.push('.');
            if c == d {
                out.push('0');
            } else {
                push_range(&mut out, &v, c, d);
            }
            assert(out@ =~= i + seq!['.'] + (if f.len() == 0 { seq!['0'] } else { f }));
        }
    } else {
        let mut k: usize = c;
        proof {
            lemma_strip_leading(f);
        }
        while k < d && v[k] == '0'
            invariant
                c <= k <= d <= v@.len(),
                f == v@.subrange(c as int, d as int),
                forall|m: int| c <= m < k ==> v@[m] == '0',
                strip_leading_zeros(f) == strip_leading_zeros(v@.subrange(k as int, d as int)),
            decreases d - k,
        {
            assert(v@.subrange(k as int, d as int).drop_first() =~= v@.subrange(k + 1, d as int));
            k = k + 1;
        }
        let ghost sig = strip_leading_zeros(f);
        proof {
            let t = v@.subrange(k as int, d as int);
            if k < d {
                assert(t[0] != '0');
                assert(strip_leading_zeros(t) == t);
            } else {
                assert(t.len() == 0);
                assert(strip_leading_zeros(t) =~= t);
            }
        }
        assert(sig =~= v@.subrange(k as int, d as int));
        if k - c >= 4 {
            let mut digits: Vec<char> = Vec::new();
            push_range(&mut digits, &v, k, d);
            proof {
                assert(digits@ =~= sig);
                if k == d {
                    lemma_strip_trailing_last(f);
                    assert(f.len() > 0);
                    assert(f.last() != '0');
                    assert(f.last() == v@[d - 1]);
                }
            }
            push_exponent(&mut out, &digits, true, k - c + 1);
        } else {
            out.push('0');
            out.push('.');
            push_range(&mut out, &v, c, d);
            assert(out@ =~= seq!['0', '.'] + f);
        }
    }
    out
}

} // verus!
