//! Text of tensor components in component and block-component displays:
//! component bases (`\bm F` shows as `F_{ij}`), index instantiation for
//! fixed indices, Kronecker deltas, products and parenthesised sums, and
//! fresh names for summed indices.

use vstd::prelude::*;
use crate::checks::with_error;
use crate::error::{Error, ErrorModel};
use crate::notes::{trim, ws_start, ws_stop};
use crate::tensor::{TensorExpr, TensorModel, order_of, sized};
use crate::text::{chars_of, concat_str, contains_str, contains_text, decimal, decimal_string, join, join_strings, str_eq, strings_view};

verus! {

/// A single tensor component with abstract indices, e.g. `F_{mj}`, or
/// `F^{-1}_{mj}` when `inv` is set.
#[derive(Debug, Clone, PartialEq)]
pub struct Comp {
    pub base: String,
    pub inv: bool,
    pub indices: Vec<String>,
}

/// Bounds of the trimmed text `s[a..b]`.
pub fn trim_range(s: &Vec<char>, a: usize, b: usize) -> (r: (usize, usize))
    requires
        a <= b <= s@.len(),
    ensures
        a <= r.0 <= r.1 <= b,
        s@.subrange(r.0 as int, r.1 as int) == trim(s@.subrange(a as int, b as int)),
{
    let ta = ws_start(s, a, b);
    let tb = ws_stop(s, ta, b);
    let ghost t = s@.subrange(a as int, b as int);
    assert(t.subrange(ta - a, t.len() as int) == s@.subrange(ta as int, b as int));
    assert(s@.subrange(ta as int, b as int).subrange(0, (tb - ta) as int) == s@.subrange(
        ta as int,
        tb as int,
    ));
    (ta, tb)
}

/// `t` without a leading `\bm ` (or, failing that, `\bm`), if it has one.
pub open spec fn strip_bm(t: Seq<char>) -> Option<Seq<char>> {
    if t.len() >= 4 && t.take(4) == "\\bm "@ {
        Some(t.skip(4))
    } else if t.len() >= 3 && t.take(3) == "\\bm"@ {
        Some(t.skip(3))
    } else {
        None
    }
}

/// The base symbol of a tensor's LaTeX name: the trimmed name with a bold
/// prefix `\bm` removed (and what follows trimmed), unless nothing would be
/// left.
pub open spec fn component_base_spec(latex: Seq<char>) -> Seq<char> {
    let t = trim(latex);
    if strip_bm(t) is Some && trim(strip_bm(t)->0).len() > 0 {
        trim(strip_bm(t)->0)
    } else {
        t
    }
}

/// Strips a leading `\bm ` from a tensor's LaTeX name so components render
/// as `F_{ij}` rather than `\bm F_{ij}`.
pub fn component_base(latex: &str) -> (r: &str)
    ensures
        r@ == component_base_spec(latex@),
{
    let cs = chars_of(latex);
    let (a, b) = trim_range(&cs, 0, cs.len());
    let ghost t = latex@.subrange(a as int, b as int);
    proof {
        reveal_strlit("\\bm ");
        reveal_strlit("\\bm");
        assert(cs@.subrange(0, cs@.len() as int) == latex@);
    }
    let mut start: usize = a;
    let mut stripped = false;
    if b - a >= 4 && cs[a] == '\\' && cs[a + 1] == 'b' && cs[a + 2] == 'm' && cs[a + 3] == ' ' {
        assert(t.take(4) == "\\bm "@);
        start = a + 4;
        stripped = true;
    } else if b - a >= 3 && cs[a] == '\\' && cs[a + 1] == 'b' && cs[a + 2] == 'm' {
        assert(t.take(3) == "\\bm"@);
        assert(!(t.len() >= 4 && t.take(4) == "\\bm "@)) by {
            if t.len() >= 4 && t.take(4) == "\\bm "@ {
                assert(t.take(4)[3] == ' ');
            }
        }
        start = a + 3;
        stripped = true;
    } else {
        assert(strip_bm(t) is None) by {
            if t.len() >= 4 && t.take(4) == "\\bm "@ {
                assert(t.take(4)[0] == '\\' && t.take(4)[1] == 'b' && t.take(4)[2] == 'm');
                assert(t.take(4)[3] == ' ');
            }
            if t.len() >= 3 && t.take(3) == "\\bm"@ {
                assert(t.take(3)[0] == '\\' && t.take(3)[1] == 'b' && t.take(3)[2] == 'm');
            }
        }
    }
    if stripped {
        assert(strip_bm(t) == Some(cs@.subrange(start as int, b as int)));
        let (c, d) = trim_range(&cs, start, b);
        if c < d {
            return latex.substring_char(c, d);
        }
    }
    latex.substring_char(a, b)
}

/// [`component_base`] as an owned string.
pub fn component_base_latex(latex: &str) -> (s: String)
    ensures
        s@ == component_base_spec(latex@),
{
    String::from_str(component_base(latex))
}

/// Names bound to fixed index values, as plain values.
pub open spec fn fixed_view(fixed: Seq<(&str, usize)>) -> Seq<(Seq<char>, usize)> {
    fixed.map_values(|p: (&str, usize)| (p.0@, p.1))
}

/// The value the first binding of `idx` in `fixed` gives it, if any.
pub open spec fn fixed_lookup(fixed: Seq<(Seq<char>, usize)>, idx: Seq<char>) -> Option<usize>
    decreases fixed.len(),
{
    if fixed.len() == 0 {
        None
    } else if fixed[0].0 == idx {
        Some(fixed[0].1)
    } else {
        fixed_lookup(fixed.drop_first(), idx)
    }
}

pub fn fixed_value(idx: &str, fixed: &[(&str, usize)]) -> (r: Option<usize>)
    ensures
        r == fixed_lookup(fixed_view(fixed@), idx@),
{
    let ghost fv = fixed_view(fixed@);
    assert(fv.skip(0) == fv);
    let mut i: usize = 0;
    while i < fixed.len()
        invariant
            fv == fixed_view(fixed@),
            i <= fixed@.len(),
            fixed_lookup(fv, idx@) == fixed_lookup(fv.skip(i as int), idx@),
        decreases fixed.len() - i,
    {
        let (name, value) = fixed[i];
        assert(fv.skip(i as int)[0] == fv[i as int]);
        assert(fv.skip(i as int).drop_first() == fv.skip(i + 1));
        if str_eq(name, idx) {
            return Some(value);
        }
        i = i + 1;
    }
    None
}

/// An index as written: its fixed value, or its own name when unbound.
pub open spec fn instantiate_spec(idx: Seq<char>, fixed: Seq<(Seq<char>, usize)>) -> Seq<char> {
    match fixed_lookup(fixed, idx) {
        Some(v) => decimal(v as nat),
        None => idx,
    }
}

pub fn instantiate_index(idx: &str, fixed: &[(&str, usize)]) -> (s: String)
    ensures
        s@ == instantiate_spec(idx@, fixed_view(fixed@)),
{
    match fixed_value(idx, fixed) {
        Some(v) => decimal_string(v),
        None => String::from_str(idx),
    }
}

/// The instantiated indices written one after another.
pub open spec fn indices_spec(indices: Seq<Seq<char>>, fixed: Seq<(Seq<char>, usize)>) -> Seq<char>
    decreases indices.len(),
{
    if indices.len() == 0 {
        Seq::empty()
    } else {
        indices_spec(indices.drop_last(), fixed) + instantiate_spec(indices.last(), fixed)
    }
}

pub open spec fn strs_view(v: Seq<&str>) -> Seq<Seq<char>> {
    v.map_values(|s: &str| s@)
}

pub fn join_indices(indices: &[&str], fixed: &[(&str, usize)]) -> (s: String)
    ensures
        s@ == indices_spec(strs_view(indices@), fixed_view(fixed@)),
{
    let ghost iv = strs_view(indices@);
    let mut s = String::new();
    let mut i: usize = 0;
    while i < indices.len()
        invariant
            iv == strs_view(indices@),
            i <= indices@.len(),
            s@ == indices_spec(iv.take(i as int), fixed_view(fixed@)),
        decreases indices.len() - i,
    {
        assert(iv.take(i + 1).drop_last() == iv.take(i as int));
        let part = instantiate_index(indices[i], fixed);
        s.append(part.as_str());
        i = i + 1;
    }
    assert(iv.take(indices@.len() as int) == iv);
    s
}

/// `\delta_{ab}` with fixed indices instantiated.
pub open spec fn delta_spec(a: Seq<char>, b: Seq<char>, fixed: Seq<(Seq<char>, usize)>) -> Seq<char> {
    "\\delta_{"@ + instantiate_spec(a, fixed) + instantiate_spec(b, fixed) + "}"@
}

pub fn delta_latex(a: &str, b: &str, fixed: &[(&str, usize)]) -> (s: String)
    ensures
        s@ == delta_spec(a@, b@, fixed_view(fixed@)),
{
    let x = instantiate_index(a, fixed);
    let y = instantiate_index(b, fixed);
    let mut s = concat_str("\\delta_{", x.as_str());
    s.append(y.as_str());
    s.append("}");
    s
}

/// `{F}_{ij}`: the component base with the instantiated indices.
pub open spec fn component_symbol_spec(
    latex: Seq<char>,
    indices: Seq<Seq<char>>,
    fixed: Seq<(Seq<char>, usize)>,
) -> Seq<char> {
    "{"@ + component_base_spec(latex) + "}_{"@ + indices_spec(indices, fixed) + "}"@
}

pub fn component_symbol_latex(latex: &str, indices: &[&str], fixed: &[(&str, usize)]) -> (s: String)
    ensures
        s@ == component_symbol_spec(latex@, strs_view(indices@), fixed_view(fixed@)),
{
    let base = component_base(latex);
    let ix = join_indices(indices, fixed);
    let mut s = concat_str("{", base);
    s.append("}_{");
    s.append(ix.as_str());
    s.append("}");
    s
}


/// The factors of a product that are not the literal `1`.
pub open spec fn non_unit_factors(parts: Seq<Seq<char>>) -> Seq<Seq<char>>
    decreases parts.len(),
{
    if parts.len() == 0 {
        Seq::empty()
    } else if parts.last() == "1"@ {
        non_unit_factors(parts.drop_last())
    } else {
        non_unit_factors(parts.drop_last()).push(parts.last())
    }
}

/// A product of LaTeX factors separated by thin spaces, unit factors left
/// out.
pub open spec fn join_product_spec(parts: Seq<Seq<char>>) -> Seq<char> {
    join(non_unit_factors(parts), " \\, "@)
}

pub fn join_product(parts: Vec<String>) -> (s: String)
    ensures
        s@ == join_product_spec(strings_view(parts@)),
{
    let ghost pv = strings_view(parts@);
    let mut kept: Vec<String> = Vec::new();
    let mut i: usize = 0;
    while i < parts.len()
        invariant
            pv == strings_view(parts@),
            i <= parts@.len(),
            strings_view(kept@) == non_unit_factors(pv.take(i as int)),
        decreases parts.len() - i,
    {
        assert(pv.take(i + 1).drop_last() == pv.take(i as int));
        assert(pv.take(i + 1).last() == parts@[i as int]@);
        if !str_eq(parts[i].as_str(), "1") {
            let ghost before = strings_view(kept@);
            kept.push(parts[i].clone());
            assert(strings_view(kept@) =~= before.push(pv[i as int]));
        }
        i = i + 1;
    }
    assert(pv.take(parts@.len() as int) == pv);
    join_strings(&kept, " \\, ")
}

/// `\left( .. \right)` around `tex`.
pub open spec fn paren_spec(tex: Seq<char>) -> Seq<char> {
    "\\left( "@ + tex + " \\right)"@
}

pub fn paren(tex: String) -> (s: String)
    ensures
        s@ == paren_spec(tex@),
{
    let mut s = concat_str("\\left( ", tex.as_str());
    s.append(" \\right)");
    s
}

/// `tex` parenthesised when it is a sum or difference at the top (it holds
/// ` + ` or ` - `).
pub open spec fn paren_if_sum_spec(tex: Seq<char>) -> Seq<char> {
    if contains_text(tex, " + "@) || contains_text(tex, " - "@) {
        paren_spec(tex)
    } else {
        tex
    }
}

pub fn paren_if_sum(tex: String) -> (s: String)
    ensures
        s@ == paren_if_sum_spec(tex@),
{
    if contains_str(tex.as_str(), " + ") || contains_str(tex.as_str(), " - ") {
        paren(tex)
    } else {
        tex
    }
}

/// The name of the `n`-th bound (summed) index: `k`, `l`, `p`, `q`, `r`,
/// `s`, then `k_{6}`, `k_{7}`, ...
pub open spec fn bound_name(n: nat) -> Seq<char> {
    if n == 0 {
        "k"@
    } else if n == 1 {
        "l"@
    } else if n == 2 {
        "p"@
    } else if n == 3 {
        "q"@
    } else if n == 4 {
        "r"@
    } else if n == 5 {
        "s"@
    } else {
        "k_{"@ + decimal(n) + "}"@
    }
}

/// A fresh bound index name; advances the counter.
pub fn fresh_bound(counter: &mut usize) -> (name: String)
    requires
        *old(counter) < usize::MAX,
    ensures
        *final(counter) == *old(counter) + 1,
        name@ == bound_name(*old(counter) as nat),
{
    let n = *counter;
    let name = if n == 0 {
        String::from_str("k")
    } else if n == 1 {
        String::from_str("l")
    } else if n == 2 {
        String::from_str("p")
    } else if n == 3 {
        String::from_str("q")
    } else if n == 4 {
        String::from_str("r")
    } else if n == 5 {
        String::from_str("s")
    } else {
        let d = decimal_string(n);
        let mut t = concat_str("k_{", d.as_str());
        t.append("}");
        t
    };
    *counter = n + 1;
    name
}

proof fn lemma_decimal_len(n: nat)
    ensures
        decimal(n).len() >= 1,
        n >= 10 ==> decimal(n).len() >= 2,
    decreases n,
{
    if n >= 10 {
        lemma_decimal_len(n / 10);
    }
}

proof fn lemma_digit_char_injective(a: nat, b: nat)
    requires
        a < 10,
        b < 10,
        crate::text::digit_char(a) == crate::text::digit_char(b),
    ensures
        a == b,
{
    assert(crate::text::digit_char(a) as u32 == 48 + a);
    assert(crate::text::digit_char(b) as u32 == 48 + b);
}

/// Distinct numbers have distinct decimal texts.
pub proof fn lemma_decimal_injective(a: nat, b: nat)
    requires
        decimal(a) == decimal(b),
    ensures
        a == b,
    decreases a,
{
    lemma_decimal_len(a);
    lemma_decimal_len(b);
    if a < 10 && b < 10 {
        assert(decimal(a) == seq![crate::text::digit_char(a)]);
        assert(decimal(b) == seq![crate::text::digit_char(b)]);
        assert(seq![crate::text::digit_char(a)][0] == crate::text::digit_char(a));
        assert(seq![crate::text::digit_char(b)][0] == crate::text::digit_char(b));
        assert(decimal(a)[0] == decimal(b)[0]);
        lemma_digit_char_injective(a, b);
    } else if a >= 10 && b >= 10 {
        let da = decimal(a);
        let db = decimal(b);
        assert(da.drop_last() == decimal(a / 10));
        assert(db.drop_last() == decimal(b / 10));
        assert(da.last() == db.last());
        assert(da.last() == crate::text::digit_char(a % 10));
        assert(db.last() == crate::text::digit_char(b % 10));
        lemma_digit_char_injective(a % 10, b % 10);
        lemma_decimal_injective(a / 10, b / 10);
        assert(a == 10 * (a / 10) + a % 10) by (nonlinear_arith);
        assert(b == 10 * (b / 10) + b % 10) by (nonlinear_arith);
    } else {
        assert(decimal(a).len() != decimal(b).len());
    }
}

/// Successive counters never produce the same bound index name, so every
/// bound index introduced while expanding a component is fresh.
pub proof fn law_fresh_bound_names_distinct(m: nat, n: nat)
    requires
        m != n,
    ensures
        bound_name(m) != bound_name(n),
{
    reveal_strlit("k");
    reveal_strlit("l");
    reveal_strlit("p");
    reveal_strlit("q");
    reveal_strlit("r");
    reveal_strlit("s");
    reveal_strlit("k_{");
    reveal_strlit("}");
    lemma_decimal_len(m);
    lemma_decimal_len(n);
    if m >= 6 && n >= 6 {
        if bound_name(m) == bound_name(n) {
            let bm = bound_name(m);
            assert(bm.len() == 3 + decimal(m).len() + 1);
            assert(decimal(m) == bm.subrange(3, bm.len() - 1));
            assert(decimal(n) == bound_name(n).subrange(3, bound_name(n).len() - 1));
            lemma_decimal_injective(m, n);
        }
    } else if m < 6 && n < 6 {
        assert(bound_name(m)[0] != bound_name(n)[0]);
    } else {
        assert(bound_name(m).len() != bound_name(n).len());
    }
}

/// The name and LaTeX of the component symbol `F_{ij}` (1-based) of a
/// declared tensor, for 0-based `i`, `j`.
pub open spec fn indexed_symbol_spec(latex: Seq<char>, i: nat, j: nat) -> (Seq<char>, Seq<char>) {
    let base = component_base_spec(latex);
    (
        base + "_"@ + decimal(i + 1) + decimal(j + 1),
        base + "_{"@ + decimal(i + 1) + decimal(j + 1) + "}"@,
    )
}

pub fn indexed_symbol(latex: &str, i: usize, j: usize) -> (r: (String, String))
    requires
        i < usize::MAX,
        j < usize::MAX,
    ensures
        r.0@ == indexed_symbol_spec(latex@, i as nat, j as nat).0,
        r.1@ == indexed_symbol_spec(latex@, i as nat, j as nat).1,
{
    let base = component_base(latex);
    let di = decimal_string(i + 1);
    let dj = decimal_string(j + 1);
    let mut name = concat_str(base, "_");
    name.append(di.as_str());
    name.append(dj.as_str());
    let mut tex = concat_str(base, "_{");
    tex.append(di.as_str());
    tex.append(dj.as_str());
    tex.append("}");
    (name, tex)
}


pub open spec fn filled_vector_message() -> Seq<char> {
    "component expansion of vectors requires component-filled vectors (e.g. from Spec_Decomp); use mode=symbol"@
}

/// Whether an order-1 operand can be expanded entrywise: only a
/// component-filled vector can.
pub open spec fn expandable1_spec(m: TensorModel) -> Result<(), Seq<char>> {
    match m {
        TensorModel::Filled { order, .. } => if order == 1 {
            Ok(())
        } else {
            Err(filled_vector_message())
        },
        _ => Err(filled_vector_message()),
    }
}

pub fn expandable1(expr: &TensorExpr) -> (r: Result<(), Error>)
    ensures
        unit_result_view(r) == with_error(expandable1_spec(expr@)),
{
    match expr {
        TensorExpr::Filled { order, .. } => {
            if *order == 1 {
                return Ok(());
            }
        },
        _ => {},
    }
    Err(
        Error::msg(
            String::from_str(
                "component expansion of vectors requires component-filled vectors (e.g. from Spec_Decomp); use mode=symbol",
            ),
        ),
    )
}

pub open spec fn unit_result_view(r: Result<(), Error>) -> Result<(), ErrorModel> {
    match r {
        Ok(_) => Ok(()),
        Err(e) => Err(e@),
    }
}

/// Whether a second-order expression can be expanded entry by entry, or
/// why not: inverses, nested derivatives, fourth-order identities and `⊠`
/// products, outer products other than of two filled vectors, set
/// elements and sums, and filled tensors not of order 2 have no entrywise
/// form.
pub open spec fn expandable_spec(m: TensorModel) -> Result<(), Seq<char>>
    decreases m,
{
    match m {
        TensorModel::Inverse(_) => Err(
            "component expansion of tensor inverses is not supported in this phase; use mode=symbol"@,
        ),
        TensorModel::InverseTranspose(_) => Err(
            "component expansion of tensor inverses is not supported in this phase; use mode=symbol"@,
        ),
        TensorModel::Diff { .. } => Err(
            "use dCdF.show(components) on a derivative variable; nested derivative nodes inside expressions cannot be expanded"@,
        ),
        TensorModel::Identity4 { .. } => Err(
            "component expansion of fourth-order identity tensors is not supported in matrix mode; use mode=symbol"@,
        ),
        TensorModel::Outer(a, b) => if order_of(*a) == 1 && order_of(*b) == 1 {
            match expandable1_spec(*a) {
                Ok(_) => expandable1_spec(*b),
                Err(e) => Err(e),
            }
        } else {
            Err("component expansion of outer products is not supported yet; use mode=symbol"@)
        },
        TensorModel::BoxTimes(..) => Err(
            "component expansion of fourth-order ⊠ products is not supported in matrix mode; use mode=symbol"@,
        ),
        TensorModel::SetElem { .. } => Err(
            "component expansion of set elements and spectral sums is not supported in matrix mode; use mode=symbol"@,
        ),
        TensorModel::SumIdx { .. } => Err(
            "component expansion of set elements and spectral sums is not supported in matrix mode; use mode=symbol"@,
        ),
        TensorModel::Var { .. } => Ok(()),
        TensorModel::Power { base, .. } => expandable_spec(*base),
        TensorModel::Filled { order, .. } => if order == 2 {
            Ok(())
        } else {
            Err("matrix mode displays second-order tensors; this is not order 2"@)
        },
        TensorModel::Transpose(t) => expandable_spec(*t),
        TensorModel::ScalarMul(_, t) => expandable_spec(*t),
        TensorModel::Neg(t) => expandable_spec(*t),
        TensorModel::MatMul(a, b) => match expandable_spec(*a) {
            Ok(_) => expandable_spec(*b),
            Err(e) => Err(e),
        },
        TensorModel::Add(a, b) => match expandable_spec(*a) {
            Ok(_) => expandable_spec(*b),
            Err(e) => Err(e),
        },
        TensorModel::Sub(a, b) => match expandable_spec(*a) {
            Ok(_) => expandable_spec(*b),
            Err(e) => Err(e),
        },
    }
}

fn err_text(m: &str) -> (r: Result<(), Error>)
    ensures
        unit_result_view(r) == Err::<(), ErrorModel>(ErrorModel { message: m@, line: None }),
{
    Err(Error::msg(String::from_str(m)))
}

/// Checks the whole tree for nodes that have no entrywise expansion.
pub fn expandable(expr: &TensorExpr) -> (r: Result<(), Error>)
    requires
        sized(expr@),
    ensures
        unit_result_view(r) == with_error(expandable_spec(expr@)),
    decreases expr,
{
    match expr {
        TensorExpr::Inverse(_) => err_text(
            "component expansion of tensor inverses is not supported in this phase; use mode=symbol",
        ),
        TensorExpr::InverseTranspose(_) => err_text(
            "component expansion of tensor inverses is not supported in this phase; use mode=symbol",
        ),
        TensorExpr::Diff { .. } => err_text(
            "use dCdF.show(components) on a derivative variable; nested derivative nodes inside expressions cannot be expanded",
        ),
        TensorExpr::Identity4 { .. } => err_text(
            "component expansion of fourth-order identity tensors is not supported in matrix mode; use mode=symbol",
        ),
        TensorExpr::Outer(a, b) => {
            if a.order() == 1 && b.order() == 1 {
                expandable1(a)?;
                expandable1(b)
            } else {
                err_text("component expansion of outer products is not supported yet; use mode=symbol")
            }
        },
        TensorExpr::BoxTimes(..) => err_text(
            "component expansion of fourth-order ⊠ products is not supported in matrix mode; use mode=symbol",
        ),
        TensorExpr::SetElem { .. } => err_text(
            "component expansion of set elements and spectral sums is not supported in matrix mode; use mode=symbol",
        ),
        TensorExpr::SumIdx { .. } => err_text(
            "component expansion of set elements and spectral sums is not supported in matrix mode; use mode=symbol",
        ),
        TensorExpr::Var { .. } => Ok(()),
        TensorExpr::Power { base, .. } => expandable(base),
        TensorExpr::Filled { order, .. } => {
            if *order == 2 {
                Ok(())
            } else {
                err_text("matrix mode displays second-order tensors; this is not order 2")
            }
        },
        TensorExpr::Transpose(t) => expandable(t),
        TensorExpr::ScalarMul(_, t) => expandable(t),
        TensorExpr::Neg(t) => expandable(t),
        TensorExpr::MatMul(a, b) => {
            expandable(a)?;
            expandable(b)
        },
        TensorExpr::Add(a, b) => {
            expandable(a)?;
            expandable(b)
        },
        TensorExpr::Sub(a, b) => {
            expandable(a)?;
            expandable(b)
        },
    }
}

/// Why a non-second-order tensor has no component matrix.
pub open spec fn component_order_message(order: nat) -> Seq<char> {
    "component expansion requires a second-order tensor, got order "@ + decimal(order)
        + "; higher-order display (block_components) is not part of the MVP"@
}

/// The checks made before a component matrix is built: a second-order
/// tensor whose every node has an entrywise expansion.
pub fn check_component_matrix(expr: &TensorExpr) -> (r: Result<(), Error>)
    requires
        sized(expr@),
    ensures
        unit_result_view(r) == (if order_of(expr@) != 2 {
            Err::<(), ErrorModel>(ErrorModel { message: component_order_message(order_of(expr@)), line: None })
        } else {
            with_error(expandable_spec(expr@))
        }),
{
    let n = expr.order();
    if n != 2 {
        let mut m = concat_str("component expansion requires a second-order tensor, got order ", decimal_string(n).as_str());
        m.append("; higher-order display (block_components) is not part of the MVP");
        return Err(Error::msg(m));
    }
    expandable(expr)
}

} // verus!
