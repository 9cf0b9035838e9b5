//! Symbol-mode LaTeX of tensor expressions: `\bm F^{\mathsf{T}} \bm F`,
//! `\bm A \otimes \bm B`, `\frac{\partial \bm C}{\partial \bm F}`, with
//! operands parenthesised by precedence (sums 1, products 2, atoms 3).
//!
//! Scalar factors are rendered outside this library; a [`ScalarTex`] table
//! hands over, for each scalar id, its LaTeX, its form as a tensor
//! coefficient, and the coefficient form of its negation when the scalar is
//! negative.

use vstd::prelude::*;
use crate::components::{paren, paren_spec};
use crate::tensor::{IndexModel, ScalarId, SetIndex, TensorExpr, TensorModel};
use crate::text::{concat_str, decimal, decimal_string};

verus! {

/// The LaTeX forms of one scalar expression.
#[derive(Debug, Clone)]
pub struct ScalarTex {
    pub id: ScalarId,
    /// The scalar as written on its own.
    pub latex: String,
    /// The scalar as the coefficient of a tensor (parenthesised as needed).
    pub coefficient: String,
    /// For a negative scalar, its negation as a coefficient.
    pub negated: Option<String>,
}

/// Mathematical model of a [`ScalarTex`].
pub struct TexModel {
    pub id: ScalarId,
    pub latex: Seq<char>,
    pub coefficient: Seq<char>,
    pub negated: Option<Seq<char>>,
}

pub open spec fn tex_model(s: ScalarTex) -> TexModel {
    TexModel {
        id: s.id,
        latex: s.latex@,
        coefficient: s.coefficient@,
        negated: match s.negated {
            Some(n) => Some(n@),
            None => None,
        },
    }
}

pub open spec fn table_view(v: Seq<ScalarTex>) -> Seq<TexModel> {
    v.map_values(|s: ScalarTex| tex_model(s))
}

/// The first entry of the table for `id`.
pub open spec fn lookup(tb: Seq<TexModel>, id: ScalarId) -> Option<TexModel>
    decreases tb.len(),
{
    if tb.len() == 0 {
        None
    } else if tb[0].id == id {
        Some(tb[0])
    } else {
        lookup(tb.drop_first(), id)
    }
}

/// The position of the first entry for `id`.
pub fn find_tex(table: &Vec<ScalarTex>, id: ScalarId) -> (r: Option<usize>)
    ensures
        match r {
            Some(i) => i < table@.len() && lookup(table_view(table@), id) == Some(tex_model(table@[i as int])),
            None => lookup(table_view(table@), id) is None,
        },
{
    let ghost tb = table_view(table@);
    assert(tb.skip(0) == tb);
    let mut i: usize = 0;
    while i < table.len()
        invariant
            tb == table_view(table@),
            i <= table@.len(),
            lookup(tb, id) == lookup(tb.skip(i as int), id),
        decreases table.len() - i,
    {
        assert(tb.skip(i as int)[0] == tb[i as int]);
        assert(tb.skip(i as int).drop_first() == tb.skip(i + 1));
        if table[i].id == id {
            return Some(i);
        }
        i = i + 1;
    }
    None
}

/// Every scalar factor of the expression has an entry in the table.
pub open spec fn scalars_listed(m: TensorModel, tb: Seq<TexModel>) -> bool
    decreases m,
{
    match m {
        TensorModel::ScalarMul(s, t) => lookup(tb, s) is Some && scalars_listed(*t, tb),
        TensorModel::Transpose(t) => scalars_listed(*t, tb),
        TensorModel::Inverse(t) => scalars_listed(*t, tb),
        TensorModel::InverseTranspose(t) => scalars_listed(*t, tb),
        TensorModel::Neg(t) => scalars_listed(*t, tb),
        TensorModel::Power { base, .. } => scalars_listed(*base, tb),
        TensorModel::SumIdx { body, .. } => scalars_listed(*body, tb),
        TensorModel::Diff { num, den, .. } => scalars_listed(*num, tb) && scalars_listed(*den, tb),
        TensorModel::MatMul(a, b) => scalars_listed(*a, tb) && scalars_listed(*b, tb),
        TensorModel::Outer(a, b) => scalars_listed(*a, tb) && scalars_listed(*b, tb),
        TensorModel::BoxTimes(a, b) => scalars_listed(*a, tb) && scalars_listed(*b, tb),
        TensorModel::Add(a, b) => scalars_listed(*a, tb) && scalars_listed(*b, tb),
        TensorModel::Sub(a, b) => scalars_listed(*a, tb) && scalars_listed(*b, tb),
        _ => true,
    }
}

/// Precedence of a tensor expression: sums 1, products 2, atoms 3.
pub open spec fn tprec(m: TensorModel) -> nat {
    match m {
        TensorModel::Add(..) => 1,
        TensorModel::Sub(..) => 1,
        TensorModel::SumIdx { .. } => 1,
        TensorModel::MatMul(..) => 2,
        TensorModel::ScalarMul(..) => 2,
        TensorModel::Neg(..) => 2,
        TensorModel::Outer(..) => 2,
        TensorModel::BoxTimes(..) => 2,
        _ => 3,
    }
}

pub fn tensor_precedence(expr: &TensorExpr) -> (n: u8)
    ensures
        n as nat == tprec(expr@),
{
    match expr {
        TensorExpr::Add(..) => 1,
        TensorExpr::Sub(..) => 1,
        TensorExpr::SumIdx { .. } => 1,
        TensorExpr::MatMul(..) => 2,
        TensorExpr::ScalarMul(..) => 2,
        TensorExpr::Neg(..) => 2,
        TensorExpr::Outer(..) => 2,
        TensorExpr::BoxTimes(..) => 2,
        _ => 3,
    }
}

/// `text`, parenthesised when the precedence of `m` is below `level`.
pub open spec fn wrap(m: TensorModel, level: nat, text: Seq<char>) -> Seq<char> {
    if tprec(m) < level {
        paren_spec(text)
    } else {
        text
    }
}

/// The LaTeX of a set index: its symbol, or its number.
pub open spec fn index_tex(i: IndexModel) -> Seq<char> {
    match i {
        IndexModel::Sym(s) => s,
        IndexModel::Num(k) => decimal(k),
    }
}

pub fn index_latex(i: &SetIndex) -> (s: String)
    ensures
        s@ == index_tex(crate::tensor::index_model(*i)),
{
    match i {
        SetIndex::Sym(name) => name.clone(),
        SetIndex::Num(k) => decimal_string(*k),
    }
}

/// The lower limit of a set sum: `a=1`, or `\substack{a=1 \\ a\ne b}` when
/// one index value is excluded.
pub open spec fn sum_lower(index: Seq<char>, exclude: Option<Seq<char>>) -> Seq<char> {
    match exclude {
        Some(ex) => "\\substack{"@ + index + "=1 \\\\ "@ + index + "\\ne "@ + ex + "}"@,
        None => index + "=1"@,
    }
}

pub fn sum_lower_latex(index: &str, exclude: &Option<String>) -> (s: String)
    ensures
        s@ == sum_lower(index@, crate::tensor::opt_text(*exclude)),
{
    match exclude {
        Some(ex) => {
            let mut s = concat_str("\\substack{", index);
            s.append("=1 \\\\ ");
            s.append(index);
            s.append("\\ne ");
            s.append(ex.as_str());
            s.append("}");
            s
        },
        None => concat_str(index, "=1"),
    }
}

/// Symbol-mode LaTeX of a tensor expression.
pub open spec fn render_spec(m: TensorModel, tb: Seq<TexModel>) -> Seq<char>
    decreases m, 1nat,
{
    match m {
        TensorModel::Var { latex, .. } => latex,
        TensorModel::SetElem { latex, index, .. } => "{"@ + latex + "}_{"@ + index_tex(index) + "}"@,
        TensorModel::Filled { latex, .. } => latex,
        TensorModel::SumIdx { index, range, exclude, body } => "\\sum_{"@ + sum_lower(index, exclude)
            + "}^{"@ + decimal(range) + "} "@ + render_spec(*body, tb),
        TensorModel::Transpose(t) => superscript_spec(*t, render_spec(*t, tb), "\\mathsf{T}"@),
        TensorModel::Inverse(t) => superscript_spec(*t, render_spec(*t, tb), "-1"@),
        TensorModel::InverseTranspose(t) => superscript_spec(*t, render_spec(*t, tb), "-\\mathsf{T}"@),
        TensorModel::Power { base, exp } => superscript_spec(*base, render_spec(*base, tb), decimal(exp)),
        TensorModel::Identity4 { .. } => "\\mathbb{I}"@,
        TensorModel::Diff { num, den, num_label } => "\\frac{\\partial "@ + match num_label {
            Some(l) => l,
            None => wrap(*num, 3, render_spec(*num, tb)),
        } + "}{\\partial "@ + render_spec(*den, tb) + "}"@,
        TensorModel::MatMul(a, b) => matmul_operand(*a, render_spec(*a, tb)) + " "@ + matmul_operand(
            *b,
            render_spec(*b, tb),
        ),
        TensorModel::Outer(a, b) => wrap(*a, 2, render_spec(*a, tb)) + " \\otimes "@ + wrap(
            *b,
            2,
            render_spec(*b, tb),
        ),
        TensorModel::BoxTimes(a, b) => wrap(*a, 3, render_spec(*a, tb)) + " \\boxtimes "@ + wrap(
            *b,
            3,
            render_spec(*b, tb),
        ),
        TensorModel::Add(a, b) => match negative_spec(*b, tb) {
            Some(r) => render_spec(*a, tb) + " - "@ + r,
            None => render_spec(*a, tb) + " + "@ + render_spec(*b, tb),
        },
        TensorModel::Sub(a, b) => render_spec(*a, tb) + " - "@ + wrap(*b, 2, render_spec(*b, tb)),
        TensorModel::ScalarMul(s, t) => coefficient_of(tb, s) + " \\, "@ + wrap(
            *t,
            2,
            render_spec(*t, tb),
        ),
        TensorModel::Neg(t) => "-"@ + wrap(*t, 2, render_spec(*t, tb)),
    }
}

/// The coefficient text of scalar `s`.
pub open spec fn coefficient_of(tb: Seq<TexModel>, s: ScalarId) -> Seq<char> {
    match lookup(tb, s) {
        Some(x) => x.coefficient,
        None => Seq::empty(),
    }
}

/// `base^{sup}`, the base parenthesised unless it is a variable or a filled
/// tensor.
pub open spec fn superscript_spec(t: TensorModel, text: Seq<char>, sup: Seq<char>) -> Seq<char> {
    (if t is Var || t is Filled {
        text
    } else {
        paren_spec(text)
    }) + "^{"@ + sup + "}"@
}

/// A factor of a matrix product, parenthesised when it is a sum or an outer
/// product (juxtaposition would misread `(N ⊗ N) T`).
pub open spec fn matmul_operand(t: TensorModel, text: Seq<char>) -> Seq<char> {
    if tprec(t) < 2 || t is Outer {
        paren_spec(text)
    } else {
        text
    }
}

/// For a negated term or a term with a negative scalar coefficient, the
/// LaTeX of its negation (so that `A + (-B)` shows as `A - B`).
pub open spec fn negative_spec(m: TensorModel, tb: Seq<TexModel>) -> Option<Seq<char>>
    decreases m, 0nat,
{
    match m {
        TensorModel::Neg(t) => Some(wrap(*t, 2, render_spec(*t, tb))),
        TensorModel::ScalarMul(s, t) => match lookup(tb, s) {
            Some(x) => match x.negated {
                Some(n) => Some(n + " \\, "@ + wrap(*t, 2, render_spec(*t, tb))),
                None => None,
            },
            None => None,
        },
        _ => None,
    }
}


pub open spec fn opt_view(o: Option<String>) -> Option<Seq<char>> {
    match o {
        Some(s) => Some(s@),
        None => None,
    }
}

fn wrap_text(t: &TensorExpr, level: u8, text: String) -> (s: String)
    ensures
        s@ == wrap(t@, level as nat, text@),
{
    if tensor_precedence(t) < level {
        paren(text)
    } else {
        text
    }
}

fn superscripted(t: &TensorExpr, text: String, sup: &str) -> (s: String)
    ensures
        s@ == superscript_spec(t@, text@, sup@),
{
    let base = match t {
        TensorExpr::Var { .. } => text,
        TensorExpr::Filled { .. } => text,
        _ => paren(text),
    };
    let mut s = concat_str(base.as_str(), "^{");
    s.append(sup);
    s.append("}");
    s
}

fn joined(a: String, sep: &str, b: String) -> (s: String)
    ensures
        s@ == a@ + sep@ + b@,
{
    let mut s = concat_str(a.as_str(), sep);
    s.append(b.as_str());
    s
}

/// Symbol-mode LaTeX of a tensor expression (see [`render_spec`]).
pub fn render_tensor(expr: &TensorExpr, table: &Vec<ScalarTex>) -> (s: String)
    requires
        scalars_listed(expr@, table_view(table@)),
    ensures
        s@ == render_spec(expr@, table_view(table@)),
    decreases expr, 1nat,
{
    let ghost tb = table_view(table@);
    match expr {
        TensorExpr::Var { latex, .. } => latex.clone(),
        TensorExpr::SetElem { latex, index, .. } => {
            let mut s = concat_str("{", latex.as_str());
            s.append("}_{");
            s.append(index_latex(index).as_str());
            s.append("}");
            s
        },
        TensorExpr::Filled { latex, .. } => latex.clone(),
        TensorExpr::SumIdx { index, range, exclude, body } => {
            let mut s = concat_str("\\sum_{", sum_lower_latex(index.as_str(), exclude).as_str());
            s.append("}^{");
            s.append(decimal_string(*range).as_str());
            s.append("} ");
            s.append(render_tensor(body, table).as_str());
            s
        },
        TensorExpr::Transpose(t) => superscripted(t, render_tensor(t, table), "\\mathsf{T}"),
        TensorExpr::Inverse(t) => superscripted(t, render_tensor(t, table), "-1"),
        TensorExpr::InverseTranspose(t) => superscripted(t, render_tensor(t, table), "-\\mathsf{T}"),
        TensorExpr::Power { base, exp } => {
            let d = decimal_string(*exp as usize);
            superscripted(base, render_tensor(base, table), d.as_str())
        },
        TensorExpr::Identity4 { .. } => String::from_str("\\mathbb{I}"),
        TensorExpr::Diff { num, den, num_label } => {
            let num_tex = match num_label {
                Some(l) => l.clone(),
                None => wrap_text(num, 3, render_tensor(num, table)),
            };
            let mut s = concat_str("\\frac{\\partial ", num_tex.as_str());
            s.append("}{\\partial ");
            s.append(render_tensor(den, table).as_str());
            s.append("}");
            s
        },
        TensorExpr::MatMul(a, b) => {
            let la = render_tensor(a, table);
            let lhs = if tensor_precedence(a) < 2 || matches!(**a, TensorExpr::Outer(..)) {
                paren(la)
            } else {
                la
            };
            let lb = render_tensor(b, table);
            let rhs = if tensor_precedence(b) < 2 || matches!(**b, TensorExpr::Outer(..)) {
                paren(lb)
            } else {
                lb
            };
            joined(lhs, " ", rhs)
        },
        TensorExpr::Outer(a, b) => {
            let lhs = wrap_text(a, 2, render_tensor(a, table));
            let rhs = wrap_text(b, 2, render_tensor(b, table));
            joined(lhs, " \\otimes ", rhs)
        },
        TensorExpr::BoxTimes(a, b) => {
            let lhs = wrap_text(a, 3, render_tensor(a, table));
            let rhs = wrap_text(b, 3, render_tensor(b, table));
            joined(lhs, " \\boxtimes ", rhs)
        },
        TensorExpr::Add(a, b) => {
            match render_negative_tensor(b, table) {
                Some(r) => joined(render_tensor(a, table), " - ", r),
                None => joined(render_tensor(a, table), " + ", render_tensor(b, table)),
            }
        },
        TensorExpr::Sub(a, b) => {
            let rhs = wrap_text(b, 2, render_tensor(b, table));
            joined(render_tensor(a, table), " - ", rhs)
        },
        TensorExpr::ScalarMul(sid, t) => {
            let coefficient = match find_tex(table, *sid) {
                Some(i) => table[i].coefficient.clone(),
                None => String::new(),
            };
            let t_tex = wrap_text(t, 2, render_tensor(t, table));
            joined(coefficient, " \\, ", t_tex)
        },
        TensorExpr::Neg(t) => concat_str("-", wrap_text(t, 2, render_tensor(t, table)).as_str()),
    }
}

/// For a negated term or one with a negative scalar coefficient, the LaTeX
/// of its negation (see [`negative_spec`]).
pub fn render_negative_tensor(expr: &TensorExpr, table: &Vec<ScalarTex>) -> (r: Option<String>)
    requires
        scalars_listed(expr@, table_view(table@)),
    ensures
        opt_view(r) == negative_spec(expr@, table_view(table@)),
    decreases expr, 0nat,
{
    match expr {
        TensorExpr::Neg(t) => Some(wrap_text(t, 2, render_tensor(t, table))),
        TensorExpr::ScalarMul(sid, t) => {
            match find_tex(table, *sid) {
                Some(i) => match &table[i].negated {
                    Some(n) => {
                        let t_tex = wrap_text(t, 2, render_tensor(t, table));
                        Some(joined(n.clone(), " \\, ", t_tex))
                    },
                    None => None,
                },
                None => None,
            }
        },
        _ => None,
    }
}

/// Symbol-mode LaTeX of a tensor expression.
pub fn tensor_to_latex(expr: &TensorExpr, table: &Vec<ScalarTex>) -> (s: String)
    requires
        scalars_listed(expr@, table_view(table@)),
    ensures
        s@ == render_spec(expr@, table_view(table@)),
{
    render_tensor(expr, table)
}


/// A sum or difference never loses its brackets as the operand of a
/// product: under a scalar coefficient, a negation, a subtraction (on the
/// right) or a tensor product, its LaTeX stands inside `\left( ... \right)`,
/// so `mu (A + B)` is not shown as `mu A + B`; an operand that binds at
/// least as tightly as a product stands bare after a coefficient.
pub proof fn law_sums_keep_brackets_under_products(s: ScalarId, a: TensorModel, t: TensorModel, tb: Seq<TexModel>)
    ensures
        (t is Add || t is Sub) ==> render_spec(TensorModel::ScalarMul(s, Box::new(t)), tb)
            == coefficient_of(tb, s) + " \\, "@ + ("\\left( "@ + render_spec(t, tb) + " \\right)"@),
        tprec(t) >= 2 ==> render_spec(TensorModel::ScalarMul(s, Box::new(t)), tb) == coefficient_of(tb, s)
            + " \\, "@ + render_spec(t, tb),
        (t is Add || t is Sub) ==> render_spec(TensorModel::Neg(Box::new(t)), tb) == "-"@ + ("\\left( "@
            + render_spec(t, tb) + " \\right)"@),
        (t is Add || t is Sub) ==> render_spec(TensorModel::Sub(Box::new(a), Box::new(t)), tb) == render_spec(
            a,
            tb,
        ) + " - "@ + ("\\left( "@ + render_spec(t, tb) + " \\right)"@),
        (t is Add || t is Sub) ==> render_spec(TensorModel::Outer(Box::new(t), Box::new(a)), tb) == (
        "\\left( "@ + render_spec(t, tb) + " \\right)"@) + " \\otimes "@ + wrap(a, 2, render_spec(a, tb)),
{
}


/// Transposes, inverses and powers are written as superscripts on their
/// base, which is bracketed unless it is a variable or a filled tensor; the
/// factors of a matrix product are bracketed when they are sums or tensor
/// products, and written side by side otherwise.
pub proof fn law_superscripts_and_products(a: TensorModel, b: TensorModel, n: nat, tb: Seq<TexModel>)
    ensures
        (a is Var || a is Filled) ==> render_spec(TensorModel::Transpose(Box::new(a)), tb) == render_spec(a, tb)
            + ("^{"@ + "\\mathsf{T}"@ + "}"@),
        (a is Var || a is Filled) ==> render_spec(TensorModel::Inverse(Box::new(a)), tb) == render_spec(a, tb)
            + ("^{"@ + "-1"@ + "}"@),
        !(a is Var || a is Filled) ==> render_spec(TensorModel::Transpose(Box::new(a)), tb) == ("\\left( "@
            + render_spec(a, tb) + " \\right)"@) + ("^{"@ + "\\mathsf{T}"@ + "}"@),
        (a is Var || a is Filled) ==> render_spec(TensorModel::Power { base: Box::new(a), exp: n }, tb)
            == render_spec(a, tb) + "^{"@ + decimal(n) + "}"@,
        (a is Var && b is Var) ==> render_spec(TensorModel::MatMul(Box::new(a), Box::new(b)), tb) == render_spec(
            a,
            tb,
        ) + " "@ + render_spec(b, tb),
        (a is Add || a is Sub || a is Outer) ==> render_spec(TensorModel::MatMul(Box::new(a), Box::new(b)), tb)
            == ("\\left( "@ + render_spec(a, tb) + " \\right)"@) + " "@ + matmul_operand(b, render_spec(b, tb)),
{
}

} // verus!
