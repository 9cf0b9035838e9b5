//! The `Sum(body, a)` builtin on tensor summands: its arguments, and the
//! range of the index `a`, read off the first element of a declared set that
//! the summand indexes with `a` outside an inner sum over `a`.
//!
//! Scalar factors and filled entries are symbolic expressions kept outside
//! this library; for them the caller supplies, per scalar id, the size of
//! the first set whose element they index with `a`.

use vstd::prelude::*;
use std::rc::Rc;
use crate::ast::{Expr, ExprModel, exprs_model, lemma_exprs_model_index};
use crate::error::{Error, ErrorModel};
use crate::tensor::{copy_tensor, IndexModel, ScalarId, SetIndex, TensorExpr, TensorModel};
use crate::text::{concat_str, str_eq};

verus! {

broadcast use vstd::std_specs::vec::axiom_vec_decreases_to_view;

/// The index range a scalar contributes: the first entry for its id.
pub open spec fn scalar_range(ranges: Seq<(ScalarId, usize)>, s: ScalarId) -> Option<nat>
    decreases ranges.len(),
{
    if ranges.len() == 0 {
        None
    } else if ranges[0].0 == s {
        Some(ranges[0].1 as nat)
    } else {
        scalar_range(ranges.drop_first(), s)
    }
}

/// The range of the first filled entry that has one.
pub open spec fn entries_range(entries: Seq<ScalarId>, ranges: Seq<(ScalarId, usize)>) -> Option<
    nat,
>
    decreases entries.len(),
{
    if entries.len() == 0 {
        None
    } else {
        match scalar_range(ranges, entries[0]) {
            Some(r) => Some(r),
            None => entries_range(entries.drop_first(), ranges),
        }
    }
}

pub open spec fn or_else(a: Option<nat>, b: Option<nat>) -> Option<nat> {
    match a {
        Some(x) => Some(x),
        None => b,
    }
}

/// The size of the first set whose element `t` indexes with `idx`, in
/// left-to-right order, not looking inside sums over `idx` itself.
pub open spec fn index_range(t: TensorModel, idx: Seq<char>, ranges: Seq<(ScalarId, usize)>) -> Option<
    nat,
>
    decreases t,
{
    match t {
        TensorModel::SetElem { index, set_dim, .. } => match index {
            IndexModel::Sym(i) => if i == idx {
                Some(set_dim)
            } else {
                None
            },
            IndexModel::Num(_) => None,
        },
        TensorModel::Var { .. } => None,
        TensorModel::Identity4 { .. } => None,
        TensorModel::Filled { entries, .. } => entries_range(entries, ranges),
        TensorModel::Transpose(a) => index_range(*a, idx, ranges),
        TensorModel::Inverse(a) => index_range(*a, idx, ranges),
        TensorModel::InverseTranspose(a) => index_range(*a, idx, ranges),
        TensorModel::Neg(a) => index_range(*a, idx, ranges),
        TensorModel::Power { base, .. } => index_range(*base, idx, ranges),
        TensorModel::Diff { num, den, .. } => or_else(
            index_range(*num, idx, ranges),
            index_range(*den, idx, ranges),
        ),
        TensorModel::MatMul(a, b) => or_else(index_range(*a, idx, ranges), index_range(*b, idx, ranges)),
        TensorModel::Add(a, b) => or_else(index_range(*a, idx, ranges), index_range(*b, idx, ranges)),
        TensorModel::Sub(a, b) => or_else(index_range(*a, idx, ranges), index_range(*b, idx, ranges)),
        TensorModel::Outer(a, b) => or_else(index_range(*a, idx, ranges), index_range(*b, idx, ranges)),
        TensorModel::BoxTimes(a, b) => or_else(
            index_range(*a, idx, ranges),
            index_range(*b, idx, ranges),
        ),
        TensorModel::SumIdx { index, body, .. } => if index == idx {
            None
        } else {
            index_range(*body, idx, ranges)
        },
        TensorModel::ScalarMul(s, a) => or_else(scalar_range(ranges, s), index_range(*a, idx, ranges)),
    }
}

pub fn lookup_scalar_range(ranges: &Vec<(ScalarId, usize)>, s: ScalarId) -> (r: Option<usize>)
    ensures
        match r {
            Some(x) => scalar_range(ranges@, s) == Some(x as nat),
            None => scalar_range(ranges@, s) is None,
        },
{
    let mut i: usize = 0;
    assert(ranges@.skip(0) =~= ranges@);
    while i < ranges.len()
        invariant
            i <= ranges.len(),
            scalar_range(ranges@, s) == scalar_range(ranges@.skip(i as int), s),
        decreases ranges.len() - i,
    {
        assert(ranges@.skip(i as int).drop_first() =~= ranges@.skip(i + 1));
        if ranges[i].0 == s {
            return Some(ranges[i].1);
        }
        i = i + 1;
    }
    None
}

fn first_entry_range(entries: &Vec<ScalarId>, ranges: &Vec<(ScalarId, usize)>) -> (r: Option<usize>)
    ensures
        match r {
            Some(x) => entries_range(entries@, ranges@) == Some(x as nat),
            None => entries_range(entries@, ranges@) is None,
        },
{
    let mut i: usize = 0;
    assert(entries@.skip(0) =~= entries@);
    while i < entries.len()
        invariant
            i <= entries.len(),
            entries_range(entries@, ranges@) == entries_range(entries@.skip(i as int), ranges@),
        decreases entries.len() - i,
    {
        assert(entries@.skip(i as int).drop_first() =~= entries@.skip(i + 1));
        match lookup_scalar_range(ranges, entries[i]) {
            Some(r) => {
                return Some(r);
            },
            None => {},
        }
        i = i + 1;
    }
    None
}

pub open spec fn opt_nat(o: Option<usize>) -> Option<nat> {
    match o {
        Some(x) => Some(x as nat),
        None => None,
    }
}

fn or_else_exec(a: Option<usize>, b: Option<usize>) -> (r: Option<usize>)
    ensures
        opt_nat(r) == or_else(opt_nat(a), opt_nat(b)),
{
    match a {
        Some(x) => Some(x),
        None => b,
    }
}

/// The range of the index `idx` in `t` (see [`index_range`]).
pub fn tensor_index_range(t: &TensorExpr, idx: &str, ranges: &Vec<(ScalarId, usize)>) -> (r: Option<
    usize,
>)
    ensures
        opt_nat(r) == index_range(t@, idx@, ranges@),
    decreases t,
{
    match t {
        TensorExpr::SetElem { index, set_dim, .. } => match index {
            SetIndex::Sym(i) => if str_eq(i.as_str(), idx) {
                Some(*set_dim)
            } else {
                None
            },
            SetIndex::Num(_) => None,
        },
        TensorExpr::Var { .. } | TensorExpr::Identity4 { .. } => None,
        TensorExpr::Filled { entries, .. } => first_entry_range(entries, ranges),
        TensorExpr::Transpose(a) => tensor_index_range(a, idx, ranges),
        TensorExpr::Inverse(a) => tensor_index_range(a, idx, ranges),
        TensorExpr::InverseTranspose(a) => tensor_index_range(a, idx, ranges),
        TensorExpr::Neg(a) => tensor_index_range(a, idx, ranges),
        TensorExpr::Power { base, .. } => tensor_index_range(base, idx, ranges),
        TensorExpr::Diff { num, den, .. } => {
            let x = tensor_index_range(num, idx, ranges);
            if x.is_some() {
                x
            } else {
                tensor_index_range(den, idx, ranges)
            }
        },
        TensorExpr::MatMul(a, b) | TensorExpr::Add(a, b) | TensorExpr::Sub(a, b) | TensorExpr::Outer(
            a,
            b,
        ) | TensorExpr::BoxTimes(a, b) => {
            let x = tensor_index_range(a, idx, ranges);
            if x.is_some() {
                x
            } else {
                tensor_index_range(b, idx, ranges)
            }
        },
        TensorExpr::SumIdx { index, body, .. } => if str_eq(index.as_str(), idx) {
            None
        } else {
            tensor_index_range(body, idx, ranges)
        },
        TensorExpr::ScalarMul(s, a) => {
            let x = lookup_scalar_range(ranges, *s);
            if x.is_some() {
                x
            } else {
                tensor_index_range(a, idx, ranges)
            }
        },
    }
}

pub open spec fn sum_arity_message() -> Seq<char> {
    "`Sum` expects two arguments: Sum(<expr>, <index>)"@
}

pub open spec fn sum_index_message() -> Seq<char> {
    "the second argument of `Sum` is an index name"@
}

/// The index name of a call `Sum(body, a)`: exactly two positional
/// arguments and no keywords, the second a bare name.
pub open spec fn sum_index_spec(args: Seq<ExprModel>, nkwargs: nat) -> Result<Seq<char>, Seq<char>> {
    if args.len() != 2 || nkwargs != 0 {
        Err(sum_arity_message())
    } else {
        match args[1] {
            ExprModel::Ident(name) => Ok(name),
            _ => Err(sum_index_message()),
        }
    }
}

/// The index name a `Sum` call sums over (see [`sum_index_spec`]).
pub fn sum_index(args: &Vec<Expr>, kwargs: &Vec<(String, Expr)>) -> (r: Result<String, Error>)
    ensures
        match sum_index_spec(exprs_model(args@), kwargs@.len()) {
            Ok(name) => r is Ok && r->Ok_0@ == name,
            Err(m) => r is Err && r->Err_0@ == (ErrorModel { message: m, line: None }),
        },
{
    proof {
        lemma_exprs_model_index(args@);
    }
    if args.len() != 2 || kwargs.len() != 0 {
        return Err(Error::msg(String::from_str("`Sum` expects two arguments: Sum(<expr>, <index>)")));
    }
    match &args[1] {
        Expr::Ident(name) => Ok(name.clone()),
        _ => Err(Error::msg(String::from_str("the second argument of `Sum` is an index name"))),
    }
}

pub open spec fn missing_index_message(index: Seq<char>) -> Seq<char> {
    "the summand does not mention any set element with index `"@ + index + "`"@
}

/// `Σ_index body` over the range [`index_range`] finds, or the error when
/// the summand mentions no element indexed by `index`.
pub fn sum_over(body: &TensorExpr, index: &str, ranges: &Vec<(ScalarId, usize)>) -> (r: Result<
    TensorExpr,
    Error,
>)
    ensures
        match index_range(body@, index@, ranges@) {
            Some(n) => r is Ok && r->Ok_0@ == (TensorModel::SumIdx {
                index: index@,
                range: n,
                exclude: None,
                body: Box::new(body@),
            }),
            None => r is Err && r->Err_0@ == (ErrorModel {
                message: missing_index_message(index@),
                line: None,
            }),
        },
{
    match tensor_index_range(body, index, ranges) {
        Some(n) => Ok(
            TensorExpr::SumIdx {
                index: index.to_string(),
                range: n,
                exclude: None,
                body: Rc::new(copy_tensor(body)),
            },
        ),
        None => {
            let mut m = concat_str("the summand does not mention any set element with index `", index);
            m.append("`");
            Err(Error::msg(m))
        },
    }
}


/// Whether `t` holds an element of a declared set indexed by the symbol
/// `idx` that no inner sum over `idx` binds.
pub open spec fn has_free_element(t: TensorModel, idx: Seq<char>) -> bool
    decreases t,
{
    match t {
        TensorModel::SetElem { index, .. } => index == IndexModel::Sym(idx),
        TensorModel::Var { .. } => false,
        TensorModel::Identity4 { .. } => false,
        TensorModel::Filled { .. } => false,
        TensorModel::Transpose(a) => has_free_element(*a, idx),
        TensorModel::Inverse(a) => has_free_element(*a, idx),
        TensorModel::InverseTranspose(a) => has_free_element(*a, idx),
        TensorModel::Neg(a) => has_free_element(*a, idx),
        TensorModel::Power { base, .. } => has_free_element(*base, idx),
        TensorModel::ScalarMul(_, a) => has_free_element(*a, idx),
        TensorModel::Diff { num, den, .. } => has_free_element(*num, idx) || has_free_element(*den, idx),
        TensorModel::MatMul(a, b) => has_free_element(*a, idx) || has_free_element(*b, idx),
        TensorModel::Add(a, b) => has_free_element(*a, idx) || has_free_element(*b, idx),
        TensorModel::Sub(a, b) => has_free_element(*a, idx) || has_free_element(*b, idx),
        TensorModel::Outer(a, b) => has_free_element(*a, idx) || has_free_element(*b, idx),
        TensorModel::BoxTimes(a, b) => has_free_element(*a, idx) || has_free_element(*b, idx),
        TensorModel::SumIdx { index, body, .. } => index != idx && has_free_element(*body, idx),
    }
}

/// A summand that holds an element indexed by `a` outside any inner sum
/// over `a` always has a range for `a`, whatever the scalars contribute,
/// so `Sum(body, a)` succeeds on it; and the range of `a` in an inner sum
/// over another index `b` is that of its body (only a sum over `a` itself
/// binds `a`).
pub proof fn law_free_elements_give_a_range(t: TensorModel, idx: Seq<char>, ranges: Seq<(ScalarId, usize)>)
    ensures
        has_free_element(t, idx) ==> index_range(t, idx, ranges) is Some,
        forall|j: Seq<char>, n: nat, ex: Option<Seq<char>>| j != idx ==> #[trigger] index_range(
            TensorModel::SumIdx { index: j, range: n, exclude: ex, body: Box::new(t) },
            idx,
            ranges,
        ) == index_range(t, idx, ranges),
        forall|n: nat, ex: Option<Seq<char>>| #[trigger] index_range(
            TensorModel::SumIdx { index: idx, range: n, exclude: ex, body: Box::new(t) },
            idx,
            ranges,
        ) is None,
    decreases t,
{
    match t {
        TensorModel::Transpose(a) => law_free_elements_give_a_range(*a, idx, ranges),
        TensorModel::Inverse(a) => law_free_elements_give_a_range(*a, idx, ranges),
        TensorModel::InverseTranspose(a) => law_free_elements_give_a_range(*a, idx, ranges),
        TensorModel::Neg(a) => law_free_elements_give_a_range(*a, idx, ranges),
        TensorModel::Power { base, .. } => law_free_elements_give_a_range(*base, idx, ranges),
        TensorModel::ScalarMul(_, a) => law_free_elements_give_a_range(*a, idx, ranges),
        TensorModel::Diff { num, den, .. } => {
            law_free_elements_give_a_range(*num, idx, ranges);
            law_free_elements_give_a_range(*den, idx, ranges);
        },
        TensorModel::MatMul(a, b) => {
            law_free_elements_give_a_range(*a, idx, ranges);
            law_free_elements_give_a_range(*b, idx, ranges);
        },
        TensorModel::Add(a, b) => {
            law_free_elements_give_a_range(*a, idx, ranges);
            law_free_elements_give_a_range(*b, idx, ranges);
        },
        TensorModel::Sub(a, b) => {
            law_free_elements_give_a_range(*a, idx, ranges);
            law_free_elements_give_a_range(*b, idx, ranges);
        },
        TensorModel::Outer(a, b) => {
            law_free_elements_give_a_range(*a, idx, ranges);
            law_free_elements_give_a_range(*b, idx, ranges);
        },
        TensorModel::BoxTimes(a, b) => {
            law_free_elements_give_a_range(*a, idx, ranges);
            law_free_elements_give_a_range(*b, idx, ranges);
        },
        TensorModel::SumIdx { body, .. } => law_free_elements_give_a_range(*body, idx, ranges),
        _ => {},
    }
}

} // verus!
