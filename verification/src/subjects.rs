//! The subject of a component output such as `T[1][2].show()`: the header
//! `T[1][2]` and the left-hand side `{\bm T}_{12}`, when the indices are
//! integer literals in range and as many as the tensor's order.

use vstd::prelude::*;
use crate::ast::{Expr, ExprModel};
use crate::declarations::{integral_literal, literal_usize, literal_value, saturate};
use crate::text::{concat_str, decimal, decimal_string};

verus! {

/// The name an index chain `name[i][j]...` starts from, with its indices
/// read as literals: `None` unless every index is an integer literal in
/// `1..=dim` (its value saturating at `usize::MAX`).
pub open spec fn chain_spec(e: ExprModel, dim: nat) -> Option<(Seq<char>, Seq<nat>)>
    decreases e,
{
    match e {
        ExprModel::Ident(n) => Some((n, Seq::empty())),
        ExprModel::Index { target, index } => match chain_spec(*target, dim) {
            Some((n, ks)) => match *index {
                ExprModel::Num(s) => if integral_literal(s) && 1 <= saturate(literal_value(s)) <= dim {
                    Some((n, ks.push(saturate(literal_value(s)) as nat)))
                } else {
                    None
                },
                _ => None,
            },
            None => None,
        },
        _ => None,
    }
}

/// `[k1][k2]...`.
pub open spec fn brackets(ks: Seq<nat>) -> Seq<char>
    decreases ks.len(),
{
    if ks.len() == 0 {
        Seq::empty()
    } else {
        brackets(ks.drop_last()) + "["@ + decimal(ks.last()) + "]"@
    }
}

/// `k1k2...`.
pub open spec fn digits_of(ks: Seq<nat>) -> Seq<char>
    decreases ks.len(),
{
    if ks.len() == 0 {
        Seq::empty()
    } else {
        digits_of(ks.drop_last()) + decimal(ks.last())
    }
}

/// The header and left-hand side of a component output of `e` on a tensor
/// of order `order` and dim `dim` whose display symbol is `base`.
pub open spec fn component_subject_spec(e: ExprModel, order: nat, dim: nat, base: Option<Seq<char>>) -> Option<
    (Seq<char>, Option<Seq<char>>),
> {
    match chain_spec(e, dim) {
        Some((n, ks)) => if ks.len() >= 1 && ks.len() == order {
            Some(
                (
                    n + brackets(ks),
                    match base {
                        Some(b) => Some("{"@ + b + "}_{"@ + digits_of(ks) + "}"@),
                        None => None,
                    },
                ),
            )
        } else {
            None
        },
        None => None,
    }
}

/// The name of the tensor an index chain reads a component of.
pub open spec fn chain_base_spec(e: ExprModel) -> Option<Seq<char>>
    decreases e,
{
    match e {
        ExprModel::Index { target, .. } => match *target {
            ExprModel::Ident(n) => Some(n),
            _ => chain_base_spec(*target),
        },
        _ => None,
    }
}

/// The tensor name of a component subject `name[i]...`, if `e` is one.
pub fn component_subject_base(e: &Expr) -> (r: Option<String>)
    ensures
        match r {
            Some(n) => chain_base_spec(e@) == Some(n@),
            None => chain_base_spec(e@) is None,
        },
    decreases e,
{
    match e {
        Expr::Index { target, .. } => match &**target {
            Expr::Ident(n) => {
                assert((**target)@ == ExprModel::Ident(n@));
                Some(n.clone())
            },
            _ => component_subject_base(target),
        },
        _ => None,
    }
}

fn chain_values(e: &Expr, dim: usize) -> (r: Option<(String, Vec<usize>)>)
    ensures
        match chain_spec(e@, dim as nat) {
            Some((n, ks)) => match r {
                Some((rn, rks)) => rn@ == n && rks@.map_values(|k: usize| k as nat) == ks,
                None => false,
            },
            None => r is None,
        },
    decreases e,
{
    match e {
        Expr::Ident(n) => {
            let v: Vec<usize> = Vec::new();
            assert(v@.map_values(|k: usize| k as nat) =~= Seq::<nat>::empty());
            Some((n.clone(), v))
        },
        Expr::Index { target, index } => {
            let (n, mut ks) = chain_values(target, dim)?;
            proof {
                match &**index {
                    Expr::Num(s) => {
                        assert((**index)@ == ExprModel::Num(s@));
                    },
                    _ => {
                        assert(!((**index)@ is Num));
                    },
                }
            }
            match &**index {
                Expr::Num(s) => match literal_usize(s.as_str()) {
                    Some(k) => if 1 <= k && k <= dim {
                        let ghost before = ks@;
                        ks.push(k);
                        assert(ks@.map_values(|k: usize| k as nat) =~= before.map_values(
                            |k: usize| k as nat,
                        ).push(k as nat));
                        Some((n, ks))
                    } else {
                        None
                    },
                    None => None,
                },
                _ => None,
            }
        },
        _ => None,
    }
}

/// The header and left-hand side of a component output (see
/// [`component_subject_spec`]); `base` is the display symbol of the tensor.
pub fn component_subject(e: &Expr, order: usize, dim: usize, base: &Option<String>) -> (r: Option<
    (String, Option<String>),
>)
    ensures
        match component_subject_spec(
            e@,
            order as nat,
            dim as nat,
            match base {
                Some(b) => Some(b@),
                None => None,
            },
        ) {
            Some((h, l)) => match r {
                Some((rh, rl)) => rh@ == h && match l {
                    Some(x) => rl is Some && rl->0@ == x,
                    None => rl is None,
                },
                None => false,
            },
            None => r is None,
        },
{
    let (name, ks) = chain_values(e, dim)?;
    if ks.len() == 0 || ks.len() != order {
        return None;
    }
    let ghost kv = ks@.map_values(|k: usize| k as nat);
    let mut header = name;
    let mut sub = String::new();
    let ghost h0 = header@;
    let mut i: usize = 0;
    while i < ks.len()
        invariant
            i <= ks@.len(),
            kv == ks@.map_values(|k: usize| k as nat),
            header@ == h0 + brackets(kv.take(i as int)),
            sub@ == digits_of(kv.take(i as int)),
        decreases ks.len() - i,
    {
        assert(kv.take(i + 1).drop_last() =~= kv.take(i as int));
        let d = decimal_string(ks[i]);
        header.append("[");
        header.append(d.as_str());
        header.append("]");
        sub.append(d.as_str());
        i = i + 1;
    }
    assert(kv.take(ks@.len() as int) =~= kv);
    let lhs = match base {
        Some(b) => {
            let mut l = concat_str("{", b.as_str());
            l.append("}_{");
            l.append(sub.as_str());
            l.append("}");
            Some(l)
        },
        None => None,
    };
    Some((header, lhs))
}

} // verus!
