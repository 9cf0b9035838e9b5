//! Index literals: components `T[i][j]` of declared tensors, elements
//! `lambda[a]` / `N[1]` of declared sets, and the position of an assigned
//! component among the entries of a filled tensor.

use vstd::prelude::*;
use crate::ast::{Expr, ExprModel, exprs_model, lemma_exprs_model_index};
use crate::checks::{numeral_bounds, numeral_canon};
use crate::declarations::{integral_literal, literal_usize, literal_value, saturate};
use crate::error::{Error, ErrorModel};
use crate::tensor::{IndexModel, ScalarId, SetIndex, index_model};
use crate::text::{chars_of, concat_str, decimal, decimal_string, string_of};

verus! {

/// How a numeral reads when printed: its integer digits without leading
/// zeros (`0` when there are none), then the fraction digits without
/// trailing zeros, if any, after a `.`.
pub open spec fn numeral_text(s: Seq<char>) -> Seq<char> {
    let (ip, fp) = numeral_canon(s);
    (if ip.len() == 0 {
        seq!['0']
    } else {
        ip
    }) + (if fp.len() == 0 {
        Seq::empty()
    } else {
        seq!['.'] + fp
    })
}

/// The printed form of a numeral (see [`numeral_text`]).
pub fn numeral_display(text: &str) -> (r: String)
    ensures
        r@ == numeral_text(text@),
{
    let s = chars_of(text);
    let (a, i, f, e) = numeral_bounds(&s);
    let mut out: Vec<char> = Vec::new();
    if a == i {
        out.push('0');
    } else {
        let mut k = a;
        while k < i
            invariant
                a <= k <= i <= s@.len(),
                out@ == s@.subrange(a as int, k as int),
            decreases i - k,
        {
            out.push(s[k]);
            k = k + 1;
            assert(out@ =~= s@.subrange(a as int, k as int));
        }
    }
    let ghost head = out@;
    if f < e {
        out.push('.');
        let mut k = f;
        while k < e
            invariant
                f <= k <= e <= s@.len(),
                out@ == head + seq!['.'] + s@.subrange(f as int, k as int),
            decreases e - k,
        {
            out.push(s[k]);
            k = k + 1;
            assert(out@ =~= head + seq!['.'] + s@.subrange(f as int, k as int));
        }
        assert(out@ =~= head + (seq!['.'] + s@.subrange(f as int, e as int)));
    } else {
        assert(out@ =~= head + Seq::<char>::empty());
    }
    string_of(out.as_slice())
}

/// A component index `1..=dim`: an integral numeral in range (its value
/// saturating at `usize::MAX`); any other numeral is out of range, and
/// anything else is not an index.
pub open spec fn component_index_spec(e: ExprModel, dim: nat) -> Result<nat, Seq<char>> {
    match e {
        ExprModel::Num(s) => if integral_literal(s) && 1 <= saturate(literal_value(s)) <= dim {
            Ok(saturate(literal_value(s)) as nat)
        } else {
            Err(
                "component index "@ + numeral_text(s) + " is out of range (1..="@ + decimal(dim)
                    + ")"@,
            )
        },
        _ => Err("a component index must be an integer literal"@),
    }
}

/// A component index read from `T[i][j]` (see [`component_index_spec`]).
pub fn component_index(expr: &Expr, dim: usize) -> (r: Result<usize, Error>)
    ensures
        match component_index_spec(expr@, dim as nat) {
            Ok(k) => r is Ok && r->Ok_0 as nat == k,
            Err(m) => r is Err && r->Err_0@ == (ErrorModel { message: m, line: None }),
        },
{
    match expr {
        Expr::Num(s) => {
            match literal_usize(s.as_str()) {
                Some(k) => if 1 <= k && k <= dim {
                    return Ok(k);
                },
                None => {},
            }
            let mut m = String::from_str("component index ");
            m.append(numeral_display(s.as_str()).as_str());
            m.append(" is out of range (1..=");
            m.append(decimal_string(dim).as_str());
            m.append(")");
            Err(Error::msg(m))
        },
        _ => Err(Error::msg(String::from_str("a component index must be an integer literal"))),
    }
}

/// The index of an element of the set `name` of size `dim`, read from the
/// index expressions of `name[..]`: exactly one, a bare index name or an
/// integral numeral in `1..=dim`.
pub open spec fn set_index_spec(name: Seq<char>, indices: Seq<ExprModel>, dim: nat) -> Result<
    IndexModel,
    Seq<char>,
> {
    if indices.len() != 1 {
        Err("set `"@ + name + "` takes a single index, got "@ + decimal(indices.len()))
    } else {
        match indices[0] {
            ExprModel::Ident(i) => Ok(IndexModel::Sym(i)),
            ExprModel::Num(s) => if integral_literal(s) && 1 <= saturate(literal_value(s)) <= dim {
                Ok(IndexModel::Num(saturate(literal_value(s)) as nat))
            } else {
                Err(
                    "index "@ + numeral_text(s) + " is out of range for `"@ + name + "` (1..="@
                        + decimal(dim) + ")"@,
                )
            },
            _ => Err("a set index must be an index name or an integer literal"@),
        }
    }
}

/// The element index of `name[..]` (see [`set_index_spec`]).
pub fn set_index(name: &str, indices: &Vec<Expr>, dim: usize) -> (r: Result<SetIndex, Error>)
    ensures
        match set_index_spec(name@, exprs_model(indices@), dim as nat) {
            Ok(k) => r is Ok && index_model(r->Ok_0) == k,
            Err(m) => r is Err && r->Err_0@ == (ErrorModel { message: m, line: None }),
        },
{
    proof {
        lemma_exprs_model_index(indices@);
    }
    if indices.len() != 1 {
        let mut m = concat_str("set `", name);
        m.append("` takes a single index, got ");
        m.append(decimal_string(indices.len()).as_str());
        return Err(Error::msg(m));
    }
    match &indices[0] {
        Expr::Ident(i) => Ok(SetIndex::Sym(i.clone())),
        Expr::Num(s) => {
            match literal_usize(s.as_str()) {
                Some(k) => if 1 <= k && k <= dim {
                    return Ok(SetIndex::Num(k));
                },
                None => {},
            }
            let mut m = String::from_str("index ");
            m.append(numeral_display(s.as_str()).as_str());
            m.append(" is out of range for `");
            m.append(name);
            m.append("` (1..=");
            m.append(decimal_string(dim).as_str());
            m.append(")");
            Err(Error::msg(m))
        },
        _ => Err(
            Error::msg(String::from_str("a set index must be an index name or an integer literal")),
        ),
    }
}

/// The 1-based components `ks` of an entry, flattened row-major over
/// `0..dim` per index.
pub open spec fn flat_position(ks: Seq<nat>, dim: nat) -> nat
    decreases ks.len(),
{
    if ks.len() == 0 {
        0
    } else {
        flat_position(ks.drop_last(), dim) * dim + (ks.last() - 1) as nat
    }
}

/// An index of an assigned component: an integral numeral in `1..=dim`.
pub open spec fn assign_index_ok(e: ExprModel, dim: nat) -> bool {
    match e {
        ExprModel::Num(s) => integral_literal(s) && 1 <= saturate(literal_value(s)) <= dim,
        _ => false,
    }
}

pub open spec fn assign_index_value(e: ExprModel) -> nat {
    match e {
        ExprModel::Num(s) => saturate(literal_value(s)) as nat,
        _ => 0,
    }
}

/// The entry `name[i][j]... = expr` assigns in a filled tensor of order
/// `order` and dim `dim`: as many indices as the order, each in
/// `1..=dim`.
pub open spec fn assigned_position_spec(name: Seq<char>, order: nat, dim: nat, indices: Seq<
    ExprModel,
>) -> Result<nat, Seq<char>> {
    if indices.len() != order {
        Err(
            "`"@ + name + "` has order "@ + decimal(order) + " and takes "@ + decimal(order)
                + " index group(s), got "@ + decimal(indices.len()),
        )
    } else if exists|m: int| 0 <= m < indices.len() && !assign_index_ok(#[trigger] indices[m], dim) {
        Err("component indices must be integers in 1..="@ + decimal(dim))
    } else {
        Ok(flat_position(indices.map_values(|e: ExprModel| assign_index_value(e)), dim))
    }
}

proof fn lemma_flat_position_bound(ks: Seq<nat>, dim: nat)
    requires
        forall|m: int| 0 <= m < ks.len() ==> 1 <= #[trigger] ks[m] <= dim,
    ensures
        ks.len() == 0 ==> flat_position(ks, dim) == 0,
        ks.len() == 1 ==> flat_position(ks, dim) < dim,
        ks.len() == 2 ==> flat_position(ks, dim) < dim * dim,
{
    if ks.len() == 1 {
        assert(flat_position(ks.drop_last(), dim) == 0);
        assert(0 * dim == 0) by (nonlinear_arith);
        assert(ks.last() == ks[0]);
    }
    if ks.len() == 2 {
        let p = ks.drop_last();
        assert(flat_position(p.drop_last(), dim) == 0);
        assert(0 * dim == 0) by (nonlinear_arith);
        assert(p.last() == ks[0]);
        assert(flat_position(p, dim) == (ks[0] - 1) as nat);
        let a = (ks[0] - 1) as nat;
        let c = (ks[1] - 1) as nat;
        assert(a * dim + c < dim * dim) by (nonlinear_arith)
            requires
                a < dim,
                c < dim,
        ;
    }
}

/// The position of an assigned component among the entries (see
/// [`assigned_position_spec`]).
pub fn assigned_position(name: &str, order: usize, dim: usize, indices: &Vec<Expr>) -> (r: Result<
    usize,
    Error,
>)
    requires
        order <= 2,
        order == 2 ==> dim * dim <= usize::MAX,
    ensures
        match assigned_position_spec(name@, order as nat, dim as nat, exprs_model(indices@)) {
            Ok(p) => r is Ok && r->Ok_0 as nat == p,
            Err(m) => r is Err && r->Err_0@ == (ErrorModel { message: m, line: None }),
        },
{
    let ghost im = exprs_model(indices@);
    proof {
        lemma_exprs_model_index(indices@);
    }
    if indices.len() != order {
        let mut m = concat_str("`", name);
        m.append("` has order ");
        m.append(decimal_string(order).as_str());
        m.append(" and takes ");
        m.append(decimal_string(order).as_str());
        m.append(" index group(s), got ");
        m.append(decimal_string(indices.len()).as_str());
        return Err(Error::msg(m));
    }
    let ghost ks_all = im.map_values(|e: ExprModel| assign_index_value(e));
    let mut flat: usize = 0;
    let mut i: usize = 0;
    while i < indices.len()
        invariant
            i <= indices@.len() == order <= 2,
            order == 2 ==> dim * dim <= usize::MAX,
            im == exprs_model(indices@),
            im.len() == indices@.len(),
            forall|k: int| 0 <= k < indices@.len() ==> #[trigger] im[k] == indices@[k]@,
            ks_all == im.map_values(|e: ExprModel| assign_index_value(e)),
            forall|m: int| 0 <= m < i ==> assign_index_ok(#[trigger] im[m], dim as nat),
            flat as nat == flat_position(ks_all.take(i as int), dim as nat),
        decreases indices.len() - i,
    {
        let k = match &indices[i] {
            Expr::Num(s) => match literal_usize(s.as_str()) {
                Some(k) => if 1 <= k && k <= dim {
                    Some(k)
                } else {
                    None
                },
                None => None,
            },
            _ => None,
        };
        match k {
            Some(k) => {
                assert(assign_index_ok(im[i as int], dim as nat));
                assert(ks_all[i as int] == k);
                assert(ks_all.take(i + 1).drop_last() =~= ks_all.take(i as int));
                proof {
                    assert forall|m: int| 0 <= m < i + 1 implies 1 <= #[trigger] ks_all.take(i + 1)[m]
                        <= dim by {
                        assert(assign_index_ok(im[m], dim as nat));
                    }
                    lemma_flat_position_bound(ks_all.take(i + 1), dim as nat);
                    assert(flat * dim + (k - 1) == flat_position(ks_all.take(i + 1), dim as nat));
                }
                flat = flat * dim + (k - 1);
            },
            None => {
                assert(!assign_index_ok(im[i as int], dim as nat));
                let mut m = String::from_str("component indices must be integers in 1..=");
                m.append(decimal_string(dim).as_str());
                return Err(Error::msg(m));
            },
        }
        i = i + 1;
    }
    assert(ks_all.take(indices@.len() as int) =~= ks_all);
    Ok(flat)
}

/// The entry `(i, j)` read by `T[i][j]` on a tensor of order `order` and
/// dim `dim`: as many indices as the order, the order two, and each index
/// in range (see [`component_index_spec`]).
pub open spec fn component_read_spec(order: nat, dim: nat, indices: Seq<ExprModel>) -> Result<
    (nat, nat),
    Seq<char>,
> {
    if indices.len() != order {
        Err(
            "a tensor of order "@ + decimal(order) + " needs "@ + decimal(order)
                + " component index(es), got "@ + decimal(indices.len()),
        )
    } else if order != 2 {
        Err("component read currently supports second-order tensors"@)
    } else {
        match component_index_spec(indices[0], dim) {
            Err(m) => Err(m),
            Ok(i) => match component_index_spec(indices[1], dim) {
                Err(m) => Err(m),
                Ok(j) => Ok((i, j)),
            },
        }
    }
}

/// The 1-based entry a component read names (see [`component_read_spec`]).
pub fn component_read(order: usize, dim: usize, indices: &Vec<Expr>) -> (r: Result<(usize, usize), Error>)
    ensures
        match component_read_spec(order as nat, dim as nat, exprs_model(indices@)) {
            Ok((i, j)) => match r {
                Ok((ri, rj)) => ri as nat == i && rj as nat == j,
                Err(_) => false,
            },
            Err(m) => r is Err && r->Err_0@ == (ErrorModel { message: m, line: None }),
        },
{
    proof {
        lemma_exprs_model_index(indices@);
    }
    if indices.len() != order {
        let mut m = String::from_str("a tensor of order ");
        m.append(decimal_string(order).as_str());
        m.append(" needs ");
        m.append(decimal_string(order).as_str());
        m.append(" component index(es), got ");
        m.append(decimal_string(indices.len()).as_str());
        return Err(Error::msg(m));
    }
    if order != 2 {
        return Err(Error::msg(String::from_str("component read currently supports second-order tensors")));
    }
    let i = component_index(&indices[0], dim)?;
    let j = component_index(&indices[1], dim)?;
    Ok((i, j))
}


/// The number of entries of a tensor of this order and dimension.
pub open spec fn entry_count(order: nat, dim: nat) -> nat {
    if order == 0 {
        1
    } else if order == 1 {
        dim
    } else {
        dim * dim
    }
}

/// The entries after `F[..] = value` sets the component at `pos`: a
/// declared tensor starts from all components zero (`zero` is the id of
/// the scalar `0`); a component-filled tensor keeps its other entries.
pub open spec fn filled_entries(
    current: Option<Seq<ScalarId>>,
    order: nat,
    dim: nat,
    pos: nat,
    value: ScalarId,
    zero: ScalarId,
) -> Seq<ScalarId> {
    let base = match current {
        Some(e) => e,
        None => Seq::new(entry_count(order, dim), |_i: int| zero),
    };
    base.update(pos as int, value)
}

/// Sets the component at `pos` (see [`filled_entries`]); unset entries of
/// a declared tensor are zero.
pub fn fill_component(
    current: Option<Vec<ScalarId>>,
    order: usize,
    dim: usize,
    pos: usize,
    value: ScalarId,
    zero: ScalarId,
) -> (r: Vec<ScalarId>)
    requires
        order <= 2,
        order == 2 ==> dim * dim <= usize::MAX,
        match current {
            Some(e) => pos < e@.len(),
            None => pos < entry_count(order as nat, dim as nat),
        },
    ensures
        r@ == filled_entries(
            match current {
                Some(e) => Some(e@),
                None => None,
            },
            order as nat,
            dim as nat,
            pos as nat,
            value,
            zero,
        ),
{
    let mut entries = match current {
        Some(e) => e,
        None => {
            let n: usize = if order == 0 {
                1
            } else if order == 1 {
                dim
            } else {
                dim * dim
            };
            let mut z: Vec<ScalarId> = Vec::new();
            let mut i: usize = 0;
            while i < n
                invariant
                    i <= n,
                    z@ == Seq::new(i as nat, |_k: int| zero),
                decreases n - i,
            {
                z.push(zero);
                assert(z@ =~= Seq::new((i + 1) as nat, |_k: int| zero));
                i = i + 1;
            }
            assert(n as nat == entry_count(order as nat, dim as nat));
            z
        },
    };
    entries.set(pos, value);
    entries
}

} // verus!
