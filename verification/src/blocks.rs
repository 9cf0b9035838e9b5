//! Component LaTeX of tensor expressions with abstract indices, as shown by
//! the `block_components` display of fourth-order tensors: each block
//! `(m, n)` shows the `(i, j)` component `T_{ijmn}` with `m` and `n` fixed.

use vstd::prelude::*;
use crate::components::{
    component_base_latex, component_base_spec, component_symbol_latex, component_symbol_spec,
    delta_latex, delta_spec, fixed_lookup, fixed_value, fixed_view, indices_spec, instantiate_index,
    instantiate_spec, join_indices, join_product, join_product_spec, paren_if_sum, paren_if_sum_spec,
    strs_view,
};
use crate::error::{Error, ErrorModel};
use crate::render::{
    find_tex, index_latex, index_tex, lookup, render_spec, render_tensor, scalars_listed, sum_lower,
    sum_lower_latex, table_view, ScalarTex, TexModel,
};
use crate::tensor::{ScalarId, TensorExpr, TensorModel, order_of, sized, well_shaped};
use crate::text::{concat_str, decimal, decimal_string, strings_view};

verus! {

/// The LaTeX of scalar `id` on its own.
pub open spec fn scalar_latex(tb: Seq<TexModel>, id: ScalarId) -> Seq<char> {
    match lookup(tb, id) {
        Some(x) => x.latex,
        None => Seq::empty(),
    }
}

/// What reading the entries of filled tensors needs: every fixed index
/// value lies in `1..=dim` of each filled tensor, a filled vector holds
/// `dim` entries and a filled second-order tensor `dim * dim`, and every
/// entry has LaTeX in the table.
pub open spec fn filled_ok(m: TensorModel, fx: Seq<(Seq<char>, usize)>, tb: Seq<TexModel>) -> bool
    decreases m,
{
    match m {
        TensorModel::Filled { order, dim, entries, .. } => {
            &&& forall|k: int| 0 <= k < fx.len() ==> 1 <= #[trigger] fx[k].1 <= dim
            &&& order == 1 ==> dim <= entries.len()
            &&& order == 2 ==> dim * dim <= entries.len() && dim * dim <= usize::MAX
            &&& forall|e: int| 0 <= e < entries.len() ==> lookup(tb, #[trigger] entries[e]) is Some
        },
        TensorModel::Transpose(t) => filled_ok(*t, fx, tb),
        TensorModel::Inverse(t) => filled_ok(*t, fx, tb),
        TensorModel::InverseTranspose(t) => filled_ok(*t, fx, tb),
        TensorModel::Neg(t) => filled_ok(*t, fx, tb),
        TensorModel::ScalarMul(_, t) => filled_ok(*t, fx, tb),
        TensorModel::Power { base, .. } => filled_ok(*base, fx, tb),
        TensorModel::SumIdx { body, .. } => filled_ok(*body, fx, tb),
        TensorModel::Diff { num, den, .. } => filled_ok(*num, fx, tb) && filled_ok(*den, fx, tb),
        TensorModel::MatMul(a, b) => filled_ok(*a, fx, tb) && filled_ok(*b, fx, tb),
        TensorModel::Outer(a, b) => filled_ok(*a, fx, tb) && filled_ok(*b, fx, tb),
        TensorModel::BoxTimes(a, b) => filled_ok(*a, fx, tb) && filled_ok(*b, fx, tb),
        TensorModel::Add(a, b) => filled_ok(*a, fx, tb) && filled_ok(*b, fx, tb),
        TensorModel::Sub(a, b) => filled_ok(*a, fx, tb) && filled_ok(*b, fx, tb),
        _ => true,
    }
}

/// `{N}_{a i}`: the `i` component of an order-1 expression.
pub open spec fn first_spec(
    m: TensorModel,
    i: Seq<char>,
    fx: Seq<(Seq<char>, usize)>,
    tb: Seq<TexModel>,
) -> Seq<char> {
    match m {
        TensorModel::SetElem { latex, index, .. } => "{"@ + latex + "}_{"@ + index_tex(index)
            + instantiate_spec(i, fx) + "}"@,
        TensorModel::Filled { latex, entries, .. } => match fixed_lookup(fx, i) {
            Some(ii) => scalar_latex(tb, entries[ii - 1]),
            None => component_symbol_spec(latex, seq![i], fx),
        },
        TensorModel::Var { latex, .. } => component_symbol_spec(latex, seq![i], fx),
        other => component_symbol_spec(render_spec(other, tb), seq![i], fx),
    }
}

/// `{F}_{ij}`-style LaTeX of the `(i, j)` component of a second-order
/// expression: deltas for identities, entries of filled tensors at fixed
/// indices, products of vector components for `u ⊗ v`, swapped indices for
/// transposes, and sums, differences, scalings, negations and set sums
/// taken componentwise.
pub open spec fn second_spec(
    m: TensorModel,
    i: Seq<char>,
    j: Seq<char>,
    fx: Seq<(Seq<char>, usize)>,
    tb: Seq<TexModel>,
) -> Seq<char>
    decreases m,
{
    match m {
        TensorModel::Var { latex, props, .. } => if props.identity {
            delta_spec(i, j, fx)
        } else {
            component_symbol_spec(latex, seq![i, j], fx)
        },
        TensorModel::Filled { latex, entries, dim, .. } => match (fixed_lookup(fx, i), fixed_lookup(fx, j)) {
            (Some(ii), Some(jj)) => scalar_latex(tb, entries[(ii - 1) * dim + (jj - 1)]),
            _ => component_symbol_spec(latex, seq![i, j], fx),
        },
        TensorModel::Outer(a, b) => if order_of(*a) == 1 && order_of(*b) == 1 {
            join_product_spec(seq![first_spec(*a, i, fx, tb), first_spec(*b, j, fx, tb)])
        } else {
            component_symbol_spec(render_spec(m, tb), seq![i, j], fx)
        },
        TensorModel::Transpose(t) => second_spec(*t, j, i, fx, tb),
        TensorModel::ScalarMul(s, t) => join_product_spec(
            seq![scalar_latex(tb, s), paren_if_sum_spec(second_spec(*t, i, j, fx, tb))],
        ),
        TensorModel::Add(a, b) => second_spec(*a, i, j, fx, tb) + " + "@ + second_spec(*b, i, j, fx, tb),
        TensorModel::Sub(a, b) => second_spec(*a, i, j, fx, tb) + " - "@ + paren_if_sum_spec(
            second_spec(*b, i, j, fx, tb),
        ),
        TensorModel::Neg(t) => "-"@ + paren_if_sum_spec(second_spec(*t, i, j, fx, tb)),
        TensorModel::SumIdx { index, range, exclude, body } => "\\sum_{"@ + sum_lower(index, exclude)
            + "}^{"@ + decimal(range) + "} "@ + second_spec(*body, i, j, fx, tb),
        TensorModel::SetElem { latex, index, .. } => "{"@ + latex + "}_{"@ + index_tex(index)
            + indices_spec(seq![i, j], fx) + "}"@,
        _ => component_symbol_spec(render_spec(m, tb), seq![i, j], fx),
    }
}

/// The error for an order-4 structure the block display cannot expand.
pub open spec fn unsupported_block_message(tex: Seq<char>) -> Seq<char> {
    "mode=block_components is valid for order-4 tensors, but this expression structure is not supported yet: "@
        + tex
}

/// `num_label`, or the rendered numerator.
pub open spec fn numerator_tex(num: TensorModel, num_label: Option<Seq<char>>, tb: Seq<TexModel>) -> Seq<char> {
    match num_label {
        Some(l) => l,
        None => render_spec(num, tb),
    }
}

/// The `(i, j, m, n)` component of a fourth-order expression, or why it
/// cannot be shown.
pub open spec fn fourth_spec(
    m: TensorModel,
    i: Seq<char>,
    j: Seq<char>,
    mm: Seq<char>,
    n: Seq<char>,
    fx: Seq<(Seq<char>, usize)>,
    tb: Seq<TexModel>,
) -> Result<Seq<char>, Seq<char>>
    decreases m,
{
    match m {
        TensorModel::Identity4 { .. } => Ok(delta_spec(i, mm, fx) + " \\, "@ + delta_spec(j, n, fx)),
        TensorModel::Diff { num, den, num_label } => Ok(
            "\\frac{\\partial "@ + component_base_spec(numerator_tex(*num, num_label, tb)) + "_{"@ + i
                + j + "}}{\\partial "@ + component_base_spec(render_spec(*den, tb)) + "_{"@
                + instantiate_spec(mm, fx) + instantiate_spec(n, fx) + "}}"@,
        ),
        TensorModel::Outer(a, b) => if order_of(*a) == 2 && order_of(*b) == 2 {
            Ok(join_product_spec(seq![second_spec(*a, i, j, fx, tb), second_spec(*b, mm, n, fx, tb)]))
        } else {
            Err(unsupported_block_message(render_spec(m, tb)))
        },
        TensorModel::BoxTimes(a, b) => Ok(
            join_product_spec(seq![second_spec(*a, i, mm, fx, tb), second_spec(*b, j, n, fx, tb)]),
        ),
        TensorModel::ScalarMul(s, t) => match fourth_spec(*t, i, j, mm, n, fx, tb) {
            Ok(x) => Ok(join_product_spec(seq![scalar_latex(tb, s), paren_if_sum_spec(x)])),
            Err(e) => Err(e),
        },
        TensorModel::Add(a, b) => match fourth_spec(*a, i, j, mm, n, fx, tb) {
            Ok(x) => match fourth_spec(*b, i, j, mm, n, fx, tb) {
                Ok(y) => Ok(x + " + "@ + y),
                Err(e) => Err(e),
            },
            Err(e) => Err(e),
        },
        TensorModel::Sub(a, b) => match fourth_spec(*a, i, j, mm, n, fx, tb) {
            Ok(x) => match fourth_spec(*b, i, j, mm, n, fx, tb) {
                Ok(y) => Ok(x + " - "@ + paren_if_sum_spec(y)),
                Err(e) => Err(e),
            },
            Err(e) => Err(e),
        },
        TensorModel::Neg(t) => match fourth_spec(*t, i, j, mm, n, fx, tb) {
            Ok(x) => Ok("-"@ + paren_if_sum_spec(x)),
            Err(e) => Err(e),
        },
        TensorModel::SumIdx { index, range, exclude, body } => match fourth_spec(
            *body,
            i,
            j,
            mm,
            n,
            fx,
            tb,
        ) {
            Ok(x) => Ok("\\sum_{"@ + sum_lower(index, exclude) + "}^{"@ + decimal(range) + "} "@ + x),
            Err(e) => Err(e),
        },
        TensorModel::Var { latex, .. } => Ok(component_symbol_spec(latex, seq![i, j, mm, n], fx)),
        TensorModel::Filled { latex, .. } => Ok(component_symbol_spec(latex, seq![i, j, mm, n], fx)),
        TensorModel::SetElem { latex, index, .. } => Ok(
            "{"@ + latex + "}_{"@ + index_tex(index) + i + j + mm + n + "}"@,
        ),
        _ => Err(unsupported_block_message(render_spec(m, tb))),
    }
}


/// The binding that a lookup finds lies in the list.
proof fn lemma_lookup_index(fx: Seq<(Seq<char>, usize)>, idx: Seq<char>) -> (k: int)
    requires
        fixed_lookup(fx, idx) is Some,
    ensures
        0 <= k < fx.len(),
        fx[k].1 == fixed_lookup(fx, idx)->0,
    decreases fx.len(),
{
    if fx[0].0 == idx {
        0
    } else {
        let k = lemma_lookup_index(fx.drop_first(), idx);
        k + 1
    }
}

proof fn lemma_entry_in_table(ii: int, jj: int, dim: int)
    requires
        1 <= ii <= dim,
        1 <= jj <= dim,
    ensures
        0 <= (ii - 1) * dim + (jj - 1) < dim * dim,
        (ii - 1) * dim <= dim * dim,
{
    assert(0 <= (ii - 1) * dim) by (nonlinear_arith)
        requires
            1 <= ii,
            0 <= dim,
    ;
    assert((ii - 1) * dim + dim <= dim * dim) by (nonlinear_arith)
        requires
            ii <= dim,
            0 <= dim,
    ;
}

/// The LaTeX of scalar `id` on its own.
fn scalar_tex(table: &Vec<ScalarTex>, id: ScalarId) -> (s: String)
    ensures
        s@ == scalar_latex(table_view(table@), id),
{
    match find_tex(table, id) {
        Some(k) => table[k].latex.clone(),
        None => String::new(),
    }
}

fn product_of_two(a: String, b: String) -> (s: String)
    ensures
        s@ == join_product_spec(seq![a@, b@]),
{
    let parts = vec![a, b];
    assert(strings_view(parts@) =~= seq![parts@[0]@, parts@[1]@]);
    join_product(parts)
}

fn braced_sub(latex: &str, tail: String) -> (s: String)
    ensures
        s@ == "{"@ + latex@ + "}_{"@ + tail@ + "}"@,
{
    let mut s = concat_str("{", latex);
    s.append("}_{");
    s.append(tail.as_str());
    s.append("}");
    s
}

fn symbol_one(latex: &str, i: &str, fixed: &[(&str, usize)]) -> (s: String)
    ensures
        s@ == component_symbol_spec(latex@, seq![i@], fixed_view(fixed@)),
{
    let ix: [&str; 1] = [i];
    let s = component_symbol_latex(latex, &ix, fixed);
    assert(strs_view(ix@) =~= seq![i@]);
    s
}

fn symbol_two(latex: &str, i: &str, j: &str, fixed: &[(&str, usize)]) -> (s: String)
    ensures
        s@ == component_symbol_spec(latex@, seq![i@, j@], fixed_view(fixed@)),
{
    let ix: [&str; 2] = [i, j];
    let s = component_symbol_latex(latex, &ix, fixed);
    assert(strs_view(ix@) =~= seq![i@, j@]);
    s
}

fn symbol_four(latex: &str, i: &str, j: &str, m: &str, n: &str, fixed: &[(&str, usize)]) -> (s: String)
    ensures
        s@ == component_symbol_spec(latex@, seq![i@, j@, m@, n@], fixed_view(fixed@)),
{
    let ix: [&str; 4] = [i, j, m, n];
    let s = component_symbol_latex(latex, &ix, fixed);
    assert(strs_view(ix@) =~= seq![i@, j@, m@, n@]);
    s
}

/// The `i` component of an order-1 expression (see [`first_spec`]).
pub fn first_component_latex(
    expr: &TensorExpr,
    i: &str,
    fixed: &[(&str, usize)],
    table: &Vec<ScalarTex>,
) -> (r: Result<String, Error>)
    requires
        order_of(expr@) == 1,
        scalars_listed(expr@, table_view(table@)),
        filled_ok(expr@, fixed_view(fixed@), table_view(table@)),
    ensures
        r is Ok,
        r->Ok_0@ == first_spec(expr@, i@, fixed_view(fixed@), table_view(table@)),
{
    let ghost fx = fixed_view(fixed@);
    match expr {
        TensorExpr::SetElem { latex, index, .. } => {
            let mut tail = index_latex(index);
            tail.append(instantiate_index(i, fixed).as_str());
            Ok(braced_sub(latex.as_str(), tail))
        },
        TensorExpr::Filled { latex, entries, .. } => match fixed_value(i, fixed) {
            Some(ii) => {
                proof {
                    let k = lemma_lookup_index(fx, i@);
                    assert(1 <= fx[k].1);
                }
                Ok(scalar_tex(table, entries[ii - 1]))
            },
            None => Ok(symbol_one(latex.as_str(), i, fixed)),
        },
        TensorExpr::Var { latex, .. } => Ok(symbol_one(latex.as_str(), i, fixed)),
        _ => {
            let tex = render_tensor(expr, table);
            Ok(symbol_one(tex.as_str(), i, fixed))
        },
    }
}


fn sum_text(index: &str, exclude: &Option<String>, range: usize, body: String) -> (s: String)
    ensures
        s@ == "\\sum_{"@ + sum_lower(index@, crate::tensor::opt_text(*exclude)) + "}^{"@ + decimal(
            range as nat,
        ) + "} "@ + body@,
{
    let mut s = concat_str("\\sum_{", sum_lower_latex(index, exclude).as_str());
    s.append("}^{");
    s.append(decimal_string(range).as_str());
    s.append("} ");
    s.append(body.as_str());
    s
}

fn joined(a: String, sep: &str, b: String) -> (s: String)
    ensures
        s@ == a@ + sep@ + b@,
{
    let mut s = concat_str(a.as_str(), sep);
    s.append(b.as_str());
    s
}

/// The `(i, j)` component of a second-order expression (see
/// [`second_spec`]).
pub fn second_component_latex(
    expr: &TensorExpr,
    i: &str,
    j: &str,
    fixed: &[(&str, usize)],
    table: &Vec<ScalarTex>,
) -> (r: Result<String, Error>)
    requires
        sized(expr@),
        well_shaped(expr@),
        order_of(expr@) == 2,
        scalars_listed(expr@, table_view(table@)),
        filled_ok(expr@, fixed_view(fixed@), table_view(table@)),
    ensures
        r is Ok,
        r->Ok_0@ == second_spec(expr@, i@, j@, fixed_view(fixed@), table_view(table@)),
    decreases expr,
{
    let ghost fx = fixed_view(fixed@);
    match expr {
        TensorExpr::Var { latex, props, .. } => {
            if props.identity {
                Ok(delta_latex(i, j, fixed))
            } else {
                Ok(symbol_two(latex.as_str(), i, j, fixed))
            }
        },
        TensorExpr::Filled { latex, entries, dim, .. } => {
            match (fixed_value(i, fixed), fixed_value(j, fixed)) {
                (Some(ii), Some(jj)) => {
                    proof {
                        let k1 = lemma_lookup_index(fx, i@);
                        let k2 = lemma_lookup_index(fx, j@);
                        assert(1 <= fx[k1].1 <= *dim);
                        assert(1 <= fx[k2].1 <= *dim);
                        lemma_entry_in_table(ii as int, jj as int, *dim as int);
                    }
                    Ok(scalar_tex(table, entries[(ii - 1) * *dim + (jj - 1)]))
                },
                _ => Ok(symbol_two(latex.as_str(), i, j, fixed)),
            }
        },
        TensorExpr::Outer(a, b) => {
            if a.order() == 1 && b.order() == 1 {
                let x = first_component_latex(a, i, fixed, table)?;
                let y = first_component_latex(b, j, fixed, table)?;
                Ok(product_of_two(x, y))
            } else {
                let tex = render_tensor(expr, table);
                Ok(symbol_two(tex.as_str(), i, j, fixed))
            }
        },
        TensorExpr::Transpose(t) => second_component_latex(t, j, i, fixed, table),
        TensorExpr::ScalarMul(sid, t) => {
            let inner = second_component_latex(t, i, j, fixed, table)?;
            Ok(product_of_two(scalar_tex(table, *sid), paren_if_sum(inner)))
        },
        TensorExpr::Add(a, b) => {
            let x = second_component_latex(a, i, j, fixed, table)?;
            let y = second_component_latex(b, i, j, fixed, table)?;
            Ok(joined(x, " + ", y))
        },
        TensorExpr::Sub(a, b) => {
            let x = second_component_latex(a, i, j, fixed, table)?;
            let y = second_component_latex(b, i, j, fixed, table)?;
            Ok(joined(x, " - ", paren_if_sum(y)))
        },
        TensorExpr::Neg(t) => {
            let x = second_component_latex(t, i, j, fixed, table)?;
            Ok(concat_str("-", paren_if_sum(x).as_str()))
        },
        TensorExpr::SumIdx { index, range, exclude, body } => {
            let x = second_component_latex(body, i, j, fixed, table)?;
            Ok(sum_text(index.as_str(), exclude, *range, x))
        },
        TensorExpr::SetElem { latex, index, .. } => {
            let ix: [&str; 2] = [i, j];
            let mut tail = index_latex(index);
            tail.append(join_indices(&ix, fixed).as_str());
            assert(strs_view(ix@) =~= seq![i@, j@]);
            Ok(braced_sub(latex.as_str(), tail))
        },
        _ => {
            let tex = render_tensor(expr, table);
            Ok(symbol_two(tex.as_str(), i, j, fixed))
        },
    }
}

/// The `(i, j, m, n)` component of a fourth-order expression (see
/// [`fourth_spec`]).
pub fn fourth_component_latex(
    expr: &TensorExpr,
    i: &str,
    j: &str,
    m: &str,
    n: &str,
    fixed: &[(&str, usize)],
    table: &Vec<ScalarTex>,
) -> (r: Result<String, Error>)
    requires
        sized(expr@),
        well_shaped(expr@),
        scalars_listed(expr@, table_view(table@)),
        filled_ok(expr@, fixed_view(fixed@), table_view(table@)),
    ensures
        match r {
            Ok(s) => fourth_spec(expr@, i@, j@, m@, n@, fixed_view(fixed@), table_view(table@))
                == Ok::<Seq<char>, Seq<char>>(s@),
            Err(e) => fourth_spec(expr@, i@, j@, m@, n@, fixed_view(fixed@), table_view(table@))
                == Err::<Seq<char>, Seq<char>>(e.message@) && e.line is None,
        },
    decreases expr,
{
    match expr {
        TensorExpr::Identity4 { .. } => Ok(joined(delta_latex(i, m, fixed), " \\, ", delta_latex(j, n, fixed))),
        TensorExpr::Diff { num, den, num_label } => {
            let num_tex = match num_label {
                Some(l) => l.clone(),
                None => render_tensor(num, table),
            };
            let den_tex = render_tensor(den, table);
            let mut s = concat_str("\\frac{\\partial ", component_base_latex(num_tex.as_str()).as_str());
            s.append("_{");
            s.append(i);
            s.append(j);
            s.append("}}{\\partial ");
            s.append(component_base_latex(den_tex.as_str()).as_str());
            s.append("_{");
            s.append(instantiate_index(m, fixed).as_str());
            s.append(instantiate_index(n, fixed).as_str());
            s.append("}}");
            Ok(s)
        },
        TensorExpr::Outer(a, b) => {
            if a.order() == 2 && b.order() == 2 {
                let x = second_component_latex(a, i, j, fixed, table)?;
                let y = second_component_latex(b, m, n, fixed, table)?;
                Ok(product_of_two(x, y))
            } else {
                Err(unsupported_block(expr, table))
            }
        },
        TensorExpr::BoxTimes(a, b) => {
            let x = second_component_latex(a, i, m, fixed, table)?;
            let y = second_component_latex(b, j, n, fixed, table)?;
            Ok(product_of_two(x, y))
        },
        TensorExpr::ScalarMul(sid, t) => {
            let inner = fourth_component_latex(t, i, j, m, n, fixed, table)?;
            Ok(product_of_two(scalar_tex(table, *sid), paren_if_sum(inner)))
        },
        TensorExpr::Add(a, b) => {
            let x = fourth_component_latex(a, i, j, m, n, fixed, table)?;
            let y = fourth_component_latex(b, i, j, m, n, fixed, table)?;
            Ok(joined(x, " + ", y))
        },
        TensorExpr::Sub(a, b) => {
            let x = fourth_component_latex(a, i, j, m, n, fixed, table)?;
            let y = fourth_component_latex(b, i, j, m, n, fixed, table)?;
            Ok(joined(x, " - ", paren_if_sum(y)))
        },
        TensorExpr::Neg(t) => {
            let x = fourth_component_latex(t, i, j, m, n, fixed, table)?;
            Ok(concat_str("-", paren_if_sum(x).as_str()))
        },
        TensorExpr::SumIdx { index, range, exclude, body } => {
            let x = fourth_component_latex(body, i, j, m, n, fixed, table)?;
            Ok(sum_text(index.as_str(), exclude, *range, x))
        },
        TensorExpr::Var { latex, .. } => Ok(symbol_four(latex.as_str(), i, j, m, n, fixed)),
        TensorExpr::Filled { latex, .. } => Ok(symbol_four(latex.as_str(), i, j, m, n, fixed)),
        TensorExpr::SetElem { latex, index, .. } => {
            let mut tail = index_latex(index);
            tail.append(i);
            tail.append(j);
            tail.append(m);
            tail.append(n);
            let res = braced_sub(latex.as_str(), tail);
            assert(res@ =~= "{"@ + latex@ + "}_{"@ + index_tex(crate::tensor::index_model(*index)) + i@ + j@ + m@ + n@ + "}"@);
            Ok(res)
        },
        _ => Err(unsupported_block(expr, table)),
    }
}

fn unsupported_block(expr: &TensorExpr, table: &Vec<ScalarTex>) -> (e: Error)
    requires
        scalars_listed(expr@, table_view(table@)),
    ensures
        e.message@ == unsupported_block_message(render_spec(expr@, table_view(table@))),
        e.line is None,
{
    let tex = render_tensor(expr, table);
    Error::msg(
        concat_str(
            "mode=block_components is valid for order-4 tensors, but this expression structure is not supported yet: ",
            tex.as_str(),
        ),
    )
}


/// What the block display needs of filled tensors: each has dimension at
/// least `d`, holds its entries (`dim` for a vector, `dim * dim` for a
/// second-order tensor) and has LaTeX for every entry.
pub open spec fn filled_within(m: TensorModel, d: nat, tb: Seq<TexModel>) -> bool
    decreases m,
{
    match m {
        TensorModel::Filled { order, dim, entries, .. } => {
            &&& d <= dim
            &&& order == 1 ==> dim <= entries.len()
            &&& order == 2 ==> dim * dim <= entries.len() && dim * dim <= usize::MAX
            &&& forall|e: int| 0 <= e < entries.len() ==> lookup(tb, #[trigger] entries[e]) is Some
        },
        TensorModel::Transpose(t) => filled_within(*t, d, tb),
        TensorModel::Inverse(t) => filled_within(*t, d, tb),
        TensorModel::InverseTranspose(t) => filled_within(*t, d, tb),
        TensorModel::Neg(t) => filled_within(*t, d, tb),
        TensorModel::ScalarMul(_, t) => filled_within(*t, d, tb),
        TensorModel::Power { base, .. } => filled_within(*base, d, tb),
        TensorModel::SumIdx { body, .. } => filled_within(*body, d, tb),
        TensorModel::Diff { num, den, .. } => filled_within(*num, d, tb) && filled_within(*den, d, tb),
        TensorModel::MatMul(a, b) => filled_within(*a, d, tb) && filled_within(*b, d, tb),
        TensorModel::Outer(a, b) => filled_within(*a, d, tb) && filled_within(*b, d, tb),
        TensorModel::BoxTimes(a, b) => filled_within(*a, d, tb) && filled_within(*b, d, tb),
        TensorModel::Add(a, b) => filled_within(*a, d, tb) && filled_within(*b, d, tb),
        TensorModel::Sub(a, b) => filled_within(*a, d, tb) && filled_within(*b, d, tb),
        _ => true,
    }
}

/// The fixed indices of block `(r, c)`: `m = r`, `n = c`.
pub open spec fn block_fixed(r: nat, c: nat) -> Seq<(Seq<char>, usize)> {
    seq![("m"@, r as usize), ("n"@, c as usize)]
}

proof fn lemma_filled_within_ok(m: TensorModel, d: nat, tb: Seq<TexModel>, r: nat, c: nat)
    requires
        filled_within(m, d, tb),
        1 <= r <= d,
        1 <= c <= d,
        d <= usize::MAX,
    ensures
        filled_ok(m, block_fixed(r, c), tb),
    decreases m,
{
    match m {
        TensorModel::Filled { .. } => {
            let fx = block_fixed(r, c);
            assert(fx[0].1 == r && fx[1].1 == c);
        },
        TensorModel::Transpose(t) => lemma_filled_within_ok(*t, d, tb, r, c),
        TensorModel::Inverse(t) => lemma_filled_within_ok(*t, d, tb, r, c),
        TensorModel::InverseTranspose(t) => lemma_filled_within_ok(*t, d, tb, r, c),
        TensorModel::Neg(t) => lemma_filled_within_ok(*t, d, tb, r, c),
        TensorModel::ScalarMul(_, t) => lemma_filled_within_ok(*t, d, tb, r, c),
        TensorModel::Power { base, .. } => lemma_filled_within_ok(*base, d, tb, r, c),
        TensorModel::SumIdx { body, .. } => lemma_filled_within_ok(*body, d, tb, r, c),
        TensorModel::Diff { num, den, .. } => {
            lemma_filled_within_ok(*num, d, tb, r, c);
            lemma_filled_within_ok(*den, d, tb, r, c);
        },
        TensorModel::MatMul(a, b) => {
            lemma_filled_within_ok(*a, d, tb, r, c);
            lemma_filled_within_ok(*b, d, tb, r, c);
        },
        TensorModel::Outer(a, b) => {
            lemma_filled_within_ok(*a, d, tb, r, c);
            lemma_filled_within_ok(*b, d, tb, r, c);
        },
        TensorModel::BoxTimes(a, b) => {
            lemma_filled_within_ok(*a, d, tb, r, c);
            lemma_filled_within_ok(*b, d, tb, r, c);
        },
        TensorModel::Add(a, b) => {
            lemma_filled_within_ok(*a, d, tb, r, c);
            lemma_filled_within_ok(*b, d, tb, r, c);
        },
        TensorModel::Sub(a, b) => {
            lemma_filled_within_ok(*a, d, tb, r, c);
            lemma_filled_within_ok(*b, d, tb, r, c);
        },
        _ => {},
    }
}

/// The component shown in block `(r, c)`.
pub open spec fn cell_spec(m: TensorModel, tb: Seq<TexModel>, r: nat, c: nat) -> Result<Seq<char>, Seq<char>> {
    fourth_spec(m, "i"@, "j"@, "m"@, "n"@, block_fixed(r, c), tb)
}

pub open spec fn cell_text(x: Seq<char>) -> Seq<char> {
    "\\left[ "@ + x + " \\right]_{ij}"@
}

/// The first failing block of row `r`, from column `c` on.
pub open spec fn row_error(m: TensorModel, tb: Seq<TexModel>, d: nat, r: nat, c: nat) -> Option<Seq<char>>
    decreases d + 1 - c,
{
    if c == 0 || c > d {
        None
    } else {
        match cell_spec(m, tb, r, c) {
            Err(e) => Some(e),
            Ok(_) => row_error(m, tb, d, r, c + 1),
        }
    }
}

/// The first failing block, in row-major order, from row `r` on.
pub open spec fn block_error(m: TensorModel, tb: Seq<TexModel>, d: nat, r: nat) -> Option<Seq<char>>
    decreases d + 1 - r,
{
    if r == 0 || r > d {
        None
    } else {
        match row_error(m, tb, d, r, 1) {
            Some(e) => Some(e),
            None => block_error(m, tb, d, r + 1),
        }
    }
}

/// Row `r` of the block matrix.
pub open spec fn row_spec(m: TensorModel, tb: Seq<TexModel>, d: nat, r: nat) -> Seq<char> {
    crate::text::join(
        Seq::new(d, |k: int| cell_text(cell_spec(m, tb, r, (k + 1) as nat)->Ok_0)),
        " & "@,
    )
}

/// An order-4 tensor as a `dim × dim` matrix of second-order blocks: block
/// `(m, n)` shows the component with the last two indices fixed to `m` and
/// `n` and `(i, j)` free; the first block that cannot be shown decides the
/// error.
pub open spec fn block_matrix_spec(m: TensorModel, tb: Seq<TexModel>) -> Result<Seq<char>, Seq<char>> {
    let d = crate::tensor::dim_of(m);
    if order_of(m) != 4 {
        Err("block component expansion requires an order-4 tensor, got order "@ + decimal(order_of(m)))
    } else {
        match block_error(m, tb, d, 1) {
            Some(e) => Err(e),
            None => Ok(
                "\\begin{bmatrix}\n"@ + crate::text::join(
                    Seq::new(d, |r: int| row_spec(m, tb, d, (r + 1) as nat)),
                    " \\\\\n"@,
                ) + "\n\\end{bmatrix}"@,
            ),
        }
    }
}

/// Block `k + 1` of row `r` was shown, as `cells[k]`.
pub open spec fn cell_shown(m: TensorModel, tb: Seq<TexModel>, r: nat, cells: Seq<Seq<char>>, k: int) -> bool {
    cell_spec(m, tb, r, (k + 1) as nat) is Ok && cells[k] == cell_text(cell_spec(m, tb, r, (k + 1) as nat)->Ok_0)
}

/// The first `n` blocks of row `r` were shown, as `cells`.
pub open spec fn row_cells(m: TensorModel, tb: Seq<TexModel>, r: nat, cells: Seq<Seq<char>>, n: nat) -> bool {
    cells.len() == n && forall|k: int| 0 <= k < n ==> #[trigger] cell_shown(m, tb, r, cells, k)
}

proof fn lemma_row_cells_push(m: TensorModel, tb: Seq<TexModel>, r: nat, cells: Seq<Seq<char>>, n: nat, x: Seq<char>)
    requires
        row_cells(m, tb, r, cells, n),
        cell_spec(m, tb, r, n + 1) == Ok::<Seq<char>, Seq<char>>(x),
    ensures
        row_cells(m, tb, r, cells.push(cell_text(x)), n + 1),
{
    let c2 = cells.push(cell_text(x));
    assert forall|k: int| 0 <= k < n + 1 implies #[trigger] cell_shown(m, tb, r, c2, k) by {
        if k < n {
            assert(cell_shown(m, tb, r, cells, k));
            assert(c2[k] == cells[k]);
        } else {
            assert(k == n);
            assert((k + 1) as nat == n + 1);
        }
    }
}

/// A full row's cells are its blocks in order.
proof fn lemma_row_cells_full(m: TensorModel, tb: Seq<TexModel>, r: nat, cells: Seq<Seq<char>>, d: nat)
    requires
        row_cells(m, tb, r, cells, d),
    ensures
        cells == Seq::new(d, |k: int| cell_text(cell_spec(m, tb, r, (k + 1) as nat)->Ok_0)),
{
    assert forall|k: int| 0 <= k < d implies cells[k] == cell_text(cell_spec(m, tb, r, (k + 1) as nat)->Ok_0) by {
        assert(cell_shown(m, tb, r, cells, k));
    }
    assert(cells =~= Seq::new(d, |k: int| cell_text(cell_spec(m, tb, r, (k + 1) as nat)->Ok_0)));
}

/// No failing block in the first `n` columns of row `r` when they were all
/// shown.
proof fn lemma_row_no_error(m: TensorModel, tb: Seq<TexModel>, d: nat, r: nat, cells: Seq<Seq<char>>, c: nat)
    requires
        row_cells(m, tb, r, cells, d),
        1 <= c,
    ensures
        row_error(m, tb, d, r, c) is None,
    decreases d + 1 - c,
{
    if c <= d {
        assert(cell_shown(m, tb, r, cells, (c - 1) as int));
        lemma_row_no_error(m, tb, d, r, cells, c + 1);
    }
}

/// Renders an order-4 tensor as a matrix of second-order blocks (see
/// [`block_matrix_spec`]).
pub fn tensor_to_block_component_matrix(expr: &TensorExpr, table: &Vec<ScalarTex>) -> (r: Result<String, Error>)
    requires
        sized(expr@),
        well_shaped(expr@),
        scalars_listed(expr@, table_view(table@)),
        filled_within(expr@, crate::tensor::dim_of(expr@), table_view(table@)),
    ensures
        match r {
            Ok(s) => block_matrix_spec(expr@, table_view(table@)) == Ok::<Seq<char>, Seq<char>>(s@),
            Err(e) => block_matrix_spec(expr@, table_view(table@)) == Err::<Seq<char>, Seq<char>>(
                e.message@,
            ) && e.line is None,
        },
{
    let ghost tb = table_view(table@);
    let ghost em = expr@;
    let order = expr.order();
    if order != 4 {
        let mut msg = String::from_str("block component expansion requires an order-4 tensor, got order ");
        msg.append(decimal_string(order).as_str());
        return Err(Error::msg(msg));
    }
    let dim = expr.dim();
    let ghost d = dim as nat;
    let mut rows: Vec<String> = Vec::new();
    let mut ri: usize = 0;
    while ri < dim
        invariant
            tb == table_view(table@),
            em == expr@,
            d == dim as nat,
            d == crate::tensor::dim_of(em),
            order_of(em) == 4,
            sized(em),
            well_shaped(em),
            scalars_listed(em, tb),
            filled_within(em, d, tb),
            ri <= dim,
            rows@.len() == ri,
            forall|k: int| 0 <= k < ri ==> (#[trigger] rows@[k])@ == row_spec(em, tb, d, (k + 1) as nat),
            block_error(em, tb, d, 1) == block_error(em, tb, d, (ri + 1) as nat),
        decreases dim - ri,
    {
        let rn = ri + 1;
        let mut row: Vec<String> = Vec::new();
        let mut ci: usize = 0;
        while ci < dim
            invariant
                tb == table_view(table@),
                em == expr@,
                d == dim as nat,
                ri < dim,
                rn == ri + 1,
                d == crate::tensor::dim_of(em),
                order_of(em) == 4,
                block_error(em, tb, d, 1) == block_error(em, tb, d, rn as nat),
                sized(em),
                well_shaped(em),
                scalars_listed(em, tb),
                filled_within(em, d, tb),
                ci <= dim,
                row_cells(em, tb, rn as nat, strings_view(row@), ci as nat),
                row_error(em, tb, d, rn as nat, 1) == row_error(em, tb, d, rn as nat, (ci + 1) as nat),
            decreases dim - ci,
        {
            let cn = ci + 1;
            let fixed: [(&str, usize); 2] = [("m", rn), ("n", cn)];
            assert(fixed_view(fixed@) =~= block_fixed(rn as nat, cn as nat));
            proof {
                lemma_filled_within_ok(em, d, tb, rn as nat, cn as nat);
            }
            let x = match fourth_component_latex(expr, "i", "j", "m", "n", &fixed, table) {
                Err(e) => {
                    assert(row_error(em, tb, d, rn as nat, cn as nat) == Some(e.message@));
                    assert(block_error(em, tb, d, rn as nat) == Some(e.message@));
                    return Err(e);
                },
                Ok(x) => x,
            };
            let mut t = concat_str("\\left[ ", x.as_str());
            t.append(" \\right]_{ij}");
            let ghost before = strings_view(row@);
            proof {
                lemma_row_cells_push(em, tb, rn as nat, before, ci as nat, x@);
            }
            row.push(t);
            assert(strings_view(row@) =~= before.push(cell_text(x@)));
            ci = ci + 1;
        }
        proof {
            lemma_row_cells_full(em, tb, rn as nat, strings_view(row@), d);
            lemma_row_no_error(em, tb, d, rn as nat, strings_view(row@), 1);
        }
        let line = crate::text::join_strings(&row, " & ");
        rows.push(line);
        ri = ri + 1;
    }
    assert(block_error(em, tb, d, (dim + 1) as nat) is None);
    let body = crate::text::join_strings(&rows, " \\\\\n");
    assert(strings_view(rows@) =~= Seq::new(d, |k: int| row_spec(em, tb, d, (k + 1) as nat)));
    let mut s = String::from_str("\\begin{bmatrix}\n");
    s.append(body.as_str());
    s.append("\n\\end{bmatrix}");
    Ok(s)
}


/// The `(i, j)` component of the tensor product of two vectors carries the
/// first index on the left factor and the second on the right:
/// `(a ⊗ b)_{ij} = a_i b_j`. For two vector variables `u`, `v` it is the
/// product of the symbols `u_i` and `v_j`, and swapping the factors swaps
/// which index each factor carries.
pub proof fn law_outer_product_components(
    a: TensorModel,
    b: TensorModel,
    i: Seq<char>,
    j: Seq<char>,
    fx: Seq<(Seq<char>, usize)>,
    tb: Seq<TexModel>,
)
    requires
        order_of(a) == 1,
        order_of(b) == 1,
    ensures
        second_spec(TensorModel::Outer(Box::new(a), Box::new(b)), i, j, fx, tb) == join_product_spec(
            seq![first_spec(a, i, fx, tb), first_spec(b, j, fx, tb)],
        ),
        second_spec(TensorModel::Outer(Box::new(b), Box::new(a)), i, j, fx, tb) == join_product_spec(
            seq![first_spec(b, i, fx, tb), first_spec(a, j, fx, tb)],
        ),
        (a is Var && b is Var) ==> second_spec(
            TensorModel::Outer(Box::new(a), Box::new(b)),
            i,
            j,
            fx,
            tb,
        ) == join_product_spec(
            seq![component_symbol_spec(a->Var_latex, seq![i], fx), component_symbol_spec(b->Var_latex, seq![j], fx)],
        ),
{
}


/// The `(i, j)` component of a transpose is the `(j, i)` component of the
/// tensor transposed, and a sum, difference or negation is taken
/// componentwise at the same `(i, j)`.
pub proof fn law_transpose_and_sums_by_component(
    a: TensorModel,
    b: TensorModel,
    i: Seq<char>,
    j: Seq<char>,
    fx: Seq<(Seq<char>, usize)>,
    tb: Seq<TexModel>,
)
    ensures
        second_spec(TensorModel::Transpose(Box::new(a)), i, j, fx, tb) == second_spec(a, j, i, fx, tb),
        second_spec(TensorModel::Add(Box::new(a), Box::new(b)), i, j, fx, tb) == second_spec(a, i, j, fx, tb)
            + " + "@ + second_spec(b, i, j, fx, tb),
{
}

} // verus!
