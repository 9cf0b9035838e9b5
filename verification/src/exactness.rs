//! The structural rewrite rules of the simplifier are exact: under the
//! meaning of [`crate::semantics`], a rewrite, a pass and a whole
//! simplification leave what an expression denotes unchanged, given an
//! inverse that behaves as the inverse on invertible matrices and an
//! expression whose inverted matrices are invertible (where they are not,
//! `F⁻¹ F → I` is not exact).

use vstd::prelude::*;
use crate::semantics::{
    Bindings, Interp, Mat, eval, excluded, faithful, identity_mat, inv_of, lemma_identity_left,
    lemma_identity_right, lemma_sum_ext, law_inferred_symmetry_holds, mat_mul, restrict, row_col,
    sum_term, transpose,
};
use crate::simplify::{
    cancels_m, identity_m, lemma_pass_keeps_shape, pass_m, rewrite_m, simplify_m,
};
use crate::tensor::{TensorModel, dim_of, is_identity_m, sized, symmetric_m, well_shaped};

verus! {

/// `a` and `c` agree on `0..n`.
pub open spec fn agree(a: Mat, c: Mat, n: nat) -> bool {
    forall|i: int, j: int| 0 <= i < n && 0 <= j < n ==> #[trigger] a(i, j) == c(i, j)
}

/// `m` has a two-sided inverse on `0..n`.
pub open spec fn has_inverse(m: Mat, n: nat) -> bool {
    exists|x: Mat| identity_mat(mat_mul(x, m, n), n) && identity_mat(mat_mul(m, x, n), n)
}

/// An interpretation whose inverse of an invertible matrix is its inverse:
/// a two-sided inverse for the product, whose own inverse is the matrix
/// again, commuting with transposition; and the inverse of the identity is
/// the identity. (The inverse of a matrix that has none is left free.)
pub open spec fn inverse_laws(it: Interp) -> bool {
    &&& forall|m: Mat, n: nat|
        #![trigger mat_mul(inv_of(it, m, n), m, n)]
        has_inverse(m, n) ==> identity_mat(mat_mul(inv_of(it, m, n), m, n), n)
    &&& forall|m: Mat, n: nat|
        #![trigger mat_mul(m, inv_of(it, m, n), n)]
        has_inverse(m, n) ==> identity_mat(mat_mul(m, inv_of(it, m, n), n), n)
    &&& forall|m: Mat, n: nat|
        #![trigger inv_of(it, inv_of(it, m, n), n)]
        has_inverse(m, n) ==> agree(inv_of(it, inv_of(it, m, n), n), m, n)
    &&& forall|m: Mat, n: nat|
        #![trigger inv_of(it, transpose(m), n)]
        has_inverse(transpose(m), n) ==> agree(
            inv_of(it, transpose(m), n),
            transpose(inv_of(it, m, n)),
            n,
        )
    &&& forall|m: Mat, n: nat|
        #![trigger inv_of(it, m, n)]
        identity_mat(m, n) ==> identity_mat(inv_of(it, m, n), n)
}

/// If `x` inverts something, what it inverts has an inverse.
pub open spec fn inverts_ok(x: TensorModel, it: Interp, b: Bindings) -> bool {
    match x {
        TensorModel::Inverse(y) => has_inverse(eval(*y, it, b), dim_of(*y)),
        TensorModel::InverseTranspose(y) => has_inverse(eval(*y, it, b), dim_of(*y)),
        _ => true,
    }
}

/// The inverses that a rewrite at the root of `t` relies on exist.
pub open spec fn root_inverses(t: TensorModel, it: Interp, b: Bindings) -> bool {
    &&& inverts_ok(t, it, b)
    &&& match t {
        TensorModel::Inverse(a) => inverts_ok(*a, it, b),
        TensorModel::MatMul(a, c) => inverts_ok(*a, it, b) && inverts_ok(*c, it, b),
        _ => true,
    }
}

/// What the rewrite law asks of `t`.
pub open spec fn rewrite_exact(t: TensorModel, it: Interp, b: Bindings) -> bool {
    &&& dim_of(rewrite_m(t, true)) == dim_of(t)
    &&& agree(eval(rewrite_m(t, true), it, b), eval(t, it, b), dim_of(t))
}

proof fn lemma_rewrite_transpose(a: TensorModel, it: Interp, b: Bindings)
    requires
        well_shaped(TensorModel::Transpose(Box::new(a))),
        faithful(it),
    ensures
        rewrite_exact(TensorModel::Transpose(Box::new(a)), it, b),
{
    let t = TensorModel::Transpose(Box::new(a));
    let n = dim_of(a);
    let ev = eval(t, it, b);
    assert(ev == transpose(eval(a, it, b)));
    match a {
        TensorModel::Transpose(inner) => {
            assert(rewrite_m(t, true) == *inner);
            assert(eval(a, it, b) == transpose(eval(*inner, it, b)));
        },
        TensorModel::Inverse(inner) => {
            if symmetric_m(a) {
                assert(rewrite_m(t, true) == a);
                law_inferred_symmetry_holds(a, it, b);
            } else {
                assert(rewrite_m(t, true) == TensorModel::InverseTranspose(inner));
            }
        },
        _ => {
            if symmetric_m(a) {
                assert(rewrite_m(t, true) == a);
                law_inferred_symmetry_holds(a, it, b);
            } else {
                assert(rewrite_m(t, true) == t);
            }
        },
    }
}

#[verifier::rlimit(40)]
#[verifier::spinoff_prover]
proof fn lemma_rewrite_inverse(a: TensorModel, it: Interp, b: Bindings)
    requires
        well_shaped(TensorModel::Inverse(Box::new(a))),
        faithful(it),
        inverse_laws(it),
        root_inverses(TensorModel::Inverse(Box::new(a)), it, b),
    ensures
        rewrite_exact(TensorModel::Inverse(Box::new(a)), it, b),
{
    let n = dim_of(a);
    match a {
        TensorModel::Inverse(inner) => {
            let m = eval(*inner, it, b);
            assert(rewrite_m(TensorModel::Inverse(Box::new(a)), true) == *inner);
            assert(eval(a, it, b) == inv_of(it, m, n));
            assert(agree(inv_of(it, inv_of(it, m, n), n), m, n));
        },
        TensorModel::Transpose(inner) => {
            let m = eval(*inner, it, b);
            assert(eval(a, it, b) == transpose(m));
            assert(agree(inv_of(it, transpose(m), n), transpose(inv_of(it, m, n)), n));
        },
        _ => {
            if is_identity_m(a) {
                let m = eval(a, it, b);
                assert(m == (it.leaf)(a, b));
                assert(identity_mat(m, n));
                assert(identity_mat(inv_of(it, m, n), n));
            }
        },
    }
}

proof fn lemma_rewrite_inverse_transpose(a: TensorModel, it: Interp, b: Bindings)
    requires
        well_shaped(TensorModel::InverseTranspose(Box::new(a))),
        faithful(it),
        inverse_laws(it),
    ensures
        rewrite_exact(TensorModel::InverseTranspose(Box::new(a)), it, b),
{
    let n = dim_of(a);
    if is_identity_m(a) {
        let m = eval(a, it, b);
        assert(m == (it.leaf)(a, b));
        assert(identity_mat(m, n));
        assert(identity_mat(inv_of(it, m, n), n));
    }
}

/// `inv(X)ᵀ Xᵀ` and `Xᵀ inv(X)ᵀ` are the identity: they are the transposes
/// of `X inv(X)` and `inv(X) X`.
proof fn lemma_transposed_cancel(xm: Mat, inv: Mat, n: nat, left_inverse: bool)
    requires
        left_inverse ==> identity_mat(mat_mul(xm, inv, n), n),
        !left_inverse ==> identity_mat(mat_mul(inv, xm, n), n),
    ensures
        left_inverse ==> identity_mat(mat_mul(transpose(inv), transpose(xm), n), n),
        !left_inverse ==> identity_mat(mat_mul(transpose(xm), transpose(inv), n), n),
{
    if left_inverse {
        let p = mat_mul(xm, inv, n);
        let q = mat_mul(transpose(inv), transpose(xm), n);
        assert forall|i: int, j: int| 0 <= i < n && 0 <= j < n implies #[trigger] q(i, j) == if i
            == j {
            1int
        } else {
            0int
        } by {
            let f = row_col(transpose(inv), transpose(xm), i, j);
            let g = row_col(xm, inv, j, i);
            assert forall|k: int| 0 <= k < n implies #[trigger] f(k) == g(k) by {
                assert(inv(k, i) * xm(j, k) == xm(j, k) * inv(k, i)) by (nonlinear_arith);
            }
            lemma_sum_ext(n, f, g);
            assert(p(j, i) == q(i, j));
        }
    } else {
        let p = mat_mul(inv, xm, n);
        let q = mat_mul(transpose(xm), transpose(inv), n);
        assert forall|i: int, j: int| 0 <= i < n && 0 <= j < n implies #[trigger] q(i, j) == if i
            == j {
            1int
        } else {
            0int
        } by {
            let f = row_col(transpose(xm), transpose(inv), i, j);
            let g = row_col(inv, xm, j, i);
            assert forall|k: int| 0 <= k < n implies #[trigger] f(k) == g(k) by {
                assert(xm(k, i) * inv(j, k) == inv(j, k) * xm(k, i)) by (nonlinear_arith);
            }
            lemma_sum_ext(n, f, g);
            assert(p(j, i) == q(i, j));
        }
    }
}

#[verifier::rlimit(40)]
#[verifier::spinoff_prover]
proof fn lemma_rewrite_matmul(a: TensorModel, c: TensorModel, it: Interp, b: Bindings)
    requires
        well_shaped(TensorModel::MatMul(Box::new(a), Box::new(c))),
        faithful(it),
        inverse_laws(it),
        root_inverses(TensorModel::MatMul(Box::new(a), Box::new(c)), it, b),
    ensures
        rewrite_exact(TensorModel::MatMul(Box::new(a), Box::new(c)), it, b),
{
    let n = dim_of(a);
    let ea = eval(a, it, b);
    let ec = eval(c, it, b);
    let prod = mat_mul(ea, ec, n);
    if is_identity_m(a) {
        assert(ea == (it.leaf)(a, b));
        assert forall|i: int, j: int| 0 <= i < n && 0 <= j < n implies #[trigger] ec(i, j) == prod(
            i,
            j,
        ) by {
            lemma_identity_left(n, ea, ec, i, j, n);
        }
    } else if is_identity_m(c) {
        assert(ec == (it.leaf)(c, b));
        assert forall|i: int, j: int| 0 <= i < n && 0 <= j < n implies #[trigger] ea(i, j) == prod(
            i,
            j,
        ) by {
            lemma_identity_right(n, ec, ea, i, j, n);
        }
    } else if cancels_m(a, c) {
        let id = eval(identity_m(n), it, b);
        assert(id == (it.leaf)(identity_m(n), b));
        assert(is_identity_m(identity_m(n)));
        assert(identity_mat(id, n));
        match (a, c) {
            (TensorModel::Inverse(x), y) => {
                assert(identity_mat(mat_mul(inv_of(it, ec, n), ec, n), n));
            },
            (y, TensorModel::Inverse(x)) => {
                assert(identity_mat(mat_mul(ea, inv_of(it, ea, n), n), n));
            },
            (TensorModel::InverseTranspose(x), TensorModel::Transpose(y)) => {
                let xm = eval(*x, it, b);
                let inv = inv_of(it, xm, n);
                assert(identity_mat(mat_mul(xm, inv, n), n));
                lemma_transposed_cancel(xm, inv, n, true);
            },
            (TensorModel::Transpose(y), TensorModel::InverseTranspose(x)) => {
                let xm = eval(*x, it, b);
                let inv = inv_of(it, xm, n);
                assert(identity_mat(mat_mul(inv, xm, n), n));
                lemma_transposed_cancel(xm, inv, n, false);
            },
            _ => {},
        }
    }
}

proof fn lemma_rewrite_neg(a: TensorModel, it: Interp, b: Bindings)
    requires
        well_shaped(TensorModel::Neg(Box::new(a))),
    ensures
        rewrite_exact(TensorModel::Neg(Box::new(a)), it, b),
{
    let t = TensorModel::Neg(Box::new(a));
    let n = dim_of(t);
    let ea = eval(a, it, b);
    assert(eval(t, it, b) == (|i: int, j: int| -ea(i, j)));
    match a {
        TensorModel::Neg(inner) => {
            assert(rewrite_m(t, true) == *inner);
            let x = eval(*inner, it, b);
            assert(ea == (|i: int, j: int| -x(i, j)));
            assert(n == dim_of(a));
            assert(dim_of(a) == dim_of(*inner));
            assert forall|i: int, j: int| 0 <= i < n && 0 <= j < n implies #[trigger] x(i, j) == eval(
                t,
                it,
                b,
            )(i, j) by {
                assert(eval(t, it, b)(i, j) == -ea(i, j));
                assert(ea(i, j) == -x(i, j));
            }
        },
        TensorModel::Add(x, y) => match *x {
            TensorModel::Neg(inner) => {
                assert(rewrite_m(t, true) == TensorModel::Sub(inner, y));
                assert(n == dim_of(a));
                assert(dim_of(a) == dim_of(*x));
                assert(dim_of(*x) == dim_of(*inner));
                let ex = eval(*x, it, b);
                let ey = eval(*y, it, b);
                let ei = eval(*inner, it, b);
                assert(ea == (|i: int, j: int| ex(i, j) + ey(i, j)));
                assert(ex == (|i: int, j: int| -ei(i, j)));
                assert(eval(TensorModel::Sub(inner, y), it, b) == (|i: int, j: int| ei(i, j) - ey(
                    i,
                    j,
                )));
                assert(well_shaped(a));
                assert forall|i: int, j: int| 0 <= i < n && 0 <= j < n implies #[trigger] eval(
                    rewrite_m(t, true),
                    it,
                    b,
                )(i, j) == eval(t, it, b)(i, j) by {
                    assert(eval(t, it, b)(i, j) == -ea(i, j));
                    assert(ea(i, j) == ex(i, j) + ey(i, j));
                    assert(ex(i, j) == -ei(i, j));
                }
            },
            _ => {
                assert(rewrite_m(t, true) == t);
            },
        },
        TensorModel::Sub(x, y) => {
            assert(rewrite_m(t, true) == TensorModel::Sub(y, x));
            assert(n == dim_of(a));
            assert(dim_of(a) == dim_of(*x));
            let ex = eval(*x, it, b);
            let ey = eval(*y, it, b);
            assert(ea == (|i: int, j: int| ex(i, j) - ey(i, j)));
            assert(eval(TensorModel::Sub(y, x), it, b) == (|i: int, j: int| ey(i, j) - ex(i, j)));
            assert(well_shaped(a));
            assert forall|i: int, j: int| 0 <= i < n && 0 <= j < n implies #[trigger] eval(
                rewrite_m(t, true),
                it,
                b,
            )(i, j) == eval(t, it, b)(i, j) by {
                assert(eval(t, it, b)(i, j) == -ea(i, j));
                assert(ea(i, j) == ex(i, j) - ey(i, j));
            }
        },
        _ => {
            assert(rewrite_m(t, true) == t);
        },
    }
}

/// Each structural rewrite is exact: under every interpretation that
/// honours the declarations and in which inverses behave as inverses, the
/// rewritten expression denotes the same matrix as its input, and has
/// the same dimension, as long as the matrices that the rewrite cancels or
/// re-inverts are invertible.
pub proof fn law_rewrite_keeps_meaning(t: TensorModel, it: Interp, b: Bindings)
    requires
        well_shaped(t),
        faithful(it),
        inverse_laws(it),
        root_inverses(t, it, b),
    ensures
        dim_of(rewrite_m(t, true)) == dim_of(t),
        agree(eval(rewrite_m(t, true), it, b), eval(t, it, b), dim_of(t)),
{
    match t {
        TensorModel::Transpose(a) => lemma_rewrite_transpose(*a, it, b),
        TensorModel::Inverse(a) => lemma_rewrite_inverse(*a, it, b),
        TensorModel::InverseTranspose(a) => lemma_rewrite_inverse_transpose(*a, it, b),
        TensorModel::MatMul(a, c) => lemma_rewrite_matmul(*a, *c, it, b),
        TensorModel::Neg(a) => lemma_rewrite_neg(*a, it, b),
        _ => {
            assert(rewrite_m(t, true) == t);
        },
    }
}

/// Expressions built from variables, filled tensors, transposes, inverses,
/// products, sums, differences, negations, scalar multiples and set sums:
/// those whose meaning [`eval`] gives from the meanings of their parts.
pub open spec fn matrix_expr(t: TensorModel) -> bool
    decreases t,
{
    match t {
        TensorModel::Var { .. } => true,
        TensorModel::Filled { .. } => true,
        TensorModel::Transpose(a) => matrix_expr(*a),
        TensorModel::Inverse(a) => matrix_expr(*a),
        TensorModel::InverseTranspose(a) => matrix_expr(*a),
        TensorModel::Neg(a) => matrix_expr(*a),
        TensorModel::ScalarMul(_, a) => matrix_expr(*a),
        TensorModel::MatMul(a, c) => matrix_expr(*a) && matrix_expr(*c),
        TensorModel::Add(a, c) => matrix_expr(*a) && matrix_expr(*c),
        TensorModel::Sub(a, c) => matrix_expr(*a) && matrix_expr(*c),
        TensorModel::SumIdx { body, .. } => matrix_expr(*body),
        _ => false,
    }
}

proof fn lemma_rewrite_stays_matrix(t: TensorModel)
    requires
        matrix_expr(t),
    ensures
        matrix_expr(rewrite_m(t, true)),
{
    let r = rewrite_m(t, true);
    match t {
        TensorModel::Transpose(a) => {
            assert(matrix_expr(*a));
            match *a {
                TensorModel::Transpose(inner) => {
                    assert(matrix_expr(*inner));
                    assert(r == *inner);
                },
                TensorModel::Inverse(inner) => {
                    assert(matrix_expr(*inner));
                },
                _ => {},
            }
        },
        TensorModel::Inverse(a) => {
            assert(matrix_expr(*a));
            match *a {
                TensorModel::Inverse(inner) => {
                    assert(matrix_expr(*inner));
                    assert(r == *inner);
                },
                TensorModel::Transpose(inner) => {
                    assert(matrix_expr(*inner));
                },
                _ => {},
            }
        },
        TensorModel::InverseTranspose(a) => {
            assert(matrix_expr(*a));
        },
        TensorModel::MatMul(a, c) => {
            assert(matrix_expr(*a) && matrix_expr(*c));
            assert(matrix_expr(identity_m(dim_of(*a))));
        },
        TensorModel::Neg(a) => {
            assert(matrix_expr(*a));
            match *a {
                TensorModel::Neg(inner) => {
                    assert(matrix_expr(*inner));
                    assert(r == *inner);
                },
                TensorModel::Add(x, y) => {
                    assert(matrix_expr(*x) && matrix_expr(*y));
                    match *x {
                        TensorModel::Neg(inner) => {
                            assert(matrix_expr(*inner));
                        },
                        _ => {},
                    }
                },
                TensorModel::Sub(x, y) => {
                    assert(matrix_expr(*x) && matrix_expr(*y));
                },
                _ => {},
            }
        },
        _ => {},
    }
}

proof fn lemma_agree_trans(a: Mat, c: Mat, d: Mat, n: nat)
    requires
        agree(a, c, n),
        agree(c, d, n),
    ensures
        agree(a, d, n),
{
}

proof fn lemma_mat_mul_congruent(a2: Mat, a: Mat, c2: Mat, c: Mat, n: nat)
    requires
        agree(a2, a, n),
        agree(c2, c, n),
    ensures
        agree(mat_mul(a2, c2, n), mat_mul(a, c, n), n),
{
    assert forall|i: int, j: int| 0 <= i < n && 0 <= j < n implies #[trigger] mat_mul(a2, c2, n)(i, j)
        == mat_mul(a, c, n)(i, j) by {
        let f = row_col(a2, c2, i, j);
        let g = row_col(a, c, i, j);
        assert forall|k: int| 0 <= k < n implies #[trigger] f(k) == g(k) by {
            assert(a2(i, k) == a(i, k));
            assert(c2(k, j) == c(k, j));
        }
        lemma_sum_ext(n, f, g);
    }
}

/// `m` and `c` agree, so what inverts one inverts the other.
proof fn lemma_has_inverse_congruent(m2: Mat, m: Mat, n: nat)
    requires
        agree(m2, m, n),
        has_inverse(m, n),
    ensures
        has_inverse(m2, n),
{
    let x = choose|x: Mat| identity_mat(mat_mul(x, m, n), n) && identity_mat(mat_mul(m, x, n), n);
    lemma_mat_mul_congruent(x, x, m2, m, n);
    lemma_mat_mul_congruent(m2, m, x, x, n);
    assert(identity_mat(mat_mul(x, m2, n), n) && identity_mat(mat_mul(m2, x, n), n));
}

/// `(a b)ᵀ = bᵀ aᵀ`.
proof fn lemma_mul_transpose(a: Mat, c: Mat, n: nat)
    ensures
        agree(mat_mul(transpose(c), transpose(a), n), transpose(mat_mul(a, c, n)), n),
{
    assert forall|i: int, j: int| 0 <= i < n && 0 <= j < n implies #[trigger] mat_mul(
        transpose(c),
        transpose(a),
        n,
    )(i, j) == transpose(mat_mul(a, c, n))(i, j) by {
        let f = row_col(transpose(c), transpose(a), i, j);
        let g = row_col(a, c, j, i);
        assert forall|k: int| 0 <= k < n implies #[trigger] f(k) == g(k) by {
            assert(c(k, i) * a(j, k) == a(j, k) * c(k, i)) by (nonlinear_arith);
        }
        lemma_sum_ext(n, f, g);
    }
}

/// A matrix whose transpose is invertible is invertible.
proof fn lemma_has_inverse_of_transpose(m: Mat, n: nat)
    requires
        has_inverse(transpose(m), n),
    ensures
        has_inverse(m, n),
{
    let mt = transpose(m);
    let x = choose|x: Mat| identity_mat(mat_mul(x, mt, n), n) && identity_mat(mat_mul(mt, x, n), n);
    let y = transpose(x);
    lemma_mul_transpose(mt, x, n);
    lemma_mul_transpose(x, mt, n);
    assert(transpose(mt) =~= m);
    assert(identity_mat(mat_mul(y, m, n), n));
    assert(identity_mat(mat_mul(m, y, n), n));
}

/// Every inverse that `t` takes, at every depth and for every term of its
/// set sums, is of an invertible matrix.
pub open spec fn invertible_inside(t: TensorModel, it: Interp, b: Bindings) -> bool
    decreases t, 0int,
{
    inverts_ok(t, it, b) && match t {
        TensorModel::Transpose(a) => invertible_inside(*a, it, b),
        TensorModel::Inverse(a) => invertible_inside(*a, it, b),
        TensorModel::InverseTranspose(a) => invertible_inside(*a, it, b),
        TensorModel::Neg(a) => invertible_inside(*a, it, b),
        TensorModel::ScalarMul(_, a) => invertible_inside(*a, it, b),
        TensorModel::MatMul(a, c) => invertible_inside(*a, it, b) && invertible_inside(*c, it, b),
        TensorModel::Add(a, c) => invertible_inside(*a, it, b) && invertible_inside(*c, it, b),
        TensorModel::Sub(a, c) => invertible_inside(*a, it, b) && invertible_inside(*c, it, b),
        TensorModel::SumIdx { index, range, exclude, body } => terms_invertible(
            *body,
            it,
            b,
            index,
            exclude,
            range,
            0,
        ),
        _ => true,
    }
}

/// [`invertible_inside`] for the terms `k + 1 ..= range` of a set sum that
/// are not left out.
pub open spec fn terms_invertible(
    body: TensorModel,
    it: Interp,
    b: Bindings,
    index: Seq<char>,
    exclude: Option<Seq<char>>,
    range: nat,
    k: nat,
) -> bool
    decreases body, range - k,
{
    if k >= range {
        true
    } else {
        (excluded(exclude, b, k + 1) || invertible_inside(body, it, b.push((index, k + 1))))
            && terms_invertible(body, it, b, index, exclude, range, k + 1)
    }
}

proof fn lemma_terms_invertible_at(
    body: TensorModel,
    it: Interp,
    b: Bindings,
    index: Seq<char>,
    exclude: Option<Seq<char>>,
    range: nat,
    k: nat,
    q: nat,
)
    requires
        terms_invertible(body, it, b, index, exclude, range, k),
        k <= q < range,
        !excluded(exclude, b, q + 1),
    ensures
        invertible_inside(body, it, b.push((index, q + 1))),
    decreases q - k,
{
    if k < q {
        lemma_terms_invertible_at(body, it, b, index, exclude, range, k + 1, q);
    }
}

proof fn lemma_root_inverses(t: TensorModel, it: Interp, b: Bindings)
    requires
        invertible_inside(t, it, b),
    ensures
        root_inverses(t, it, b),
{
    match t {
        TensorModel::Inverse(a) => {
            assert(invertible_inside(*a, it, b));
        },
        TensorModel::MatMul(a, c) => {
            assert(invertible_inside(*a, it, b) && invertible_inside(*c, it, b));
        },
        _ => {},
    }
}

/// A rewrite takes no inverse that was not taken before, except of the
/// same invertible matrices.
proof fn lemma_rewrite_keeps_invertible(t: TensorModel, it: Interp, b: Bindings)
    requires
        invertible_inside(t, it, b),
    ensures
        invertible_inside(rewrite_m(t, true), it, b),
{
    match t {
        TensorModel::Transpose(a) => {
            assert(invertible_inside(*a, it, b));
            match *a {
                TensorModel::Transpose(inner) => {
                    assert(invertible_inside(*inner, it, b));
                },
                TensorModel::Inverse(inner) => {
                    assert(invertible_inside(*inner, it, b));
                    assert(inverts_ok(*a, it, b));
                },
                _ => {},
            }
        },
        TensorModel::Inverse(a) => {
            assert(invertible_inside(*a, it, b));
            match *a {
                TensorModel::Inverse(inner) => {
                    assert(invertible_inside(*inner, it, b));
                },
                TensorModel::Transpose(inner) => {
                    assert(invertible_inside(*inner, it, b));
                    let m = eval(*inner, it, b);
                    assert(eval(*a, it, b) == transpose(m));
                    assert(has_inverse(transpose(m), dim_of(*a)));
                    lemma_has_inverse_of_transpose(m, dim_of(*inner));
                },
                _ => {},
            }
        },
        TensorModel::InverseTranspose(a) => {
            assert(invertible_inside(*a, it, b));
        },
        TensorModel::MatMul(a, c) => {
            assert(invertible_inside(*a, it, b) && invertible_inside(*c, it, b));
        },
        TensorModel::Neg(a) => {
            assert(invertible_inside(*a, it, b));
            match *a {
                TensorModel::Neg(inner) => {
                    assert(invertible_inside(*inner, it, b));
                },
                TensorModel::Add(x, y) => {
                    assert(invertible_inside(*x, it, b) && invertible_inside(*y, it, b));
                    match *x {
                        TensorModel::Neg(inner) => {
                            assert(invertible_inside(*inner, it, b));
                        },
                        _ => {},
                    }
                },
                TensorModel::Sub(x, y) => {
                    assert(invertible_inside(*x, it, b) && invertible_inside(*y, it, b));
                },
                _ => {},
            }
        },
        _ => {},
    }
}

/// From the rebuilt node `r` to the pass: the rewrite at the root keeps
/// the meaning and the invertibility of what is inverted.
proof fn lemma_finish_pass(t: TensorModel, r: TensorModel, it: Interp)
    requires
        pass_m(t, true) == rewrite_m(r, true),
        well_shaped(r),
        matrix_expr(r),
        dim_of(r) == dim_of(t),
        faithful(it),
        inverse_laws(it),
        forall|b: Bindings|
            #[trigger] invertible_inside(t, it, b) ==> agree(eval(r, it, b), eval(t, it, b), dim_of(t))
                && invertible_inside(r, it, b),
    ensures
        matrix_expr(pass_m(t, true)),
        forall|b: Bindings|
            #[trigger] invertible_inside(t, it, b) ==> agree(
                eval(pass_m(t, true), it, b),
                eval(t, it, b),
                dim_of(t),
            ) && invertible_inside(pass_m(t, true), it, b),
{
    lemma_rewrite_stays_matrix(r);
    assert forall|b: Bindings| #[trigger] invertible_inside(t, it, b) implies agree(
        eval(pass_m(t, true), it, b),
        eval(t, it, b),
        dim_of(t),
    ) && invertible_inside(pass_m(t, true), it, b) by {
        lemma_root_inverses(r, it, b);
        law_rewrite_keeps_meaning(r, it, b);
        lemma_rewrite_keeps_invertible(r, it, b);
        lemma_agree_trans(eval(pass_m(t, true), it, b), eval(r, it, b), eval(t, it, b), dim_of(t));
    }
}

proof fn lemma_terms_pass(
    body: TensorModel,
    it: Interp,
    b: Bindings,
    index: Seq<char>,
    exclude: Option<Seq<char>>,
    range: nat,
    k: nat,
)
    requires
        terms_invertible(body, it, b, index, exclude, range, k),
        forall|b2: Bindings|
            #[trigger] invertible_inside(body, it, b2) ==> invertible_inside(pass_m(body, true), it, b2),
    ensures
        terms_invertible(pass_m(body, true), it, b, index, exclude, range, k),
    decreases range - k,
{
    if k < range {
        lemma_terms_pass(body, it, b, index, exclude, range, k + 1);
        if !excluded(exclude, b, k + 1) {
            assert(invertible_inside(body, it, b.push((index, k + 1))));
        }
    }
}

/// A pass keeps a matrix expression one, keeps what it denotes, and takes
/// inverses only of invertible matrices, under every binding of the
/// summation indices for which the expression does.
proof fn lemma_pass_exact(t: TensorModel, it: Interp)
    requires
        well_shaped(t),
        sized(t),
        matrix_expr(t),
        faithful(it),
        inverse_laws(it),
    ensures
        matrix_expr(pass_m(t, true)),
        forall|b: Bindings|
            #[trigger] invertible_inside(t, it, b) ==> agree(
                eval(pass_m(t, true), it, b),
                eval(t, it, b),
                dim_of(t),
            ) && invertible_inside(pass_m(t, true), it, b),
    decreases t,
{
    match t {
        TensorModel::Transpose(a) => {
            lemma_pass_exact(*a, it);
            lemma_pass_keeps_shape(*a, true);
            let r = TensorModel::Transpose(Box::new(pass_m(*a, true)));
            assert forall|b: Bindings| #[trigger] invertible_inside(t, it, b) implies agree(
                eval(r, it, b),
                eval(t, it, b),
                dim_of(t),
            ) && invertible_inside(r, it, b) by {
                assert(invertible_inside(*a, it, b));
            }
            lemma_finish_pass(t, r, it);
        },
        TensorModel::Inverse(a) => {
            lemma_pass_exact(*a, it);
            lemma_pass_keeps_shape(*a, true);
            let a2 = pass_m(*a, true);
            let r = TensorModel::Inverse(Box::new(a2));
            assert forall|b: Bindings| #[trigger] invertible_inside(t, it, b) implies agree(
                eval(r, it, b),
                eval(t, it, b),
                dim_of(t),
            ) && invertible_inside(r, it, b) by {
                let n = dim_of(*a);
                assert(invertible_inside(*a, it, b));
                assert(agree(eval(a2, it, b), eval(*a, it, b), n));
                assert(restrict(eval(a2, it, b), n) =~= restrict(eval(*a, it, b), n));
                lemma_has_inverse_congruent(eval(a2, it, b), eval(*a, it, b), n);
            }
            lemma_finish_pass(t, r, it);
        },
        TensorModel::InverseTranspose(a) => {
            lemma_pass_exact(*a, it);
            lemma_pass_keeps_shape(*a, true);
            let a2 = pass_m(*a, true);
            let r = TensorModel::InverseTranspose(Box::new(a2));
            assert forall|b: Bindings| #[trigger] invertible_inside(t, it, b) implies agree(
                eval(r, it, b),
                eval(t, it, b),
                dim_of(t),
            ) && invertible_inside(r, it, b) by {
                let n = dim_of(*a);
                assert(invertible_inside(*a, it, b));
                assert(agree(eval(a2, it, b), eval(*a, it, b), n));
                assert(restrict(eval(a2, it, b), n) =~= restrict(eval(*a, it, b), n));
                lemma_has_inverse_congruent(eval(a2, it, b), eval(*a, it, b), n);
            }
            lemma_finish_pass(t, r, it);
        },
        TensorModel::Neg(a) => {
            lemma_pass_exact(*a, it);
            lemma_pass_keeps_shape(*a, true);
            let r = TensorModel::Neg(Box::new(pass_m(*a, true)));
            assert forall|b: Bindings| #[trigger] invertible_inside(t, it, b) implies agree(
                eval(r, it, b),
                eval(t, it, b),
                dim_of(t),
            ) && invertible_inside(r, it, b) by {
                assert(invertible_inside(*a, it, b));
            }
            lemma_finish_pass(t, r, it);
        },
        TensorModel::ScalarMul(s, a) => {
            lemma_pass_exact(*a, it);
            lemma_pass_keeps_shape(*a, true);
            let r = TensorModel::ScalarMul(s, Box::new(pass_m(*a, true)));
            assert forall|b: Bindings| #[trigger] invertible_inside(t, it, b) implies agree(
                eval(r, it, b),
                eval(t, it, b),
                dim_of(t),
            ) && invertible_inside(r, it, b) by {
                assert(invertible_inside(*a, it, b));
            }
            lemma_finish_pass(t, r, it);
        },
        TensorModel::MatMul(a, c) => {
            lemma_pass_exact(*a, it);
            lemma_pass_exact(*c, it);
            lemma_pass_keeps_shape(*a, true);
            lemma_pass_keeps_shape(*c, true);
            let r = TensorModel::MatMul(Box::new(pass_m(*a, true)), Box::new(pass_m(*c, true)));
            assert forall|b: Bindings| #[trigger] invertible_inside(t, it, b) implies agree(
                eval(r, it, b),
                eval(t, it, b),
                dim_of(t),
            ) && invertible_inside(r, it, b) by {
                assert(invertible_inside(*a, it, b) && invertible_inside(*c, it, b));
                lemma_mat_mul_congruent(
                    eval(pass_m(*a, true), it, b),
                    eval(*a, it, b),
                    eval(pass_m(*c, true), it, b),
                    eval(*c, it, b),
                    dim_of(*a),
                );
            }
            lemma_finish_pass(t, r, it);
        },
        TensorModel::Add(a, c) => {
            lemma_pass_exact(*a, it);
            lemma_pass_exact(*c, it);
            lemma_pass_keeps_shape(*a, true);
            lemma_pass_keeps_shape(*c, true);
            let r = TensorModel::Add(Box::new(pass_m(*a, true)), Box::new(pass_m(*c, true)));
            assert forall|b: Bindings| #[trigger] invertible_inside(t, it, b) implies agree(
                eval(r, it, b),
                eval(t, it, b),
                dim_of(t),
            ) && invertible_inside(r, it, b) by {
                assert(invertible_inside(*a, it, b) && invertible_inside(*c, it, b));
            }
            lemma_finish_pass(t, r, it);
        },
        TensorModel::Sub(a, c) => {
            lemma_pass_exact(*a, it);
            lemma_pass_exact(*c, it);
            lemma_pass_keeps_shape(*a, true);
            lemma_pass_keeps_shape(*c, true);
            let r = TensorModel::Sub(Box::new(pass_m(*a, true)), Box::new(pass_m(*c, true)));
            assert forall|b: Bindings| #[trigger] invertible_inside(t, it, b) implies agree(
                eval(r, it, b),
                eval(t, it, b),
                dim_of(t),
            ) && invertible_inside(r, it, b) by {
                assert(invertible_inside(*a, it, b) && invertible_inside(*c, it, b));
            }
            lemma_finish_pass(t, r, it);
        },
        TensorModel::SumIdx { index, range, exclude, body } => {
            lemma_pass_exact(*body, it);
            lemma_pass_keeps_shape(*body, true);
            let body2 = pass_m(*body, true);
            let r = TensorModel::SumIdx { index, range, exclude, body: Box::new(body2) };
            let n = dim_of(t);
            assert forall|b: Bindings| #[trigger] invertible_inside(t, it, b) implies agree(
                eval(r, it, b),
                eval(t, it, b),
                n,
            ) && invertible_inside(r, it, b) by {
                assert(terms_invertible(*body, it, b, index, exclude, range, 0));
                lemma_terms_pass(*body, it, b, index, exclude, range, 0);
                assert forall|i: int, j: int| 0 <= i < n && 0 <= j < n implies #[trigger] eval(
                    r,
                    it,
                    b,
                )(i, j) == eval(t, it, b)(i, j) by {
                    let f = sum_term(body2, it, b, index, exclude, i, j);
                    let g = sum_term(*body, it, b, index, exclude, i, j);
                    assert forall|q: int| 0 <= q < range implies #[trigger] f(q) == g(q) by {
                        if !excluded(exclude, b, (q + 1) as nat) {
                            let b2 = b.push((index, (q + 1) as nat));
                            lemma_terms_invertible_at(
                                *body,
                                it,
                                b,
                                index,
                                exclude,
                                range,
                                0,
                                q as nat,
                            );
                            assert(agree(eval(body2, it, b2), eval(*body, it, b2), n));
                        }
                    }
                    lemma_sum_ext(range, f, g);
                }
            }
            lemma_finish_pass(t, r, it);
        },
        _ => {
            assert(pass_m(t, true) == rewrite_m(t, true));
            lemma_finish_pass(t, t, it);
        },
    }
}

/// A pass of the structural rules keeps the meaning of a matrix expression
/// (see [`matrix_expr`]) whose inverses are of invertible matrices, under
/// every interpretation that honours the declarations and in which
/// inverses behave as inverses.
pub proof fn law_pass_keeps_meaning(t: TensorModel, it: Interp, b: Bindings)
    requires
        well_shaped(t),
        sized(t),
        matrix_expr(t),
        faithful(it),
        inverse_laws(it),
        invertible_inside(t, it, b),
    ensures
        agree(eval(pass_m(t, true), it, b), eval(t, it, b), dim_of(t)),
{
    lemma_pass_exact(t, it);
}

/// Simplification with the tensor rules keeps the meaning of a matrix
/// expression whose inverses are of invertible matrices: the result
/// denotes the same matrix as the input, under every interpretation that
/// honours the declarations and in which inverses behave as inverses.
pub proof fn law_simplify_keeps_meaning(t: TensorModel, it: Interp, b: Bindings, fuel: nat)
    requires
        well_shaped(t),
        sized(t),
        matrix_expr(t),
        faithful(it),
        inverse_laws(it),
        invertible_inside(t, it, b),
    ensures
        agree(eval(simplify_m(t, true, fuel), it, b), eval(t, it, b), dim_of(t)),
    decreases fuel,
{
    if fuel > 0 {
        let next = pass_m(t, true);
        lemma_pass_exact(t, it);
        lemma_pass_keeps_shape(t, true);
        if next != t {
            law_simplify_keeps_meaning(next, it, b, (fuel - 1) as nat);
            lemma_agree_trans(
                eval(simplify_m(next, true, (fuel - 1) as nat), it, b),
                eval(next, it, b),
                eval(t, it, b),
                dim_of(t),
            );
        }
    }
}

} // verus!
