//! A meaning for second-order tensor expressions, as square matrices of
//! integers, under which the symmetry that [`crate::tensor::is_symmetric`]
//! infers is proved to hold: inference never reports symmetry that the
//! expression does not have.
//!
//! Structural operations (transpose, products, sums, multiples, outer
//! products, filled components and set sums) are interpreted as the
//! matrix operations they denote; everything else (variables, set
//! elements, derivatives, powers, ...) is a leaf, whose value the
//! interpretation chooses freely, as it chooses the values of scalars, of
//! the factors of outer products, and of inverses.

use vstd::prelude::*;
use crate::tensor::{
    ScalarId, TensorModel, dim_of, is_identity_m, symmetric_m, well_shaped,
};

verus! {

/// A square matrix by its entries.
pub type Mat = spec_fn(int, int) -> int;

/// Summation indices in scope with their values.
pub type Bindings = Seq<(Seq<char>, nat)>;

/// Values for what the structure of an expression does not determine.
pub struct Interp {
    /// The value of a leaf expression under the bindings in scope.
    pub leaf: spec_fn(TensorModel, Bindings) -> Mat,
    /// The components of a first-order factor of an outer product.
    pub vector: spec_fn(TensorModel, Bindings) -> spec_fn(int) -> int,
    /// The value of a scalar under the bindings in scope.
    pub scalar: spec_fn(ScalarId, Bindings) -> int,
    /// The inverse of an `n`-by-`n` matrix.
    pub inverse: spec_fn(Mat, nat) -> Mat,
}

/// `f(0) + ... + f(n - 1)`.
pub open spec fn sum_to(n: nat, f: spec_fn(int) -> int) -> int
    decreases n,
{
    if n == 0 {
        0
    } else {
        sum_to((n - 1) as nat, f) + f(n - 1)
    }
}

/// The terms of entry `(i, j)` of the product `a c`.
pub open spec fn row_col(a: Mat, c: Mat, i: int, j: int) -> spec_fn(int) -> int {
    |k: int| a(i, k) * c(k, j)
}

/// The product of two `n`-by-`n` matrices.
pub open spec fn mat_mul(a: Mat, c: Mat, n: nat) -> Mat {
    |i: int, j: int| sum_to(n, row_col(a, c, i, j))
}

/// The transpose of a matrix.
pub open spec fn transpose(a: Mat) -> Mat {
    |i: int, j: int| a(j, i)
}

/// The value bound to `name`, its latest binding.
pub open spec fn binding(b: Bindings, name: Seq<char>) -> Option<nat>
    decreases b.len(),
{
    if b.len() == 0 {
        None
    } else if b.last().0 == name {
        Some(b.last().1)
    } else {
        binding(b.drop_last(), name)
    }
}

/// Whether the term `k` of a sum over `index` is left out.
pub open spec fn excluded(exclude: Option<Seq<char>>, b: Bindings, k: nat) -> bool {
    match exclude {
        Some(ex) => binding(b, ex) == Some(k),
        None => false,
    }
}

/// The term `m + 1` of a sum over `index`, at entry `(i, j)`.
pub open spec fn sum_term(
    body: TensorModel,
    it: Interp,
    b: Bindings,
    index: Seq<char>,
    exclude: Option<Seq<char>>,
    i: int,
    j: int,
) -> spec_fn(int) -> int
    decreases body, 2int,
{
    |m: int|
        if excluded(exclude, b, (m + 1) as nat) {
            0
        } else {
            eval(body, it, b.push((index, (m + 1) as nat)))(i, j)
        }
}

/// `m` on `0..n`, zero elsewhere.
pub open spec fn restrict(m: Mat, n: nat) -> Mat {
    |i: int, j: int| if 0 <= i < n && 0 <= j < n {
        m(i, j)
    } else {
        0
    }
}

/// The inverse of the `n`-by-`n` matrix `m`: it depends on the entries of
/// `m` on `0..n` only.
pub open spec fn inv_of(it: Interp, m: Mat, n: nat) -> Mat {
    (it.inverse)(restrict(m, n), n)
}

/// The matrix a second-order expression denotes.
pub open spec fn eval(t: TensorModel, it: Interp, b: Bindings) -> Mat
    decreases t, 1int,
{
    match t {
        TensorModel::Transpose(a) => transpose(eval(*a, it, b)),
        TensorModel::Inverse(a) => inv_of(it, eval(*a, it, b), dim_of(*a)),
        TensorModel::InverseTranspose(a) => transpose(inv_of(it, eval(*a, it, b), dim_of(*a))),
        TensorModel::MatMul(a, c) => mat_mul(eval(*a, it, b), eval(*c, it, b), dim_of(*a)),
        TensorModel::Add(a, c) => |i: int, j: int| eval(*a, it, b)(i, j) + eval(*c, it, b)(i, j),
        TensorModel::Sub(a, c) => |i: int, j: int| eval(*a, it, b)(i, j) - eval(*c, it, b)(i, j),
        TensorModel::Neg(a) => |i: int, j: int| -eval(*a, it, b)(i, j),
        TensorModel::ScalarMul(s, a) => |i: int, j: int| (it.scalar)(s, b) * eval(*a, it, b)(i, j),
        TensorModel::Outer(a, c) => |i: int, j: int| (it.vector)(*a, b)(i) * (it.vector)(*c, b)(j),
        TensorModel::Filled { order, dim, entries, .. } => if order == 2 {
            |i: int, j: int| (it.scalar)(entries[i * dim + j], b)
        } else {
            (it.leaf)(t, b)
        },
        TensorModel::SumIdx { index, range, exclude, body } => |i: int, j: int|
            sum_to(range, sum_term(*body, it, b, index, exclude, i, j)),
        _ => (it.leaf)(t, b),
    }
}

/// `m` is symmetric on `0..n`.
pub open spec fn symmetric_mat(m: Mat, n: nat) -> bool {
    forall|i: int, j: int| 0 <= i < n && 0 <= j < n ==> #[trigger] m(i, j) == m(j, i)
}

/// `m` is the identity on `0..n`.
pub open spec fn identity_mat(m: Mat, n: nat) -> bool {
    forall|i: int, j: int| 0 <= i < n && 0 <= j < n ==> #[trigger] m(i, j) == if i == j {
        1int
    } else {
        0int
    }
}

pub open spec fn declared_symmetric(v: TensorModel) -> bool {
    match v {
        TensorModel::Var { props, .. } => props.symmetric,
        _ => false,
    }
}

/// An interpretation that honours the declarations: a variable declared
/// symmetric is a symmetric matrix, one declared the identity is the
/// identity, and the inverse of a symmetric matrix is symmetric.
pub open spec fn faithful(it: Interp) -> bool {
    &&& forall|v: TensorModel, b: Bindings|
        declared_symmetric(v) ==> symmetric_mat(#[trigger] (it.leaf)(v, b), dim_of(v))
    &&& forall|v: TensorModel, b: Bindings|
        is_identity_m(v) ==> identity_mat(#[trigger] (it.leaf)(v, b), dim_of(v))
    &&& forall|m: Mat, n: nat| symmetric_mat(m, n) ==> symmetric_mat(#[trigger] inv_of(it, m, n), n)
}

pub proof fn lemma_sum_ext(n: nat, f: spec_fn(int) -> int, g: spec_fn(int) -> int)
    requires
        forall|k: int| 0 <= k < n ==> #[trigger] f(k) == g(k),
    ensures
        sum_to(n, f) == sum_to(n, g),
    decreases n,
{
    if n > 0 {
        lemma_sum_ext((n - 1) as nat, f, g);
    }
}

/// Multiplying by the identity on the left picks row `i`.
pub proof fn lemma_identity_left(n: nat, id: Mat, m: Mat, i: int, j: int, upto: nat)
    requires
        identity_mat(id, n),
        0 <= i < n,
        upto <= n,
    ensures
        sum_to(upto, row_col(id, m, i, j)) == if i < upto {
            m(i, j)
        } else {
            0
        },
    decreases upto,
{
    if upto > 0 {
        lemma_identity_left(n, id, m, i, j, (upto - 1) as nat);
        assert(id(i, upto - 1) == if i == upto - 1 { 1int } else { 0int });
    }
}

/// Multiplying by the identity on the right picks column `j`.
pub proof fn lemma_identity_right(n: nat, id: Mat, m: Mat, i: int, j: int, upto: nat)
    requires
        identity_mat(id, n),
        0 <= j < n,
        upto <= n,
    ensures
        sum_to(upto, row_col(m, id, i, j)) == if j < upto {
            m(i, j)
        } else {
            0
        },
    decreases upto,
{
    if upto > 0 {
        lemma_identity_right(n, id, m, i, j, (upto - 1) as nat);
        assert(id(upto - 1, j) == if upto - 1 == j { 1int } else { 0int });
    }
}

/// Soundness of symmetry inference: under every interpretation that
/// honours the declarations, a well-shaped expression inferred symmetric
/// denotes a symmetric matrix, whatever the summation indices in scope.
pub proof fn law_inferred_symmetry_holds(t: TensorModel, it: Interp, b: Bindings)
    requires
        well_shaped(t),
        symmetric_m(t),
        faithful(it),
    ensures
        symmetric_mat(eval(t, it, b), dim_of(t)),
    decreases t,
{
    let n = dim_of(t);
    let m = eval(t, it, b);
    match t {
        TensorModel::Var { props, .. } => {
            if props.identity {
                assert(identity_mat((it.leaf)(t, b), n));
            } else {
                assert(declared_symmetric(t));
                assert(symmetric_mat((it.leaf)(t, b), n));
            }
        },
        TensorModel::Transpose(a) => {
            law_inferred_symmetry_holds(*a, it, b);
        },
        TensorModel::Inverse(a) => {
            law_inferred_symmetry_holds(*a, it, b);
            assert(symmetric_mat(inv_of(it, eval(*a, it, b), dim_of(*a)), dim_of(*a)));
        },
        TensorModel::InverseTranspose(a) => {
            law_inferred_symmetry_holds(*a, it, b);
            assert(symmetric_mat(inv_of(it, eval(*a, it, b), dim_of(*a)), dim_of(*a)));
        },
        TensorModel::MatMul(a, c) => {
            let ea = eval(*a, it, b);
            let ec = eval(*c, it, b);
            let tl = match *a {
                TensorModel::Transpose(inner) => *inner == *c,
                _ => false,
            };
            let tr = match *c {
                TensorModel::Transpose(inner) => *inner == *a,
                _ => false,
            };
            if tl {
                let x = eval(*c, it, b);
                assert forall|i: int, j: int| 0 <= i < n && 0 <= j < n implies #[trigger] m(i, j)
                    == m(j, i) by {
                    let f = row_col(ea, ec, i, j);
                    let g = row_col(ea, ec, j, i);
                    assert forall|k: int| 0 <= k < n implies #[trigger] f(k) == g(k) by {
                        assert(ea(i, k) == x(k, i));
                        assert(ea(j, k) == x(k, j));
                        assert(x(k, i) * x(k, j) == x(k, j) * x(k, i)) by (nonlinear_arith);
                    }
                    lemma_sum_ext(n, f, g);
                }
            } else if tr {
                let x = eval(*a, it, b);
                assert forall|i: int, j: int| 0 <= i < n && 0 <= j < n implies #[trigger] m(i, j)
                    == m(j, i) by {
                    let f = row_col(ea, ec, i, j);
                    let g = row_col(ea, ec, j, i);
                    assert forall|k: int| 0 <= k < n implies #[trigger] f(k) == g(k) by {
                        assert(ec(k, j) == x(j, k));
                        assert(ec(k, i) == x(i, k));
                        assert(x(i, k) * x(j, k) == x(j, k) * x(i, k)) by (nonlinear_arith);
                    }
                    lemma_sum_ext(n, f, g);
                }
            } else if is_identity_m(*a) {
                law_inferred_symmetry_holds(*c, it, b);
                assert(ea == (it.leaf)(*a, b));
                assert(identity_mat(ea, n));
                assert forall|i: int, j: int| 0 <= i < n && 0 <= j < n implies #[trigger] m(i, j)
                    == m(j, i) by {
                    lemma_identity_left(n, ea, ec, i, j, n);
                    lemma_identity_left(n, ea, ec, j, i, n);
                }
            } else {
                law_inferred_symmetry_holds(*a, it, b);
                assert(ec == (it.leaf)(*c, b));
                assert(identity_mat(ec, n));
                assert forall|i: int, j: int| 0 <= i < n && 0 <= j < n implies #[trigger] m(i, j)
                    == m(j, i) by {
                    lemma_identity_right(n, ec, ea, i, j, n);
                    lemma_identity_right(n, ec, ea, j, i, n);
                }
            }
        },
        TensorModel::Add(a, c) => {
            law_inferred_symmetry_holds(*a, it, b);
            law_inferred_symmetry_holds(*c, it, b);
        },
        TensorModel::Sub(a, c) => {
            law_inferred_symmetry_holds(*a, it, b);
            law_inferred_symmetry_holds(*c, it, b);
        },
        TensorModel::Neg(a) => {
            law_inferred_symmetry_holds(*a, it, b);
        },
        TensorModel::ScalarMul(_, a) => {
            law_inferred_symmetry_holds(*a, it, b);
        },
        TensorModel::Outer(a, c) => {
            let u = (it.vector)(*a, b);
            assert forall|i: int, j: int| 0 <= i < n && 0 <= j < n implies #[trigger] m(i, j)
                == m(j, i) by {
                assert(u(i) * u(j) == u(j) * u(i)) by (nonlinear_arith);
            }
        },
        TensorModel::Filled { dim, entries, .. } => {
            assert forall|i: int, j: int| 0 <= i < n && 0 <= j < n implies #[trigger] m(i, j)
                == m(j, i) by {
                if j < i {
                    assert(entries[i * dim + j] == entries[j * dim + i]);
                } else if i < j {
                    assert(entries[j * dim + i] == entries[i * dim + j]);
                }
            }
        },
        TensorModel::SumIdx { index, range, exclude, body } => {
            assert forall|i: int, j: int| 0 <= i < n && 0 <= j < n implies #[trigger] m(i, j)
                == m(j, i) by {
                let f = sum_term(*body, it, b, index, exclude, i, j);
                let g = sum_term(*body, it, b, index, exclude, j, i);
                assert forall|q: int| 0 <= q < range implies #[trigger] f(q) == g(q) by {
                    law_inferred_symmetry_holds(*body, it, b.push((index, (q + 1) as nat)));
                }
                lemma_sum_ext(range, f, g);
            }
        },
        _ => {},
    }
}

} // verus!
