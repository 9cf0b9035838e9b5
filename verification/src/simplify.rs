//! The structural rewrite rules of the tensor simplifier: transposes,
//! inverses, identity factors, inverse cancellations and negations.
//!
//! Rules that fold scalar coefficients (`1 · A → A`, factoring a common
//! scalar out of a sum) work on the symbolic scalars, which live outside
//! this library; these passes leave scalar factors, sums and differences as
//! they are.

use vstd::prelude::*;
use std::rc::Rc;
use crate::rules::{RuleSet, rank};
use crate::tensor::{
    TensorExpr, TensorModel, TensorProperties, copy_tensor, tensor_model, dim_of, is_identity_m, is_symmetric,
    order_of, sized, symmetric_m, tensor_eq, well_shaped,
};

verus! {

/// The second-order identity tensor `\bm I` of dimension `dim`.
pub open spec fn identity_m(dim: nat) -> TensorModel {
    TensorModel::Var {
        name: "I"@,
        latex: "\\bm I"@,
        order: 2,
        dim,
        props: TensorProperties {
            identity: true,
            symmetric: false,
            antisymmetric: false,
            orthogonal: false,
            isotropic: false,
        },
    }
}

/// The identity tensor of dimension `dim`.
pub fn identity(dim: usize) -> (t: TensorExpr)
    ensures
        t@ == identity_m(dim as nat),
{
    TensorExpr::Var {
        name: String::from_str("I"),
        latex: String::from_str("\\bm I"),
        order: 2,
        dim,
        props: TensorProperties {
            identity: true,
            symmetric: false,
            antisymmetric: false,
            orthogonal: false,
            isotropic: false,
        },
    }
}

/// Whether the product `a b` is exactly the identity: `F⁻¹ F`, `F F⁻¹`,
/// `F^{-T} Fᵀ` or `Fᵀ F^{-T}` with structurally equal `F`.
pub open spec fn cancels_m(a: TensorModel, b: TensorModel) -> bool {
    match (a, b) {
        (TensorModel::Inverse(x), y) => *x == y,
        (y, TensorModel::Inverse(x)) => *x == y,
        (TensorModel::InverseTranspose(x), TensorModel::Transpose(y)) => x == y,
        (TensorModel::Transpose(y), TensorModel::InverseTranspose(x)) => x == y,
        _ => false,
    }
}

/// One structural rewrite at the root of `t` (only when the tensor rules
/// are enabled).
pub open spec fn rewrite_m(t: TensorModel, tensor_rules: bool) -> TensorModel {
    if !tensor_rules {
        t
    } else {
        match t {
            TensorModel::Transpose(a) => match *a {
                TensorModel::Transpose(inner) => *inner,
                TensorModel::Inverse(inner) => if symmetric_m(*a) {
                    *a
                } else {
                    TensorModel::InverseTranspose(inner)
                },
                _ => if symmetric_m(*a) {
                    *a
                } else {
                    t
                },
            },
            TensorModel::Inverse(a) => match *a {
                TensorModel::Inverse(inner) => *inner,
                TensorModel::Transpose(inner) => if is_identity_m(*a) {
                    *a
                } else {
                    TensorModel::InverseTranspose(inner)
                },
                _ => if is_identity_m(*a) {
                    *a
                } else {
                    t
                },
            },
            TensorModel::InverseTranspose(a) => if is_identity_m(*a) {
                *a
            } else {
                t
            },
            TensorModel::MatMul(a, b) => if is_identity_m(*a) {
                *b
            } else if is_identity_m(*b) {
                *a
            } else if cancels_m(*a, *b) {
                identity_m(dim_of(*a))
            } else {
                t
            },
            TensorModel::Neg(a) => match *a {
                TensorModel::Neg(inner) => *inner,
                TensorModel::Add(x, y) => match *x {
                    TensorModel::Neg(inner) => TensorModel::Sub(inner, y),
                    _ => t,
                },
                TensorModel::Sub(x, y) => TensorModel::Sub(y, x),
                _ => t,
            },
            _ => t,
        }
    }
}

/// One bottom-up pass: children first, then the node itself.
pub open spec fn pass_m(t: TensorModel, tensor_rules: bool) -> TensorModel
    decreases t,
{
    let rebuilt = match t {
        TensorModel::Transpose(a) => TensorModel::Transpose(Box::new(pass_m(*a, tensor_rules))),
        TensorModel::Inverse(a) => TensorModel::Inverse(Box::new(pass_m(*a, tensor_rules))),
        TensorModel::InverseTranspose(a) => TensorModel::InverseTranspose(
            Box::new(pass_m(*a, tensor_rules)),
        ),
        TensorModel::Diff { num, den, num_label } => TensorModel::Diff {
            num: Box::new(pass_m(*num, tensor_rules)),
            den: Box::new(pass_m(*den, tensor_rules)),
            num_label,
        },
        TensorModel::MatMul(a, b) => TensorModel::MatMul(
            Box::new(pass_m(*a, tensor_rules)),
            Box::new(pass_m(*b, tensor_rules)),
        ),
        TensorModel::Power { base, exp } => TensorModel::Power {
            base: Box::new(pass_m(*base, tensor_rules)),
            exp,
        },
        TensorModel::Add(a, b) => TensorModel::Add(
            Box::new(pass_m(*a, tensor_rules)),
            Box::new(pass_m(*b, tensor_rules)),
        ),
        TensorModel::Sub(a, b) => TensorModel::Sub(
            Box::new(pass_m(*a, tensor_rules)),
            Box::new(pass_m(*b, tensor_rules)),
        ),
        TensorModel::ScalarMul(s, a) => TensorModel::ScalarMul(s, Box::new(pass_m(*a, tensor_rules))),
        TensorModel::Outer(a, b) => TensorModel::Outer(
            Box::new(pass_m(*a, tensor_rules)),
            Box::new(pass_m(*b, tensor_rules)),
        ),
        TensorModel::BoxTimes(a, b) => TensorModel::BoxTimes(
            Box::new(pass_m(*a, tensor_rules)),
            Box::new(pass_m(*b, tensor_rules)),
        ),
        TensorModel::SumIdx { index, range, exclude, body } => TensorModel::SumIdx {
            index,
            range,
            exclude,
            body: Box::new(pass_m(*body, tensor_rules)),
        },
        TensorModel::Neg(a) => TensorModel::Neg(Box::new(pass_m(*a, tensor_rules))),
        _ => t,
    };
    rewrite_m(rebuilt, tensor_rules)
}

/// Passes repeated until nothing changes, at most `fuel` times.
pub open spec fn simplify_m(t: TensorModel, tensor_rules: bool, fuel: nat) -> TensorModel
    decreases fuel,
{
    if fuel == 0 {
        t
    } else {
        let next = pass_m(t, tensor_rules);
        if next == t {
            t
        } else {
            simplify_m(next, tensor_rules, (fuel - 1) as nat)
        }
    }
}

/// The most passes a simplification makes.
pub open spec fn max_passes() -> nat {
    32
}


/// A well-shaped, machine-sized expression keeps its order, dimension,
/// shape and size through one rewrite.
pub proof fn lemma_rewrite_keeps_shape(t: TensorModel, tensor_rules: bool)
    requires
        well_shaped(t),
        sized(t),
    ensures
        order_of(rewrite_m(t, tensor_rules)) == order_of(t),
        dim_of(rewrite_m(t, tensor_rules)) == dim_of(t),
        well_shaped(rewrite_m(t, tensor_rules)),
        sized(rewrite_m(t, tensor_rules)),
{
    if tensor_rules {
        match t {
            TensorModel::Transpose(a) => {
                assert(well_shaped(*a) && sized(*a) && dim_of(t) == dim_of(*a) && order_of(t) == order_of(*a));
                match *a {
                    TensorModel::Transpose(inner) => {
                        assert(well_shaped(*inner) && sized(*inner) && dim_of(*a) == dim_of(*inner));
                    },
                    TensorModel::Inverse(inner) => {
                        assert(well_shaped(*inner) && sized(*inner));
                        assert(order_of(*inner) == 2);
                    },
                    _ => {},
                }
            },
            TensorModel::Inverse(a) => {
                assert(well_shaped(*a) && sized(*a) && dim_of(t) == dim_of(*a) && order_of(t) == order_of(*a));
                match *a {
                    TensorModel::Inverse(inner) => {
                        assert(well_shaped(*inner) && sized(*inner) && dim_of(*a) == dim_of(*inner));
                    },
                    TensorModel::Transpose(inner) => {
                        assert(well_shaped(*inner) && sized(*inner));
                        assert(order_of(*inner) == 2);
                    },
                    _ => {},
                }
            },
            TensorModel::InverseTranspose(a) => {
                assert(well_shaped(*a) && sized(*a) && dim_of(t) == dim_of(*a) && order_of(t) == order_of(*a));
            },
            TensorModel::MatMul(a, b) => {
                assert(well_shaped(*a) && sized(*a) && well_shaped(*b) && sized(*b) && dim_of(t) == dim_of(*a));
            },
            TensorModel::Neg(a) => {
                assert(well_shaped(*a) && sized(*a) && dim_of(t) == dim_of(*a) && order_of(t) == order_of(*a));
                match *a {
                    TensorModel::Neg(inner) => {
                        assert(well_shaped(*inner) && sized(*inner) && dim_of(*a) == dim_of(*inner));
                    },
                    TensorModel::Add(x, y) => {
                        assert(well_shaped(*x) && sized(*x) && well_shaped(*y) && sized(*y));
                        assert(dim_of(*a) == dim_of(*x));
                        match *x {
                            TensorModel::Neg(inner) => {
                                assert(well_shaped(*inner) && sized(*inner));
                                assert(order_of(*x) == order_of(*inner) && dim_of(*x) == dim_of(*inner));
                                assert(order_of(TensorModel::Sub(inner, y)) == order_of(*inner));
                            },
                            _ => {},
                        }
                    },
                    TensorModel::Sub(x, y) => {
                        assert(well_shaped(*x) && sized(*x) && well_shaped(*y) && sized(*y));
                        assert(dim_of(*a) == dim_of(*x));
                        assert(order_of(TensorModel::Sub(y, x)) == order_of(*y));
                        assert(dim_of(TensorModel::Sub(y, x)) == dim_of(*y));
                    },
                    _ => {},
                }
            },
            _ => {},
        }
    }
}

/// One pass keeps a well-shaped expression's order, dimension, shape and
/// size.
pub proof fn lemma_pass_keeps_shape(t: TensorModel, tensor_rules: bool)
    requires
        well_shaped(t),
        sized(t),
    ensures
        order_of(pass_m(t, tensor_rules)) == order_of(t),
        dim_of(pass_m(t, tensor_rules)) == dim_of(t),
        well_shaped(pass_m(t, tensor_rules)),
        sized(pass_m(t, tensor_rules)),
    decreases t,
{
    match t {
        TensorModel::Transpose(a) => lemma_pass_keeps_shape(*a, tensor_rules),
        TensorModel::Inverse(a) => lemma_pass_keeps_shape(*a, tensor_rules),
        TensorModel::InverseTranspose(a) => lemma_pass_keeps_shape(*a, tensor_rules),
        TensorModel::Diff { num, den, .. } => {
            lemma_pass_keeps_shape(*num, tensor_rules);
            lemma_pass_keeps_shape(*den, tensor_rules);
        },
        TensorModel::MatMul(a, b) => {
            lemma_pass_keeps_shape(*a, tensor_rules);
            lemma_pass_keeps_shape(*b, tensor_rules);
        },
        TensorModel::Power { base, .. } => lemma_pass_keeps_shape(*base, tensor_rules),
        TensorModel::Add(a, b) => {
            lemma_pass_keeps_shape(*a, tensor_rules);
            lemma_pass_keeps_shape(*b, tensor_rules);
        },
        TensorModel::Sub(a, b) => {
            lemma_pass_keeps_shape(*a, tensor_rules);
            lemma_pass_keeps_shape(*b, tensor_rules);
        },
        TensorModel::ScalarMul(_, a) => lemma_pass_keeps_shape(*a, tensor_rules),
        TensorModel::Outer(a, b) => {
            lemma_pass_keeps_shape(*a, tensor_rules);
            lemma_pass_keeps_shape(*b, tensor_rules);
        },
        TensorModel::BoxTimes(a, b) => {
            lemma_pass_keeps_shape(*a, tensor_rules);
            lemma_pass_keeps_shape(*b, tensor_rules);
        },
        TensorModel::SumIdx { body, .. } => lemma_pass_keeps_shape(*body, tensor_rules),
        TensorModel::Neg(a) => lemma_pass_keeps_shape(*a, tensor_rules),
        _ => {},
    }
    let rebuilt = match t {
        TensorModel::Transpose(a) => TensorModel::Transpose(Box::new(pass_m(*a, tensor_rules))),
        TensorModel::Inverse(a) => TensorModel::Inverse(Box::new(pass_m(*a, tensor_rules))),
        TensorModel::InverseTranspose(a) => TensorModel::InverseTranspose(
            Box::new(pass_m(*a, tensor_rules)),
        ),
        TensorModel::Diff { num, den, num_label } => TensorModel::Diff {
            num: Box::new(pass_m(*num, tensor_rules)),
            den: Box::new(pass_m(*den, tensor_rules)),
            num_label,
        },
        TensorModel::MatMul(a, b) => TensorModel::MatMul(
            Box::new(pass_m(*a, tensor_rules)),
            Box::new(pass_m(*b, tensor_rules)),
        ),
        TensorModel::Power { base, exp } => TensorModel::Power {
            base: Box::new(pass_m(*base, tensor_rules)),
            exp,
        },
        TensorModel::Add(a, b) => TensorModel::Add(
            Box::new(pass_m(*a, tensor_rules)),
            Box::new(pass_m(*b, tensor_rules)),
        ),
        TensorModel::Sub(a, b) => TensorModel::Sub(
            Box::new(pass_m(*a, tensor_rules)),
            Box::new(pass_m(*b, tensor_rules)),
        ),
        TensorModel::ScalarMul(s, a) => TensorModel::ScalarMul(s, Box::new(pass_m(*a, tensor_rules))),
        TensorModel::Outer(a, b) => TensorModel::Outer(
            Box::new(pass_m(*a, tensor_rules)),
            Box::new(pass_m(*b, tensor_rules)),
        ),
        TensorModel::BoxTimes(a, b) => TensorModel::BoxTimes(
            Box::new(pass_m(*a, tensor_rules)),
            Box::new(pass_m(*b, tensor_rules)),
        ),
        TensorModel::SumIdx { index, range, exclude, body } => TensorModel::SumIdx {
            index,
            range,
            exclude,
            body: Box::new(pass_m(*body, tensor_rules)),
        },
        TensorModel::Neg(a) => TensorModel::Neg(Box::new(pass_m(*a, tensor_rules))),
        _ => t,
    };
    assert(order_of(rebuilt) == order_of(t));
    assert(dim_of(rebuilt) == dim_of(t));
    assert(well_shaped(rebuilt));
    assert(sized(rebuilt));
    lemma_rewrite_keeps_shape(rebuilt, tensor_rules);
    assert(pass_m(t, tensor_rules) == rewrite_m(rebuilt, tensor_rules));
}

/// Simplification never changes the shape of a tensor expression: a
/// well-shaped expression stays well-shaped, with the same order and
/// dimension, however many passes are made.
pub proof fn law_simplify_keeps_shape(t: TensorModel, tensor_rules: bool, fuel: nat)
    requires
        well_shaped(t),
        sized(t),
    ensures
        order_of(simplify_m(t, tensor_rules, fuel)) == order_of(t),
        dim_of(simplify_m(t, tensor_rules, fuel)) == dim_of(t),
        well_shaped(simplify_m(t, tensor_rules, fuel)),
        sized(simplify_m(t, tensor_rules, fuel)),
    decreases fuel,
{
    if fuel > 0 {
        lemma_pass_keeps_shape(t, tensor_rules);
        let next = pass_m(t, tensor_rules);
        if next != t {
            law_simplify_keeps_shape(next, tensor_rules, (fuel - 1) as nat);
        }
    }
}

/// Without the tensor rules, simplification leaves a tensor unchanged.
pub proof fn law_simplify_without_tensor_rules_is_identity(t: TensorModel, fuel: nat)
    ensures
        pass_m(t, false) == t,
        simplify_m(t, false, fuel) == t,
    decreases t,
{
    match t {
        TensorModel::Transpose(a) => law_simplify_without_tensor_rules_is_identity(*a, 0),
        TensorModel::Inverse(a) => law_simplify_without_tensor_rules_is_identity(*a, 0),
        TensorModel::InverseTranspose(a) => law_simplify_without_tensor_rules_is_identity(*a, 0),
        TensorModel::Diff { num, den, .. } => {
            law_simplify_without_tensor_rules_is_identity(*num, 0);
            law_simplify_without_tensor_rules_is_identity(*den, 0);
        },
        TensorModel::MatMul(a, b) => {
            law_simplify_without_tensor_rules_is_identity(*a, 0);
            law_simplify_without_tensor_rules_is_identity(*b, 0);
        },
        TensorModel::Power { base, .. } => law_simplify_without_tensor_rules_is_identity(*base, 0),
        TensorModel::Add(a, b) => {
            law_simplify_without_tensor_rules_is_identity(*a, 0);
            law_simplify_without_tensor_rules_is_identity(*b, 0);
        },
        TensorModel::Sub(a, b) => {
            law_simplify_without_tensor_rules_is_identity(*a, 0);
            law_simplify_without_tensor_rules_is_identity(*b, 0);
        },
        TensorModel::ScalarMul(_, a) => law_simplify_without_tensor_rules_is_identity(*a, 0),
        TensorModel::Outer(a, b) => {
            law_simplify_without_tensor_rules_is_identity(*a, 0);
            law_simplify_without_tensor_rules_is_identity(*b, 0);
        },
        TensorModel::BoxTimes(a, b) => {
            law_simplify_without_tensor_rules_is_identity(*a, 0);
            law_simplify_without_tensor_rules_is_identity(*b, 0);
        },
        TensorModel::SumIdx { body, .. } => law_simplify_without_tensor_rules_is_identity(*body, 0),
        TensorModel::Neg(a) => law_simplify_without_tensor_rules_is_identity(*a, 0),
        _ => {},
    }
}


/// Whether the tensor rules are part of `rules`.
pub open spec fn tensor_rules_on(rules: RuleSet) -> bool {
    rank(rules) >= rank(RuleSet::Tensor)
}

fn shared(t: &TensorExpr) -> (r: Rc<TensorExpr>)
    ensures
        r@ == t@,
{
    Rc::new(copy_tensor(t))
}

fn cancels(a: &TensorExpr, b: &TensorExpr) -> (r: bool)
    ensures
        r == cancels_m(a@, b@),
{
    match (a, b) {
        (TensorExpr::Inverse(x), y) => tensor_eq(x, y),
        (y, TensorExpr::Inverse(x)) => tensor_eq(x, y),
        (TensorExpr::InverseTranspose(x), TensorExpr::Transpose(y)) => tensor_eq(x, y),
        (TensorExpr::Transpose(y), TensorExpr::InverseTranspose(x)) => tensor_eq(x, y),
        _ => false,
    }
}

/// One structural rewrite at the root (see [`rewrite_m`]).
pub fn rewrite_tensor_structure(t: Rc<TensorExpr>, rules: RuleSet) -> (r: Rc<TensorExpr>)
    requires
        sized(t@),
        well_shaped(t@),
    ensures
        r@ == rewrite_m(t@, tensor_rules_on(rules)),
{
    if !rules.includes(RuleSet::Tensor) {
        return t;
    }
    match &*t {
        TensorExpr::Transpose(a) => {
            match &**a {
                TensorExpr::Transpose(inner) => {
                    assert(tensor_model(**a) == TensorModel::Transpose(Box::new(tensor_model(**inner))));
                    return shared(inner);
                },
                _ => {},
            }
            if is_symmetric(a) {
                return shared(a);
            }
            match &**a {
                TensorExpr::Inverse(inner) => {
                    assert(tensor_model(**a) == TensorModel::Inverse(Box::new(tensor_model(**inner))));
                    Rc::new(TensorExpr::InverseTranspose(shared(inner)))
                },
                _ => t,
            }
        },
        TensorExpr::Inverse(a) => {
            match &**a {
                TensorExpr::Inverse(inner) => {
                    assert(tensor_model(**a) == TensorModel::Inverse(Box::new(tensor_model(**inner))));
                    return shared(inner);
                },
                _ => {},
            }
            if a.is_identity() {
                return shared(a);
            }
            match &**a {
                TensorExpr::Transpose(inner) => {
                    assert(tensor_model(**a) == TensorModel::Transpose(Box::new(tensor_model(**inner))));
                    Rc::new(TensorExpr::InverseTranspose(shared(inner)))
                },
                _ => t,
            }
        },
        TensorExpr::InverseTranspose(a) => {
            if a.is_identity() {
                shared(a)
            } else {
                t
            }
        },
        TensorExpr::MatMul(a, b) => {
            if a.is_identity() {
                return shared(b);
            }
            if b.is_identity() {
                return shared(a);
            }
            if cancels(a, b) {
                return Rc::new(identity(a.dim()));
            }
            t
        },
        TensorExpr::Neg(a) => match &**a {
            TensorExpr::Neg(inner) => {
                assert(tensor_model(**a) == TensorModel::Neg(Box::new(tensor_model(**inner))));
                shared(inner)
            },
            TensorExpr::Add(x, y) => {
                assert(tensor_model(**a) == TensorModel::Add(
                    Box::new(tensor_model(**x)),
                    Box::new(tensor_model(**y)),
                ));
                match &**x {
                    TensorExpr::Neg(inner) => {
                        assert(tensor_model(**x) == TensorModel::Neg(Box::new(tensor_model(**inner))));
                        Rc::new(TensorExpr::Sub(shared(inner), shared(y)))
                    },
                    _ => t,
                }
            },
            TensorExpr::Sub(x, y) => {
                assert(tensor_model(**a) == TensorModel::Sub(
                    Box::new(tensor_model(**x)),
                    Box::new(tensor_model(**y)),
                ));
                Rc::new(TensorExpr::Sub(shared(y), shared(x)))
            },
            _ => t,
        },
        _ => t,
    }
}

/// One bottom-up structural pass (see [`pass_m`]).
pub fn tensor_structure_pass(t: &Rc<TensorExpr>, rules: RuleSet) -> (r: Rc<TensorExpr>)
    requires
        sized(t@),
        well_shaped(t@),
    ensures
        r@ == pass_m(t@, tensor_rules_on(rules)),
    decreases t,
{
    let ghost inc = tensor_rules_on(rules);
    let rebuilt: Rc<TensorExpr> = match &**t {
        TensorExpr::Transpose(a) => Rc::new(TensorExpr::Transpose(tensor_structure_pass(a, rules))),
        TensorExpr::Inverse(a) => Rc::new(TensorExpr::Inverse(tensor_structure_pass(a, rules))),
        TensorExpr::InverseTranspose(a) => Rc::new(
            TensorExpr::InverseTranspose(tensor_structure_pass(a, rules)),
        ),
        TensorExpr::Diff { num, den, num_label } => Rc::new(
            TensorExpr::Diff {
                num: tensor_structure_pass(num, rules),
                den: tensor_structure_pass(den, rules),
                num_label: match num_label {
                    Some(l) => Some(l.clone()),
                    None => None,
                },
            },
        ),
        TensorExpr::MatMul(a, b) => Rc::new(
            TensorExpr::MatMul(tensor_structure_pass(a, rules), tensor_structure_pass(b, rules)),
        ),
        TensorExpr::Power { base, exp } => Rc::new(
            TensorExpr::Power { base: tensor_structure_pass(base, rules), exp: *exp },
        ),
        TensorExpr::Add(a, b) => Rc::new(
            TensorExpr::Add(tensor_structure_pass(a, rules), tensor_structure_pass(b, rules)),
        ),
        TensorExpr::Sub(a, b) => Rc::new(
            TensorExpr::Sub(tensor_structure_pass(a, rules), tensor_structure_pass(b, rules)),
        ),
        TensorExpr::ScalarMul(sid, a) => Rc::new(TensorExpr::ScalarMul(*sid, tensor_structure_pass(a, rules))),
        TensorExpr::Outer(a, b) => Rc::new(
            TensorExpr::Outer(tensor_structure_pass(a, rules), tensor_structure_pass(b, rules)),
        ),
        TensorExpr::BoxTimes(a, b) => Rc::new(
            TensorExpr::BoxTimes(tensor_structure_pass(a, rules), tensor_structure_pass(b, rules)),
        ),
        TensorExpr::SumIdx { index, range, exclude, body } => Rc::new(
            TensorExpr::SumIdx {
                index: index.clone(),
                range: *range,
                exclude: match exclude {
                    Some(e) => Some(e.clone()),
                    None => None,
                },
                body: tensor_structure_pass(body, rules),
            },
        ),
        TensorExpr::Neg(a) => Rc::new(TensorExpr::Neg(tensor_structure_pass(a, rules))),
        _ => shared(t),
    };
    proof {
        lemma_pass_keeps_shape(t@, inc);
        let tm = t@;
        match tm {
            TensorModel::Transpose(a) => lemma_pass_keeps_shape(*a, inc),
            TensorModel::Inverse(a) => lemma_pass_keeps_shape(*a, inc),
            TensorModel::InverseTranspose(a) => lemma_pass_keeps_shape(*a, inc),
            TensorModel::Diff { num, den, .. } => {
                lemma_pass_keeps_shape(*num, inc);
                lemma_pass_keeps_shape(*den, inc);
            },
            TensorModel::MatMul(a, b) => {
                lemma_pass_keeps_shape(*a, inc);
                lemma_pass_keeps_shape(*b, inc);
            },
            TensorModel::Power { base, .. } => lemma_pass_keeps_shape(*base, inc),
            TensorModel::Add(a, b) => {
                lemma_pass_keeps_shape(*a, inc);
                lemma_pass_keeps_shape(*b, inc);
            },
            TensorModel::Sub(a, b) => {
                lemma_pass_keeps_shape(*a, inc);
                lemma_pass_keeps_shape(*b, inc);
            },
            TensorModel::ScalarMul(_, a) => lemma_pass_keeps_shape(*a, inc),
            TensorModel::Outer(a, b) => {
                lemma_pass_keeps_shape(*a, inc);
                lemma_pass_keeps_shape(*b, inc);
            },
            TensorModel::BoxTimes(a, b) => {
                lemma_pass_keeps_shape(*a, inc);
                lemma_pass_keeps_shape(*b, inc);
            },
            TensorModel::SumIdx { body, .. } => lemma_pass_keeps_shape(*body, inc),
            TensorModel::Neg(a) => lemma_pass_keeps_shape(*a, inc),
            _ => {},
        }
    }
    rewrite_tensor_structure(rebuilt, rules)
}

/// Structural passes repeated until nothing changes, at most 32 times
/// (see [`simplify_m`]).
pub fn simplify_tensor_structure(t: &Rc<TensorExpr>, rules: RuleSet) -> (r: Rc<TensorExpr>)
    requires
        sized(t@),
        well_shaped(t@),
    ensures
        r@ == simplify_m(t@, tensor_rules_on(rules), max_passes()),
{
    let ghost inc = tensor_rules_on(rules);
    let mut cur: Rc<TensorExpr> = shared(t);
    let mut k: usize = 0;
    while k < 32
        invariant
            k <= 32,
            sized(cur@),
            well_shaped(cur@),
            inc == tensor_rules_on(rules),
            simplify_m(t@, inc, max_passes()) == simplify_m(cur@, inc, (32 - k) as nat),
        decreases 32 - k,
    {
        let next = tensor_structure_pass(&cur, rules);
        proof {
            lemma_pass_keeps_shape(cur@, inc);
        }
        if tensor_eq(&next, &cur) {
            return cur;
        }
        cur = next;
        k = k + 1;
    }
    cur
}

} // verus!
