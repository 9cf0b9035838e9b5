use std::rc::Rc;
use tensorforge::rules::RuleSet;
use tensorforge::simplify::{identity, simplify_tensor_structure};
use tensorforge::tensor::{tensor_eq, TensorExpr, TensorProperties};

fn var(name: &str) -> Rc<TensorExpr> {
    Rc::new(TensorExpr::Var {
        name: name.into(),
        latex: format!("\\bm {name}"),
        order: 2,
        dim: 3,
        props: TensorProperties::default(),
    })
}

fn sym(name: &str) -> Rc<TensorExpr> {
    Rc::new(TensorExpr::Var {
        name: name.into(),
        latex: format!("\\bm {name}"),
        order: 2,
        dim: 3,
        props: TensorProperties { symmetric: true, ..Default::default() },
    })
}

#[test]
fn double_transpose_cancels() {
    let f = var("F");
    let ftt = Rc::new(TensorExpr::Transpose(Rc::new(TensorExpr::Transpose(f.clone()))));
    assert_eq!(simplify_tensor_structure(&ftt, RuleSet::Tensor), f);
}

#[test]
fn inverse_cancellation_gives_identity() {
    let f = var("F");
    // F^{-T} Fᵀ → I
    let expr = Rc::new(TensorExpr::MatMul(
        Rc::new(TensorExpr::InverseTranspose(f.clone())),
        Rc::new(TensorExpr::Transpose(f.clone())),
    ));
    let out = simplify_tensor_structure(&expr, RuleSet::Tensor);
    assert!(out.is_identity(), "got {out:?}");
    // F⁻¹ F → I
    let expr = Rc::new(TensorExpr::MatMul(Rc::new(TensorExpr::Inverse(f.clone())), f.clone()));
    assert!(simplify_tensor_structure(&expr, RuleSet::Tensor).is_identity());
}

#[test]
fn transposed_inverse_becomes_inverse_transpose() {
    let f = var("F");
    let e = Rc::new(TensorExpr::Transpose(Rc::new(TensorExpr::Inverse(f.clone()))));
    let out = simplify_tensor_structure(&e, RuleSet::Continuum);
    assert!(tensor_eq(&out, &TensorExpr::InverseTranspose(f.clone())));
    let e = Rc::new(TensorExpr::Inverse(Rc::new(TensorExpr::Transpose(f.clone()))));
    assert!(tensor_eq(&simplify_tensor_structure(&e, RuleSet::Tensor), &TensorExpr::InverseTranspose(f)));
}

#[test]
fn symmetric_transpose_and_identity_factors_drop() {
    let s = sym("S");
    let st = Rc::new(TensorExpr::Transpose(s.clone()));
    assert_eq!(simplify_tensor_structure(&st, RuleSet::Tensor), s);
    let i = Rc::new(identity(3));
    let f = var("F");
    let e = Rc::new(TensorExpr::MatMul(i.clone(), Rc::new(TensorExpr::MatMul(f.clone(), i.clone()))));
    assert_eq!(simplify_tensor_structure(&e, RuleSet::Tensor), f);
    let ii = Rc::new(TensorExpr::Inverse(i.clone()));
    assert!(simplify_tensor_structure(&ii, RuleSet::Tensor).is_identity());
}

#[test]
fn negations_are_normalised() {
    let a = var("A");
    let b = var("B");
    let nn = Rc::new(TensorExpr::Neg(Rc::new(TensorExpr::Neg(a.clone()))));
    assert_eq!(simplify_tensor_structure(&nn, RuleSet::Tensor), a);
    let neg_sub = Rc::new(TensorExpr::Neg(Rc::new(TensorExpr::Sub(a.clone(), b.clone()))));
    assert!(tensor_eq(&simplify_tensor_structure(&neg_sub, RuleSet::Tensor), &TensorExpr::Sub(b.clone(), a.clone())));
    let neg_add = Rc::new(TensorExpr::Neg(Rc::new(TensorExpr::Add(Rc::new(TensorExpr::Neg(a.clone())), b.clone()))));
    assert!(tensor_eq(&simplify_tensor_structure(&neg_add, RuleSet::Tensor), &TensorExpr::Sub(a, b)));
}

#[test]
fn algebra_rules_leave_tensors_alone() {
    let f = var("F");
    let ftt = Rc::new(TensorExpr::Transpose(Rc::new(TensorExpr::Transpose(f.clone()))));
    assert_eq!(simplify_tensor_structure(&ftt, RuleSet::Algebra), ftt);
}
