use std::rc::Rc;
use tensorforge::components::{check_component_matrix, expandable};
use tensorforge::metadata::{tensor_characteristic, ScalarFacts};
use tensorforge::tensor::{copy_tensor, is_symmetric, tensor_eq, TensorExpr, TensorProperties};

fn var(name: &str, symmetric: bool) -> Rc<TensorExpr> {
    Rc::new(TensorExpr::Var {
        name: name.into(),
        latex: format!("\\bm {name}"),
        order: 2,
        dim: 3,
        props: TensorProperties {
            symmetric,
            ..Default::default()
        },
    })
}

fn shaped(name: &str, order: usize, dim: usize) -> Rc<TensorExpr> {
    Rc::new(TensorExpr::Var {
        name: name.into(),
        latex: format!("\\bm {name}"),
        order,
        dim,
        props: TensorProperties::default(),
    })
}

fn identity(name: &str) -> Rc<TensorExpr> {
    Rc::new(TensorExpr::Var {
        name: name.into(),
        latex: format!("\\bm {name}"),
        order: 2,
        dim: 3,
        props: TensorProperties {
            identity: true,
            ..Default::default()
        },
    })
}

#[test]
fn ftf_is_symmetric() {
    let f = var("F", false);
    let ft = Rc::new(TensorExpr::Transpose(f.clone()));
    let c = TensorExpr::MatMul(ft, f);
    assert!(is_symmetric(&c));
}

#[test]
fn product_of_symmetric_tensors_is_not_inferred_symmetric() {
    let a = var("A", true);
    let b = var("B", true);
    let ab = TensorExpr::MatMul(a, b);
    assert!(!is_symmetric(&ab));
}

#[test]
fn plain_product_is_not_symmetric() {
    let f = var("F", false);
    let g = var("G", false);
    let fg = TensorExpr::MatMul(f, g);
    assert!(!is_symmetric(&fg));
}

#[test]
fn f_times_f_transpose_is_symmetric() {
    let f = var("F", false);
    let c = TensorExpr::MatMul(f.clone(), Rc::new(TensorExpr::Transpose(f)));
    assert!(is_symmetric(&c));
    assert!(c.is_symmetric());
}

#[test]
fn transpose_of_other_tensor_times_tensor_is_not_symmetric() {
    let f = var("F", false);
    let g = var("G", false);
    let c = TensorExpr::MatMul(Rc::new(TensorExpr::Transpose(g)), f);
    assert!(!is_symmetric(&c));
}

#[test]
fn identity_factor_passes_symmetry_through() {
    let s = var("S", true);
    let i = identity("I");
    assert!(is_symmetric(&TensorExpr::MatMul(i.clone(), s.clone())));
    assert!(is_symmetric(&TensorExpr::MatMul(s, i.clone())));
    assert!(!is_symmetric(&TensorExpr::MatMul(i, var("F", false))));
}

#[test]
fn sums_and_scalings_of_symmetric_tensors_are_symmetric() {
    let a = var("A", true);
    let b = var("B", true);
    let f = var("F", false);
    assert!(is_symmetric(&TensorExpr::Add(a.clone(), b.clone())));
    assert!(is_symmetric(&TensorExpr::Sub(a.clone(), b.clone())));
    assert!(!is_symmetric(&TensorExpr::Add(a.clone(), f.clone())));
    assert!(is_symmetric(&TensorExpr::ScalarMul(7, a.clone())));
    assert!(is_symmetric(&TensorExpr::Neg(a.clone())));
    assert!(is_symmetric(&TensorExpr::Inverse(a.clone())));
    assert!(!is_symmetric(&TensorExpr::Neg(f)));
}

#[test]
fn outer_product_symmetric_only_for_identical_factors() {
    let u = shaped("u", 1, 3);
    let v = shaped("v", 1, 3);
    assert!(is_symmetric(&TensorExpr::Outer(u.clone(), u.clone())));
    assert!(!is_symmetric(&TensorExpr::Outer(u, v)));
}

#[test]
fn filled_tensor_symmetric_when_entries_mirror() {
    let sym = TensorExpr::Filled {
        latex: "A".into(),
        order: 2,
        dim: 2,
        entries: vec![1, 2, 2, 3],
    };
    let asym = TensorExpr::Filled {
        latex: "A".into(),
        order: 2,
        dim: 2,
        entries: vec![1, 2, 4, 3],
    };
    assert!(is_symmetric(&sym));
    assert!(!is_symmetric(&asym));
}

#[test]
fn non_second_order_is_never_symmetric() {
    let q = shaped("Q", 4, 3);
    assert!(!is_symmetric(&q));
}

#[test]
fn order_and_dim_follow_the_tree() {
    let f = var("F", false);
    let u = shaped("u", 1, 3);
    let d = TensorExpr::Diff { num: f.clone(), den: f.clone(), num_label: None };
    assert_eq!(d.order(), 4);
    assert_eq!(TensorExpr::Outer(u.clone(), f.clone()).order(), 3);
    assert_eq!(TensorExpr::Identity4 { dim: 2 }.dim(), 2);
    assert_eq!(TensorExpr::Transpose(f).dim(), 3);
}

#[test]
fn transpose_requires_second_order() {
    let f = var("F", false);
    assert!(TensorExpr::transpose(f).is_ok());
    let e = TensorExpr::transpose(shaped("u", 1, 3)).unwrap_err();
    assert_eq!(e.message, "`.T` requires a second-order tensor, got order 1");
    let e = TensorExpr::inverse(shaped("Q", 4, 3)).unwrap_err();
    assert_eq!(e.message, "`inv` requires a second-order tensor, got order 4");
    let e = TensorExpr::inverse_transpose(shaped("u", 1, 3)).unwrap_err();
    assert_eq!(e.message, "inverse transpose requires a second-order tensor, got order 1");
}

#[test]
fn products_check_order_and_dim() {
    let f = var("F", false);
    let g2 = shaped("G", 2, 2);
    let e = TensorExpr::matmul(f.clone(), g2.clone()).unwrap_err();
    assert_eq!(e.message, "dimension mismatch in tensor product: 3 vs 2");
    let e = TensorExpr::matmul(f.clone(), shaped("u", 1, 3)).unwrap_err();
    assert_eq!(e.message, "tensor product `*` requires second-order tensors, got orders 2 and 1");
    let e = TensorExpr::outer(f.clone(), g2.clone()).unwrap_err();
    assert_eq!(e.message, "dimension mismatch in outer product: 3 vs 2");
    let e = TensorExpr::box_times(f.clone(), g2).unwrap_err();
    assert_eq!(e.message, "dimension mismatch in `⊠` product: 3 vs 2");
    let e = TensorExpr::box_times(f.clone(), shaped("Q", 4, 3)).unwrap_err();
    assert_eq!(e.message, "`⊠` requires second-order tensors, got orders 2 and 4");
    assert!(TensorExpr::matmul(f.clone(), f.clone()).is_ok());
    assert!(TensorExpr::outer(f.clone(), shaped("u", 1, 3)).is_ok());
}

#[test]
fn sums_check_shape() {
    let f = var("F", false);
    let e = TensorExpr::add(f.clone(), shaped("u", 1, 3)).unwrap_err();
    assert_eq!(e.message, "shape mismatch in tensor `+`: order 2/dim 3 vs order 1/dim 3");
    let e = TensorExpr::sub(f.clone(), shaped("G", 2, 2)).unwrap_err();
    assert_eq!(e.message, "shape mismatch in tensor `-`: order 2/dim 3 vs order 2/dim 2");
    assert!(TensorExpr::add(f.clone(), f).is_ok());
}

#[test]
fn power_rules() {
    let f = var("F", false);
    let e = TensorExpr::power(f.clone(), 0).unwrap_err();
    assert_eq!(e.message, "tensor power 0 is not supported; use the identity tensor");
    let e = TensorExpr::power(shaped("u", 1, 3), 2).unwrap_err();
    assert_eq!(e.message, "`^` (matrix power) requires a second-order tensor, got order 1");
    let one = TensorExpr::power(f.clone(), 1).unwrap();
    assert!(tensor_eq(&one, &f));
    let three = TensorExpr::power(f.clone(), 3).unwrap();
    assert!(matches!(three, TensorExpr::Power { exp: 3, .. }));
}

#[test]
fn expand_power_left_folds() {
    let f = var("F", false);
    let e = TensorExpr::expand_power(&f, 3);
    let expected = TensorExpr::MatMul(
        Rc::new(TensorExpr::MatMul(f.clone(), f.clone())),
        f.clone(),
    );
    assert!(tensor_eq(&e, &expected));
    assert!(tensor_eq(&TensorExpr::expand_power(&f, 1), &f));
    assert!(tensor_eq(&TensorExpr::expand_power(&f, 0), &f));
}

#[test]
fn negation_removes_double_negation() {
    let f = var("F", false);
    let n = TensorExpr::Neg(f.clone()).negated();
    assert!(tensor_eq(&n, &f));
    let nn = copy_tensor(&f).negated();
    assert!(matches!(nn, TensorExpr::Neg(_)));
}

#[test]
fn structural_equality_compares_every_field() {
    assert!(tensor_eq(&var("F", false), &var("F", false)));
    assert!(!tensor_eq(&var("F", false), &var("F", true)));
    assert!(!tensor_eq(&var("F", false), &var("G", false)));
}

#[test]
fn component_matrix_checks() {
    assert!(expandable(&var("F", false)).is_ok());
    let e = expandable(&TensorExpr::Inverse(var("F", false))).unwrap_err();
    assert_eq!(
        e.message,
        "component expansion of tensor inverses is not supported in this phase; use mode=symbol"
    );
    let u = shaped("u", 1, 3);
    let e = expandable(&TensorExpr::Outer(u.clone(), u)).unwrap_err();
    assert_eq!(
        e.message,
        "component expansion of vectors requires component-filled vectors (e.g. from Spec_Decomp); use mode=symbol"
    );
    let filled = Rc::new(TensorExpr::Filled { latex: "N".into(), order: 1, dim: 3, entries: vec![1, 2, 3] });
    assert!(expandable(&TensorExpr::Outer(filled.clone(), filled)).is_ok());
    let e = check_component_matrix(&shaped("Q", 4, 3)).unwrap_err();
    assert_eq!(
        e.message,
        "component expansion requires a second-order tensor, got order 4; higher-order display (block_components) is not part of the MVP"
    );
}

#[test]
fn characteristics_of_a_transpose_product() {
    let f = var("F", false);
    let c = TensorExpr::MatMul(Rc::new(TensorExpr::Transpose(f.clone())), f);
    let facts = ScalarFacts { with_derivative: vec![], with_set_element: vec![] };
    let ch = tensor_characteristic(&c, true, &facts);
    assert_eq!(ch.order, 2);
    assert_eq!(ch.dim, 3);
    assert!(ch.symmetric);
    assert!(!ch.identity);
    assert!(ch.derived);
    assert!(!ch.derivative && !ch.spectral && !ch.sum && !ch.outer_like && !ch.boxtimes_like && !ch.filled);
}

#[test]
fn characteristics_see_scalar_facts() {
    let f = var("F", false);
    let scaled = TensorExpr::ScalarMul(9, f);
    let facts = ScalarFacts { with_derivative: vec![9], with_set_element: vec![9] };
    let ch = tensor_characteristic(&scaled, false, &facts);
    assert!(!ch.derivative);
    assert!(ch.spectral);
    let filled = TensorExpr::Filled { latex: "A".into(), order: 2, dim: 1, entries: vec![9] };
    let ch = tensor_characteristic(&filled, false, &facts);
    assert!(ch.derivative);
    assert!(!ch.spectral);
    assert!(ch.filled);
}
