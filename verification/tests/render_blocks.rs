use std::rc::Rc;
use tensorforge::blocks::{
    first_component_latex, fourth_component_latex, second_component_latex, tensor_to_block_component_matrix,
};
use tensorforge::render::{tensor_to_latex, ScalarTex};
use tensorforge::tensor::{SetIndex, TensorExpr, TensorProperties};

fn var(name: &str, order: usize) -> Rc<TensorExpr> {
    Rc::new(TensorExpr::Var {
        name: name.into(),
        latex: format!("\\bm {name}"),
        order,
        dim: 3,
        props: TensorProperties::default(),
    })
}

fn ident2(name: &str) -> Rc<TensorExpr> {
    Rc::new(TensorExpr::Var {
        name: name.into(),
        latex: format!("\\bm {name}"),
        order: 2,
        dim: 3,
        props: TensorProperties { identity: true, ..Default::default() },
    })
}

fn tex(id: u64, latex: &str, coefficient: &str, negated: Option<&str>) -> ScalarTex {
    ScalarTex {
        id,
        latex: latex.to_string(),
        coefficient: coefficient.to_string(),
        negated: negated.map(|s| s.to_string()),
    }
}

fn none() -> Vec<ScalarTex> {
    Vec::new()
}

#[test]
fn renders_transposes_and_products() {
    let f = var("F", 2);
    let g = var("G", 2);
    assert_eq!(tensor_to_latex(&f, &none()), "\\bm F");
    let c = TensorExpr::MatMul(Rc::new(TensorExpr::Transpose(f.clone())), f.clone());
    assert_eq!(tensor_to_latex(&c, &none()), "\\bm F^{\\mathsf{T}} \\bm F");
    let t = TensorExpr::Transpose(Rc::new(TensorExpr::MatMul(f.clone(), g.clone())));
    assert_eq!(tensor_to_latex(&t, &none()), "\\left( \\bm F \\bm G \\right)^{\\mathsf{T}}");
    assert_eq!(tensor_to_latex(&TensorExpr::Inverse(f.clone()), &none()), "\\bm F^{-1}");
    assert_eq!(tensor_to_latex(&TensorExpr::InverseTranspose(f), &none()), "\\bm F^{-\\mathsf{T}}");
}

#[test]
fn renders_sums_with_negative_terms() {
    let a = var("A", 2);
    let b = var("B", 2);
    let c = var("C", 2);
    let plain = TensorExpr::Add(a.clone(), b.clone());
    assert_eq!(tensor_to_latex(&plain, &none()), "\\bm A + \\bm B");
    let neg = TensorExpr::Add(a.clone(), Rc::new(TensorExpr::Neg(b.clone())));
    assert_eq!(tensor_to_latex(&neg, &none()), "\\bm A - \\bm B");
    let table = vec![tex(1, "-2", "\\left( -2 \\right)", Some("2"))];
    let scaled = TensorExpr::Add(a.clone(), Rc::new(TensorExpr::ScalarMul(1, b.clone())));
    assert_eq!(tensor_to_latex(&scaled, &table), "\\bm A - 2 \\, \\bm B");
    let sub = TensorExpr::Sub(a.clone(), Rc::new(TensorExpr::Add(b, c)));
    assert_eq!(tensor_to_latex(&sub, &none()), "\\bm A - \\left( \\bm B + \\bm C \\right)");
    let table = vec![tex(7, "\\mu", "\\mu", None)];
    let mu_a = TensorExpr::ScalarMul(7, a.clone());
    assert_eq!(tensor_to_latex(&mu_a, &table), "\\mu \\, \\bm A");
    assert_eq!(tensor_to_latex(&TensorExpr::Neg(Rc::new(mu_a)), &table), "-\\mu \\, \\bm A");
}

#[test]
fn renders_outer_products_and_derivatives() {
    let n = var("N", 1);
    let t = var("T", 2);
    let nn = Rc::new(TensorExpr::Outer(n.clone(), n.clone()));
    assert_eq!(tensor_to_latex(&nn, &none()), "\\bm N \\otimes \\bm N");
    let m = TensorExpr::MatMul(nn, t.clone());
    assert_eq!(tensor_to_latex(&m, &none()), "\\left( \\bm N \\otimes \\bm N \\right) \\bm T");
    let c = var("C", 2);
    let f = var("F", 2);
    let d = TensorExpr::Diff { num: c.clone(), den: f.clone(), num_label: None };
    assert_eq!(tensor_to_latex(&d, &none()), "\\frac{\\partial \\bm C}{\\partial \\bm F}");
    let ftf = Rc::new(TensorExpr::MatMul(Rc::new(TensorExpr::Transpose(f.clone())), f.clone()));
    let d2 = TensorExpr::Diff { num: ftf, den: f.clone(), num_label: None };
    assert_eq!(
        tensor_to_latex(&d2, &none()),
        "\\frac{\\partial \\left( \\bm F^{\\mathsf{T}} \\bm F \\right)}{\\partial \\bm F}"
    );
    assert_eq!(tensor_to_latex(&TensorExpr::Identity4 { dim: 3 }, &none()), "\\mathbb{I}");
    assert_eq!(tensor_to_latex(&TensorExpr::BoxTimes(c, f), &none()), "\\bm C \\boxtimes \\bm F");
}

#[test]
fn renders_set_sums() {
    let elem = Rc::new(TensorExpr::SetElem {
        latex: "\\bm N".into(),
        order: 1,
        dim: 3,
        index: SetIndex::Sym("a".into()),
        set_dim: 3,
        base: None,
    });
    let sum = TensorExpr::SumIdx { index: "a".into(), range: 3, exclude: None, body: elem.clone() };
    assert_eq!(tensor_to_latex(&sum, &none()), "\\sum_{a=1}^{3} {\\bm N}_{a}");
    let excl = TensorExpr::SumIdx { index: "a".into(), range: 3, exclude: Some("b".into()), body: elem };
    assert_eq!(
        tensor_to_latex(&excl, &none()),
        "\\sum_{\\substack{a=1 \\\\ a\\ne b}}^{3} {\\bm N}_{a}"
    );
}

#[test]
fn fourth_order_components() {
    let fixed = [("m", 1usize), ("n", 2usize)];
    let i4 = TensorExpr::Identity4 { dim: 3 };
    assert_eq!(
        fourth_component_latex(&i4, "i", "j", "m", "n", &fixed, &none()).unwrap(),
        "\\delta_{i1} \\, \\delta_{j2}"
    );
    let a = var("A", 2);
    let b = var("B", 2);
    let outer = TensorExpr::Outer(a.clone(), b.clone());
    assert_eq!(
        fourth_component_latex(&outer, "i", "j", "m", "n", &fixed, &none()).unwrap(),
        "{A}_{ij} \\, {B}_{12}"
    );
    let boxed = TensorExpr::BoxTimes(a.clone(), b.clone());
    assert_eq!(
        fourth_component_latex(&boxed, "i", "j", "m", "n", &fixed, &none()).unwrap(),
        "{A}_{i1} \\, {B}_{j2}"
    );
    let with_identity = TensorExpr::Outer(a.clone(), ident2("I"));
    assert_eq!(
        fourth_component_latex(&with_identity, "i", "j", "m", "n", &fixed, &none()).unwrap(),
        "{A}_{ij} \\, \\delta_{12}"
    );
    let table = vec![tex(3, "\\mu", "\\mu", None), tex(4, "1", "1", None)];
    let mu = TensorExpr::ScalarMul(3, Rc::new(TensorExpr::Identity4 { dim: 3 }));
    assert_eq!(
        fourth_component_latex(&mu, "i", "j", "m", "n", &fixed, &table).unwrap(),
        "\\mu \\, \\delta_{i1} \\, \\delta_{j2}"
    );
    let one = TensorExpr::ScalarMul(4, Rc::new(TensorExpr::Identity4 { dim: 3 }));
    assert_eq!(
        fourth_component_latex(&one, "i", "j", "m", "n", &fixed, &table).unwrap(),
        "\\delta_{i1} \\, \\delta_{j2}"
    );
    let sum = TensorExpr::Sub(
        Rc::new(TensorExpr::Identity4 { dim: 3 }),
        Rc::new(TensorExpr::Add(Rc::new(TensorExpr::Outer(a.clone(), b.clone())), Rc::new(TensorExpr::Identity4 { dim: 3 }))),
    );
    assert_eq!(
        fourth_component_latex(&sum, "i", "j", "m", "n", &fixed, &none()).unwrap(),
        "\\delta_{i1} \\, \\delta_{j2} - \\left( {A}_{ij} \\, {B}_{12} + \\delta_{i1} \\, \\delta_{j2} \\right)"
    );
    let c = var("C", 2);
    let f = var("F", 2);
    let d = TensorExpr::Diff { num: c, den: f, num_label: Some("\\bm C".into()) };
    assert_eq!(
        fourth_component_latex(&d, "i", "j", "m", "n", &fixed, &none()).unwrap(),
        "\\frac{\\partial C_{ij}}{\\partial F_{12}}"
    );
    let unsupported = TensorExpr::MatMul(a, b);
    assert_eq!(
        fourth_component_latex(&unsupported, "i", "j", "m", "n", &fixed, &none()).unwrap_err().message,
        "mode=block_components is valid for order-4 tensors, but this expression structure is not supported yet: \\bm A \\bm B"
    );
}

#[test]
fn second_and_first_order_components() {
    let table = vec![tex(1, "a", "a", None), tex(2, "b", "b", None), tex(3, "c", "c", None), tex(4, "d", "d", None)];
    let filled = TensorExpr::Filled { latex: "X".into(), order: 2, dim: 2, entries: vec![1, 2, 3, 4] };
    let fixed = [("m", 2usize), ("n", 1usize)];
    assert_eq!(second_component_latex(&filled, "m", "n", &fixed, &table).unwrap(), "c");
    assert_eq!(second_component_latex(&filled, "i", "n", &fixed, &table).unwrap(), "{X}_{i1}");
    let f = var("F", 2);
    let ft = TensorExpr::Transpose(f.clone());
    assert_eq!(second_component_latex(&ft, "i", "j", &[], &none()).unwrap(), "{F}_{ji}");
    let neg = TensorExpr::Neg(Rc::new(TensorExpr::Add(f.clone(), f.clone())));
    assert_eq!(
        second_component_latex(&neg, "i", "j", &[], &none()).unwrap(),
        "-\\left( {F}_{ij} + {F}_{ij} \\right)"
    );
    let elem = TensorExpr::SetElem {
        latex: "\\bm N".into(),
        order: 1,
        dim: 3,
        index: SetIndex::Sym("a".into()),
        set_dim: 3,
        base: None,
    };
    assert_eq!(first_component_latex(&elem, "m", &[("m", 3)], &none()).unwrap(), "{\\bm N}_{a3}");
    let vector = TensorExpr::Filled { latex: "v".into(), order: 1, dim: 2, entries: vec![3, 4] };
    assert_eq!(first_component_latex(&vector, "m", &[("m", 2)], &table).unwrap(), "d");
}

#[test]
fn block_matrix_of_the_identity() {
    let i4 = TensorExpr::Identity4 { dim: 2 };
    assert_eq!(
        tensor_to_block_component_matrix(&i4, &none()).unwrap(),
        "\\begin{bmatrix}\n\\left[ \\delta_{i1} \\, \\delta_{j1} \\right]_{ij} & \\left[ \\delta_{i1} \\, \\delta_{j2} \\right]_{ij} \\\\\n\\left[ \\delta_{i2} \\, \\delta_{j1} \\right]_{ij} & \\left[ \\delta_{i2} \\, \\delta_{j2} \\right]_{ij}\n\\end{bmatrix}"
    );
    let e = tensor_to_block_component_matrix(&var("F", 2), &none()).unwrap_err();
    assert_eq!(e.message, "block component expansion requires an order-4 tensor, got order 2");
    let bad = TensorExpr::Outer(var("u", 1), var("T", 3));
    let e = tensor_to_block_component_matrix(&bad, &none()).unwrap_err();
    assert_eq!(
        e.message,
        "mode=block_components is valid for order-4 tensors, but this expression structure is not supported yet: \\bm u \\otimes \\bm T"
    );
}
