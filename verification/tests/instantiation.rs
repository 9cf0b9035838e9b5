use std::rc::Rc;
use tensorforge::instantiate::{
    instantiate, lookup_binding, rename_scalar_factors, ScalarRequest, TensorSetValues,
};
use tensorforge::tensor::{copy_tensor, SetIndex, TensorExpr, TensorProperties};

fn var(name: &str, order: usize) -> Rc<TensorExpr> {
    Rc::new(TensorExpr::Var {
        name: name.into(),
        latex: format!("\\bm {name}"),
        order,
        dim: 3,
        props: TensorProperties::default(),
    })
}

fn elem(latex: &str, index: SetIndex) -> Rc<TensorExpr> {
    Rc::new(TensorExpr::SetElem {
        latex: latex.into(),
        order: 1,
        dim: 3,
        index,
        set_dim: 3,
        base: None,
    })
}

fn sym(name: &str) -> SetIndex {
    SetIndex::Sym(name.into())
}

fn outer(a: Rc<TensorExpr>, b: Rc<TensorExpr>) -> Rc<TensorExpr> {
    Rc::new(TensorExpr::Outer(a, b))
}

fn add(a: Rc<TensorExpr>, b: Rc<TensorExpr>) -> Rc<TensorExpr> {
    Rc::new(TensorExpr::Add(a, b))
}

fn n_values() -> Vec<TensorSetValues> {
    vec![
        TensorSetValues { latex: "\\bm M".into(), values: None },
        TensorSetValues {
            latex: "\\bm N".into(),
            values: Some(vec![
                Some(copy_tensor(&var("N1", 1))),
                Some(copy_tensor(&var("N2", 1))),
                None,
            ]),
        },
    ]
}

fn bound_of(pairs: &[(&str, usize)]) -> Vec<(String, usize)> {
    pairs.iter().map(|(n, k)| (n.to_string(), *k)).collect()
}

#[test]
fn spectral_sums_expand_to_term_chains() {
    let n_a = elem("\\bm N", sym("a"));
    let sum = TensorExpr::SumIdx {
        index: "a".into(),
        range: 3,
        exclude: None,
        body: outer(n_a.clone(), n_a),
    };
    let (out, requests) = instantiate(&sum, &Vec::new(), &n_values()).unwrap();
    let n3 = elem("\\bm N", SetIndex::Num(3));
    let expected = add(
        add(outer(var("N1", 1), var("N1", 1)), outer(var("N2", 1), var("N2", 1))),
        outer(n3.clone(), n3),
    );
    assert_eq!(out, *expected);
    assert!(requests.is_empty());
}

#[test]
fn excluded_index_is_skipped() {
    let sum = TensorExpr::SumIdx {
        index: "b".into(),
        range: 3,
        exclude: Some("a".into()),
        body: elem("\\bm M", sym("b")),
    };
    let (out, _) = instantiate(&sum, &bound_of(&[("a", 2)]), &n_values()).unwrap();
    let expected = add(elem("\\bm M", SetIndex::Num(1)), elem("\\bm M", SetIndex::Num(3)));
    assert_eq!(out, *expected);
}

#[test]
fn sums_without_terms_are_errors() {
    let empty = TensorExpr::SumIdx {
        index: "a".into(),
        range: 0,
        exclude: None,
        body: elem("\\bm N", sym("a")),
    };
    let e = instantiate(&empty, &Vec::new(), &n_values()).unwrap_err();
    assert_eq!(e.message, "empty spectral sum");
    let all_excluded = TensorExpr::SumIdx {
        index: "b".into(),
        range: 1,
        exclude: Some("a".into()),
        body: elem("\\bm N", sym("b")),
    };
    let e = instantiate(&all_excluded, &bound_of(&[("a", 1)]), &n_values()).unwrap_err();
    assert_eq!(e.message, "empty spectral sum");
}

#[test]
fn unbound_set_elements_stay_symbolic() {
    let e = elem("\\bm N", sym("c"));
    let (out, _) = instantiate(&e, &bound_of(&[("a", 1)]), &n_values()).unwrap();
    assert_eq!(out, *e);
    let bound_elem = elem("\\bm N", sym("a"));
    let (out, _) = instantiate(&bound_elem, &bound_of(&[("a", 1), ("a", 2)]), &n_values()).unwrap();
    assert_eq!(out, *var("N2", 1));
}

#[test]
fn scalar_factors_become_requests() {
    let sum = TensorExpr::SumIdx {
        index: "a".into(),
        range: 2,
        exclude: None,
        body: Rc::new(TensorExpr::ScalarMul(7, elem("\\bm M", sym("a")))),
    };
    let (out, requests) = instantiate(&sum, &bound_of(&[("z", 9)]), &n_values()).unwrap();
    let expected = add(
        Rc::new(TensorExpr::ScalarMul(0, elem("\\bm M", SetIndex::Num(1)))),
        Rc::new(TensorExpr::ScalarMul(1, elem("\\bm M", SetIndex::Num(2)))),
    );
    assert_eq!(out, *expected);
    let seen: Vec<(u64, Vec<(String, usize)>)> =
        requests.iter().map(|r: &ScalarRequest| (r.scalar, r.bound.clone())).collect();
    assert_eq!(
        seen,
        vec![(7, bound_of(&[("z", 9), ("a", 1)])), (7, bound_of(&[("z", 9), ("a", 1), ("a", 2)]))]
    );
    let renamed = rename_scalar_factors(&out, &vec![40, 41]);
    let expected = add(
        Rc::new(TensorExpr::ScalarMul(40, elem("\\bm M", SetIndex::Num(1)))),
        Rc::new(TensorExpr::ScalarMul(41, elem("\\bm M", SetIndex::Num(2)))),
    );
    assert_eq!(renamed, *expected);
}

#[test]
fn plain_expressions_round_trip() {
    let t = TensorExpr::ScalarMul(
        5,
        add(Rc::new(TensorExpr::ScalarMul(6, var("A", 2))), Rc::new(TensorExpr::Transpose(var("B", 2)))),
    );
    let (out, requests) = instantiate(&t, &Vec::new(), &n_values()).unwrap();
    assert_eq!(requests.len(), 2);
    assert_ne!(out, t);
    let ids: Vec<u64> = requests.iter().map(|r| r.scalar).collect();
    assert_eq!(ids, vec![5, 6]);
    assert_eq!(rename_scalar_factors(&out, &ids), t);
}

#[test]
fn latest_binding_wins() {
    let b = bound_of(&[("a", 1), ("b", 4), ("a", 3)]);
    assert_eq!(lookup_binding(&b, "a"), Some(3));
    assert_eq!(lookup_binding(&b, "b"), Some(4));
    assert_eq!(lookup_binding(&b, "c"), None);
}
