use std::rc::Rc;
use tensorforge::ast::{Expr, Stmt};
use tensorforge::parser::parse;
use tensorforge::sums::{sum_index, sum_over, tensor_index_range};
use tensorforge::tensor::{SetIndex, TensorExpr, TensorProperties};

fn var(name: &str) -> Rc<TensorExpr> {
    Rc::new(TensorExpr::Var {
        name: name.into(),
        latex: format!("\\bm {name}"),
        order: 2,
        dim: 3,
        props: TensorProperties::default(),
    })
}

fn elem(latex: &str, index: &str, set_dim: usize) -> Rc<TensorExpr> {
    Rc::new(TensorExpr::SetElem {
        latex: latex.into(),
        order: 1,
        dim: 3,
        index: SetIndex::Sym(index.into()),
        set_dim,
        base: None,
    })
}

fn call_args(src: &str) -> (Vec<Expr>, Vec<(String, Expr)>) {
    match parse(src).unwrap().remove(0) {
        Stmt::Assign { expr: Expr::Call { args, kwargs, .. }, .. } => (args, kwargs),
        other => panic!("expected a call assignment, got {other:?}"),
    }
}

#[test]
fn sum_arguments() {
    let (a, k) = call_args("C = Sum(N[a] & N[a], a)");
    assert_eq!(sum_index(&a, &k).unwrap(), "a");
    let (a, k) = call_args("C = Sum(N[a])");
    assert_eq!(sum_index(&a, &k).unwrap_err().message, "`Sum` expects two arguments: Sum(<expr>, <index>)");
    let (a, k) = call_args("C = Sum(N[a], a, b=1)");
    assert_eq!(sum_index(&a, &k).unwrap_err().message, "`Sum` expects two arguments: Sum(<expr>, <index>)");
    let (a, k) = call_args("C = Sum(N[a], 1)");
    assert_eq!(sum_index(&a, &k).unwrap_err().message, "the second argument of `Sum` is an index name");
}

#[test]
fn index_range_from_first_set_element() {
    let t = TensorExpr::Add(
        Rc::new(TensorExpr::Outer(elem("\\bm N", "b", 2), elem("\\bm N", "b", 2))),
        Rc::new(TensorExpr::Outer(elem("\\bm M", "a", 3), elem("\\bm N", "a", 4))),
    );
    assert_eq!(tensor_index_range(&t, "a", &Vec::new()), Some(3));
    assert_eq!(tensor_index_range(&t, "b", &Vec::new()), Some(2));
    assert_eq!(tensor_index_range(&t, "c", &Vec::new()), None);
}

#[test]
fn inner_sums_bind_their_index() {
    let inner = TensorExpr::SumIdx { index: "a".into(), range: 3, exclude: None, body: elem("\\bm N", "a", 3) };
    assert_eq!(tensor_index_range(&inner, "a", &Vec::new()), None);
    let e = sum_over(&inner, "a", &Vec::new()).unwrap_err();
    assert_eq!(e.message, "the summand does not mention any set element with index `a`");
}

#[test]
fn scalar_factors_report_their_range() {
    let t = TensorExpr::ScalarMul(4, var("I"));
    assert_eq!(tensor_index_range(&t, "a", &vec![(3, 7), (4, 2), (4, 9)]), Some(2));
    assert_eq!(tensor_index_range(&t, "a", &vec![(3, 7)]), None);
    let filled = TensorExpr::Filled { latex: "\\bm P".into(), order: 1, dim: 2, entries: vec![1, 2] };
    assert_eq!(tensor_index_range(&filled, "a", &vec![(2, 5)]), Some(5));
}

#[test]
fn sums_wrap_the_summand() {
    let body = TensorExpr::Outer(elem("\\bm N", "a", 3), elem("\\bm N", "a", 3));
    let s = sum_over(&body, "a", &Vec::new()).unwrap();
    let expected = TensorExpr::SumIdx {
        index: "a".into(),
        range: 3,
        exclude: None,
        body: Rc::new(TensorExpr::Outer(elem("\\bm N", "a", 3), elem("\\bm N", "a", 3))),
    };
    assert_eq!(s, expected);
}
