use tensorforge::ast::{Expr, Stmt};
use tensorforge::checks::is_derived_expr;
use tensorforge::parser::parse;

fn rhs(src: &str) -> Expr {
    match parse(src).unwrap().remove(0) {
        Stmt::Assign { expr, .. } => expr,
        other => panic!("unexpected statement {other:?}"),
    }
}

fn names(v: &[&str]) -> Vec<String> {
    v.iter().map(|s| s.to_string()).collect()
}

#[test]
fn derivatives_are_derived_results() {
    assert!(is_derived_expr(&rhs("S = Diff(W, E)"), &names(&[])));
    assert!(is_derived_expr(&rhs("S = 2 * Diff(W, E)"), &names(&[])));
    assert!(!is_derived_expr(&rhs("S = diff(W, E)"), &names(&[])));
}

#[test]
fn derived_names_propagate() {
    assert!(!is_derived_expr(&rhs("S = mu * E + F.T"), &names(&["T"])));
    assert!(is_derived_expr(&rhs("S = T : Q"), &names(&["Q"])));
    assert!(is_derived_expr(&rhs("S = -(F.T)"), &names(&["F"])));
    assert!(is_derived_expr(&rhs("S = lambda[a]"), &names(&["a"])));
    assert!(is_derived_expr(&rhs("S = Inv(F, k=Q)"), &names(&["Q"])));
    let show = |arg: &str| Expr::MethodCall {
        target: Box::new(Expr::Ident("P".into())),
        method: "show".into(),
        args: vec![Expr::Ident(arg.into())],
        kwargs: Vec::new(),
    };
    assert!(is_derived_expr(&show("S"), &names(&["S"])));
    assert!(!is_derived_expr(&show("matrix"), &names(&["S"])));
    assert!(is_derived_expr(&show("matrix"), &names(&["P"])));
    assert!(!is_derived_expr(&rhs("S = \"Q\""), &names(&["Q"])));
}
