use tensorforge::ast::{Expr, Stmt};
use tensorforge::declarations::{
    declare_set, declare_tensor, decomposition_targets, expect_usize, function_name, literal_usize, symbol_name,
    SetDeclaration,
};
use tensorforge::parser::parse;
use tensorforge::tensor::{TensorExpr, TensorProperties};

fn call(src: &str) -> (String, Vec<Expr>, Vec<(String, Expr)>) {
    match parse(src).unwrap().remove(0) {
        Stmt::Assign { expr: Expr::Call { callee, args, kwargs }, .. } => (callee, args, kwargs),
        other => panic!("expected a call assignment, got {other:?}"),
    }
}

fn tensor(src: &str) -> Result<TensorExpr, String> {
    let (_, a, k) = call(src);
    declare_tensor(&a, &k).map_err(|e| e.message)
}

fn set(src: &str) -> Result<SetDeclaration, String> {
    let (c, a, k) = call(src);
    declare_set(&c, &a, &k).map_err(|e| e.message)
}

#[test]
fn integral_literals() {
    assert_eq!(literal_usize("12"), Some(12));
    assert_eq!(literal_usize("007"), Some(7));
    assert_eq!(literal_usize("3."), Some(3));
    assert_eq!(literal_usize("2.000"), Some(2));
    assert_eq!(literal_usize("2.5"), None);
    assert_eq!(literal_usize(""), None);
    assert_eq!(literal_usize("99999999999999999999999"), Some(usize::MAX));
    assert_eq!(expect_usize(&Expr::Num("4".into()), "dim").unwrap(), 4);
    assert_eq!(
        expect_usize(&Expr::Bool(true), "dim").unwrap_err().message,
        "`dim` must be a non-negative integer"
    );
}

#[test]
fn tensor_declarations() {
    assert_eq!(
        tensor("F = Tensor(\"\\bm F\", order=2, dim=3)").unwrap(),
        TensorExpr::Var {
            name: "\\bm F".into(),
            latex: "\\bm F".into(),
            order: 2,
            dim: 3,
            props: TensorProperties::default(),
        }
    );
    let c = tensor("C = Tensor(\"\\bm C\", order=2.0, dim=3, symmetric=true, isotropic=true)").unwrap();
    assert_eq!(
        c,
        TensorExpr::Var {
            name: "\\bm C".into(),
            latex: "\\bm C".into(),
            order: 2,
            dim: 3,
            props: TensorProperties { symmetric: true, isotropic: true, ..Default::default() },
        }
    );
    let later_wins = tensor("A = Tensor(\"A\", order=4, dim=3, order=2, identity=true, identity=false)").unwrap();
    assert_eq!(later_wins.order(), 2);
    assert!(!later_wins.is_identity());
}

#[test]
fn tensor_declaration_errors() {
    assert_eq!(tensor("F = Tensor(\"F\", dim=3)").unwrap_err(), "`Tensor` requires `order=<n>`");
    assert_eq!(tensor("F = Tensor(\"F\", order=2)").unwrap_err(), "`Tensor` requires `dim=<n>`");
    assert_eq!(
        tensor("F = Tensor(\"F\", order=0, dim=3)").unwrap_err(),
        "order-0 tensors should be declared with `Scalar(...)`"
    );
    assert_eq!(
        tensor("F = Tensor(\"F\", order=2, dim=3, symmetric=true, antisymmetric=true)").unwrap_err(),
        "a tensor cannot be both symmetric and antisymmetric (unless zero)"
    );
    assert_eq!(
        tensor("F = Tensor(\"F\", order=2, dim=3, rank=1)").unwrap_err(),
        "unknown Tensor property `rank`"
    );
    assert_eq!(
        tensor("F = Tensor(\"F\", order=2.5, dim=3)").unwrap_err(),
        "`order` must be a non-negative integer"
    );
    assert_eq!(
        tensor("F = Tensor(\"F\", order=2, dim=3, identity=1)").unwrap_err(),
        "`identity` must be true or false"
    );
    assert_eq!(tensor("F = Tensor(G, order=2, dim=3)").unwrap_err(), "`Tensor` expects a string LaTeX name");
    assert_eq!(
        tensor("F = Tensor(order=2, dim=3)").unwrap_err(),
        "`Tensor` expects a string LaTeX name as its first argument"
    );
}

#[test]
fn scalar_and_function_names() {
    let (c, a, k) = call("mu = Scalar(\"\\mu\")");
    assert_eq!(symbol_name(&c, &a, &k).unwrap(), "\\mu");
    let (c, a, k) = call("x = Var(\"x\", y)");
    assert_eq!(
        symbol_name(&c, &a, &k).unwrap_err().message,
        "`Var` takes exactly one argument: Var(\"<latex>\")"
    );
    let (c, a, k) = call("mu = Scalar(m)");
    assert_eq!(symbol_name(&c, &a, &k).unwrap_err().message, "`Scalar` expects a string LaTeX name");
    let (_, a, k) = call("y = Function(\"y\", x)");
    assert_eq!(function_name(&a, &k).unwrap(), "y");
    let (_, a, k) = call("y = Function(\"y\")");
    assert_eq!(
        function_name(&a, &k).unwrap_err().message,
        "`Function` expects a name and at least one variable: Function(\"<latex>\", x)"
    );
    let (_, a, k) = call("y = Function(y, x)");
    assert_eq!(function_name(&a, &k).unwrap_err().message, "`Function` expects a string LaTeX name");
}

#[test]
fn set_declarations() {
    assert_eq!(
        set("lambda = ScalarSet(\"\\lambda\", dim=3)").unwrap(),
        SetDeclaration { latex: "\\lambda".into(), dim: 3, vector: false }
    );
    assert_eq!(
        set("N = VectorSet(\"\\bm N\", dim=2)").unwrap(),
        SetDeclaration { latex: "\\bm N".into(), dim: 2, vector: true }
    );
    assert_eq!(set("lambda = ScalarSet(\"\\lambda\")").unwrap_err(), "`ScalarSet` requires `dim=<n>`");
    assert_eq!(
        set("lambda = ScalarSet(\"\\lambda\", size=3)").unwrap_err(),
        "unknown ScalarSet keyword `size`"
    );
    assert_eq!(
        set("N = VectorSet(n, dim=3)").unwrap_err(),
        "`VectorSet` expects a string LaTeX name: VectorSet(\"<latex>\", dim=<n>)"
    );
}

#[test]
fn decomposition_targets_must_be_declared_sets() {
    let values = Some(SetDeclaration { latex: "\\lambda".into(), dim: 3, vector: false });
    let dirs = Some(SetDeclaration { latex: "\\bm N".into(), dim: 3, vector: true });
    assert!(decomposition_targets("lambda", &values, "N", &dirs, 3).is_ok());
    assert_eq!(
        decomposition_targets("lambda", &dirs, "N", &dirs, 3).unwrap_err().message,
        "`lambda` must be a ScalarSet (the principal values)"
    );
    assert_eq!(
        decomposition_targets("lambda", &values, "N", &values, 3).unwrap_err().message,
        "`N` must be a VectorSet (the principal directions)"
    );
    assert_eq!(
        decomposition_targets("lambda", &values, "N", &dirs, 2).unwrap_err().message,
        "set dimension does not match the tensor"
    );
    assert_eq!(
        decomposition_targets("lambda", &None, "N", &dirs, 3).unwrap_err().message,
        "declare `lambda` first: lambda = ScalarSet(\"<latex>\", dim=3)"
    );
    assert_eq!(
        decomposition_targets("lambda", &values, "N", &None, 3).unwrap_err().message,
        "declare `N` first: N = VectorSet(\"<latex>\", dim=3)"
    );
}
