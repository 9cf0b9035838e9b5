use tensorforge::ast::{Expr, Stmt};
use tensorforge::calls::{
    builtin_arity, call_target, declared_label, declares_set, derivative_order, diff_order, expect_second_order,
    expect_single_argument, simplify_rules, solve_options, CallTarget, SolveOptions,
};
use tensorforge::ode::SolveMethod;
use tensorforge::parser::parse;
use tensorforge::rules::RuleSet;

fn assigned(src: &str) -> Expr {
    match parse(src).unwrap().remove(0) {
        Stmt::Assign { expr, .. } => expr,
        other => panic!("expected an assignment, got {other:?}"),
    }
}

fn call_parts(src: &str) -> (usize, Vec<(String, Expr)>) {
    match assigned(src) {
        Expr::Call { args, kwargs, .. } => (args.len(), kwargs),
        other => panic!("expected a call, got {other:?}"),
    }
}

fn target_message(name: &str) -> String {
    call_target(name).unwrap_err().message
}

#[test]
fn builtin_names_dispatch() {
    assert_eq!(call_target("Scalar").unwrap(), CallTarget::Scalar);
    assert_eq!(call_target("Tensor").unwrap(), CallTarget::Tensor);
    assert_eq!(call_target("Det").unwrap(), CallTarget::Det);
    assert_eq!(call_target("ODE").unwrap(), CallTarget::Ode);
    assert_eq!(call_target("Simplify").unwrap(), CallTarget::Simplify);
    for f in ["log", "sqrt", "exp", "sinh", "cosh", "tanh", "sin", "cos", "tan"] {
        assert_eq!(call_target(f).unwrap(), CallTarget::ScalarFunction);
    }
    assert_eq!(call_target("E").unwrap(), CallTarget::UserDefined);
    assert_eq!(call_target("Log").unwrap(), CallTarget::UserDefined);
}

#[test]
fn removed_and_renamed_builtins_explain_themselves() {
    assert_eq!(
        target_message("ScalarSet"),
        "`ScalarSet` declares a set and must be used in an assignment, e.g. lambda = ScalarSet(...)"
    );
    assert_eq!(
        target_message("Spectral"),
        "`Spectral` returns two sets and must be used as `[lambda, N] = Spectral(C, \"\\lambda\", \"\\bm N\")`"
    );
    assert_eq!(target_message("otimes"), "`otimes(A, B)` was removed; use `A & B`");
    assert_eq!(target_message("IC"), "`IC(...)` was renamed; use `BoundaryCondition(y(x0), y0)`");
    assert_eq!(
        target_message("eigvals"),
        "`eigvals/eigvecs` were removed; use `[lambda, N] = Spectral(C, \"\\lambda\", \"\\bm N\")`"
    );
    assert!(call_target("outer").unwrap_err().line.is_none());
}

#[test]
fn documented_lowercase_builtins_dispatch() {
    assert_eq!(call_target("det").unwrap(), CallTarget::Det);
    assert_eq!(call_target("tr").unwrap(), CallTarget::Tr);
    assert_eq!(call_target("inv").unwrap(), CallTarget::Inv);
    assert_eq!(call_target("diff").unwrap(), CallTarget::Diff);
    assert_eq!(call_target("simplify").unwrap(), CallTarget::Simplify);
    assert_eq!(call_target("sum").unwrap(), CallTarget::Sum);
    assert_eq!(call_target("dot").unwrap(), CallTarget::Dot);
    assert_eq!(call_target("ddot").unwrap(), CallTarget::Ddot);
    assert_eq!(call_target("display").unwrap(), CallTarget::Display);
    assert_eq!(call_target("export").unwrap(), CallTarget::Export);
}

#[test]
fn contraction_builtins_take_two_arguments() {
    assert!(builtin_arity(CallTarget::Dot, 2, 0).is_ok());
    assert_eq!(
        builtin_arity(CallTarget::Ddot, 1, 0).unwrap_err().message,
        "`ddot` expects two arguments: ddot(A, B)"
    );
}

#[test]
fn single_argument_builtins() {
    assert!(expect_single_argument("sin", 1, 0).is_ok());
    assert_eq!(
        expect_single_argument("sin", 2, 0).unwrap_err().message,
        "`sin` takes exactly one argument"
    );
    assert_eq!(
        expect_single_argument("Det", 1, 1).unwrap_err().message,
        "`Det` takes exactly one argument"
    );
}

#[test]
fn det_and_trace_need_second_order() {
    assert!(expect_second_order("Det", 2).is_ok());
    assert_eq!(
        expect_second_order("Tr", 4).unwrap_err().message,
        "`Tr` requires a second-order tensor, got order 4"
    );
    assert_eq!(
        expect_second_order("Det", 1).unwrap_err().message,
        "`Det` requires a second-order tensor, got order 1"
    );
}

#[test]
fn simplify_rule_keyword() {
    let (n, kw) = call_parts("s = Simplify(x)");
    assert_eq!(simplify_rules(n, &kw).unwrap(), RuleSet::Continuum);
    let (n, kw) = call_parts("s = Simplify(x, rules=algebra)");
    assert_eq!(simplify_rules(n, &kw).unwrap(), RuleSet::Algebra);
    let (n, kw) = call_parts("s = Simplify(x, rules=\"tensor\")");
    assert_eq!(simplify_rules(n, &kw).unwrap(), RuleSet::Tensor);
    let (n, kw) = call_parts("s = Simplify(x, rules=tensor, rules=algebra)");
    assert_eq!(simplify_rules(n, &kw).unwrap(), RuleSet::Algebra);
}

#[test]
fn simplify_rule_errors() {
    let (n, kw) = call_parts("s = Simplify(x, y)");
    assert_eq!(
        simplify_rules(n, &kw).unwrap_err().message,
        "`Simplify` expects one expression argument"
    );
    let (n, kw) = call_parts("s = Simplify(x, mode=algebra)");
    assert_eq!(
        simplify_rules(n, &kw).unwrap_err().message,
        "unknown keyword `mode` for `Simplify`"
    );
    let (n, kw) = call_parts("s = Simplify(x, rules=fast)");
    assert_eq!(
        simplify_rules(n, &kw).unwrap_err().message,
        "unknown rule set `fast` (expected algebra, tensor, or continuum)"
    );
    let (n, kw) = call_parts("s = Simplify(x, rules=1)");
    assert_eq!(
        simplify_rules(n, &kw).unwrap_err().message,
        "unknown keyword `rules` for `Simplify`"
    );
}

#[test]
fn set_declarations_and_labels() {
    assert!(declares_set(&assigned("lambda = ScalarSet(\"\\lambda\", 3)")));
    assert!(declares_set(&assigned("N = VectorSet(\"\\bm N\", 3)")));
    assert!(!declares_set(&assigned("C = Tensor(\"\\bm C\")")));
    assert_eq!(declared_label(&assigned("C = Tensor(\"\\bm C\")")).unwrap(), "\\bm C");
    assert_eq!(declared_label(&assigned("x = Var(\"x\")")).unwrap(), "x");
    assert!(declared_label(&assigned("C = Tensor(F)")).is_none());
    assert!(declared_label(&assigned("C = Inv(\"F\")")).is_none());
    assert!(declared_label(&assigned("C = F")).is_none());
}

#[test]
fn derivative_orders() {
    let (n, kw) = call_parts("s = Diff(W, E)");
    assert_eq!(diff_order(n, &kw).unwrap(), 1);
    let (n, kw) = call_parts("s = Diff(W, E, order=2)");
    assert_eq!(diff_order(n, &kw).unwrap(), 2);
    let (n, kw) = call_parts("s = Diff(W)");
    assert_eq!(
        diff_order(n, &kw).unwrap_err().message,
        "`Diff` takes exactly two positional arguments: Diff(expr, X, order=1)"
    );
    let (n, kw) = call_parts("s = Diff(W, E, n=2)");
    assert_eq!(diff_order(n, &kw).unwrap_err().message, "unknown keyword `n` for `Diff`");
    let (n, kw) = call_parts("s = Diff(W, E, order=1.5)");
    assert_eq!(diff_order(n, &kw).unwrap_err().message, "`order` must be a non-negative integer");
    let (n, kw) = call_parts("d = Derivative(y, x, order=3)");
    assert_eq!(derivative_order(n, &kw).unwrap(), 3);
    let (n, kw) = call_parts("d = Derivative(y, x, x)");
    assert_eq!(
        derivative_order(n, &kw).unwrap_err().message,
        "`Derivative` takes exactly two positional arguments: Derivative(f, x, order=1)"
    );
    let (n, kw) = call_parts("d = Derivative(y, x, k=1)");
    assert_eq!(derivative_order(n, &kw).unwrap_err().message, "unknown keyword `k` for `Derivative`");
}

#[test]
fn ode_solve_options() {
    let (n, kw) = call_parts("s = f()");
    assert_eq!(
        solve_options(n, &kw).unwrap(),
        SolveOptions { details: false, method: SolveMethod::Auto, about: None, terms: 6 }
    );
    let (n, kw) = call_parts("s = f(details=true, method=separable, about=0, terms=8)");
    assert_eq!(
        solve_options(n, &kw).unwrap(),
        SolveOptions { details: true, method: SolveMethod::Separable, about: Some(2), terms: 8 }
    );
    let (n, kw) = call_parts("s = f(x)");
    assert_eq!(
        solve_options(n, &kw).unwrap_err().message,
        "`ODE.solve(...)` takes only optional keywords such as `details=true`, `method=separable`, `about=0`, or `terms=6`"
    );
    let (n, kw) = call_parts("s = f(details=1)");
    assert_eq!(solve_options(n, &kw).unwrap_err().message, "`details` must be true or false");
    let (n, kw) = call_parts("s = f(steps=true)");
    assert_eq!(solve_options(n, &kw).unwrap_err().message, "unknown keyword `steps` for `ODE.solve`");
    let (n, kw) = call_parts("s = f(method=magic)");
    assert!(solve_options(n, &kw).unwrap_err().message.starts_with("unknown ODE solve method `magic`"));
}

#[test]
fn builtin_argument_shapes() {
    assert!(builtin_arity(CallTarget::Equation, 2, 0).is_ok());
    assert_eq!(
        builtin_arity(CallTarget::Equation, 1, 0).unwrap_err().message,
        "`Equation` expects two scalar expressions: Equation(lhs, rhs)"
    );
    assert!(builtin_arity(CallTarget::BoundaryCondition, 3, 0).is_ok());
    assert!(builtin_arity(CallTarget::BoundaryCondition, 4, 0).is_err());
    assert!(builtin_arity(CallTarget::Ode, 5, 0).is_ok());
    assert_eq!(
        builtin_arity(CallTarget::Ode, 3, 1).unwrap_err().message,
        "`ODE` expects ODE(eq, y, x) or ODE(eq, y, x, BoundaryCondition(...), ...)"
    );
    assert_eq!(
        builtin_arity(CallTarget::Integral, 3, 0).unwrap_err().message,
        "`Integral` expects two arguments: Integral(expr, x)"
    );
    assert!(builtin_arity(CallTarget::Integrate, 2, 0).is_ok());
    assert!(builtin_arity(CallTarget::Tensor, 7, 3).is_ok());
}
