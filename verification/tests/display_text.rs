use tensorforge::cli::{command_for, usage, Command};
use tensorforge::ast::{BinOp, Expr, Stmt};
use tensorforge::checks::{
    default_tensor_label, expect_bool, expect_solve_method, expr_eq, is_raw_transpose_product_definition,
    numerals_equal,
    op_name, render_set_decl, renamed_builtin_error, show_header, show_mode,
};
use tensorforge::components::{
    component_base, component_base_latex, component_symbol_latex, delta_latex, fixed_value, fresh_bound,
    indexed_symbol, instantiate_index, join_indices, join_product, paren, paren_if_sum, Comp,
};
use tensorforge::error::Error;
use tensorforge::metadata::{
    display_capabilities_for_value, display_lhs, ensure_display_capability, ensure_display_mode,
    display_capabilities_for_kind, display_capability_for_kind, DisplayCapability, DisplayCapabilityState,
    ValueKind,
};
use tensorforge::ode::SolveMethod;
use tensorforge::parser::parse;
use tensorforge::rules::RuleSet;

fn assigned(src: &str) -> Expr {
    match parse(src).unwrap().remove(0) {
        Stmt::Assign { expr, .. } => expr,
        other => panic!("expected an assignment, got {other:?}"),
    }
}

#[test]
fn component_bases_strip_bold() {
    assert_eq!(component_base("  \\bm F "), "F");
    assert_eq!(component_base("\\bmX"), "X");
    assert_eq!(component_base("\\bm   "), "\\bm");
    assert_eq!(component_base("\\mathbb C"), "\\mathbb C");
    assert_eq!(component_base_latex("\\bm  \\sigma "), "\\sigma");
}

#[test]
fn fixed_indices_are_instantiated() {
    let fixed = [("m", 1), ("n", 2), ("m", 7)];
    assert_eq!(fixed_value("m", &fixed), Some(1));
    assert_eq!(fixed_value("i", &fixed), None);
    assert_eq!(instantiate_index("n", &fixed), "2");
    assert_eq!(instantiate_index("i", &fixed), "i");
    assert_eq!(join_indices(&["i", "j", "m", "n"], &fixed), "ij12");
    assert_eq!(delta_latex("i", "m", &fixed), "\\delta_{i1}");
    assert_eq!(component_symbol_latex("\\bm F", &["i", "j"], &[]), "{F}_{ij}");
    assert_eq!(component_symbol_latex("\\bm C", &["m", "n"], &fixed), "{C}_{12}");
}

#[test]
fn products_and_parentheses() {
    assert_eq!(join_product(vec!["1".to_string(), "a".to_string(), "b".to_string()]), "a \\, b");
    assert_eq!(join_product(vec!["1".to_string(), "1".to_string()]), "");
    assert_eq!(paren_if_sum("a + b".to_string()), "\\left( a + b \\right)");
    assert_eq!(paren_if_sum("a - b".to_string()), "\\left( a - b \\right)");
    assert_eq!(paren_if_sum("a \\, b".to_string()), "a \\, b");
    assert_eq!(paren("x".to_string()), "\\left( x \\right)");
}

#[test]
fn bound_indices_are_fresh() {
    let mut counter = 0usize;
    let names: Vec<String> = (0..8).map(|_| fresh_bound(&mut counter)).collect();
    assert_eq!(names, vec!["k", "l", "p", "q", "r", "s", "k_{6}", "k_{7}"]);
    assert_eq!(counter, 8);
}

#[test]
fn indexed_component_symbols_are_one_based() {
    assert_eq!(indexed_symbol("\\bm F", 0, 1), ("F_12".to_string(), "F_{12}".to_string()));
    let c = Comp { base: "F".into(), inv: false, indices: vec!["m".into(), "j".into()] };
    assert_eq!(c.indices.len(), 2);
}

#[test]
fn show_modes() {
    assert_eq!(show_mode(&vec![], &vec![]).unwrap(), "symbol");
    assert_eq!(show_mode(&vec![Expr::Ident("matrix".into())], &vec![]).unwrap(), "matrix");
    assert_eq!(show_mode(&vec![Expr::Str("methods".into())], &vec![]).unwrap(), "methods");
    assert_eq!(
        show_mode(&vec![Expr::Num("1".into())], &vec![]).unwrap_err().message,
        "`.show(...)` mode must be a bare identifier such as `matrix` or `classification`"
    );
    assert_eq!(
        show_mode(&vec![], &vec![("mode".into(), Expr::Ident("matrix".into()))]).unwrap_err().message,
        "`.show(...)` takes an optional positional mode; use `A.show(matrix)`, not `mode=`"
    );
    assert_eq!(
        show_mode(&vec![Expr::Ident("a".into()), Expr::Ident("b".into())], &vec![]).unwrap_err().message,
        "`.show(...)` takes at most one mode, such as `symbol`, `matrix`, `classification`, or `methods`"
    );
    assert_eq!(show_header("A", "matrix", false), "A.show(matrix)");
    assert_eq!(show_header("A", "symbol", true), "A.show()");
}

#[test]
fn argument_checks() {
    assert_eq!(expect_bool(&Expr::Bool(true), "details").unwrap(), true);
    assert_eq!(
        expect_bool(&Expr::Ident("yes".into()), "details").unwrap_err().message,
        "`details` must be true or false"
    );
    assert_eq!(expect_solve_method(&Expr::Ident("exact".into())).unwrap(), SolveMethod::Exact);
    assert_eq!(expect_solve_method(&Expr::Str("frobenius".into())).unwrap(), SolveMethod::Frobenius);
    assert_eq!(
        expect_solve_method(&Expr::Ident("magic".into())).unwrap_err().message,
        "unknown ODE solve method `magic`; expected auto, linear, separable, exact, characteristic, undetermined, variation, power_series, or frobenius"
    );
    assert_eq!(
        expect_solve_method(&Expr::Num("2".into())).unwrap_err().message,
        "`method` must be one of auto, linear, separable, exact, characteristic, undetermined, variation, power_series, or frobenius"
    );
    let e = renamed_builtin_error("diff", "Diff");
    assert_eq!(e.message, "`diff(...)` was renamed; use `Diff(...)`");
    assert_eq!(e.line, None);
    assert_eq!(op_name(BinOp::Ddot), ":");
    assert_eq!(op_name(BinOp::Outer), "&");
}

#[test]
fn labels_and_set_declarations() {
    assert_eq!(default_tensor_label("C", 4), "\\mathbb C");
    assert_eq!(default_tensor_label("F", 2), "\\bm F");
    assert_eq!(render_set_decl("\\lambda", 3), "{\\lambda}_{a}\\quad \\text{with }a=1,2,3");
    assert_eq!(render_set_decl("\\bm N", 0), "{\\bm N}_{a}\\quad \\text{with }a=");
}

#[test]
fn transpose_product_definitions() {
    assert!(is_raw_transpose_product_definition(&assigned("C = F.T * F")));
    assert!(is_raw_transpose_product_definition(&assigned("B = F * F.T")));
    assert!(!is_raw_transpose_product_definition(&assigned("X = F.T * G")));
    assert!(!is_raw_transpose_product_definition(&assigned("X = F.T + F")));
    assert!(is_raw_transpose_product_definition(&assigned("Y = f(a, k=1).T * f(a, k=1)")));
    assert!(!is_raw_transpose_product_definition(&assigned("Y = f(a, k=1).T * f(a, k=2)")));
    assert!(expr_eq(&assigned("a = x + 1"), &assigned("b = x + 1")));
    assert!(!expr_eq(&assigned("a = x + 1"), &assigned("b = x - 1")));
}

#[test]
fn numerals_compare_by_value() {
    assert!(numerals_equal("1", "1.0"));
    assert!(numerals_equal("01.50", "1.5"));
    assert!(numerals_equal("0", "0.000"));
    assert!(numerals_equal("3.", "3"));
    assert!(!numerals_equal("2", "2.5"));
    assert!(!numerals_equal("10", "1"));
    assert!(!numerals_equal("100", "1.00"));
    assert!(expr_eq(&assigned("a = 2 * F"), &assigned("b = 2.0 * F")));
    assert!(!expr_eq(&assigned("a = 2 * F"), &assigned("b = 20 * F")));
    assert!(is_raw_transpose_product_definition(&assigned("C = (2*F).T * (2.0*F)")));
}

#[test]
fn display_capabilities() {
    let t2 = ValueKind::Tensor { order: 2, dim: 3 };
    assert_eq!(display_capability_for_kind(&t2, "matrix"), DisplayCapability::available("matrix"));
    let t4 = ValueKind::Tensor { order: 4, dim: 3 };
    let c = display_capability_for_kind(&t4, "matrix");
    assert_eq!(c.state, DisplayCapabilityState::InvalidForType);
    assert_eq!(
        c.message.unwrap(),
        "mode=matrix is only available for order-1 or order-2 tensors; this tensor has order 4"
    );
    let s = display_capability_for_kind(&ValueKind::Scalar, "components");
    assert_eq!(
        s.message.unwrap(),
        "mode=components is not available for scalar values (supported: symbol)"
    );
    let set = display_capability_for_kind(&ValueKind::ScalarSet { dim: 3 }, "matrix");
    assert_eq!(set.message.unwrap(), "set display only supports mode=symbol");
    let all = display_capabilities_for_kind(&t4);
    let modes: Vec<&str> = all.iter().map(|c| c.mode.as_str()).collect();
    assert_eq!(modes, vec!["symbol", "components", "matrix", "block_components"]);
    assert_eq!(all[3].state, DisplayCapabilityState::Available);
    let u = DisplayCapability::unsupported("plot", "not yet".to_string());
    assert_eq!(u.state, DisplayCapabilityState::UnsupportedRenderer);
}

#[test]
fn rule_sets() {
    assert_eq!(RuleSet::parse("tensor").unwrap(), RuleSet::Tensor);
    assert_eq!(
        RuleSet::parse("physics").unwrap_err().message,
        "unknown rule set `physics` (expected algebra, tensor, or continuum)"
    );
    assert!(RuleSet::Continuum.includes(RuleSet::Algebra));
    assert!(RuleSet::Tensor.includes(RuleSet::Tensor));
    assert!(!RuleSet::Algebra.includes(RuleSet::Tensor));
}

#[test]
fn error_text() {
    assert_eq!(Error::new("boom".to_string(), Some(3)).to_string(), "error (line 3): boom");
    assert_eq!(Error::msg("boom".to_string()).to_string(), "error: boom");
}

#[test]
fn command_line_actions() {
    let args = |v: &[&str]| v.iter().map(|s| s.to_string()).collect::<Vec<String>>();
    assert_eq!(command_for(&args(&["--version"])), Command::Version);
    assert_eq!(command_for(&args(&["-h"])), Command::Help);
    assert_eq!(command_for(&args(&["run", "a.tens"])), Command::Run("a.tens".to_string()));
    assert_eq!(command_for(&args(&["a.tens"])), Command::Run("a.tens".to_string()));
    assert_eq!(command_for(&args(&["-x"])), Command::Usage);
    assert_eq!(command_for(&args(&[])), Command::Usage);
    assert_eq!(command_for(&args(&["run"])), Command::Run("run".to_string()));
    assert_eq!(command_for(&args(&["a", "b", "c"])), Command::Usage);
    assert!(usage().starts_with("Tensbook"));
}

#[test]
fn display_modes_are_checked_per_value() {
    assert!(ensure_display_mode(&ValueKind::Scalar, "symbol", false).is_ok());
    assert_eq!(
        ensure_display_mode(&ValueKind::Scalar, "matrix", false).unwrap_err().message,
        "mode=matrix is not available for scalar values (supported: symbol)"
    );
    let fourth = ValueKind::Tensor { order: 4, dim: 3 };
    assert_eq!(
        ensure_display_mode(&fourth, "matrix", false).unwrap_err().message,
        "mode=matrix is only available for order-1 or order-2 tensors; this tensor has order 4"
    );
    assert!(ensure_display_mode(&fourth, "matrix", true).is_ok());
    assert!(ensure_display_mode(&fourth, "components", true).is_ok());
    assert!(ensure_display_mode(&fourth, "plot", true).is_err());
    let unsupported = DisplayCapability::unsupported("matrix", "no renderer".to_string());
    assert!(ensure_display_capability(&unsupported).is_ok());
    let bare = DisplayCapability {
        mode: "plot".to_string(),
        state: DisplayCapabilityState::InvalidForType,
        message: None,
    };
    assert_eq!(ensure_display_capability(&bare).unwrap_err().message, "mode=plot is not available");
    let caps = display_capabilities_for_value(&fourth, true);
    let states: Vec<DisplayCapabilityState> = caps.iter().map(|c| c.state).collect();
    assert_eq!(
        states,
        vec![
            DisplayCapabilityState::Available,
            DisplayCapabilityState::Available,
            DisplayCapabilityState::Available,
            DisplayCapabilityState::Available
        ]
    );
    let plain = display_capabilities_for_value(&fourth, false);
    assert_eq!(plain[1].state, DisplayCapabilityState::InvalidForType);
}

#[test]
fn show_left_hand_sides() {
    assert_eq!(display_lhs("C", &Some("\\bm C_0".to_string()), Some(2)), "\\bm C_0");
    assert_eq!(display_lhs("C", &None, Some(2)), "\\bm C");
    assert_eq!(display_lhs("A", &None, Some(4)), "\\mathbb A");
    assert_eq!(display_lhs("dCdF", &None, Some(4)), "dCdF");
    assert_eq!(display_lhs("W", &None, None), "W");
}
