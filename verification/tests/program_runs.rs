use tensorforge::ast::{Expr, Stmt};
use tensorforge::error::Error;
use tensorforge::indexing::fill_component;
use tensorforge::parser::parse;
use tensorforge::run::{assignment_effects, exec_action, run_step, ExecAction, NameState, RunState, RunStep};

fn first(src: &str) -> Stmt {
    parse(src).unwrap().remove(0)
}

fn method_call(method: &str) -> Stmt {
    let call = Expr::MethodCall {
        target: Box::new(Expr::Ident("C".to_string())),
        method: method.to_string(),
        args: vec![],
        kwargs: vec![],
    };
    Stmt::Expr(call, 1, 0)
}

fn empty() -> NameState {
    NameState { labels: vec![], defs: vec![], derived: vec![], display_values: vec![] }
}

fn assign(s: &NameState, src: &str, tensor_order: Option<usize>, value: u64, is_leaf: bool, has_display: bool) -> NameState {
    match first(src) {
        Stmt::Assign { name, expr, block, .. } => {
            assignment_effects(s, &name, &expr, tensor_order, value, block, is_leaf, has_display)
        }
        _ => panic!("not an assignment"),
    }
}

#[test]
fn statements_dispatch_to_their_actions() {
    assert_eq!(exec_action(&first("lambda = ScalarSet(\"\\lambda\", dim=3)")), ExecAction::DeclareSet);
    assert_eq!(exec_action(&first("F = Tensor(\"\\bm F\", order=2, dim=3)")), ExecAction::Assign);
    assert_eq!(exec_action(&first("F[1][1] = 2")), ExecAction::AssignComponent);
    assert_eq!(exec_action(&first("[c, N] = Spec_Decomp(C)")), ExecAction::AssignPair);
    assert_eq!(exec_action(&method_call("show")), ExecAction::Show);
    assert_eq!(exec_action(&method_call("plot")), ExecAction::Plot);
    assert_eq!(exec_action(&method_call("solve")), ExecAction::Solve);
    assert_eq!(exec_action(&method_call("norm")), ExecAction::Evaluate);
    assert_eq!(exec_action(&Stmt::OutputRow { exprs: vec![], line: 1, block: 0 }), ExecAction::OutputRow);
    assert_eq!(exec_action(&first("C.T")), ExecAction::Evaluate);
    assert_eq!(exec_action(&first("Det(F)")), ExecAction::Evaluate);
}

#[test]
fn declared_labels_survive_reassignment() {
    let s = assign(&empty(), "I1 = Scalar(\"I_1\")", None, 1, true, false);
    assert_eq!(s.labels.len(), 1);
    assert_eq!(s.labels[0], ("I1".to_string(), "I_1".to_string()));
    assert!(s.defs.is_empty());
    let s = assign(&s, "I1 = Tr(C)", None, 2, false, false);
    assert_eq!(s.labels.len(), 1);
    assert_eq!(s.defs.len(), 1);
    assert_eq!(s.defs[0].latex, "I_1");
    assert_eq!(s.defs[0].value, 2);
    let s = assign(&s, "I1 = Tr(C) + 1", None, 3, false, false);
    assert_eq!(s.defs.len(), 1);
    assert_eq!(s.defs[0].value, 3);
}

#[test]
fn tensor_names_get_default_labels_and_transpose_products_keep_display_values() {
    let s = assign(&empty(), "C = F.T * F", Some(2), 7, false, true);
    assert_eq!(s.defs.len(), 1);
    assert_eq!(s.defs[0].latex, "\\bm C");
    assert_eq!(s.display_values, vec!["C".to_string()]);
    let s = assign(&s, "Cs = F.T * F", Some(2), 8, false, true);
    assert_eq!(s.defs[1].latex, "Cs");
    let s = assign(&s, "C = F * F", Some(2), 9, false, true);
    assert_eq!(s.display_values, vec!["Cs".to_string()]);
}

#[test]
fn derived_names_expand_instead_of_aliasing() {
    let mut s = empty();
    s.derived.push("Q".to_string());
    let s = assign(&s, "S = Q * 2", Some(2), 5, false, false);
    assert!(s.defs.is_empty());
    assert_eq!(s.derived, vec!["Q".to_string(), "S".to_string()]);
    let s = assign(&s, "S = F", Some(2), 6, false, false);
    assert_eq!(s.derived, vec!["Q".to_string()]);
}

#[test]
fn strict_run_stops_with_the_statement_line() {
    match run_step(false, 4, Err(Error::msg("boom".to_string()))) {
        RunStep::Stop(e) => {
            assert_eq!(e.message, "boom");
            assert_eq!(e.line, Some(4));
        }
        _ => panic!("expected a stop"),
    }
    match run_step(false, 4, Err(Error::new("bad".to_string(), Some(2)))) {
        RunStep::Stop(e) => assert_eq!(e.line, Some(2)),
        _ => panic!("expected a stop"),
    }
    assert!(matches!(run_step(false, 4, Ok(())), RunStep::Continue));
}

#[test]
fn lenient_run_records_an_error_output() {
    match run_step(true, 12, Err(Error::msg("oops".to_string()))) {
        RunStep::Record(o) => {
            assert_eq!(o.header, "line 12");
            assert_eq!(o.line, 12);
            assert_eq!(o.message, "oops");
        }
        _ => panic!("expected a record"),
    }
    assert!(matches!(run_step(true, 3, Ok(())), RunStep::Continue));
}

#[test]
fn unset_components_are_zero() {
    assert_eq!(fill_component(None, 2, 2, 1, 9, 0), vec![0, 9, 0, 0]);
    assert_eq!(fill_component(Some(vec![4, 9, 0, 0]), 2, 2, 3, 5, 0), vec![4, 9, 0, 5]);
    assert_eq!(fill_component(None, 1, 3, 2, 7, 1), vec![1, 1, 7]);
}

#[test]
fn strict_run_state_stops_at_the_first_failure() {
    let mut r = RunState::new();
    r.advance(false, 1, Ok(()));
    assert!(r.running());
    r.advance(false, 2, Err(Error::msg("first".to_string())));
    assert!(!r.running());
    r.advance(false, 3, Err(Error::msg("second".to_string())));
    let e = r.stopped.unwrap();
    assert_eq!(e.message, "first");
    assert_eq!(e.line, Some(2));
    assert!(r.records.is_empty());
}

#[test]
fn lenient_run_state_records_each_failure_in_order() {
    let mut r = RunState::new();
    r.advance(true, 1, Err(Error::msg("a".to_string())));
    r.advance(true, 2, Ok(()));
    r.advance(true, 3, Err(Error::new("b".to_string(), Some(7))));
    assert!(r.running());
    assert_eq!(r.records.len(), 2);
    assert_eq!((r.records[0].header.as_str(), r.records[0].line, r.records[0].message.as_str()), ("line 1", 1, "a"));
    assert_eq!((r.records[1].header.as_str(), r.records[1].line, r.records[1].message.as_str()), ("line 7", 7, "b"));
}
