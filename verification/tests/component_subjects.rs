use tensorforge::ast::{Expr, Stmt};
use tensorforge::parser::parse;
use tensorforge::subjects::{component_subject, component_subject_base};

fn rhs(src: &str) -> Expr {
    match parse(src).unwrap().remove(0) {
        Stmt::Assign { expr, .. } => expr,
        other => panic!("unexpected statement {other:?}"),
    }
}

#[test]
fn component_headers_and_symbols() {
    let e = rhs("x = T[1][2]");
    assert_eq!(component_subject_base(&e).unwrap(), "T");
    assert_eq!(
        component_subject(&e, 2, 3, &Some("\\bm T".to_string())),
        Some(("T[1][2]".to_string(), Some("{\\bm T}_{12}".to_string())))
    );
    assert_eq!(component_subject(&e, 2, 3, &None), Some(("T[1][2]".to_string(), None)));
    let v = rhs("x = u[3.0]");
    assert_eq!(
        component_subject(&v, 1, 3, &Some("\\bm u".to_string())),
        Some(("u[3]".to_string(), Some("{\\bm u}_{3}".to_string())))
    );
}

#[test]
fn malformed_component_subjects() {
    let e = rhs("x = T[1][2]");
    assert_eq!(component_subject(&e, 1, 3, &None), None);
    assert_eq!(component_subject(&e, 2, 1, &None), None);
    assert_eq!(component_subject(&rhs("x = T[1][a]"), 2, 3, &None), None);
    assert_eq!(component_subject(&rhs("x = T[0][1]"), 2, 3, &None), None);
    assert_eq!(component_subject(&rhs("x = T[1.5][1]"), 2, 3, &None), None);
    assert_eq!(component_subject(&rhs("x = (A + B)[1]"), 1, 3, &None), None);
    assert_eq!(component_subject(&rhs("x = T"), 0, 3, &None), None);
    assert_eq!(component_subject_base(&rhs("x = T")), None);
    assert_eq!(component_subject_base(&rhs("x = (A + B)[1]")), None);
}
