use tensorforge::ast::{Expr, Stmt};
use tensorforge::indexing::{
    assigned_position, component_index, component_read, numeral_display, set_index,
};
use tensorforge::parser::parse;
use tensorforge::tensor::SetIndex;

fn indices(src: &str) -> Vec<Expr> {
    let mut e = match parse(src).unwrap().remove(0) {
        Stmt::Assign { expr, .. } => expr,
        other => panic!("unexpected statement {other:?}"),
    };
    let mut out = Vec::new();
    while let Expr::Index { target, index } = e {
        out.push(*index);
        e = *target;
    }
    out.reverse();
    out
}

fn num(s: &str) -> Expr {
    Expr::Num(s.to_string())
}

#[test]
fn numerals_print_by_value() {
    assert_eq!(numeral_display("4"), "4");
    assert_eq!(numeral_display("4.0"), "4");
    assert_eq!(numeral_display("007"), "7");
    assert_eq!(numeral_display("2.50"), "2.5");
    assert_eq!(numeral_display("0.5"), "0.5");
    assert_eq!(numeral_display("0"), "0");
}

#[test]
fn component_indices() {
    assert_eq!(component_index(&num("2"), 3).unwrap(), 2);
    assert_eq!(component_index(&num("3.0"), 3).unwrap(), 3);
    assert_eq!(
        component_index(&num("4"), 3).unwrap_err().message,
        "component index 4 is out of range (1..=3)"
    );
    assert_eq!(
        component_index(&num("1.5"), 3).unwrap_err().message,
        "component index 1.5 is out of range (1..=3)"
    );
    assert_eq!(
        component_index(&num("0"), 3).unwrap_err().message,
        "component index 0 is out of range (1..=3)"
    );
    assert_eq!(
        component_index(&Expr::Ident("i".into()), 3).unwrap_err().message,
        "a component index must be an integer literal"
    );
}

#[test]
fn set_element_indices() {
    assert_eq!(set_index("N", &indices("x = N[a]"), 3).unwrap(), SetIndex::Sym("a".into()));
    assert_eq!(set_index("N", &indices("x = N[2]"), 3).unwrap(), SetIndex::Num(2));
    assert_eq!(
        set_index("N", &indices("x = N[4]"), 3).unwrap_err().message,
        "index 4 is out of range for `N` (1..=3)"
    );
    assert_eq!(
        set_index("N", &indices("x = N[1][2]"), 3).unwrap_err().message,
        "set `N` takes a single index, got 2"
    );
    assert_eq!(
        set_index("N", &indices("x = N[\"a\"]"), 3).unwrap_err().message,
        "a set index must be an index name or an integer literal"
    );
}

#[test]
fn assigned_components_are_row_major() {
    assert_eq!(assigned_position("F", 2, 3, &indices("x = F[1][1]")).unwrap(), 0);
    assert_eq!(assigned_position("F", 2, 3, &indices("x = F[2][3]")).unwrap(), 5);
    assert_eq!(assigned_position("F", 2, 3, &indices("x = F[3][3]")).unwrap(), 8);
    assert_eq!(assigned_position("u", 1, 3, &indices("x = u[2]")).unwrap(), 1);
    assert_eq!(
        assigned_position("F", 2, 3, &indices("x = F[1]")).unwrap_err().message,
        "`F` has order 2 and takes 2 index group(s), got 1"
    );
    assert_eq!(
        assigned_position("F", 2, 3, &indices("x = F[1][4]")).unwrap_err().message,
        "component indices must be integers in 1..=3"
    );
    assert_eq!(
        assigned_position("F", 2, 3, &indices("x = F[a][1]")).unwrap_err().message,
        "component indices must be integers in 1..=3"
    );
}

#[test]
fn component_reads() {
    assert_eq!(component_read(2, 3, &indices("x = C[1][2]")).unwrap(), (1, 2));
    assert_eq!(
        component_read(2, 3, &indices("x = C[1]")).unwrap_err().message,
        "a tensor of order 2 needs 2 component index(es), got 1"
    );
    assert_eq!(
        component_read(1, 3, &indices("x = u[1]")).unwrap_err().message,
        "component read currently supports second-order tensors"
    );
    assert_eq!(
        component_read(2, 3, &indices("x = C[1][5]")).unwrap_err().message,
        "component index 5 is out of range (1..=3)"
    );
}
