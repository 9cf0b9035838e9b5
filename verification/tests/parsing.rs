use tensorforge::ast::{BinOp, Expr, Stmt, UnOp};
use tensorforge::lexer::{lex, Tok, Token};
use tensorforge::notes::strip_note_blocks;
use tensorforge::parser::parse;

fn ident(s: &str) -> Expr {
    Expr::Ident(s.to_string())
}

fn num(s: &str) -> Expr {
    Expr::Num(s.to_string())
}

fn bin(op: BinOp, l: Expr, r: Expr) -> Expr {
    Expr::Binary { op, lhs: Box::new(l), rhs: Box::new(r) }
}

fn only_expr(src: &str) -> Expr {
    let mut stmts = parse(src).unwrap();
    assert_eq!(stmts.len(), 1);
    match stmts.remove(0) {
        Stmt::Expr(e, _, _) => e,
        other => panic!("expected an expression statement, got {other:?}"),
    }
}

#[test]
fn lexes_tokens_with_lines() {
    let toks = lex("x = 2.5 # comment\ny").unwrap();
    assert_eq!(
        toks,
        vec![
            Token { tok: Tok::Ident("x".into()), line: 1 },
            Token { tok: Tok::Eq, line: 1 },
            Token { tok: Tok::Num("2.5".into()), line: 1 },
            Token { tok: Tok::Newline, line: 1 },
            Token { tok: Tok::Ident("y".into()), line: 2 },
            Token { tok: Tok::Eof, line: 2 },
        ]
    );
}

#[test]
fn lexes_keywords_and_punctuation() {
    let toks: Vec<Tok> = lex("true false & : ^ [ ] ( ) , . / * - +").unwrap().into_iter().map(|t| t.tok).collect();
    assert_eq!(
        toks,
        vec![
            Tok::True,
            Tok::False,
            Tok::Amp,
            Tok::Colon,
            Tok::Caret,
            Tok::LBracket,
            Tok::RBracket,
            Tok::LParen,
            Tok::RParen,
            Tok::Comma,
            Tok::Dot,
            Tok::Slash,
            Tok::Star,
            Tok::Minus,
            Tok::Plus,
            Tok::Eof,
        ]
    );
}

#[test]
fn string_literals_keep_backslashes() {
    let toks = lex("\"\\bm F\" \"a\\\"b\"").unwrap();
    assert_eq!(toks[0].tok, Tok::Str("\\bm F".into()));
    assert_eq!(toks[1].tok, Tok::Str("a\"b".into()));
}

#[test]
fn lexer_errors_carry_lines() {
    let e = lex("x = 1\ny = $").unwrap_err();
    assert_eq!(e.message, "unexpected character `$`");
    assert_eq!(e.line, Some(2));
    let e = lex("s = \"abc").unwrap_err();
    assert_eq!(e.message, "unterminated string literal");
    assert_eq!(e.line, Some(1));
    let e = lex("x = 1.2.3").unwrap_err();
    assert_eq!(e.message, "invalid number `1.2.3`");
    assert_eq!(e.to_string(), "error (line 1): invalid number `1.2.3`");
}

#[test]
fn parses_declarations_and_products() {
    let stmts = parse("F = Tensor(\"\\bm F\", order=2, dim=3)\n\nC = F.T * F\n").unwrap();
    assert_eq!(
        stmts,
        vec![
            Stmt::Assign {
                name: "F".into(),
                expr: Expr::Call {
                    callee: "Tensor".into(),
                    args: vec![Expr::Str("\\bm F".into())],
                    kwargs: vec![("order".into(), num("2")), ("dim".into(), num("3"))],
                },
                line: 1,
                block: 0,
            },
            Stmt::Assign {
                name: "C".into(),
                expr: bin(
                    BinOp::Mul,
                    Expr::Field { target: Box::new(ident("F")), name: "T".into() },
                    ident("F"),
                ),
                line: 3,
                block: 0,
            },
        ]
    );
}

#[test]
fn parses_pair_and_component_assignments() {
    let stmts = parse("[c, N] = Spec_Decomp(C)\nF[1][2] = x").unwrap();
    assert_eq!(
        stmts[0],
        Stmt::AssignPair {
            first: "c".into(),
            second: "N".into(),
            expr: Expr::Call { callee: "Spec_Decomp".into(), args: vec![ident("C")], kwargs: vec![] },
            line: 1,
            block: 0,
        }
    );
    assert_eq!(
        stmts[1],
        Stmt::AssignComponent {
            name: "F".into(),
            indices: vec![num("1"), num("2")],
            expr: ident("x"),
            line: 2,
            block: 0,
        }
    );
}

#[test]
fn indexing_without_assignment_is_an_expression() {
    let e = only_expr("lambda[a]");
    assert_eq!(e, Expr::Index { target: Box::new(ident("lambda")), index: Box::new(ident("a")) });
}

#[test]
fn operator_precedence_and_associativity() {
    assert_eq!(
        only_expr("a + b * c"),
        bin(BinOp::Add, ident("a"), bin(BinOp::Mul, ident("b"), ident("c")))
    );
    assert_eq!(
        only_expr("2^3^2"),
        bin(BinOp::Pow, num("2"), bin(BinOp::Pow, num("3"), num("2")))
    );
    assert_eq!(
        only_expr("-x^2"),
        Expr::Unary { op: UnOp::Neg, expr: Box::new(bin(BinOp::Pow, ident("x"), num("2"))) }
    );
    assert_eq!(
        only_expr("A & B : C"),
        bin(BinOp::Ddot, bin(BinOp::Outer, ident("A"), ident("B")), ident("C"))
    );
    assert_eq!(
        only_expr("a - b - c"),
        bin(BinOp::Sub, bin(BinOp::Sub, ident("a"), ident("b")), ident("c"))
    );
    assert_eq!(
        only_expr("(a + b) / c"),
        bin(BinOp::Div, bin(BinOp::Add, ident("a"), ident("b")), ident("c"))
    );
}

#[test]
fn parse_errors() {
    let e = parse("x = (1").unwrap_err();
    assert_eq!(e.message, "expected `)`, found Eof");
    assert_eq!(e.line, Some(1));
    let e = parse("f(a, k=1, b)").unwrap_err();
    assert_eq!(
        e.message,
        "positional argument after keyword argument (flags are written `b=true`, not bare `b`)"
    );
    let e = parse("x = 1 2").unwrap_err();
    assert_eq!(e.message, "unexpected token after statement: Num(2.0)");
    let e = parse("x = )").unwrap_err();
    assert_eq!(e.message, "unexpected token RParen");
    let e = parse("F.1").unwrap_err();
    assert_eq!(e.message, "expected property name after `.`, found Num(1.0)");
}

#[test]
fn tokens_in_errors_are_written_as_debug_text() {
    let e = parse("x = 1 007.250").unwrap_err();
    assert_eq!(e.message, "unexpected token after statement: Num(7.25)");
    let e = parse("x = 1 0.").unwrap_err();
    assert_eq!(e.message, "unexpected token after statement: Num(0.0)");
    let e = parse("x = 1 \"\\bm F\"").unwrap_err();
    assert_eq!(e.message, "unexpected token after statement: Str(\"\\\\bm F\")");
    let e = parse("x = 1 10000000000000000").unwrap_err();
    assert_eq!(e.message, "unexpected token after statement: Num(1e16)");
    let e = parse("x = 1 120000000000000000.0").unwrap_err();
    assert_eq!(e.message, "unexpected token after statement: Num(1.2e17)");
    let e = parse("x = 1 9999999999999999").unwrap_err();
    assert_eq!(e.message, "unexpected token after statement: Num(9999999999999999.0)");
    let e = parse("x = 1 0.00001").unwrap_err();
    assert_eq!(e.message, "unexpected token after statement: Num(1e-5)");
    let e = parse("x = 1 0.000015").unwrap_err();
    assert_eq!(e.message, "unexpected token after statement: Num(1.5e-5)");
    let e = parse("x = 1 0.0001").unwrap_err();
    assert_eq!(e.message, "unexpected token after statement: Num(0.0001)");
    let e = parse("x = 1 y").unwrap_err();
    assert_eq!(e.message, "unexpected token after statement: Ident(\"y\")");
    let e = parse("[1, b] = C").unwrap_err();
    assert_eq!(e.message, "expected a set name in `[a, b] = ...`, found Num(1.0)");
}

#[test]
fn notes_are_blanked_keeping_line_numbers() {
    let src = "a = 1\n<!-- tensorforge:note -->\nprose\n<!-- /tensorforge:note -->\nb = 2\n";
    assert_eq!(strip_note_blocks(src).unwrap(), "a = 1\n\n\n\nb = 2\n");
    let stmts = parse(src).unwrap();
    assert_eq!(stmts[1].line(), 5);
}

#[test]
fn legacy_notes_allow_inner_fences() {
    let src = "```notes\n```rust\ncode\n```\nstill note\n```\nx = 1";
    assert_eq!(strip_note_blocks(src).unwrap(), "\n\n\n\n\n\nx = 1");
}

#[test]
fn note_fences_ignore_case_and_surrounding_space() {
    let src = "  <!-- TensorForge:Note -->  \r\nz\n<!-- /TENSORFORGE:NOTE -->\nq = 1";
    assert_eq!(strip_note_blocks(src).unwrap(), "\n\n\nq = 1");
}

#[test]
fn unterminated_note_is_an_error() {
    let e = strip_note_blocks("x = 1\n```notes\nabc\n").unwrap_err();
    assert_eq!(e.message, "unterminated notes block");
    assert_eq!(e.line, Some(2));
}
