//! Hand-written precedence-climbing parser for the `.tens` DSL.
//!
//! Grammar:
//! ```text
//! program   := statement (NEWLINE statement)*
//! statement := "[" IDENT "," IDENT "]" "=" expr
//!            | IDENT "=" expr
//!            | IDENT ("[" expr "]")+ "=" expr
//!            | expr
//! expr      := additive
//! additive  := multiplicative (("+" | "-") multiplicative)*
//! multiplicative := outer (("*" | "/" | ":") outer)*
//! outer     := unary ("&" unary)*
//! unary     := "-" unary | power
//! power     := postfix ("^" unary)?          # right associative
//! postfix   := primary ("." IDENT | "[" expr "]")*
//! primary   := NUM | STR | true | false | IDENT | IDENT "(" callargs ")" | "(" expr ")"
//! callargs  := (expr | IDENT "=" expr) ("," ...)*    # keywords after positionals
//! ```
//!
//! The grammar is stated as spec functions over the token models
//! (`p_program` and the functions it calls), error messages and lines
//! included; the parser is proved to compute exactly them.

use vstd::prelude::*;
use crate::ast::{lemma_kwargs_model_index, BinOp, Expr, ExprModel, Stmt, StmtModel, UnOp, exprs_model, kwargs_model, lemma_exprs_model_empty, lemma_exprs_model_push, lemma_kwargs_model_empty, lemma_kwargs_model_push, stmts_model};
use crate::error::{Error, ErrorModel};
use crate::lexer::{Tok, TokModel, Token, TokenModel, lex_chars, lex_spec, tokens_view};
use crate::notes::{strip_note_chars, strip_spec};
use crate::text::{chars_of, str_debug, str_debug_text, string_of};
use crate::number_text::{num_debug, num_debug_text};

verus! {

/// The `Debug` rendering of a token, used in error messages: the variant's
/// name, with its payload in parentheses (strings quoted and escaped as
/// `{:?}` writes them).
pub open spec fn tok_debug_text(t: TokModel) -> Seq<char> {
    match t {
        TokModel::Num(x) => "Num("@ + num_debug_text(x) + ")"@,
        TokModel::Str(x) => "Str("@ + str_debug_text(x) + ")"@,
        TokModel::Ident(x) => "Ident("@ + str_debug_text(x) + ")"@,
        TokModel::True => "True"@,
        TokModel::False => "False"@,
        TokModel::Plus => "Plus"@,
        TokModel::Minus => "Minus"@,
        TokModel::Star => "Star"@,
        TokModel::Slash => "Slash"@,
        TokModel::Caret => "Caret"@,
        TokModel::Amp => "Amp"@,
        TokModel::Eq => "Eq"@,
        TokModel::Dot => "Dot"@,
        TokModel::Colon => "Colon"@,
        TokModel::Comma => "Comma"@,
        TokModel::LParen => "LParen"@,
        TokModel::RParen => "RParen"@,
        TokModel::LBracket => "LBracket"@,
        TokModel::RBracket => "RBracket"@,
        TokModel::Newline => "Newline"@,
        TokModel::Eof => "Eof"@,
    }
}

/// `Name(payload)` for a token with a string payload.
fn payload_debug(name: &str, payload: &str) -> (s: String)
    ensures
        s@ == name@ + "("@ + str_debug_text(payload@) + ")"@,
{
    let d = str_debug(payload);
    let mut r = concat(name, "(");
    r.append(d.as_str());
    r.append(")");
    r
}

/// `Num(value)` for a number token.
fn num_tok_debug(x: &String) -> (s: String)
    ensures
        s@ == "Num("@ + num_debug_text(x@) + ")"@,
{
    let n = num_debug(x);
    let ns = string_of(n.as_slice());
    let mut r = String::from_str("Num(");
    r.append(ns.as_str());
    r.append(")");
    r
}

/// Formats a token as its `Debug` text (see [`tok_debug_text`]).
fn tok_debug(t: &Tok) -> (s: String)
    ensures
        s@ == tok_debug_text(t@),
{
    match t {
        Tok::Num(x) => {
            num_tok_debug(x)
        },
        Tok::Str(x) => {
            proof {
                reveal_strlit("Str");
                reveal_strlit("(");
                reveal_strlit("Str(");
                assert("Str"@ + "("@ =~= "Str("@);
            }
            payload_debug("Str", x.as_str())
        },
        Tok::Ident(x) => {
            proof {
                reveal_strlit("Ident");
                reveal_strlit("(");
                reveal_strlit("Ident(");
                assert("Ident"@ + "("@ =~= "Ident("@);
            }
            payload_debug("Ident", x.as_str())
        },
        Tok::True => String::from_str("True"),
        Tok::False => String::from_str("False"),
        Tok::Plus => String::from_str("Plus"),
        Tok::Minus => String::from_str("Minus"),
        Tok::Star => String::from_str("Star"),
        Tok::Slash => String::from_str("Slash"),
        Tok::Caret => String::from_str("Caret"),
        Tok::Amp => String::from_str("Amp"),
        Tok::Eq => String::from_str("Eq"),
        Tok::Dot => String::from_str("Dot"),
        Tok::Colon => String::from_str("Colon"),
        Tok::Comma => String::from_str("Comma"),
        Tok::LParen => String::from_str("LParen"),
        Tok::RParen => String::from_str("RParen"),
        Tok::LBracket => String::from_str("LBracket"),
        Tok::RBracket => String::from_str("RBracket"),
        Tok::Newline => String::from_str("Newline"),
        Tok::Eof => String::from_str("Eof"),
    }
}

pub type PResult<A> = Result<(A, nat), ErrorModel>;

/// The token at `p`; past the end, `Eof`.
pub open spec fn tk(t: Seq<TokenModel>, p: nat) -> TokModel {
    if p < t.len() {
        t[p as int].tok
    } else {
        TokModel::Eof
    }
}

/// The line of the token at `p`; past the end, that of the last token.
pub open spec fn ln(t: Seq<TokenModel>, p: nat) -> nat {
    if p < t.len() {
        t[p as int].line
    } else if t.len() > 0 {
        t[t.len() - 1].line
    } else {
        0
    }
}

pub open spec fn perr<A>(message: Seq<char>, line: nat) -> PResult<A> {
    Err(ErrorModel { message, line: Some(line) })
}

pub open spec fn found(t: Seq<TokenModel>, p: nat) -> Seq<char> {
    tok_debug_text(tk(t, p))
}

/// `{prefix}{tok:?}`: a message ending with the token found.
#[verifier::opaque]
pub open spec fn msg_found(prefix: Seq<char>, tok: TokModel) -> Seq<char> {
    prefix + tok_debug_text(tok)
}

/// `expected {what}, found {tok:?}`.
#[verifier::opaque]
pub open spec fn msg_expected(what: Seq<char>, tok: TokModel) -> Seq<char> {
    "expected "@ + what + ", found "@ + tok_debug_text(tok)
}

/// The message for a positional argument after a keyword argument.
#[verifier::opaque]
pub open spec fn msg_positional(tok: TokModel) -> Seq<char> {
    "positional argument after keyword argument"@ + positional_hint(tok)
}

pub open spec fn unreachable<A>() -> PResult<A> {
    Err(ErrorModel { message: Seq::empty(), line: None })
}

/// Consumes the token `want` at `p`.
pub open spec fn expect(t: Seq<TokenModel>, p: nat, want: TokModel, what: Seq<char>) -> Result<nat, ErrorModel> {
    if tk(t, p) == want {
        Ok(p + 1)
    } else {
        Err(ErrorModel {
            message: msg_expected(what, tk(t, p)),
            line: Some(ln(t, p)),
        })
    }
}

pub open spec fn is_ident(tok: TokModel) -> bool {
    tok is Ident
}

pub open spec fn binary(op: BinOp, lhs: ExprModel, rhs: ExprModel) -> ExprModel {
    ExprModel::Binary { op, lhs: Box::new(lhs), rhs: Box::new(rhs) }
}

pub open spec fn additive_op(tok: TokModel) -> Option<BinOp> {
    match tok {
        TokModel::Plus => Some(BinOp::Add),
        TokModel::Minus => Some(BinOp::Sub),
        _ => None,
    }
}

pub open spec fn multiplicative_op(tok: TokModel) -> Option<BinOp> {
    match tok {
        TokModel::Star => Some(BinOp::Mul),
        TokModel::Slash => Some(BinOp::Div),
        TokModel::Colon => Some(BinOp::Ddot),
        _ => None,
    }
}

pub type ArgsModel = (Seq<ExprModel>, Seq<(Seq<char>, ExprModel)>);

pub open spec fn positional_hint(tok: TokModel) -> Seq<char> {
    match tok {
        TokModel::Ident(name) => " (flags are written `"@ + name + "=true`, not bare `"@ + name
            + "`)"@,
        _ => Seq::empty(),
    }
}

/// Call arguments after `(`.
pub open spec fn p_call_args(t: Seq<TokenModel>, p: nat) -> PResult<ArgsModel>
    decreases t.len() - p, 21nat,
{
    if tk(t, p) == TokModel::RParen {
        Ok(((Seq::empty(), Seq::empty()), p + 1))
    } else {
        p_args_loop(t, p, Seq::empty(), Seq::empty())
    }
}

pub type ArgsStep = Result<(Seq<ExprModel>, Seq<(Seq<char>, ExprModel)>, nat), ErrorModel>;

/// One argument at `p`, appended to those read so far: `name = expr` is a
/// keyword argument; a positional argument after a keyword one is an error.
pub open spec fn p_one_arg(
    t: Seq<TokenModel>,
    p: nat,
    args: Seq<ExprModel>,
    kwargs: Seq<(Seq<char>, ExprModel)>,
) -> ArgsStep
    decreases t.len() - p, 19nat,
{
    if is_ident(tk(t, p)) && tk(t, p + 1) == TokModel::Eq {
        match p_expr(t, p + 2) {
            Ok((v, p1)) => Ok((args, kwargs.push((tk(t, p)->Ident_0, v)), p1)),
            Err(e) => Err(e),
        }
    } else if kwargs.len() > 0 {
        Err(ErrorModel {
            message: msg_positional(tk(t, p)),
            line: Some(ln(t, p)),
        })
    } else {
        match p_expr(t, p) {
            Ok((v, p1)) => Ok((args.push(v), kwargs, p1)),
            Err(e) => Err(e),
        }
    }
}

/// One argument at `p` and the separator after it, with the arguments read
/// so far.
pub open spec fn p_args_loop(
    t: Seq<TokenModel>,
    p: nat,
    args: Seq<ExprModel>,
    kwargs: Seq<(Seq<char>, ExprModel)>,
) -> PResult<ArgsModel>
    decreases t.len() - p, 20nat,
{
    match p_one_arg(t, p, args, kwargs) {
        Err(e) => Err(e),
        Ok((a, k, p1)) => {
            if p1 < p {
                unreachable()
            } else if tk(t, p1) == TokModel::Comma {
                p_args_loop(t, p1 + 1, a, k)
            } else if tk(t, p1) == TokModel::RParen {
                Ok(((a, k), p1 + 1))
            } else {
                perr(
                    msg_found("expected `,` or `)` in argument list, found "@, tk(t, p1)),
                    ln(t, p1 + 1),
                )
            }
        },
    }
}

pub open spec fn p_expr(t: Seq<TokenModel>, p: nat) -> PResult<ExprModel>
    decreases t.len() - p, 18nat,
{
    p_additive(t, p)
}

pub open spec fn p_additive(t: Seq<TokenModel>, p: nat) -> PResult<ExprModel>
    decreases t.len() - p, 17nat,
{
    match p_multiplicative(t, p) {
        Err(e) => Err(e),
        Ok((lhs, p1)) => if p1 < p || p1 > t.len() {
            unreachable()
        } else {
            p_additive_rest(t, p1, lhs)
        },
    }
}

pub open spec fn p_additive_rest(t: Seq<TokenModel>, p: nat, lhs: ExprModel) -> PResult<ExprModel>
    decreases t.len() - p, 16nat,
{
    match additive_op(tk(t, p)) {
        None => Ok((lhs, p)),
        Some(op) => match p_multiplicative(t, p + 1) {
            Err(e) => Err(e),
            Ok((rhs, p2)) => if p2 <= p || p2 > t.len() {
                unreachable()
            } else {
                p_additive_rest(t, p2, binary(op, lhs, rhs))
            },
        },
    }
}

pub open spec fn p_multiplicative(t: Seq<TokenModel>, p: nat) -> PResult<ExprModel>
    decreases t.len() - p, 15nat,
{
    match p_outer(t, p) {
        Err(e) => Err(e),
        Ok((lhs, p1)) => if p1 < p || p1 > t.len() {
            unreachable()
        } else {
            p_multiplicative_rest(t, p1, lhs)
        },
    }
}

pub open spec fn p_multiplicative_rest(t: Seq<TokenModel>, p: nat, lhs: ExprModel) -> PResult<ExprModel>
    decreases t.len() - p, 14nat,
{
    match multiplicative_op(tk(t, p)) {
        None => Ok((lhs, p)),
        Some(op) => match p_outer(t, p + 1) {
            Err(e) => Err(e),
            Ok((rhs, p2)) => if p2 <= p || p2 > t.len() {
                unreachable()
            } else {
                p_multiplicative_rest(t, p2, binary(op, lhs, rhs))
            },
        },
    }
}

pub open spec fn p_outer(t: Seq<TokenModel>, p: nat) -> PResult<ExprModel>
    decreases t.len() - p, 13nat,
{
    match p_unary(t, p) {
        Err(e) => Err(e),
        Ok((lhs, p1)) => if p1 < p || p1 > t.len() {
            unreachable()
        } else {
            p_outer_rest(t, p1, lhs)
        },
    }
}

pub open spec fn p_outer_rest(t: Seq<TokenModel>, p: nat, lhs: ExprModel) -> PResult<ExprModel>
    decreases t.len() - p, 12nat,
{
    if tk(t, p) == TokModel::Amp {
        match p_unary(t, p + 1) {
            Err(e) => Err(e),
            Ok((rhs, p2)) => if p2 <= p || p2 > t.len() {
                unreachable()
            } else {
                p_outer_rest(t, p2, binary(BinOp::Outer, lhs, rhs))
            },
        }
    } else {
        Ok((lhs, p))
    }
}

pub open spec fn p_unary(t: Seq<TokenModel>, p: nat) -> PResult<ExprModel>
    decreases t.len() - p, 11nat,
{
    if tk(t, p) == TokModel::Minus {
        match p_unary(t, p + 1) {
            Err(e) => Err(e),
            Ok((e, p1)) => Ok((ExprModel::Unary { op: UnOp::Neg, expr: Box::new(e) }, p1)),
        }
    } else {
        p_power(t, p)
    }
}

pub open spec fn p_power(t: Seq<TokenModel>, p: nat) -> PResult<ExprModel>
    decreases t.len() - p, 10nat,
{
    match p_postfix(t, p) {
        Err(e) => Err(e),
        Ok((base, p1)) => if p1 < p || p1 > t.len() {
            unreachable()
        } else if tk(t, p1) == TokModel::Caret {
            match p_unary(t, p1 + 1) {
                Err(e) => Err(e),
                Ok((exp, p2)) => Ok((binary(BinOp::Pow, base, exp), p2)),
            }
        } else {
            Ok((base, p1))
        },
    }
}

pub open spec fn p_postfix(t: Seq<TokenModel>, p: nat) -> PResult<ExprModel>
    decreases t.len() - p, 9nat,
{
    match p_primary(t, p) {
        Err(e) => Err(e),
        Ok((e, p1)) => if p1 < p || p1 > t.len() {
            unreachable()
        } else {
            p_postfix_rest(t, p1, e)
        },
    }
}

pub open spec fn p_postfix_rest(t: Seq<TokenModel>, p: nat, e: ExprModel) -> PResult<ExprModel>
    decreases t.len() - p, 8nat,
{
    if tk(t, p) == TokModel::Dot {
        match tk(t, p + 1) {
            TokModel::Ident(name) => p_postfix_rest(
                t,
                p + 2,
                ExprModel::Field { target: Box::new(e), name },
            ),
            _ => perr(
                msg_found("expected property name after `.`, found "@, tk(t, p + 1)),
                ln(t, p + 2),
            ),
        }
    } else if tk(t, p) == TokModel::LBracket {
        match p_expr(t, p + 1) {
            Err(err) => Err(err),
            Ok((index, p1)) => if p1 <= p || p1 > t.len() {
                unreachable()
            } else {
                match expect(t, p1, TokModel::RBracket, "`]`"@) {
                    Err(err) => Err(err),
                    Ok(p2) => p_postfix_rest(
                        t,
                        p2,
                        ExprModel::Index { target: Box::new(e), index: Box::new(index) },
                    ),
                }
            },
        }
    } else {
        Ok((e, p))
    }
}

pub open spec fn p_primary(t: Seq<TokenModel>, p: nat) -> PResult<ExprModel>
    decreases t.len() - p, 7nat,
{
    match tk(t, p) {
        TokModel::Num(n) => Ok((ExprModel::Num(n), p + 1)),
        TokModel::Str(s) => Ok((ExprModel::Str(s), p + 1)),
        TokModel::True => Ok((ExprModel::Bool(true), p + 1)),
        TokModel::False => Ok((ExprModel::Bool(false), p + 1)),
        TokModel::Ident(name) => if tk(t, p + 1) == TokModel::LParen {
            match p_call_args(t, p + 2) {
                Err(e) => Err(e),
                Ok(((args, kwargs), p1)) => Ok((ExprModel::Call { callee: name, args, kwargs }, p1)),
            }
        } else {
            Ok((ExprModel::Ident(name), p + 1))
        },
        TokModel::LParen => match p_expr(t, p + 1) {
            Err(e) => Err(e),
            Ok((e, p1)) => if p1 <= p || p1 > t.len() {
                unreachable()
            } else {
                match expect(t, p1, TokModel::RParen, "`)`"@) {
                    Err(err) => Err(err),
                    Ok(p2) => Ok((e, p2)),
                }
            },
        },
        _ => perr(msg_found("unexpected token "@, tk(t, p)), ln(t, p)),
    }
}

} // verus!

verus! {

pub open spec fn set_name_error<A>(t: Seq<TokenModel>, p: nat, line: nat) -> PResult<A> {
    perr(msg_found("expected a set name in `[a, b] = ...`, found "@, tk(t, p)), line)
}

/// `[a, b] = expr`, the `[` being at `p`.
pub open spec fn p_pair_assignment(t: Seq<TokenModel>, p: nat, line: nat) -> PResult<StmtModel> {
    match tk(t, p + 1) {
        TokModel::Ident(first) => match expect(t, p + 2, TokModel::Comma, "`,`"@) {
            Err(e) => Err(e),
            Ok(p3) => match tk(t, p3) {
                TokModel::Ident(second) => match expect(t, p3 + 1, TokModel::RBracket, "`]`"@) {
                    Err(e) => Err(e),
                    Ok(p5) => match expect(t, p5, TokModel::Eq, "`=`"@) {
                        Err(e) => Err(e),
                        Ok(p6) => match p_expr(t, p6) {
                            Err(e) => Err(e),
                            Ok((expr, p7)) => Ok(
                                (StmtModel::AssignPair { first, second, expr, line, block: 0 }, p7),
                            ),
                        },
                    },
                },
                _ => set_name_error(t, p3, line),
            },
        },
        _ => set_name_error(t, p + 1, line),
    }
}

/// The `[expr]` groups of a component assignment, from `p` on.
pub open spec fn p_index_groups(t: Seq<TokenModel>, p: nat, acc: Seq<ExprModel>) -> PResult<Seq<ExprModel>>
    decreases t.len() - p,
{
    if tk(t, p) == TokModel::LBracket {
        match p_expr(t, p + 1) {
            Err(e) => Err(e),
            Ok((ix, p1)) => if p1 <= p || p1 > t.len() {
                unreachable()
            } else {
                match expect(t, p1, TokModel::RBracket, "`]`"@) {
                    Err(e) => Err(e),
                    Ok(p2) => p_index_groups(t, p2, acc.push(ix)),
                }
            },
        }
    } else {
        Ok((acc, p))
    }
}

/// `name[..]..[..] = expr`, the name being at `p`; `None` when the index
/// groups are not followed by `=` (the statement is then an expression).
pub open spec fn p_component_assignment(t: Seq<TokenModel>, p: nat, name: Seq<char>, line: nat) -> PResult<
    Option<StmtModel>,
> {
    match p_index_groups(t, p + 1, Seq::empty()) {
        Err(e) => Err(e),
        Ok((indices, q)) => if tk(t, q) != TokModel::Eq {
            Ok((None, q))
        } else {
            match p_expr(t, q + 1) {
                Err(e) => Err(e),
                Ok((expr, q1)) => Ok(
                    (Some(StmtModel::AssignComponent { name, indices, expr, line, block: 0 }), q1),
                ),
            }
        },
    }
}

pub open spec fn p_expr_statement(t: Seq<TokenModel>, p: nat, line: nat) -> PResult<StmtModel> {
    match p_expr(t, p) {
        Err(e) => Err(e),
        Ok((e, p1)) => Ok((StmtModel::Expr(e, line, 0), p1)),
    }
}

pub open spec fn p_statement(t: Seq<TokenModel>, p: nat) -> PResult<StmtModel> {
    let line = ln(t, p);
    if tk(t, p) == TokModel::LBracket {
        p_pair_assignment(t, p, line)
    } else if is_ident(tk(t, p)) && tk(t, p + 1) == TokModel::Eq {
        match p_expr(t, p + 2) {
            Err(e) => Err(e),
            Ok((expr, p1)) => Ok(
                (StmtModel::Assign { name: tk(t, p)->Ident_0, expr, line, block: 0 }, p1),
            ),
        }
    } else if is_ident(tk(t, p)) && tk(t, p + 1) == TokModel::LBracket {
        match p_component_assignment(t, p, tk(t, p)->Ident_0, line) {
            Err(e) => Err(e),
            Ok((Some(s), p1)) => Ok((s, p1)),
            Ok((None, _)) => p_expr_statement(t, p, line),
        }
    } else {
        p_expr_statement(t, p, line)
    }
}

/// First position at or after `p` that is not a newline.
pub open spec fn skip_newlines(t: Seq<TokenModel>, p: nat) -> nat
    decreases t.len() - p,
{
    if tk(t, p) == TokModel::Newline {
        skip_newlines(t, p + 1)
    } else {
        p
    }
}

pub proof fn lemma_skip_newlines(t: Seq<TokenModel>, p: nat)
    requires
        p <= t.len(),
    ensures
        p <= skip_newlines(t, p) <= t.len(),
        tk(t, skip_newlines(t, p)) != TokModel::Newline,
    decreases t.len() - p,
{
    if tk(t, p) == TokModel::Newline {
        lemma_skip_newlines(t, p + 1);
    }
}

/// The statements from `p` on, after those already read.
pub open spec fn p_program(t: Seq<TokenModel>, p: nat, acc: Seq<StmtModel>) -> Result<Seq<StmtModel>, ErrorModel>
    decreases t.len() - p,
{
    if p > t.len() {
        Err(ErrorModel { message: Seq::empty(), line: None })
    } else {
        proof {
            lemma_skip_newlines(t, p);
        }
        let q = skip_newlines(t, p);
        if tk(t, q) == TokModel::Eof {
            Ok(acc)
        } else {
            match p_statement(t, q) {
                Err(e) => Err(e),
                Ok((s, q1)) => if q1 <= q || q1 > t.len() {
                    Err(ErrorModel { message: Seq::empty(), line: None })
                } else if tk(t, q1) == TokModel::Newline || tk(t, q1) == TokModel::Eof {
                    p_program(t, q1, acc.push(s))
                } else {
                    Err(ErrorModel {
                        message: msg_found("unexpected token after statement: "@, tk(t, q1)),
                        line: Some(ln(t, q1)),
                    })
                },
            }
        }
    }
}

/// The statements of a source text: note blocks are blanked, the rest is
/// tokenized and parsed.
pub open spec fn parse_spec(src: Seq<char>) -> Result<Seq<StmtModel>, ErrorModel> {
    match strip_spec(src) {
        Err(e) => Err(e),
        Ok(code) => match lex_spec(code) {
            Err(e) => Err(e),
            Ok(toks) => p_program(toks, 0, Seq::empty()),
        },
    }
}

} // verus!

verus! {

/// A token stream the parser can run on: it ends with `Eof`.
pub open spec fn tokens_wf(toks: Seq<Token>) -> bool {
    toks.len() >= 1 && toks[toks.len() - 1].tok is Eof
}

pub open spec fn tv(toks: &Vec<Token>) -> Seq<TokenModel> {
    tokens_view(toks@)
}

fn clone_tok(t: &Tok) -> (r: Tok)
    ensures
        r@ == t@,
{
    match t {
        Tok::Num(s) => Tok::Num(s.clone()),
        Tok::Str(s) => Tok::Str(s.clone()),
        Tok::Ident(s) => Tok::Ident(s.clone()),
        Tok::True => Tok::True,
        Tok::False => Tok::False,
        Tok::Plus => Tok::Plus,
        Tok::Minus => Tok::Minus,
        Tok::Star => Tok::Star,
        Tok::Slash => Tok::Slash,
        Tok::Caret => Tok::Caret,
        Tok::Amp => Tok::Amp,
        Tok::Eq => Tok::Eq,
        Tok::Dot => Tok::Dot,
        Tok::Colon => Tok::Colon,
        Tok::Comma => Tok::Comma,
        Tok::LParen => Tok::LParen,
        Tok::RParen => Tok::RParen,
        Tok::LBracket => Tok::LBracket,
        Tok::RBracket => Tok::RBracket,
        Tok::Newline => Tok::Newline,
        Tok::Eof => Tok::Eof,
    }
}

/// The token at `p` (which is in range).
fn tok_at(toks: &Vec<Token>, p: usize) -> (r: &Tok)
    requires
        p < toks@.len(),
    ensures
        r@ == tk(tv(toks), p as nat),
{
    &toks[p].tok
}

/// The line of the token at `p`, or of the last token past the end.
fn line_at(toks: &Vec<Token>, p: usize) -> (r: usize)
    requires
        toks@.len() >= 1,
    ensures
        r as nat == ln(tv(toks), p as nat),
{
    if p < toks.len() {
        toks[p].line
    } else {
        toks[toks.len() - 1].line
    }
}

fn is_tok(t: &Tok, want: &Tok) -> (r: bool)
    requires
        !(want@ is Num) && !(want@ is Str) && !(want@ is Ident),
    ensures
        r == (t@ == want@),
{
    match (t, want) {
        (Tok::True, Tok::True) | (Tok::False, Tok::False) | (Tok::Plus, Tok::Plus) | (
            Tok::Minus,
            Tok::Minus,
        ) | (Tok::Star, Tok::Star) | (Tok::Slash, Tok::Slash) | (Tok::Caret, Tok::Caret) | (
            Tok::Amp,
            Tok::Amp,
        ) | (Tok::Eq, Tok::Eq) | (Tok::Dot, Tok::Dot) | (Tok::Colon, Tok::Colon) | (
            Tok::Comma,
            Tok::Comma,
        ) | (Tok::LParen, Tok::LParen) | (Tok::RParen, Tok::RParen) | (
            Tok::LBracket,
            Tok::LBracket,
        ) | (Tok::RBracket, Tok::RBracket) | (Tok::Newline, Tok::Newline) | (Tok::Eof, Tok::Eof) => true,
        _ => false,
    }
}

/// `prefix` followed by `rest`.
fn concat(prefix: &str, rest: &str) -> (s: String)
    ensures
        s@ == prefix@ + rest@,
{
    let mut s = String::from_str(prefix);
    s.append(rest);
    s
}

fn hint_text(t: &Tok) -> (s: String)
    ensures
        s@ == positional_hint(t@),
{
    match t {
        Tok::Ident(name) => {
            let mut hint = concat(" (flags are written `", name.as_str());
            hint.append("=true`, not bare `");
            hint.append(name.as_str());
            hint.append("`)");
            hint
        },
        _ => String::new(),
    }
}

fn found_msg(prefix: &str, t: &Tok) -> (s: String)
    ensures
        s@ == msg_found(prefix@, t@),
{
    proof {
        reveal(msg_found);
    }
    let d = tok_debug(t);
    concat(prefix, d.as_str())
}

fn expected_msg(what: &str, t: &Tok) -> (s: String)
    ensures
        s@ == msg_expected(what@, t@),
{
    proof {
        reveal(msg_expected);
    }
    let mut message = concat("expected ", what);
    message.append(", found ");
    let d = tok_debug(t);
    message.append(d.as_str());
    message
}

fn positional_msg(t: &Tok) -> (s: String)
    ensures
        s@ == msg_positional(t@),
{
    proof {
        reveal(msg_positional);
    }
    let hint = hint_text(t);
    concat("positional argument after keyword argument", hint.as_str())
}

fn error_at(message: String, line: usize) -> (e: Error)
    ensures
        e@ == (ErrorModel { message: message@, line: Some(line as nat) }),
{
    Error::new(message, Some(line))
}

/// `expected {what}, found {tok:?}` at the token's line.
fn expect_tok(toks: &Vec<Token>, p: usize, want: &Tok, what: &str) -> (r: Result<usize, Error>)
    requires
        tokens_wf(toks@),
        p < toks@.len(),
        !(want@ is Num) && !(want@ is Str) && !(want@ is Ident) && !(want@ is Eof),
    ensures
        match r {
            Ok(p1) => expect(tv(toks), p as nat, want@, what@) == Ok::<nat, ErrorModel>(p1 as nat)
                && p < p1 < toks@.len(),
            Err(e) => expect(tv(toks), p as nat, want@, what@) == Err::<nat, ErrorModel>(e@),
        },
{
    let t = tok_at(toks, p);
    let _n = toks.len();
    if is_tok(t, want) {
        proof {
            lemma_not_last(toks@, p as nat);
        }
        Ok(p + 1)
    } else {
        Err(error_at(expected_msg(what, t), line_at(toks, p)))
    }
}

/// A well-formed token stream ends with `Eof`, so a token that is not
/// `Eof` is followed by another.
proof fn lemma_not_last(toks: Seq<Token>, p: nat)
    requires
        tokens_wf(toks),
        p < toks.len(),
        !(tokens_view(toks)[p as int].tok is Eof),
    ensures
        p + 1 < toks.len(),
{
}

} // verus!

verus! {

pub type ArgsExec = (Vec<Expr>, Vec<(String, Expr)>);

/// Whether the argument at `p` is written `name = value`.
pub open spec fn is_kwarg_at(t: Seq<TokenModel>, p: nat) -> bool {
    is_ident(tk(t, p)) && tk(t, p + 1) == TokModel::Eq
}

/// One call argument at `q`: `Some(name)` and its value for `name = value`,
/// else `None` and the positional value. A positional argument after a
/// keyword argument (`after_kwarg`) is refused.
#[verifier::spinoff_prover]
#[verifier::rlimit(50)]
fn parse_one_arg(toks: &Vec<Token>, q: usize, after_kwarg: bool) -> (r: Result<(Option<String>, Expr, usize), Error>)
    requires
        tokens_wf(toks@),
        q < toks@.len(),
    ensures
        match r {
            Ok((name, v, q1)) => q < q1 < toks@.len() && match name {
                Some(n) => is_kwarg_at(tv(toks), q as nat) && n@ == tk(tv(toks), q as nat)->Ident_0
                    && p_expr(tv(toks), (q + 2) as nat) == Ok::<(ExprModel, nat), ErrorModel>((v@, q1 as nat)),
                None => !is_kwarg_at(tv(toks), q as nat) && !after_kwarg && p_expr(tv(toks), q as nat)
                    == Ok::<(ExprModel, nat), ErrorModel>((v@, q1 as nat)),
            },
            Err(e) => if is_kwarg_at(tv(toks), q as nat) {
                p_expr(tv(toks), (q + 2) as nat) == Err::<(ExprModel, nat), ErrorModel>(e@)
            } else if after_kwarg {
                e@ == (ErrorModel {
                    message: msg_positional(tk(tv(toks), q as nat)),
                    line: Some(ln(tv(toks), q as nat)),
                })
            } else {
                p_expr(tv(toks), q as nat) == Err::<(ExprModel, nat), ErrorModel>(e@)
            },
        },
    decreases toks@.len() - q, 19nat,
{
    let _n = toks.len();
    let is_kwarg = match tok_at(toks, q) {
        Tok::Ident(_) => {
            proof {
                lemma_not_last(toks@, q as nat);
            }
            is_tok(tok_at(toks, q + 1), &Tok::Eq)
        },
        _ => false,
    };
    if is_kwarg {
        let name = match tok_at(toks, q) {
            Tok::Ident(name) => name.clone(),
            _ => String::new(),
        };
        proof {
            lemma_not_last(toks@, (q + 1) as nat);
        }
        match parse_expr(toks, q + 2) {
            Err(e) => Err(e),
            Ok((v, qq)) => Ok((Some(name), v, qq)),
        }
    } else if after_kwarg {
        let message = positional_msg(tok_at(toks, q));
        Err(error_at(message, line_at(toks, q)))
    } else {
        match parse_expr(toks, q) {
            Err(e) => Err(e),
            Ok((v, qq)) => Ok((None, v, qq)),
        }
    }
}

/// Adds the argument read at `q` to the positional or keyword list.
#[verifier::spinoff_prover]
#[verifier::rlimit(50)]
fn record_arg(
    toks: &Vec<Token>,
    q: usize,
    args: &mut Vec<Expr>,
    kwargs: &mut Vec<(String, Expr)>,
    res: Result<(Option<String>, Expr, usize), Error>,
) -> (r: Result<usize, Error>)
    requires
        tokens_wf(toks@),
        q < toks@.len(),
        match res {
            Ok((name, v, q1)) => q < q1 < toks@.len() && match name {
                Some(n) => is_kwarg_at(tv(toks), q as nat) && n@ == tk(tv(toks), q as nat)->Ident_0
                    && p_expr(tv(toks), (q + 2) as nat) == Ok::<(ExprModel, nat), ErrorModel>((v@, q1 as nat)),
                None => !is_kwarg_at(tv(toks), q as nat) && old(kwargs)@.len() == 0 && p_expr(tv(toks), q as nat)
                    == Ok::<(ExprModel, nat), ErrorModel>((v@, q1 as nat)),
            },
            Err(e) => if is_kwarg_at(tv(toks), q as nat) {
                p_expr(tv(toks), (q + 2) as nat) == Err::<(ExprModel, nat), ErrorModel>(e@)
            } else if old(kwargs)@.len() > 0 {
                e@ == (ErrorModel {
                    message: msg_positional(tk(tv(toks), q as nat)),
                    line: Some(ln(tv(toks), q as nat)),
                })
            } else {
                p_expr(tv(toks), q as nat) == Err::<(ExprModel, nat), ErrorModel>(e@)
            },
        },
    ensures
        match r {
            Ok(q1) => p_one_arg(tv(toks), q as nat, exprs_model(old(args)@), kwargs_model(old(kwargs)@))
                == Ok::<(Seq<ExprModel>, Seq<(Seq<char>, ExprModel)>, nat), ErrorModel>(
                (exprs_model(final(args)@), kwargs_model(final(kwargs)@), q1 as nat),
            ) && q < q1 < toks@.len(),
            Err(e) => p_one_arg(tv(toks), q as nat, exprs_model(old(args)@), kwargs_model(old(kwargs)@))
                == Err::<(Seq<ExprModel>, Seq<(Seq<char>, ExprModel)>, nat), ErrorModel>(e@),
        },
{
    let ghost a0 = args@;
    let ghost k0 = kwargs@;
    proof {
        lemma_kwargs_model_index(k0);
    }
    match res {
        Err(e) => Err(e),
        Ok((Some(name), v, qq)) => {
            proof {
                lemma_kwargs_model_push(k0, (name, v));
            }
            kwargs.push((name, v));
            Ok(qq)
        },
        Ok((None, v, qq)) => {
            proof {
                lemma_exprs_model_push(a0, v);
            }
            args.push(v);
            Ok(qq)
        },
    }
}

#[verifier::spinoff_prover]
#[verifier::rlimit(50)]
fn parse_call_args(toks: &Vec<Token>, p: usize) -> (r: Result<(ArgsExec, usize), Error>)
    requires
        tokens_wf(toks@),
        p < toks@.len(),
    ensures
        match r {
            Ok(((a, k), p1)) => p_call_args(tv(toks), p as nat) == Ok::<(ArgsModel, nat), ErrorModel>(
                ((exprs_model(a@), kwargs_model(k@)), p1 as nat),
            ) && p < p1 < toks@.len(),
            Err(e) => p_call_args(tv(toks), p as nat) == Err::<(ArgsModel, nat), ErrorModel>(e@),
        },
    decreases toks@.len() - p, 21nat,
{
    let _n = toks.len();
    let args: Vec<Expr> = Vec::new();
    let kwargs: Vec<(String, Expr)> = Vec::new();
    proof {
        lemma_exprs_model_empty(args@);
        lemma_kwargs_model_empty(kwargs@);
    }
    if is_tok(tok_at(toks, p), &Tok::RParen) {
        proof {
            lemma_not_last(toks@, p as nat);
        }
        return Ok(((args, kwargs), p + 1));
    }
    parse_args_loop(toks, p, args, kwargs)
}

#[verifier::spinoff_prover]
#[verifier::rlimit(50)]
fn parse_args_loop(toks: &Vec<Token>, q: usize, args: Vec<Expr>, kwargs: Vec<(String, Expr)>) -> (r: Result<(ArgsExec, usize), Error>)
    requires
        tokens_wf(toks@),
        q < toks@.len(),
    ensures
        match r {
            Ok(((a, k), p1)) => p_args_loop(tv(toks), q as nat, exprs_model(args@), kwargs_model(kwargs@))
                == Ok::<(ArgsModel, nat), ErrorModel>(
                ((exprs_model(a@), kwargs_model(k@)), p1 as nat),
            ) && q < p1 < toks@.len(),
            Err(e) => p_args_loop(tv(toks), q as nat, exprs_model(args@), kwargs_model(kwargs@))
                == Err::<(ArgsModel, nat), ErrorModel>(e@),
        },
    decreases toks@.len() - q, 20nat,
{
    let _n = toks.len();
    let mut args = args;
    let mut kwargs = kwargs;
    let res = parse_one_arg(toks, q, kwargs.len() > 0);
    let q1 = match record_arg(toks, q, &mut args, &mut kwargs, res) {
        Err(e) => return Err(e),
        Ok(x) => x,
    };
    let sep = tok_at(toks, q1);
    if is_tok(sep, &Tok::Comma) {
        proof {
            lemma_not_last(toks@, q1 as nat);
        }
        parse_args_loop(toks, q1 + 1, args, kwargs)
    } else if is_tok(sep, &Tok::RParen) {
        proof {
            lemma_not_last(toks@, q1 as nat);
        }
        Ok(((args, kwargs), q1 + 1))
    } else {
        let message = found_msg("expected `,` or `)` in argument list, found ", sep);
        Err(error_at(message, line_at(toks, q1 + 1)))
    }
}

#[verifier::spinoff_prover]
#[verifier::rlimit(50)]
fn parse_expr(toks: &Vec<Token>, p: usize) -> (r: Result<(Expr, usize), Error>)
    requires
        tokens_wf(toks@),
        p < toks@.len(),
    ensures
        match r {
            Ok((e, p1)) => p_expr(tv(toks), p as nat) == Ok::<(ExprModel, nat), ErrorModel>(
                (e@, p1 as nat),
            ) && p < p1 < toks@.len(),
            Err(err) => p_expr(tv(toks), p as nat) == Err::<(ExprModel, nat), ErrorModel>(err@),
        },
    decreases toks@.len() - p, 18nat,
{
    parse_additive(toks, p)
}

#[verifier::spinoff_prover]
#[verifier::rlimit(50)]
fn parse_additive(toks: &Vec<Token>, p: usize) -> (r: Result<(Expr, usize), Error>)
    requires
        tokens_wf(toks@),
        p < toks@.len(),
    ensures
        match r {
            Ok((e, p1)) => p_additive(tv(toks), p as nat) == Ok::<(ExprModel, nat), ErrorModel>(
                (e@, p1 as nat),
            ) && p < p1 < toks@.len(),
            Err(err) => p_additive(tv(toks), p as nat) == Err::<(ExprModel, nat), ErrorModel>(err@),
        },
    decreases toks@.len() - p, 17nat,
{
    let (mut lhs, mut q) = match parse_multiplicative(toks, p) {
        Err(e) => return Err(e),
        Ok(x) => x,
    };
    let n = toks.len();
    loop
        invariant
            tokens_wf(toks@),
            n == toks@.len(),
            p < q < toks@.len(),
            p_additive(tv(toks), p as nat) == p_additive_rest(tv(toks), q as nat, lhs@),
        decreases toks@.len() - q,
    {
        let op = match tok_at(toks, q) {
            Tok::Plus => BinOp::Add,
            Tok::Minus => BinOp::Sub,
            _ => return Ok((lhs, q)),
        };
        proof {
            lemma_not_last(toks@, q as nat);
        }
        match parse_multiplicative(toks, q + 1) {
            Err(e) => return Err(e),
            Ok((rhs, q2)) => {
                lhs = Expr::Binary { op, lhs: Box::new(lhs), rhs: Box::new(rhs) };
                q = q2;
            },
        }
    }
}

#[verifier::spinoff_prover]
#[verifier::rlimit(50)]
fn parse_multiplicative(toks: &Vec<Token>, p: usize) -> (r: Result<(Expr, usize), Error>)
    requires
        tokens_wf(toks@),
        p < toks@.len(),
    ensures
        match r {
            Ok((e, p1)) => p_multiplicative(tv(toks), p as nat) == Ok::<(ExprModel, nat), ErrorModel>(
                (e@, p1 as nat),
            ) && p < p1 < toks@.len(),
            Err(err) => p_multiplicative(tv(toks), p as nat) == Err::<(ExprModel, nat), ErrorModel>(
                err@,
            ),
        },
    decreases toks@.len() - p, 15nat,
{
    let (mut lhs, mut q) = match parse_outer(toks, p) {
        Err(e) => return Err(e),
        Ok(x) => x,
    };
    let n = toks.len();
    loop
        invariant
            tokens_wf(toks@),
            n == toks@.len(),
            p < q < toks@.len(),
            p_multiplicative(tv(toks), p as nat) == p_multiplicative_rest(tv(toks), q as nat, lhs@),
        decreases toks@.len() - q,
    {
        let op = match tok_at(toks, q) {
            Tok::Star => BinOp::Mul,
            Tok::Slash => BinOp::Div,
            Tok::Colon => BinOp::Ddot,
            _ => return Ok((lhs, q)),
        };
        proof {
            lemma_not_last(toks@, q as nat);
        }
        match parse_outer(toks, q + 1) {
            Err(e) => return Err(e),
            Ok((rhs, q2)) => {
                lhs = Expr::Binary { op, lhs: Box::new(lhs), rhs: Box::new(rhs) };
                q = q2;
            },
        }
    }
}

#[verifier::spinoff_prover]
#[verifier::rlimit(50)]
fn parse_outer(toks: &Vec<Token>, p: usize) -> (r: Result<(Expr, usize), Error>)
    requires
        tokens_wf(toks@),
        p < toks@.len(),
    ensures
        match r {
            Ok((e, p1)) => p_outer(tv(toks), p as nat) == Ok::<(ExprModel, nat), ErrorModel>(
                (e@, p1 as nat),
            ) && p < p1 < toks@.len(),
            Err(err) => p_outer(tv(toks), p as nat) == Err::<(ExprModel, nat), ErrorModel>(err@),
        },
    decreases toks@.len() - p, 13nat,
{
    let (mut lhs, mut q) = match parse_unary(toks, p) {
        Err(e) => return Err(e),
        Ok(x) => x,
    };
    let n = toks.len();
    loop
        invariant
            tokens_wf(toks@),
            n == toks@.len(),
            p < q < toks@.len(),
            p_outer(tv(toks), p as nat) == p_outer_rest(tv(toks), q as nat, lhs@),
        decreases toks@.len() - q,
    {
        if !is_tok(tok_at(toks, q), &Tok::Amp) {
            return Ok((lhs, q));
        }
        proof {
            lemma_not_last(toks@, q as nat);
        }
        match parse_unary(toks, q + 1) {
            Err(e) => return Err(e),
            Ok((rhs, q2)) => {
                lhs = Expr::Binary { op: BinOp::Outer, lhs: Box::new(lhs), rhs: Box::new(rhs) };
                q = q2;
            },
        }
    }
}

#[verifier::spinoff_prover]
#[verifier::rlimit(50)]
fn parse_unary(toks: &Vec<Token>, p: usize) -> (r: Result<(Expr, usize), Error>)
    requires
        tokens_wf(toks@),
        p < toks@.len(),
    ensures
        match r {
            Ok((e, p1)) => p_unary(tv(toks), p as nat) == Ok::<(ExprModel, nat), ErrorModel>(
                (e@, p1 as nat),
            ) && p < p1 < toks@.len(),
            Err(err) => p_unary(tv(toks), p as nat) == Err::<(ExprModel, nat), ErrorModel>(err@),
        },
    decreases toks@.len() - p, 11nat,
{
    let _n = toks.len();
    if is_tok(tok_at(toks, p), &Tok::Minus) {
        proof {
            lemma_not_last(toks@, p as nat);
        }
        match parse_unary(toks, p + 1) {
            Err(e) => Err(e),
            Ok((e, p1)) => Ok((Expr::Unary { op: UnOp::Neg, expr: Box::new(e) }, p1)),
        }
    } else {
        parse_power(toks, p)
    }
}

#[verifier::spinoff_prover]
#[verifier::rlimit(50)]
fn parse_power(toks: &Vec<Token>, p: usize) -> (r: Result<(Expr, usize), Error>)
    requires
        tokens_wf(toks@),
        p < toks@.len(),
    ensures
        match r {
            Ok((e, p1)) => p_power(tv(toks), p as nat) == Ok::<(ExprModel, nat), ErrorModel>(
                (e@, p1 as nat),
            ) && p < p1 < toks@.len(),
            Err(err) => p_power(tv(toks), p as nat) == Err::<(ExprModel, nat), ErrorModel>(err@),
        },
    decreases toks@.len() - p, 10nat,
{
    let _n = toks.len();
    let (base, p1) = match parse_postfix(toks, p) {
        Err(e) => return Err(e),
        Ok(x) => x,
    };
    if is_tok(tok_at(toks, p1), &Tok::Caret) {
        proof {
            lemma_not_last(toks@, p1 as nat);
        }
        match parse_unary(toks, p1 + 1) {
            Err(e) => Err(e),
            Ok((exp, p2)) => Ok(
                (Expr::Binary { op: BinOp::Pow, lhs: Box::new(base), rhs: Box::new(exp) }, p2),
            ),
        }
    } else {
        Ok((base, p1))
    }
}

#[verifier::spinoff_prover]
#[verifier::rlimit(50)]
fn parse_postfix(toks: &Vec<Token>, p: usize) -> (r: Result<(Expr, usize), Error>)
    requires
        tokens_wf(toks@),
        p < toks@.len(),
    ensures
        match r {
            Ok((e, p1)) => p_postfix(tv(toks), p as nat) == Ok::<(ExprModel, nat), ErrorModel>(
                (e@, p1 as nat),
            ) && p < p1 < toks@.len(),
            Err(err) => p_postfix(tv(toks), p as nat) == Err::<(ExprModel, nat), ErrorModel>(err@),
        },
    decreases toks@.len() - p, 9nat,
{
    let (mut e, mut q) = match parse_primary(toks, p) {
        Err(err) => return Err(err),
        Ok(x) => x,
    };
    let n = toks.len();
    loop
        invariant
            tokens_wf(toks@),
            n == toks@.len(),
            p < q < toks@.len(),
            p_postfix(tv(toks), p as nat) == p_postfix_rest(tv(toks), q as nat, e@),
        decreases toks@.len() - q,
    {
        let t = tok_at(toks, q);
        if is_tok(t, &Tok::Dot) {
            proof {
                lemma_not_last(toks@, q as nat);
            }
            match tok_at(toks, q + 1) {
                Tok::Ident(name) => {
                    proof {
                        lemma_not_last(toks@, (q + 1) as nat);
                    }
                    e = Expr::Field { target: Box::new(e), name: name.clone() };
                    q = q + 2;
                },
                other => {
                    let message = found_msg("expected property name after `.`, found ", other);
                    return Err(error_at(message, line_at(toks, q + 2)));
                },
            }
        } else if is_tok(t, &Tok::LBracket) {
            proof {
                lemma_not_last(toks@, q as nat);
            }
            let (index, q1) = match parse_expr(toks, q + 1) {
                Err(err) => return Err(err),
                Ok(x) => x,
            };
            let q2 = match expect_tok(toks, q1, &Tok::RBracket, "`]`") {
                Err(err) => return Err(err),
                Ok(x) => x,
            };
            e = Expr::Index { target: Box::new(e), index: Box::new(index) };
            q = q2;
        } else {
            return Ok((e, q));
        }
    }
}

#[verifier::spinoff_prover]
#[verifier::rlimit(50)]
fn parse_primary(toks: &Vec<Token>, p: usize) -> (r: Result<(Expr, usize), Error>)
    requires
        tokens_wf(toks@),
        p < toks@.len(),
    ensures
        match r {
            Ok((e, p1)) => p_primary(tv(toks), p as nat) == Ok::<(ExprModel, nat), ErrorModel>(
                (e@, p1 as nat),
            ) && p < p1 < toks@.len(),
            Err(err) => p_primary(tv(toks), p as nat) == Err::<(ExprModel, nat), ErrorModel>(err@),
        },
    decreases toks@.len() - p, 7nat,
{
    let n = toks.len();
    let t = tok_at(toks, p);
    match t {
        Tok::Num(s) => {
            proof {
                lemma_not_last(toks@, p as nat);
            }
            Ok((Expr::Num(s.clone()), p + 1))
        },
        Tok::Str(s) => {
            proof {
                lemma_not_last(toks@, p as nat);
            }
            Ok((Expr::Str(s.clone()), p + 1))
        },
        Tok::True => {
            proof {
                lemma_not_last(toks@, p as nat);
            }
            Ok((Expr::Bool(true), p + 1))
        },
        Tok::False => {
            proof {
                lemma_not_last(toks@, p as nat);
            }
            Ok((Expr::Bool(false), p + 1))
        },
        Tok::Ident(name) => {
            proof {
                lemma_not_last(toks@, p as nat);
            }
            if is_tok(tok_at(toks, p + 1), &Tok::LParen) {
                proof {
                    lemma_not_last(toks@, (p + 1) as nat);
                }
                match parse_call_args(toks, p + 2) {
                    Err(e) => Err(e),
                    Ok(((args, kwargs), p1)) => Ok(
                        (Expr::Call { callee: name.clone(), args, kwargs }, p1),
                    ),
                }
            } else {
                Ok((Expr::Ident(name.clone()), p + 1))
            }
        },
        Tok::LParen => {
            proof {
                lemma_not_last(toks@, p as nat);
            }
            let (e, p1) = match parse_expr(toks, p + 1) {
                Err(err) => return Err(err),
                Ok(x) => x,
            };
            match expect_tok(toks, p1, &Tok::RParen, "`)`") {
                Err(err) => Err(err),
                Ok(p2) => Ok((e, p2)),
            }
        },
        _ => {
            let message = found_msg("unexpected token ", t);
            Err(error_at(message, line_at(toks, p)))
        },
    }
}

} // verus!

verus! {

#[verifier::spinoff_prover]
fn parse_pair_assignment(toks: &Vec<Token>, p: usize, line: usize) -> (r: Result<(Stmt, usize), Error>)
    requires
        tokens_wf(toks@),
        p < toks@.len(),
        tk(tv(toks), p as nat) == TokModel::LBracket,
    ensures
        match r {
            Ok((st, p1)) => p_pair_assignment(tv(toks), p as nat, line as nat)
                == Ok::<(StmtModel, nat), ErrorModel>((st@, p1 as nat)) && p < p1 < toks@.len(),
            Err(e) => p_pair_assignment(tv(toks), p as nat, line as nat) == Err::<
                (StmtModel, nat),
                ErrorModel,
            >(e@),
        },
{
    let _n = toks.len();
    proof {
        lemma_not_last(toks@, p as nat);
    }
    let first = match tok_at(toks, p + 1) {
        Tok::Ident(name) => name.clone(),
        other => {
            let message = found_msg("expected a set name in `[a, b] = ...`, found ", other);
            return Err(error_at(message, line));
        },
    };
    proof {
        lemma_not_last(toks@, (p + 1) as nat);
    }
    let p3 = match expect_tok(toks, p + 2, &Tok::Comma, "`,`") {
        Err(e) => return Err(e),
        Ok(x) => x,
    };
    let second = match tok_at(toks, p3) {
        Tok::Ident(name) => name.clone(),
        other => {
            let message = found_msg("expected a set name in `[a, b] = ...`, found ", other);
            return Err(error_at(message, line));
        },
    };
    proof {
        lemma_not_last(toks@, p3 as nat);
    }
    let p5 = match expect_tok(toks, p3 + 1, &Tok::RBracket, "`]`") {
        Err(e) => return Err(e),
        Ok(x) => x,
    };
    let p6 = match expect_tok(toks, p5, &Tok::Eq, "`=`") {
        Err(e) => return Err(e),
        Ok(x) => x,
    };
    let (expr, p7) = match parse_expr(toks, p6) {
        Err(e) => return Err(e),
        Ok(x) => x,
    };
    Ok((Stmt::AssignPair { first, second, expr, line, block: 0 }, p7))
}

#[verifier::spinoff_prover]
fn parse_index_groups(toks: &Vec<Token>, p: usize) -> (r: Result<(Vec<Expr>, usize), Error>)
    requires
        tokens_wf(toks@),
        p < toks@.len(),
    ensures
        match r {
            Ok((v, p1)) => p_index_groups(tv(toks), p as nat, Seq::empty()) == Ok::<
                (Seq<ExprModel>, nat),
                ErrorModel,
            >((exprs_model(v@), p1 as nat)) && p <= p1 < toks@.len(),
            Err(e) => p_index_groups(tv(toks), p as nat, Seq::empty()) == Err::<
                (Seq<ExprModel>, nat),
                ErrorModel,
            >(e@),
        },
{
    let n = toks.len();
    let mut acc: Vec<Expr> = Vec::new();
    proof {
        lemma_exprs_model_empty(acc@);
    }
    let mut q = p;
    loop
        invariant
            tokens_wf(toks@),
            n == toks@.len(),
            p <= q < toks@.len(),
            p_index_groups(tv(toks), p as nat, Seq::empty()) == p_index_groups(
                tv(toks),
                q as nat,
                exprs_model(acc@),
            ),
        decreases toks@.len() - q,
    {
        if !is_tok(tok_at(toks, q), &Tok::LBracket) {
            return Ok((acc, q));
        }
        proof {
            lemma_not_last(toks@, q as nat);
        }
        let (ix, q1) = match parse_expr(toks, q + 1) {
            Err(e) => return Err(e),
            Ok(x) => x,
        };
        let q2 = match expect_tok(toks, q1, &Tok::RBracket, "`]`") {
            Err(e) => return Err(e),
            Ok(x) => x,
        };
        let ghost a0 = acc@;
        proof {
            lemma_exprs_model_push(a0, ix);
        }
        acc.push(ix);
        q = q2;
    }
}

#[verifier::spinoff_prover]
fn parse_component_assignment(toks: &Vec<Token>, p: usize, name: &String, line: usize) -> (r: Result<
    (Option<Stmt>, usize),
    Error,
>)
    requires
        tokens_wf(toks@),
        p < toks@.len(),
        tk(tv(toks), p as nat) is Ident,
    ensures
        match r {
            Ok((Some(st), p1)) => p_component_assignment(tv(toks), p as nat, name@, line as nat)
                == Ok::<(Option<StmtModel>, nat), ErrorModel>((Some(st@), p1 as nat)) && p < p1
                < toks@.len(),
            Ok((None, p1)) => p_component_assignment(tv(toks), p as nat, name@, line as nat)
                == Ok::<(Option<StmtModel>, nat), ErrorModel>((None, p1 as nat)),
            Err(e) => p_component_assignment(tv(toks), p as nat, name@, line as nat) == Err::<
                (Option<StmtModel>, nat),
                ErrorModel,
            >(e@),
        },
{
    let _n = toks.len();
    proof {
        lemma_not_last(toks@, p as nat);
    }
    let (indices, q) = match parse_index_groups(toks, p + 1) {
        Err(e) => return Err(e),
        Ok(x) => x,
    };
    if !is_tok(tok_at(toks, q), &Tok::Eq) {
        return Ok((None, q));
    }
    proof {
        lemma_not_last(toks@, q as nat);
    }
    let (expr, q1) = match parse_expr(toks, q + 1) {
        Err(e) => return Err(e),
        Ok(x) => x,
    };
    Ok((Some(Stmt::AssignComponent { name: name.clone(), indices, expr, line, block: 0 }), q1))
}

#[verifier::spinoff_prover]
fn parse_statement(toks: &Vec<Token>, p: usize) -> (r: Result<(Stmt, usize), Error>)
    requires
        tokens_wf(toks@),
        p < toks@.len(),
    ensures
        match r {
            Ok((st, p1)) => p_statement(tv(toks), p as nat) == Ok::<(StmtModel, nat), ErrorModel>(
                (st@, p1 as nat),
            ) && p < p1 < toks@.len(),
            Err(e) => p_statement(tv(toks), p as nat) == Err::<(StmtModel, nat), ErrorModel>(e@),
        },
{
    let _n = toks.len();
    let line = toks[p].line;
    assert(line as nat == ln(tv(toks), p as nat));
    if is_tok(tok_at(toks, p), &Tok::LBracket) {
        return parse_pair_assignment(toks, p, line);
    }
    match tok_at(toks, p) {
        Tok::Ident(name) => {
            proof {
                lemma_not_last(toks@, p as nat);
            }
            if is_tok(tok_at(toks, p + 1), &Tok::Eq) {
                proof {
                    lemma_not_last(toks@, (p + 1) as nat);
                }
                let (expr, p1) = match parse_expr(toks, p + 2) {
                    Err(e) => return Err(e),
                    Ok(x) => x,
                };
                return Ok((Stmt::Assign { name: name.clone(), expr, line, block: 0 }, p1));
            }
            if is_tok(tok_at(toks, p + 1), &Tok::LBracket) {
                match parse_component_assignment(toks, p, name, line) {
                    Err(e) => return Err(e),
                    Ok((Some(st), p1)) => return Ok((st, p1)),
                    Ok((None, _)) => {},
                }
            }
        },
        _ => {},
    }
    let (e, p1) = match parse_expr(toks, p) {
        Err(err) => return Err(err),
        Ok(x) => x,
    };
    Ok((Stmt::Expr(e, line, 0), p1))
}

fn skip_newline_tokens(toks: &Vec<Token>, q: usize) -> (r: usize)
    requires
        tokens_wf(toks@),
        q < toks@.len(),
    ensures
        r as nat == skip_newlines(tv(toks), q as nat),
        q <= r < toks@.len(),
{
    let n = toks.len();
    let ghost t = tv(toks);
    proof {
        lemma_skip_newlines(t, q as nat);
    }
    let mut k = q;
    while is_tok(tok_at(toks, k), &Tok::Newline)
        invariant
            tokens_wf(toks@),
            n == toks@.len(),
            q <= k < toks@.len(),
            t == tv(toks),
            skip_newlines(t, k as nat) == skip_newlines(t, q as nat),
        decreases toks@.len() - k,
    {
        proof {
            lemma_not_last(toks@, k as nat);
        }
        k = k + 1;
    }
    k
}

/// Parses a token stream that ends with `Eof` (see [`p_program`]).
#[verifier::rlimit(50)]
#[verifier::spinoff_prover]
pub fn parse_tokens(toks: &Vec<Token>) -> (r: Result<Vec<Stmt>, Error>)
    requires
        tokens_wf(toks@),
    ensures
        match r {
            Ok(stmts) => p_program(tv(toks), 0, Seq::empty()) == Ok::<Seq<StmtModel>, ErrorModel>(
                stmts_model(stmts@),
            ),
            Err(e) => p_program(tv(toks), 0, Seq::empty()) == Err::<Seq<StmtModel>, ErrorModel>(e@),
        },
{
    let n = toks.len();
    let mut stmts: Vec<Stmt> = Vec::new();
    let mut q: usize = 0;
    assert(stmts_model(stmts@) == Seq::<StmtModel>::empty());
    loop
        invariant
            tokens_wf(toks@),
            n == toks@.len(),
            q < toks@.len(),
            p_program(tv(toks), 0, Seq::empty()) == p_program(tv(toks), q as nat, stmts_model(stmts@)),
        decreases toks@.len() - q,
    {
        q = skip_newline_tokens(toks, q);
        if is_tok(tok_at(toks, q), &Tok::Eof) {
            return Ok(stmts);
        }
        let (st, q1) = match parse_statement(toks, q) {
            Err(e) => return Err(e),
            Ok(x) => x,
        };
        let after = tok_at(toks, q1);
        if is_tok(after, &Tok::Newline) || is_tok(after, &Tok::Eof) {
            let ghost s0 = stmts@;
            stmts.push(st);
            assert(stmts_model(stmts@) == stmts_model(s0).push(st@));
            q = q1;
        } else {
            let message = found_msg("unexpected token after statement: ", after);
            return Err(error_at(message, line_at(toks, q1)));
        }
    }
}

} // verus!

verus! {

/// Parses a `.tens` source (see [`parse_spec`]): note blocks are blanked,
/// the rest is tokenized and parsed into statements.
pub fn parse(src: &str) -> (r: Result<Vec<Stmt>, Error>)
    requires
        src@.len() < usize::MAX,
    ensures
        match r {
            Ok(stmts) => parse_spec(src@) == Ok::<Seq<StmtModel>, ErrorModel>(stmts_model(stmts@)),
            Err(e) => parse_spec(src@) == Err::<Seq<StmtModel>, ErrorModel>(e@),
        },
{
    let s = chars_of(src);
    let code = match strip_note_chars(&s) {
        Err(e) => return Err(e),
        Ok(c) => c,
    };
    proof {
        crate::notes::lemma_strip_from_len(
            s@,
            0,
            1,
            crate::notes::NoteState {
                in_note: false,
                inner_fence: false,
                kind: crate::notes::NoteFence::Html,
                start_line: None,
            },
        );
    }
    let toks = match lex_chars(&code) {
        Err(e) => return Err(e),
        Ok(t) => t,
    };
    proof {
        crate::lexer::lemma_lex_from_ends_with_eof(code@, 0, 1);
        assert(tv(&toks)[toks@.len() - 1] == toks@[toks@.len() - 1]@);
    }
    parse_tokens(&toks)
}

/// `*`, `/` and `:` associate to the left: for operands `a`, `b`, `c`
/// (each parsed at its own level) the parse of `a o1 b` is `a o1 b`, and
/// that of `a o1 b o2 c` is `(a o1 b) o2 c`; so `x / y * z` is
/// `(x / y) * z` and `x / y / z` is `(x / y) / z`.
pub proof fn law_multiplicative_operators_associate_left(
    t: Seq<TokenModel>,
    p: nat,
    a: ExprModel,
    p1: nat,
    o1: BinOp,
    b: ExprModel,
    p2: nat,
    o2: BinOp,
    c: ExprModel,
    p3: nat,
)
    requires
        p_outer(t, p) == PResult::Ok((a, p1)),
        p <= p1 <= t.len(),
        multiplicative_op(tk(t, p1)) == Some(o1),
        p_outer(t, p1 + 1) == PResult::Ok((b, p2)),
        p1 < p2 <= t.len(),
    ensures
        multiplicative_op(tk(t, p2)) is None ==> p_multiplicative(t, p) == PResult::Ok((binary(o1, a, b), p2)),
        (multiplicative_op(tk(t, p2)) == Some(o2) && p_outer(t, p2 + 1) == PResult::Ok((c, p3)) && p2 < p3 <= t.len()
            && multiplicative_op(tk(t, p3)) is None) ==> p_multiplicative(t, p) == PResult::Ok(
            (binary(o2, binary(o1, a, b), c), p3),
        ),
{
    reveal_with_fuel(p_multiplicative_rest, 4);
}

/// `+` and `-` associate to the left: for operands `a`, `b`, `c` (each a
/// multiplicative expression) the parse of `a o1 b o2 c` is
/// `(a o1 b) o2 c`; so `x - y + z` is `(x - y) + z`.
pub proof fn law_additive_operators_associate_left(
    t: Seq<TokenModel>,
    p: nat,
    a: ExprModel,
    p1: nat,
    o1: BinOp,
    b: ExprModel,
    p2: nat,
    o2: BinOp,
    c: ExprModel,
    p3: nat,
)
    requires
        p_multiplicative(t, p) == PResult::Ok((a, p1)),
        p <= p1 <= t.len(),
        additive_op(tk(t, p1)) == Some(o1),
        p_multiplicative(t, p1 + 1) == PResult::Ok((b, p2)),
        p1 < p2 <= t.len(),
    ensures
        additive_op(tk(t, p2)) is None ==> p_additive(t, p) == PResult::Ok((binary(o1, a, b), p2)),
        (additive_op(tk(t, p2)) == Some(o2) && p_multiplicative(t, p2 + 1) == PResult::Ok((c, p3)) && p2 < p3 <= t.len()
            && additive_op(tk(t, p3)) is None) ==> p_additive(t, p) == PResult::Ok(
            (binary(o2, binary(o1, a, b), c), p3),
        ),
{
    reveal_with_fuel(p_additive_rest, 4);
}

/// The operator tokens denote their operations: `*` the product, `/` the
/// quotient, `:` the double contraction, `+` the sum and `-` the
/// difference; `&` binds tighter than all of them and is no
/// multiplicative or additive operator, and no other token is one.
pub proof fn law_operator_tokens()
    ensures
        multiplicative_op(TokModel::Star) == Some(BinOp::Mul),
        multiplicative_op(TokModel::Slash) == Some(BinOp::Div),
        multiplicative_op(TokModel::Colon) == Some(BinOp::Ddot),
        additive_op(TokModel::Plus) == Some(BinOp::Add),
        additive_op(TokModel::Minus) == Some(BinOp::Sub),
        forall|t: TokModel| !(t is Star || t is Slash || t is Colon) ==> #[trigger] multiplicative_op(t) is None,
        forall|t: TokModel| !(t is Plus || t is Minus) ==> #[trigger] additive_op(t) is None,
{
}

} // verus!
