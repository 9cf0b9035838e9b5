//! How the interpreter dispatches a call `name(args..., key=value...)`:
//! which builtin handles a name, the fixed errors for removed and renamed
//! builtins, argument-count checks, the `rules=` keyword of `Simplify`, and
//! which assignments declare sets or register display labels.

use vstd::prelude::*;
use crate::ast::{
    Expr, ExprModel, expr_model, kwargs_model, lemma_exprs_model_index, lemma_kwargs_model_index,
};
use crate::checks::{expect_bool, expect_solve_method, solve_method_spec};
use crate::declarations::{bool_arg_spec, expect_usize, usize_arg_spec};
use crate::ode::SolveMethod;
use crate::error::{Error, ErrorModel};
use crate::rules::{RuleSet, rule_set_named, unknown_rule_set_message};
use crate::text::{concat_str, decimal, decimal_string, str_eq};

verus! {

/// The builtin that handles a call.
#[derive(Debug, Clone, Copy, PartialEq, Eq)]
pub enum CallTarget {
    Scalar,
    Var,
    Function,
    Tensor,
    Sum,
    Det,
    Tr,
    /// `log`, `sqrt`, `exp`, `sinh`, `cosh`, `tanh`, `sin`, `cos`, `tan`.
    ScalarFunction,
    Diff,
    Derivative,
    Equation,
    BoundaryCondition,
    Ode,
    Integrate,
    Integral,
    Inv,
    Simplify,
    /// `dot(A, B)`: single contraction, as `A * B`.
    Dot,
    /// `ddot(A, B)`: double contraction, as `A : B`.
    Ddot,
    /// `display(expr, mode=...)`: render a value, as `expr.show(mode)`.
    Display,
    /// `export(expr, format=...)`: export as `latex` or `markdown`.
    Export,
    /// A name of the program: a scalar function defined by the user, or an
    /// error if it is not one.
    UserDefined,
}

pub open spec fn is_scalar_function_name(n: Seq<char>) -> bool {
    n == "log"@ || n == "sqrt"@ || n == "exp"@ || n == "sinh"@ || n == "cosh"@ || n == "tanh"@
        || n == "sin"@ || n == "cos"@ || n == "tan"@
}

pub open spec fn spectral_usage() -> Seq<char> {
    "`[lambda, N] = Spectral(C, \"\\lambda\", \"\\bm N\")`"@
}

/// The builtin a name calls, or the error a removed or misplaced builtin
/// gives.
pub open spec fn call_target_spec(n: Seq<char>) -> Result<CallTarget, Seq<char>> {
    if n == "Scalar"@ {
        Ok(CallTarget::Scalar)
    } else if n == "Var"@ {
        Ok(CallTarget::Var)
    } else if n == "Function"@ {
        Ok(CallTarget::Function)
    } else if n == "Tensor"@ {
        Ok(CallTarget::Tensor)
    } else if n == "Sum"@ {
        Ok(CallTarget::Sum)
    } else if n == "ScalarSet"@ || n == "VectorSet"@ {
        Err("`"@ + n + "` declares a set and must be used in an assignment, e.g. lambda = "@ + n + "(...)"@)
    } else if n == "Spectral"@ {
        Err("`Spectral` returns two sets and must be used as "@ + spectral_usage())
    } else if n == "Det"@ {
        Ok(CallTarget::Det)
    } else if n == "Tr"@ {
        Ok(CallTarget::Tr)
    } else if is_scalar_function_name(n) {
        Ok(CallTarget::ScalarFunction)
    } else if n == "Diff"@ {
        Ok(CallTarget::Diff)
    } else if n == "Derivative"@ {
        Ok(CallTarget::Derivative)
    } else if n == "Equation"@ {
        Ok(CallTarget::Equation)
    } else if n == "BoundaryCondition"@ {
        Ok(CallTarget::BoundaryCondition)
    } else if n == "ODE"@ {
        Ok(CallTarget::Ode)
    } else if n == "Integrate"@ {
        Ok(CallTarget::Integrate)
    } else if n == "Integral"@ {
        Ok(CallTarget::Integral)
    } else if n == "IC"@ {
        Err("`IC(...)` was renamed; use `BoundaryCondition(y(x0), y0)`"@)
    } else if n == "ClassifyODE"@ {
        Err("`ClassifyODE(eq, y, x)` was removed; use `ODE(eq, y, x).show(classification)`"@)
    } else if n == "SolveODE"@ {
        Err(
            "`SolveODE(eq, y, x, ic=...)` was removed; use `ODE(eq, y, x, BoundaryCondition(...)).solve(details=true)`"@,
        )
    } else if n == "Inv"@ {
        Ok(CallTarget::Inv)
    } else if n == "Simplify"@ {
        Ok(CallTarget::Simplify)
    } else if n == "diff"@ {
        Ok(CallTarget::Diff)
    } else if n == "simplify"@ {
        Ok(CallTarget::Simplify)
    } else if n == "sum"@ {
        Ok(CallTarget::Sum)
    } else if n == "det"@ {
        Ok(CallTarget::Det)
    } else if n == "tr"@ {
        Ok(CallTarget::Tr)
    } else if n == "inv"@ {
        Ok(CallTarget::Inv)
    } else if n == "dot"@ {
        Ok(CallTarget::Dot)
    } else if n == "ddot"@ {
        Ok(CallTarget::Ddot)
    } else if n == "outer"@ || n == "otimes"@ {
        Err("`"@ + n + "(A, B)` was removed; use `A & B`"@)
    } else if n == "display"@ {
        Ok(CallTarget::Display)
    } else if n == "export"@ {
        Ok(CallTarget::Export)
    } else if n == "eigvals"@ || n == "eigvecs"@ {
        Err("`eigvals/eigvecs` were removed; use "@ + spectral_usage())
    } else {
        Ok(CallTarget::UserDefined)
    }
}

fn fail(message: String) -> (r: Result<CallTarget, Error>)
    ensures
        r is Err,
        r->Err_0@ == (ErrorModel { message: message@, line: None }),
{
    Err(Error::msg(message))
}

pub open spec fn target_result_view(r: Result<CallTarget, Error>) -> Result<CallTarget, ErrorModel> {
    match r {
        Ok(t) => Ok(t),
        Err(e) => Err(e@),
    }
}

pub open spec fn with_no_line<T>(r: Result<T, Seq<char>>) -> Result<T, ErrorModel> {
    match r {
        Ok(v) => Ok(v),
        Err(m) => Err(ErrorModel { message: m, line: None }),
    }
}

/// The builtin a call names (see [`call_target_spec`]).
pub fn call_target(callee: &str) -> (r: Result<CallTarget, Error>)
    ensures
        target_result_view(r) == with_no_line(call_target_spec(callee@)),
{
    if str_eq(callee, "Scalar") {
        Ok(CallTarget::Scalar)
    } else if str_eq(callee, "Var") {
        Ok(CallTarget::Var)
    } else if str_eq(callee, "Function") {
        Ok(CallTarget::Function)
    } else if str_eq(callee, "Tensor") {
        Ok(CallTarget::Tensor)
    } else if str_eq(callee, "Sum") {
        Ok(CallTarget::Sum)
    } else if str_eq(callee, "ScalarSet") || str_eq(callee, "VectorSet") {
        let mut m = concat_str("`", callee);
        m.append("` declares a set and must be used in an assignment, e.g. lambda = ");
        m.append(callee);
        m.append("(...)");
        fail(m)
    } else if str_eq(callee, "Spectral") {
        proof {
            reveal_strlit("`Spectral` returns two sets and must be used as ");
            reveal_strlit("`[lambda, N] = Spectral(C, \"\\lambda\", \"\\bm N\")`");
            reveal_strlit(
                "`Spectral` returns two sets and must be used as `[lambda, N] = Spectral(C, \"\\lambda\", \"\\bm N\")`",
            );
            assert("`Spectral` returns two sets and must be used as "@ + spectral_usage()
                =~= "`Spectral` returns two sets and must be used as `[lambda, N] = Spectral(C, \"\\lambda\", \"\\bm N\")`"@);
        }
        fail(
            String::from_str(
                "`Spectral` returns two sets and must be used as `[lambda, N] = Spectral(C, \"\\lambda\", \"\\bm N\")`",
            ),
        )
    } else if str_eq(callee, "Det") {
        Ok(CallTarget::Det)
    } else if str_eq(callee, "Tr") {
        Ok(CallTarget::Tr)
    } else if str_eq(callee, "log") || str_eq(callee, "sqrt") || str_eq(callee, "exp") || str_eq(callee, "sinh") || str_eq(callee, "cosh") || str_eq(callee, "tanh") || str_eq(callee, "sin") || str_eq(callee, "cos") || str_eq(callee, "tan") {
        Ok(CallTarget::ScalarFunction)
    } else if str_eq(callee, "Diff") {
        Ok(CallTarget::Diff)
    } else if str_eq(callee, "Derivative") {
        Ok(CallTarget::Derivative)
    } else if str_eq(callee, "Equation") {
        Ok(CallTarget::Equation)
    } else if str_eq(callee, "BoundaryCondition") {
        Ok(CallTarget::BoundaryCondition)
    } else if str_eq(callee, "ODE") {
        Ok(CallTarget::Ode)
    } else if str_eq(callee, "Integrate") {
        Ok(CallTarget::Integrate)
    } else if str_eq(callee, "Integral") {
        Ok(CallTarget::Integral)
    } else if str_eq(callee, "IC") {
        fail(String::from_str("`IC(...)` was renamed; use `BoundaryCondition(y(x0), y0)`"))
    } else if str_eq(callee, "ClassifyODE") {
        fail(
            String::from_str(
                "`ClassifyODE(eq, y, x)` was removed; use `ODE(eq, y, x).show(classification)`",
            ),
        )
    } else if str_eq(callee, "SolveODE") {
        fail(
            String::from_str(
                "`SolveODE(eq, y, x, ic=...)` was removed; use `ODE(eq, y, x, BoundaryCondition(...)).solve(details=true)`",
            ),
        )
    } else if str_eq(callee, "Inv") {
        Ok(CallTarget::Inv)
    } else if str_eq(callee, "Simplify") {
        Ok(CallTarget::Simplify)
    } else if str_eq(callee, "diff") {
        Ok(CallTarget::Diff)
    } else if str_eq(callee, "simplify") {
        Ok(CallTarget::Simplify)
    } else if str_eq(callee, "sum") {
        Ok(CallTarget::Sum)
    } else if str_eq(callee, "det") {
        Ok(CallTarget::Det)
    } else if str_eq(callee, "tr") {
        Ok(CallTarget::Tr)
    } else if str_eq(callee, "inv") {
        Ok(CallTarget::Inv)
    } else if str_eq(callee, "dot") {
        Ok(CallTarget::Dot)
    } else if str_eq(callee, "ddot") {
        Ok(CallTarget::Ddot)
    } else if str_eq(callee, "outer") || str_eq(callee, "otimes") {
        let mut m = concat_str("`", callee);
        m.append("(A, B)` was removed; use `A & B`");
        fail(m)
    } else if str_eq(callee, "display") {
        Ok(CallTarget::Display)
    } else if str_eq(callee, "export") {
        Ok(CallTarget::Export)
    } else if str_eq(callee, "eigvals") || str_eq(callee, "eigvecs") {
        proof {
            reveal_strlit("`eigvals/eigvecs` were removed; use ");
            reveal_strlit("`[lambda, N] = Spectral(C, \"\\lambda\", \"\\bm N\")`");
            reveal_strlit(
                "`eigvals/eigvecs` were removed; use `[lambda, N] = Spectral(C, \"\\lambda\", \"\\bm N\")`",
            );
            assert("`eigvals/eigvecs` were removed; use "@ + spectral_usage()
                =~= "`eigvals/eigvecs` were removed; use `[lambda, N] = Spectral(C, \"\\lambda\", \"\\bm N\")`"@);
        }
        fail(
            String::from_str(
                "`eigvals/eigvecs` were removed; use `[lambda, N] = Spectral(C, \"\\lambda\", \"\\bm N\")`",
            ),
        )
    } else {
        Ok(CallTarget::UserDefined)
    }
}

/// The error of a builtin that takes exactly one positional argument and no
/// keywords, or `Ok` when the call has that shape.
pub fn expect_single_argument(callee: &str, nargs: usize, nkwargs: usize) -> (r: Result<(), Error>)
    ensures
        r is Ok <==> (nargs == 1 && nkwargs == 0),
        r is Err ==> r->Err_0@ == (ErrorModel {
            message: "`"@ + callee@ + "` takes exactly one argument"@,
            line: None,
        }),
{
    if nargs == 1 && nkwargs == 0 {
        Ok(())
    } else {
        let mut m = concat_str("`", callee);
        m.append("` takes exactly one argument");
        Err(Error::msg(m))
    }
}

pub open spec fn second_order_message(callee: Seq<char>, order: nat) -> Seq<char> {
    "`"@ + callee + "` requires a second-order tensor, got order "@ + decimal(order)
}

/// `Det` and `Tr` accept only a second-order tensor.
pub fn expect_second_order(callee: &str, order: usize) -> (r: Result<(), Error>)
    ensures
        r is Ok <==> order == 2,
        r is Err ==> r->Err_0@ == (ErrorModel {
            message: second_order_message(callee@, order as nat),
            line: None,
        }),
{
    if order == 2 {
        Ok(())
    } else {
        let mut m = concat_str("`", callee);
        m.append("` requires a second-order tensor, got order ");
        let d = decimal_string(order);
        m.append(d.as_str());
        Err(Error::msg(m))
    }
}

pub open spec fn simplify_arity_message() -> Seq<char> {
    "`Simplify` expects one expression argument"@
}

pub open spec fn simplify_keyword_message(key: Seq<char>) -> Seq<char> {
    "unknown keyword `"@ + key + "` for `Simplify`"@
}

/// The rule set that the keywords from position `i` on leave in force,
/// starting from `cur`: each `rules=name` (a name or a string) replaces it,
/// and any other keyword is an error.
pub open spec fn rules_from(kw: Seq<(Seq<char>, ExprModel)>, i: int, cur: RuleSet) -> Result<
    RuleSet,
    Seq<char>,
>
    decreases kw.len() - i,
{
    if i < 0 || i >= kw.len() {
        Ok(cur)
    } else {
        let key = kw[i].0;
        let value = kw[i].1;
        if key == "rules"@ && (value is Ident || value is Str) {
            let name = match value {
                ExprModel::Ident(n) => n,
                ExprModel::Str(n) => n,
                _ => Seq::empty(),
            };
            match rule_set_named(name) {
                Some(r) => rules_from(kw, i + 1, r),
                None => Err(unknown_rule_set_message(name)),
            }
        } else {
            Err(simplify_keyword_message(key))
        }
    }
}

/// The rule set a call `Simplify(args..., kwargs...)` uses: one positional
/// argument is required, and `continuum` applies unless `rules=` says
/// otherwise.
pub open spec fn simplify_rules_spec(nargs: nat, kw: Seq<(Seq<char>, ExprModel)>) -> Result<
    RuleSet,
    Seq<char>,
> {
    if nargs != 1 {
        Err(simplify_arity_message())
    } else {
        rules_from(kw, 0, RuleSet::Continuum)
    }
}

pub open spec fn rules_result_view(r: Result<RuleSet, Error>) -> Result<RuleSet, ErrorModel> {
    match r {
        Ok(t) => Ok(t),
        Err(e) => Err(e@),
    }
}

/// The rule set of a `Simplify` call with `nargs` positional arguments and
/// the keyword arguments `kwargs` (see [`simplify_rules_spec`]).
pub fn simplify_rules(nargs: usize, kwargs: &Vec<(String, Expr)>) -> (r: Result<RuleSet, Error>)
    ensures
        rules_result_view(r) == with_no_line(
            simplify_rules_spec(nargs as nat, kwargs_model(kwargs@)),
        ),
{
    if nargs != 1 {
        return Err(Error::msg(String::from_str("`Simplify` expects one expression argument")));
    }
    let ghost kw = kwargs_model(kwargs@);
    proof {
        lemma_kwargs_model_index(kwargs@);
    }
    let mut rules = RuleSet::Continuum;
    let mut i: usize = 0;
    while i < kwargs.len()
        invariant
            nargs == 1,
            0 <= i <= kwargs.len(),
            kw == kwargs_model(kwargs@),
            kw.len() == kwargs.len(),
            forall|j: int|
                0 <= j < kwargs.len() ==> #[trigger] kw[j] == (kwargs@[j].0@, expr_model(
                    kwargs@[j].1,
                )),
            rules_from(kw, 0, RuleSet::Continuum) == rules_from(kw, i as int, rules),
        decreases kwargs.len() - i,
    {
        let key = &kwargs[i].0;
        let value = &kwargs[i].1;
        if str_eq(key.as_str(), "rules") {
            match value {
                Expr::Ident(name) | Expr::Str(name) => {
                    match RuleSet::parse(name.as_str()) {
                        Ok(r) => {
                            rules = r;
                        },
                        Err(e) => {
                            return Err(e);
                        },
                    }
                },
                _ => {
                    let mut m = concat_str("unknown keyword `", key.as_str());
                    m.append("` for `Simplify`");
                    return Err(Error::msg(m));
                },
            }
        } else {
            let mut m = concat_str("unknown keyword `", key.as_str());
            m.append("` for `Simplify`");
            return Err(Error::msg(m));
        }
        i = i + 1;
    }
    Ok(rules)
}

/// An assignment whose right side is `ScalarSet(...)` or `VectorSet(...)`
/// declares a set rather than binding a value.
pub open spec fn declares_set_spec(e: ExprModel) -> bool {
    match e {
        ExprModel::Call { callee, .. } => callee == "ScalarSet"@ || callee == "VectorSet"@,
        _ => false,
    }
}

/// Whether an assignment of `expr` declares a set.
pub fn declares_set(expr: &Expr) -> (b: bool)
    ensures
        b == declares_set_spec(expr@),
{
    match expr {
        Expr::Call { callee, .. } => str_eq(callee.as_str(), "ScalarSet") || str_eq(
            callee.as_str(),
            "VectorSet",
        ),
        _ => false,
    }
}

/// The display label a declaration registers for the assigned name: the
/// string first argument of `Scalar`, `Tensor`, `Var` or `Function`.
pub open spec fn declared_label_spec(e: ExprModel) -> Option<Seq<char>> {
    match e {
        ExprModel::Call { callee, args, .. } => {
            if (callee == "Scalar"@ || callee == "Tensor"@ || callee == "Var"@ || callee
                == "Function"@) && args.len() > 0 {
                match args[0] {
                    ExprModel::Str(latex) => Some(latex),
                    _ => None,
                }
            } else {
                None
            }
        },
        _ => None,
    }
}

/// The display label that assigning `expr` registers, if any.
pub fn declared_label(expr: &Expr) -> (r: Option<String>)
    ensures
        match r {
            Some(s) => declared_label_spec(expr@) == Some(s@),
            None => declared_label_spec(expr@) is None,
        },
{
    match expr {
        Expr::Call { callee, args, .. } => {
            proof {
                lemma_exprs_model_index(args@);
            }
            let c = callee.as_str();
            if (str_eq(c, "Scalar") || str_eq(c, "Tensor") || str_eq(c, "Var") || str_eq(
                c,
                "Function",
            )) && args.len() > 0 {
                match &args[0] {
                    Expr::Str(latex) => Some(latex.clone()),
                    _ => None,
                }
            } else {
                None
            }
        },
        _ => None,
    }
}

/// The `order=` keywords of `Diff`/`Derivative` from position `i` on,
/// the last one winning; any other keyword is an error.
pub open spec fn order_from(callee: Seq<char>, kw: Seq<(Seq<char>, ExprModel)>, i: int, cur: usize) -> Result<
    usize,
    Seq<char>,
>
    decreases kw.len() - i,
{
    if i < 0 || i >= kw.len() {
        Ok(cur)
    } else if kw[i].0 == "order"@ {
        match usize_arg_spec(kw[i].1, "order"@) {
            Ok(n) => order_from(callee, kw, i + 1, n),
            Err(m) => Err(m),
        }
    } else {
        Err("unknown keyword `"@ + kw[i].0 + "` for `"@ + callee + "`"@)
    }
}

/// The derivative order of `Diff(expr, X, order=n)` (`Diff`) or
/// `Derivative(f, x, order=n)`: two positional arguments, order 1 unless
/// `order=` says otherwise.
pub open spec fn derivative_order_spec(callee: Seq<char>, usage: Seq<char>, nargs: nat, kw: Seq<
    (Seq<char>, ExprModel),
>) -> Result<usize, Seq<char>> {
    if nargs != 2 {
        Err("`"@ + callee + "` takes exactly two positional arguments: "@ + usage)
    } else {
        order_from(callee, kw, 0, 1)
    }
}

fn order_option(callee: &str, usage: &str, nargs: usize, kwargs: &Vec<(String, Expr)>) -> (r: Result<
    usize,
    Error,
>)
    ensures
        match derivative_order_spec(callee@, usage@, nargs as nat, kwargs_model(kwargs@)) {
            Ok(n) => r == Ok::<usize, Error>(n),
            Err(m) => r is Err && r->Err_0@ == (ErrorModel { message: m, line: None }),
        },
{
    if nargs != 2 {
        let mut m = concat_str("`", callee);
        m.append("` takes exactly two positional arguments: ");
        m.append(usage);
        return Err(Error::msg(m));
    }
    let ghost kw = kwargs_model(kwargs@);
    proof {
        lemma_kwargs_model_index(kwargs@);
    }
    let mut order: usize = 1;
    let mut i: usize = 0;
    while i < kwargs.len()
        invariant
            nargs == 2,
            i <= kwargs.len(),
            kw == kwargs_model(kwargs@),
            kw.len() == kwargs.len(),
            forall|j: int|
                0 <= j < kwargs.len() ==> #[trigger] kw[j] == (kwargs@[j].0@, expr_model(kwargs@[j].1)),
            order_from(callee@, kw, 0, 1) == order_from(callee@, kw, i as int, order),
        decreases kwargs.len() - i,
    {
        let key = kwargs[i].0.as_str();
        if str_eq(key, "order") {
            order = expect_usize(&kwargs[i].1, "order")?;
        } else {
            let mut m = concat_str("unknown keyword `", key);
            m.append("` for `");
            m.append(callee);
            m.append("`");
            return Err(Error::msg(m));
        }
        i = i + 1;
    }
    Ok(order)
}

pub open spec fn diff_usage() -> Seq<char> {
    "Diff(expr, X, order=1)"@
}

pub open spec fn derivative_usage() -> Seq<char> {
    "Derivative(f, x, order=1)"@
}

/// How many times `Diff(expr, X, ...)` differentiates (see
/// [`derivative_order_spec`]).
pub fn diff_order(nargs: usize, kwargs: &Vec<(String, Expr)>) -> (r: Result<usize, Error>)
    ensures
        match derivative_order_spec("Diff"@, diff_usage(), nargs as nat, kwargs_model(kwargs@)) {
            Ok(n) => r == Ok::<usize, Error>(n),
            Err(m) => r is Err && r->Err_0@ == (ErrorModel { message: m, line: None }),
        },
{
    order_option("Diff", "Diff(expr, X, order=1)", nargs, kwargs)
}

/// The order of a formal `Derivative(f, x, ...)` (see
/// [`derivative_order_spec`]).
pub fn derivative_order(nargs: usize, kwargs: &Vec<(String, Expr)>) -> (r: Result<usize, Error>)
    ensures
        match derivative_order_spec(
            "Derivative"@,
            derivative_usage(),
            nargs as nat,
            kwargs_model(kwargs@),
        ) {
            Ok(n) => r == Ok::<usize, Error>(n),
            Err(m) => r is Err && r->Err_0@ == (ErrorModel { message: m, line: None }),
        },
{
    order_option("Derivative", "Derivative(f, x, order=1)", nargs, kwargs)
}

/// The options of `ode.solve(...)`: whether to show the steps, the method
/// asked for, which keyword gives the expansion point of a series
/// solution (its value is a scalar expression, evaluated by the caller),
/// and the number of series terms.
#[derive(Debug, Clone, Copy, PartialEq, Eq)]
pub struct SolveOptions {
    pub details: bool,
    pub method: SolveMethod,
    pub about: Option<usize>,
    pub terms: usize,
}

pub open spec fn default_solve_options() -> SolveOptions {
    SolveOptions { details: false, method: SolveMethod::Auto, about: None, terms: 6 }
}

/// The keywords of `ode.solve(...)` from position `i` on, applied in
/// order; the first malformed one is the error.
pub open spec fn solve_options_from(kw: Seq<(Seq<char>, ExprModel)>, i: int, st: SolveOptions) -> Result<
    SolveOptions,
    Seq<char>,
>
    decreases kw.len() - i,
{
    if i < 0 || i >= kw.len() {
        Ok(st)
    } else {
        let key = kw[i].0;
        let v = kw[i].1;
        let next: Result<SolveOptions, Seq<char>> = if key == "details"@ {
            match bool_arg_spec(v, "details"@) {
                Ok(b) => Ok(SolveOptions { details: b, ..st }),
                Err(e) => Err(e),
            }
        } else if key == "method"@ {
            match solve_method_spec(v) {
                Ok(m) => Ok(SolveOptions { method: m, ..st }),
                Err(e) => Err(e),
            }
        } else if key == "about"@ {
            Ok(SolveOptions { about: Some(i as usize), ..st })
        } else if key == "terms"@ {
            match usize_arg_spec(v, "terms"@) {
                Ok(n) => Ok(SolveOptions { terms: n, ..st }),
                Err(e) => Err(e),
            }
        } else {
            Err("unknown keyword `"@ + key + "` for `ODE.solve`"@)
        };
        match next {
            Ok(st2) => solve_options_from(kw, i + 1, st2),
            Err(e) => Err(e),
        }
    }
}

pub open spec fn solve_arguments_message() -> Seq<char> {
    "`ODE.solve(...)` takes only optional keywords such as `details=true`, `method=separable`, `about=0`, or `terms=6`"@
}

/// The options of `ode.solve(args..., kwargs...)`: no positional
/// arguments, then the keywords in order (see [`solve_options_from`]).
pub open spec fn solve_options_spec(nargs: nat, kw: Seq<(Seq<char>, ExprModel)>) -> Result<
    SolveOptions,
    Seq<char>,
> {
    if nargs != 0 {
        Err(solve_arguments_message())
    } else {
        solve_options_from(kw, 0, default_solve_options())
    }
}

/// The options of an `ode.solve(...)` call (see [`solve_options_spec`]).
pub fn solve_options(nargs: usize, kwargs: &Vec<(String, Expr)>) -> (r: Result<SolveOptions, Error>)
    ensures
        match solve_options_spec(nargs as nat, kwargs_model(kwargs@)) {
            Ok(o) => r == Ok::<SolveOptions, Error>(o),
            Err(m) => r is Err && r->Err_0@ == (ErrorModel { message: m, line: None }),
        },
{
    if nargs != 0 {
        return Err(
            Error::msg(
                String::from_str(
                    "`ODE.solve(...)` takes only optional keywords such as `details=true`, `method=separable`, `about=0`, or `terms=6`",
                ),
            ),
        );
    }
    let ghost kw = kwargs_model(kwargs@);
    proof {
        lemma_kwargs_model_index(kwargs@);
    }
    let mut st = SolveOptions { details: false, method: SolveMethod::Auto, about: None, terms: 6 };
    let mut i: usize = 0;
    while i < kwargs.len()
        invariant
            nargs == 0,
            i <= kwargs.len(),
            kw == kwargs_model(kwargs@),
            kw.len() == kwargs.len(),
            forall|j: int|
                0 <= j < kwargs.len() ==> #[trigger] kw[j] == (kwargs@[j].0@, expr_model(kwargs@[j].1)),
            solve_options_from(kw, 0, default_solve_options()) == solve_options_from(kw, i as int, st),
        decreases kwargs.len() - i,
    {
        let key = kwargs[i].0.as_str();
        let value = &kwargs[i].1;
        if str_eq(key, "details") {
            st.details = expect_bool(value, "details")?;
        } else if str_eq(key, "method") {
            st.method = expect_solve_method(value)?;
        } else if str_eq(key, "about") {
            st.about = Some(i);
        } else if str_eq(key, "terms") {
            st.terms = expect_usize(value, "terms")?;
        } else {
            let mut m = concat_str("unknown keyword `", key);
            m.append("` for `ODE.solve`");
            return Err(Error::msg(m));
        }
        i = i + 1;
    }
    Ok(st)
}

/// The shape of the arguments that `Equation`, `BoundaryCondition`,
/// `ODE`, `Integrate`, `Integral`, `dot` and `ddot` accept (none of them takes keywords),
/// and the error for any other call; the other builtins check their own.
pub open spec fn builtin_arity_spec(target: CallTarget, nargs: nat, nkwargs: nat) -> Result<(), Seq<char>> {
    match target {
        CallTarget::Equation => if nargs == 2 && nkwargs == 0 {
            Ok(())
        } else {
            Err("`Equation` expects two scalar expressions: Equation(lhs, rhs)"@)
        },
        CallTarget::BoundaryCondition => if (nargs == 2 || nargs == 3) && nkwargs == 0 {
            Ok(())
        } else {
            Err(
                "`BoundaryCondition` expects BoundaryCondition(y(x0), y0) or BoundaryCondition(Derivative(y, x), x0, y0)"@,
            )
        },
        CallTarget::Ode => if nargs >= 3 && nkwargs == 0 {
            Ok(())
        } else {
            Err("`ODE` expects ODE(eq, y, x) or ODE(eq, y, x, BoundaryCondition(...), ...)"@)
        },
        CallTarget::Integrate => if nargs == 2 && nkwargs == 0 {
            Ok(())
        } else {
            Err("`Integrate` expects two arguments: Integrate(expr, x)"@)
        },
        CallTarget::Integral => if nargs == 2 && nkwargs == 0 {
            Ok(())
        } else {
            Err("`Integral` expects two arguments: Integral(expr, x)"@)
        },
        CallTarget::Dot => if nargs == 2 && nkwargs == 0 {
            Ok(())
        } else {
            Err("`dot` expects two arguments: dot(A, B)"@)
        },
        CallTarget::Ddot => if nargs == 2 && nkwargs == 0 {
            Ok(())
        } else {
            Err("`ddot` expects two arguments: ddot(A, B)"@)
        },
        _ => Ok(()),
    }
}

fn arity_error(message: &str) -> (r: Result<(), Error>)
    ensures
        r is Err && r->Err_0@ == (ErrorModel { message: message@, line: None }),
{
    Err(Error::msg(String::from_str(message)))
}

/// Checks the argument shape of a builtin call (see
/// [`builtin_arity_spec`]).
pub fn builtin_arity(target: CallTarget, nargs: usize, nkwargs: usize) -> (r: Result<(), Error>)
    ensures
        match builtin_arity_spec(target, nargs as nat, nkwargs as nat) {
            Ok(_) => r is Ok,
            Err(m) => r is Err && r->Err_0@ == (ErrorModel { message: m, line: None }),
        },
{
    match target {
        CallTarget::Equation => if nargs == 2 && nkwargs == 0 {
            Ok(())
        } else {
            arity_error("`Equation` expects two scalar expressions: Equation(lhs, rhs)")
        },
        CallTarget::BoundaryCondition => if (nargs == 2 || nargs == 3) && nkwargs == 0 {
            Ok(())
        } else {
            arity_error(
                "`BoundaryCondition` expects BoundaryCondition(y(x0), y0) or BoundaryCondition(Derivative(y, x), x0, y0)",
            )
        },
        CallTarget::Ode => if nargs >= 3 && nkwargs == 0 {
            Ok(())
        } else {
            arity_error("`ODE` expects ODE(eq, y, x) or ODE(eq, y, x, BoundaryCondition(...), ...)")
        },
        CallTarget::Integrate => if nargs == 2 && nkwargs == 0 {
            Ok(())
        } else {
            arity_error("`Integrate` expects two arguments: Integrate(expr, x)")
        },
        CallTarget::Integral => if nargs == 2 && nkwargs == 0 {
            Ok(())
        } else {
            arity_error("`Integral` expects two arguments: Integral(expr, x)")
        },
        CallTarget::Dot => if nargs == 2 && nkwargs == 0 {
            Ok(())
        } else {
            arity_error("`dot` expects two arguments: dot(A, B)")
        },
        CallTarget::Ddot => if nargs == 2 && nkwargs == 0 {
            Ok(())
        } else {
            arity_error("`ddot` expects two arguments: ddot(A, B)")
        },
        _ => Ok(()),
    }
}


/// Each builtin name reaches the builtin of its own meaning, whether
/// written capitalised or, as the documentation writes it, in lower case:
/// `Det`/`det` the determinant, `Tr`/`tr` the trace, `Inv`/`inv` the
/// inverse, `Sum`/`sum` the set sum, `Diff`/`diff` the derivative,
/// `Simplify`/`simplify` the simplifier, `dot` and `ddot` the single and
/// double contractions, and so on; distinct builtins get distinct targets.
pub proof fn law_builtin_names_reach_their_builtins()
    ensures
        call_target_spec("Scalar"@) == Ok::<CallTarget, Seq<char>>(CallTarget::Scalar),
        call_target_spec("Var"@) == Ok::<CallTarget, Seq<char>>(CallTarget::Var),
        call_target_spec("Function"@) == Ok::<CallTarget, Seq<char>>(CallTarget::Function),
        call_target_spec("Tensor"@) == Ok::<CallTarget, Seq<char>>(CallTarget::Tensor),
        call_target_spec("Sum"@) == Ok::<CallTarget, Seq<char>>(CallTarget::Sum),
        call_target_spec("sum"@) == Ok::<CallTarget, Seq<char>>(CallTarget::Sum),
        call_target_spec("Det"@) == Ok::<CallTarget, Seq<char>>(CallTarget::Det),
        call_target_spec("det"@) == Ok::<CallTarget, Seq<char>>(CallTarget::Det),
        call_target_spec("Tr"@) == Ok::<CallTarget, Seq<char>>(CallTarget::Tr),
        call_target_spec("tr"@) == Ok::<CallTarget, Seq<char>>(CallTarget::Tr),
        call_target_spec("Inv"@) == Ok::<CallTarget, Seq<char>>(CallTarget::Inv),
        call_target_spec("inv"@) == Ok::<CallTarget, Seq<char>>(CallTarget::Inv),
        call_target_spec("Diff"@) == Ok::<CallTarget, Seq<char>>(CallTarget::Diff),
        call_target_spec("diff"@) == Ok::<CallTarget, Seq<char>>(CallTarget::Diff),
        call_target_spec("Derivative"@) == Ok::<CallTarget, Seq<char>>(CallTarget::Derivative),
        call_target_spec("Equation"@) == Ok::<CallTarget, Seq<char>>(CallTarget::Equation),
        call_target_spec("BoundaryCondition"@) == Ok::<CallTarget, Seq<char>>(CallTarget::BoundaryCondition),
        call_target_spec("ODE"@) == Ok::<CallTarget, Seq<char>>(CallTarget::Ode),
        call_target_spec("Integrate"@) == Ok::<CallTarget, Seq<char>>(CallTarget::Integrate),
        call_target_spec("Integral"@) == Ok::<CallTarget, Seq<char>>(CallTarget::Integral),
        call_target_spec("Simplify"@) == Ok::<CallTarget, Seq<char>>(CallTarget::Simplify),
        call_target_spec("simplify"@) == Ok::<CallTarget, Seq<char>>(CallTarget::Simplify),
        call_target_spec("dot"@) == Ok::<CallTarget, Seq<char>>(CallTarget::Dot),
        call_target_spec("ddot"@) == Ok::<CallTarget, Seq<char>>(CallTarget::Ddot),
        call_target_spec("display"@) == Ok::<CallTarget, Seq<char>>(CallTarget::Display),
        call_target_spec("export"@) == Ok::<CallTarget, Seq<char>>(CallTarget::Export),
        call_target_spec("log"@) == Ok::<CallTarget, Seq<char>>(CallTarget::ScalarFunction),
        call_target_spec("sqrt"@) == Ok::<CallTarget, Seq<char>>(CallTarget::ScalarFunction),
        call_target_spec("exp"@) == Ok::<CallTarget, Seq<char>>(CallTarget::ScalarFunction),
{
    assert(call_target_spec("Scalar"@) == Ok::<CallTarget, Seq<char>>(CallTarget::Scalar)) by {
        reveal_strlit("Scalar");
    }
    assert(call_target_spec("Var"@) == Ok::<CallTarget, Seq<char>>(CallTarget::Var)) by {
        reveal_strlit("Var");
        reveal_strlit("Scalar");
        assert("Var"@ != "Scalar"@) by { reveal_strlit("Var"); reveal_strlit("Scalar"); assert("Var"@.len() != "Scalar"@.len()); }
    }
    assert(call_target_spec("Function"@) == Ok::<CallTarget, Seq<char>>(CallTarget::Function)) by {
        reveal_strlit("Function");
        reveal_strlit("Scalar");
        assert("Function"@ != "Scalar"@) by { reveal_strlit("Function"); reveal_strlit("Scalar"); assert("Function"@.len() != "Scalar"@.len()); }
        reveal_strlit("Var");
        assert("Function"@ != "Var"@) by { reveal_strlit("Function"); reveal_strlit("Var"); assert("Function"@.len() != "Var"@.len()); }
    }
    assert(call_target_spec("Tensor"@) == Ok::<CallTarget, Seq<char>>(CallTarget::Tensor)) by {
        reveal_strlit("Tensor");
        reveal_strlit("Scalar");
        assert("Tensor"@ != "Scalar"@) by { reveal_strlit("Tensor"); reveal_strlit("Scalar"); assert("Tensor"@[0] != "Scalar"@[0]); }
        reveal_strlit("Var");
        assert("Tensor"@ != "Var"@) by { reveal_strlit("Tensor"); reveal_strlit("Var"); assert("Tensor"@.len() != "Var"@.len()); }
        reveal_strlit("Function");
        assert("Tensor"@ != "Function"@) by { reveal_strlit("Tensor"); reveal_strlit("Function"); assert("Tensor"@.len() != "Function"@.len()); }
    }
    assert(call_target_spec("Sum"@) == Ok::<CallTarget, Seq<char>>(CallTarget::Sum)) by {
        reveal_strlit("Sum");
        reveal_strlit("Scalar");
        assert("Sum"@ != "Scalar"@) by { reveal_strlit("Sum"); reveal_strlit("Scalar"); assert("Sum"@.len() != "Scalar"@.len()); }
        reveal_strlit("Var");
        assert("Sum"@ != "Var"@) by { reveal_strlit("Sum"); reveal_strlit("Var"); assert("Sum"@[0] != "Var"@[0]); }
        reveal_strlit("Function");
        assert("Sum"@ != "Function"@) by { reveal_strlit("Sum"); reveal_strlit("Function"); assert("Sum"@.len() != "Function"@.len()); }
        reveal_strlit("Tensor");
        assert("Sum"@ != "Tensor"@) by { reveal_strlit("Sum"); reveal_strlit("Tensor"); assert("Sum"@.len() != "Tensor"@.len()); }
    }
    assert(call_target_spec("sum"@) == Ok::<CallTarget, Seq<char>>(CallTarget::Sum)) by {
        reveal_strlit("sum");
        reveal_strlit("Scalar");
        assert("sum"@ != "Scalar"@) by { reveal_strlit("sum"); reveal_strlit("Scalar"); assert("sum"@.len() != "Scalar"@.len()); }
        reveal_strlit("Var");
        assert("sum"@ != "Var"@) by { reveal_strlit("sum"); reveal_strlit("Var"); assert("sum"@[0] != "Var"@[0]); }
        reveal_strlit("Function");
        assert("sum"@ != "Function"@) by { reveal_strlit("sum"); reveal_strlit("Function"); assert("sum"@.len() != "Function"@.len()); }
        reveal_strlit("Tensor");
        assert("sum"@ != "Tensor"@) by { reveal_strlit("sum"); reveal_strlit("Tensor"); assert("sum"@.len() != "Tensor"@.len()); }
        reveal_strlit("Sum");
        assert("sum"@ != "Sum"@) by { reveal_strlit("sum"); reveal_strlit("Sum"); assert("sum"@[0] != "Sum"@[0]); }
        reveal_strlit("ScalarSet");
        assert("sum"@ != "ScalarSet"@) by { reveal_strlit("sum"); reveal_strlit("ScalarSet"); assert("sum"@.len() != "ScalarSet"@.len()); }
        reveal_strlit("VectorSet");
        assert("sum"@ != "VectorSet"@) by { reveal_strlit("sum"); reveal_strlit("VectorSet"); assert("sum"@.len() != "VectorSet"@.len()); }
        reveal_strlit("Spectral");
        assert("sum"@ != "Spectral"@) by { reveal_strlit("sum"); reveal_strlit("Spectral"); assert("sum"@.len() != "Spectral"@.len()); }
        reveal_strlit("Det");
        assert("sum"@ != "Det"@) by { reveal_strlit("sum"); reveal_strlit("Det"); assert("sum"@[0] != "Det"@[0]); }
        reveal_strlit("Tr");
        assert("sum"@ != "Tr"@) by { reveal_strlit("sum"); reveal_strlit("Tr"); assert("sum"@.len() != "Tr"@.len()); }
        reveal_strlit("log");
        assert("sum"@ != "log"@) by { reveal_strlit("sum"); reveal_strlit("log"); assert("sum"@[0] != "log"@[0]); }
        reveal_strlit("sqrt");
        assert("sum"@ != "sqrt"@) by { reveal_strlit("sum"); reveal_strlit("sqrt"); assert("sum"@.len() != "sqrt"@.len()); }
        reveal_strlit("exp");
        assert("sum"@ != "exp"@) by { reveal_strlit("sum"); reveal_strlit("exp"); assert("sum"@[0] != "exp"@[0]); }
        reveal_strlit("sinh");
        assert("sum"@ != "sinh"@) by { reveal_strlit("sum"); reveal_strlit("sinh"); assert("sum"@.len() != "sinh"@.len()); }
        reveal_strlit("cosh");
        assert("sum"@ != "cosh"@) by { reveal_strlit("sum"); reveal_strlit("cosh"); assert("sum"@.len() != "cosh"@.len()); }
        reveal_strlit("tanh");
        assert("sum"@ != "tanh"@) by { reveal_strlit("sum"); reveal_strlit("tanh"); assert("sum"@.len() != "tanh"@.len()); }
        reveal_strlit("sin");
        assert("sum"@ != "sin"@) by { reveal_strlit("sum"); reveal_strlit("sin"); assert("sum"@[1] != "sin"@[1]); }
        reveal_strlit("cos");
        assert("sum"@ != "cos"@) by { reveal_strlit("sum"); reveal_strlit("cos"); assert("sum"@[0] != "cos"@[0]); }
        reveal_strlit("tan");
        assert("sum"@ != "tan"@) by { reveal_strlit("sum"); reveal_strlit("tan"); assert("sum"@[0] != "tan"@[0]); }
        reveal_strlit("Diff");
        assert("sum"@ != "Diff"@) by { reveal_strlit("sum"); reveal_strlit("Diff"); assert("sum"@.len() != "Diff"@.len()); }
        reveal_strlit("Derivative");
        assert("sum"@ != "Derivative"@) by { reveal_strlit("sum"); reveal_strlit("Derivative"); assert("sum"@.len() != "Derivative"@.len()); }
        reveal_strlit("Equation");
        assert("sum"@ != "Equation"@) by { reveal_strlit("sum"); reveal_strlit("Equation"); assert("sum"@.len() != "Equation"@.len()); }
        reveal_strlit("BoundaryCondition");
        assert("sum"@ != "BoundaryCondition"@) by { reveal_strlit("sum"); reveal_strlit("BoundaryCondition"); assert("sum"@.len() != "BoundaryCondition"@.len()); }
        reveal_strlit("ODE");
        assert("sum"@ != "ODE"@) by { reveal_strlit("sum"); reveal_strlit("ODE"); assert("sum"@[0] != "ODE"@[0]); }
        reveal_strlit("Integrate");
        assert("sum"@ != "Integrate"@) by { reveal_strlit("sum"); reveal_strlit("Integrate"); assert("sum"@.len() != "Integrate"@.len()); }
        reveal_strlit("Integral");
        assert("sum"@ != "Integral"@) by { reveal_strlit("sum"); reveal_strlit("Integral"); assert("sum"@.len() != "Integral"@.len()); }
        reveal_strlit("IC");
        assert("sum"@ != "IC"@) by { reveal_strlit("sum"); reveal_strlit("IC"); assert("sum"@.len() != "IC"@.len()); }
        reveal_strlit("ClassifyODE");
        assert("sum"@ != "ClassifyODE"@) by { reveal_strlit("sum"); reveal_strlit("ClassifyODE"); assert("sum"@.len() != "ClassifyODE"@.len()); }
        reveal_strlit("SolveODE");
        assert("sum"@ != "SolveODE"@) by { reveal_strlit("sum"); reveal_strlit("SolveODE"); assert("sum"@.len() != "SolveODE"@.len()); }
        reveal_strlit("Inv");
        assert("sum"@ != "Inv"@) by { reveal_strlit("sum"); reveal_strlit("Inv"); assert("sum"@[0] != "Inv"@[0]); }
        reveal_strlit("Simplify");
        assert("sum"@ != "Simplify"@) by { reveal_strlit("sum"); reveal_strlit("Simplify"); assert("sum"@.len() != "Simplify"@.len()); }
        reveal_strlit("diff");
        assert("sum"@ != "diff"@) by { reveal_strlit("sum"); reveal_strlit("diff"); assert("sum"@.len() != "diff"@.len()); }
        reveal_strlit("simplify");
        assert("sum"@ != "simplify"@) by { reveal_strlit("sum"); reveal_strlit("simplify"); assert("sum"@.len() != "simplify"@.len()); }
    }
    assert(call_target_spec("Det"@) == Ok::<CallTarget, Seq<char>>(CallTarget::Det)) by {
        reveal_strlit("Det");
        reveal_strlit("Scalar");
        assert("Det"@ != "Scalar"@) by { reveal_strlit("Det"); reveal_strlit("Scalar"); assert("Det"@.len() != "Scalar"@.len()); }
        reveal_strlit("Var");
        assert("Det"@ != "Var"@) by { reveal_strlit("Det"); reveal_strlit("Var"); assert("Det"@[0] != "Var"@[0]); }
        reveal_strlit("Function");
        assert("Det"@ != "Function"@) by { reveal_strlit("Det"); reveal_strlit("Function"); assert("Det"@.len() != "Function"@.len()); }
        reveal_strlit("Tensor");
        assert("Det"@ != "Tensor"@) by { reveal_strlit("Det"); reveal_strlit("Tensor"); assert("Det"@.len() != "Tensor"@.len()); }
        reveal_strlit("Sum");
        assert("Det"@ != "Sum"@) by { reveal_strlit("Det"); reveal_strlit("Sum"); assert("Det"@[0] != "Sum"@[0]); }
        reveal_strlit("ScalarSet");
        assert("Det"@ != "ScalarSet"@) by { reveal_strlit("Det"); reveal_strlit("ScalarSet"); assert("Det"@.len() != "ScalarSet"@.len()); }
        reveal_strlit("VectorSet");
        assert("Det"@ != "VectorSet"@) by { reveal_strlit("Det"); reveal_strlit("VectorSet"); assert("Det"@.len() != "VectorSet"@.len()); }
        reveal_strlit("Spectral");
        assert("Det"@ != "Spectral"@) by { reveal_strlit("Det"); reveal_strlit("Spectral"); assert("Det"@.len() != "Spectral"@.len()); }
    }
    assert(call_target_spec("det"@) == Ok::<CallTarget, Seq<char>>(CallTarget::Det)) by {
        reveal_strlit("det");
        reveal_strlit("Scalar");
        assert("det"@ != "Scalar"@) by { reveal_strlit("det"); reveal_strlit("Scalar"); assert("det"@.len() != "Scalar"@.len()); }
        reveal_strlit("Var");
        assert("det"@ != "Var"@) by { reveal_strlit("det"); reveal_strlit("Var"); assert("det"@[0] != "Var"@[0]); }
        reveal_strlit("Function");
        assert("det"@ != "Function"@) by { reveal_strlit("det"); reveal_strlit("Function"); assert("det"@.len() != "Function"@.len()); }
        reveal_strlit("Tensor");
        assert("det"@ != "Tensor"@) by { reveal_strlit("det"); reveal_strlit("Tensor"); assert("det"@.len() != "Tensor"@.len()); }
        reveal_strlit("Sum");
        assert("det"@ != "Sum"@) by { reveal_strlit("det"); reveal_strlit("Sum"); assert("det"@[0] != "Sum"@[0]); }
        reveal_strlit("ScalarSet");
        assert("det"@ != "ScalarSet"@) by { reveal_strlit("det"); reveal_strlit("ScalarSet"); assert("det"@.len() != "ScalarSet"@.len()); }
        reveal_strlit("VectorSet");
        assert("det"@ != "VectorSet"@) by { reveal_strlit("det"); reveal_strlit("VectorSet"); assert("det"@.len() != "VectorSet"@.len()); }
        reveal_strlit("Spectral");
        assert("det"@ != "Spectral"@) by { reveal_strlit("det"); reveal_strlit("Spectral"); assert("det"@.len() != "Spectral"@.len()); }
        reveal_strlit("Det");
        assert("det"@ != "Det"@) by { reveal_strlit("det"); reveal_strlit("Det"); assert("det"@[0] != "Det"@[0]); }
        reveal_strlit("Tr");
        assert("det"@ != "Tr"@) by { reveal_strlit("det"); reveal_strlit("Tr"); assert("det"@.len() != "Tr"@.len()); }
        reveal_strlit("log");
        assert("det"@ != "log"@) by { reveal_strlit("det"); reveal_strlit("log"); assert("det"@[0] != "log"@[0]); }
        reveal_strlit("sqrt");
        assert("det"@ != "sqrt"@) by { reveal_strlit("det"); reveal_strlit("sqrt"); assert("det"@.len() != "sqrt"@.len()); }
        reveal_strlit("exp");
        assert("det"@ != "exp"@) by { reveal_strlit("det"); reveal_strlit("exp"); assert("det"@[0] != "exp"@[0]); }
        reveal_strlit("sinh");
        assert("det"@ != "sinh"@) by { reveal_strlit("det"); reveal_strlit("sinh"); assert("det"@.len() != "sinh"@.len()); }
        reveal_strlit("cosh");
        assert("det"@ != "cosh"@) by { reveal_strlit("det"); reveal_strlit("cosh"); assert("det"@.len() != "cosh"@.len()); }
        reveal_strlit("tanh");
        assert("det"@ != "tanh"@) by { reveal_strlit("det"); reveal_strlit("tanh"); assert("det"@.len() != "tanh"@.len()); }
        reveal_strlit("sin");
        assert("det"@ != "sin"@) by { reveal_strlit("det"); reveal_strlit("sin"); assert("det"@[0] != "sin"@[0]); }
        reveal_strlit("cos");
        assert("det"@ != "cos"@) by { reveal_strlit("det"); reveal_strlit("cos"); assert("det"@[0] != "cos"@[0]); }
        reveal_strlit("tan");
        assert("det"@ != "tan"@) by { reveal_strlit("det"); reveal_strlit("tan"); assert("det"@[0] != "tan"@[0]); }
        reveal_strlit("Diff");
        assert("det"@ != "Diff"@) by { reveal_strlit("det"); reveal_strlit("Diff"); assert("det"@.len() != "Diff"@.len()); }
        reveal_strlit("Derivative");
        assert("det"@ != "Derivative"@) by { reveal_strlit("det"); reveal_strlit("Derivative"); assert("det"@.len() != "Derivative"@.len()); }
        reveal_strlit("Equation");
        assert("det"@ != "Equation"@) by { reveal_strlit("det"); reveal_strlit("Equation"); assert("det"@.len() != "Equation"@.len()); }
        reveal_strlit("BoundaryCondition");
        assert("det"@ != "BoundaryCondition"@) by { reveal_strlit("det"); reveal_strlit("BoundaryCondition"); assert("det"@.len() != "BoundaryCondition"@.len()); }
        reveal_strlit("ODE");
        assert("det"@ != "ODE"@) by { reveal_strlit("det"); reveal_strlit("ODE"); assert("det"@[0] != "ODE"@[0]); }
        reveal_strlit("Integrate");
        assert("det"@ != "Integrate"@) by { reveal_strlit("det"); reveal_strlit("Integrate"); assert("det"@.len() != "Integrate"@.len()); }
        reveal_strlit("Integral");
        assert("det"@ != "Integral"@) by { reveal_strlit("det"); reveal_strlit("Integral"); assert("det"@.len() != "Integral"@.len()); }
        reveal_strlit("IC");
        assert("det"@ != "IC"@) by { reveal_strlit("det"); reveal_strlit("IC"); assert("det"@.len() != "IC"@.len()); }
        reveal_strlit("ClassifyODE");
        assert("det"@ != "ClassifyODE"@) by { reveal_strlit("det"); reveal_strlit("ClassifyODE"); assert("det"@.len() != "ClassifyODE"@.len()); }
        reveal_strlit("SolveODE");
        assert("det"@ != "SolveODE"@) by { reveal_strlit("det"); reveal_strlit("SolveODE"); assert("det"@.len() != "SolveODE"@.len()); }
        reveal_strlit("Inv");
        assert("det"@ != "Inv"@) by { reveal_strlit("det"); reveal_strlit("Inv"); assert("det"@[0] != "Inv"@[0]); }
        reveal_strlit("Simplify");
        assert("det"@ != "Simplify"@) by { reveal_strlit("det"); reveal_strlit("Simplify"); assert("det"@.len() != "Simplify"@.len()); }
        reveal_strlit("diff");
        assert("det"@ != "diff"@) by { reveal_strlit("det"); reveal_strlit("diff"); assert("det"@.len() != "diff"@.len()); }
        reveal_strlit("simplify");
        assert("det"@ != "simplify"@) by { reveal_strlit("det"); reveal_strlit("simplify"); assert("det"@.len() != "simplify"@.len()); }
        reveal_strlit("sum");
        assert("det"@ != "sum"@) by { reveal_strlit("det"); reveal_strlit("sum"); assert("det"@[0] != "sum"@[0]); }
    }
    assert(call_target_spec("Tr"@) == Ok::<CallTarget, Seq<char>>(CallTarget::Tr)) by {
        reveal_strlit("Tr");
        reveal_strlit("Scalar");
        assert("Tr"@ != "Scalar"@) by { reveal_strlit("Tr"); reveal_strlit("Scalar"); assert("Tr"@.len() != "Scalar"@.len()); }
        reveal_strlit("Var");
        assert("Tr"@ != "Var"@) by { reveal_strlit("Tr"); reveal_strlit("Var"); assert("Tr"@.len() != "Var"@.len()); }
        reveal_strlit("Function");
        assert("Tr"@ != "Function"@) by { reveal_strlit("Tr"); reveal_strlit("Function"); assert("Tr"@.len() != "Function"@.len()); }
        reveal_strlit("Tensor");
        assert("Tr"@ != "Tensor"@) by { reveal_strlit("Tr"); reveal_strlit("Tensor"); assert("Tr"@.len() != "Tensor"@.len()); }
        reveal_strlit("Sum");
        assert("Tr"@ != "Sum"@) by { reveal_strlit("Tr"); reveal_strlit("Sum"); assert("Tr"@.len() != "Sum"@.len()); }
        reveal_strlit("ScalarSet");
        assert("Tr"@ != "ScalarSet"@) by { reveal_strlit("Tr"); reveal_strlit("ScalarSet"); assert("Tr"@.len() != "ScalarSet"@.len()); }
        reveal_strlit("VectorSet");
        assert("Tr"@ != "VectorSet"@) by { reveal_strlit("Tr"); reveal_strlit("VectorSet"); assert("Tr"@.len() != "VectorSet"@.len()); }
        reveal_strlit("Spectral");
        assert("Tr"@ != "Spectral"@) by { reveal_strlit("Tr"); reveal_strlit("Spectral"); assert("Tr"@.len() != "Spectral"@.len()); }
        reveal_strlit("Det");
        assert("Tr"@ != "Det"@) by { reveal_strlit("Tr"); reveal_strlit("Det"); assert("Tr"@.len() != "Det"@.len()); }
    }
    assert(call_target_spec("tr"@) == Ok::<CallTarget, Seq<char>>(CallTarget::Tr)) by {
        reveal_strlit("tr");
        reveal_strlit("Scalar");
        assert("tr"@ != "Scalar"@) by { reveal_strlit("tr"); reveal_strlit("Scalar"); assert("tr"@.len() != "Scalar"@.len()); }
        reveal_strlit("Var");
        assert("tr"@ != "Var"@) by { reveal_strlit("tr"); reveal_strlit("Var"); assert("tr"@.len() != "Var"@.len()); }
        reveal_strlit("Function");
        assert("tr"@ != "Function"@) by { reveal_strlit("tr"); reveal_strlit("Function"); assert("tr"@.len() != "Function"@.len()); }
        reveal_strlit("Tensor");
        assert("tr"@ != "Tensor"@) by { reveal_strlit("tr"); reveal_strlit("Tensor"); assert("tr"@.len() != "Tensor"@.len()); }
        reveal_strlit("Sum");
        assert("tr"@ != "Sum"@) by { reveal_strlit("tr"); reveal_strlit("Sum"); assert("tr"@.len() != "Sum"@.len()); }
        reveal_strlit("ScalarSet");
        assert("tr"@ != "ScalarSet"@) by { reveal_strlit("tr"); reveal_strlit("ScalarSet"); assert("tr"@.len() != "ScalarSet"@.len()); }
        reveal_strlit("VectorSet");
        assert("tr"@ != "VectorSet"@) by { reveal_strlit("tr"); reveal_strlit("VectorSet"); assert("tr"@.len() != "VectorSet"@.len()); }
        reveal_strlit("Spectral");
        assert("tr"@ != "Spectral"@) by { reveal_strlit("tr"); reveal_strlit("Spectral"); assert("tr"@.len() != "Spectral"@.len()); }
        reveal_strlit("Det");
        assert("tr"@ != "Det"@) by { reveal_strlit("tr"); reveal_strlit("Det"); assert("tr"@.len() != "Det"@.len()); }
        reveal_strlit("Tr");
        assert("tr"@ != "Tr"@) by { reveal_strlit("tr"); reveal_strlit("Tr"); assert("tr"@[0] != "Tr"@[0]); }
        reveal_strlit("log");
        assert("tr"@ != "log"@) by { reveal_strlit("tr"); reveal_strlit("log"); assert("tr"@.len() != "log"@.len()); }
        reveal_strlit("sqrt");
        assert("tr"@ != "sqrt"@) by { reveal_strlit("tr"); reveal_strlit("sqrt"); assert("tr"@.len() != "sqrt"@.len()); }
        reveal_strlit("exp");
        assert("tr"@ != "exp"@) by { reveal_strlit("tr"); reveal_strlit("exp"); assert("tr"@.len() != "exp"@.len()); }
        reveal_strlit("sinh");
        assert("tr"@ != "sinh"@) by { reveal_strlit("tr"); reveal_strlit("sinh"); assert("tr"@.len() != "sinh"@.len()); }
        reveal_strlit("cosh");
        assert("tr"@ != "cosh"@) by { reveal_strlit("tr"); reveal_strlit("cosh"); assert("tr"@.len() != "cosh"@.len()); }
        reveal_strlit("tanh");
        assert("tr"@ != "tanh"@) by { reveal_strlit("tr"); reveal_strlit("tanh"); assert("tr"@.len() != "tanh"@.len()); }
        reveal_strlit("sin");
        assert("tr"@ != "sin"@) by { reveal_strlit("tr"); reveal_strlit("sin"); assert("tr"@.len() != "sin"@.len()); }
        reveal_strlit("cos");
        assert("tr"@ != "cos"@) by { reveal_strlit("tr"); reveal_strlit("cos"); assert("tr"@.len() != "cos"@.len()); }
        reveal_strlit("tan");
        assert("tr"@ != "tan"@) by { reveal_strlit("tr"); reveal_strlit("tan"); assert("tr"@.len() != "tan"@.len()); }
        reveal_strlit("Diff");
        assert("tr"@ != "Diff"@) by { reveal_strlit("tr"); reveal_strlit("Diff"); assert("tr"@.len() != "Diff"@.len()); }
        reveal_strlit("Derivative");
        assert("tr"@ != "Derivative"@) by { reveal_strlit("tr"); reveal_strlit("Derivative"); assert("tr"@.len() != "Derivative"@.len()); }
        reveal_strlit("Equation");
        assert("tr"@ != "Equation"@) by { reveal_strlit("tr"); reveal_strlit("Equation"); assert("tr"@.len() != "Equation"@.len()); }
        reveal_strlit("BoundaryCondition");
        assert("tr"@ != "BoundaryCondition"@) by { reveal_strlit("tr"); reveal_strlit("BoundaryCondition"); assert("tr"@.len() != "BoundaryCondition"@.len()); }
        reveal_strlit("ODE");
        assert("tr"@ != "ODE"@) by { reveal_strlit("tr"); reveal_strlit("ODE"); assert("tr"@.len() != "ODE"@.len()); }
        reveal_strlit("Integrate");
        assert("tr"@ != "Integrate"@) by { reveal_strlit("tr"); reveal_strlit("Integrate"); assert("tr"@.len() != "Integrate"@.len()); }
        reveal_strlit("Integral");
        assert("tr"@ != "Integral"@) by { reveal_strlit("tr"); reveal_strlit("Integral"); assert("tr"@.len() != "Integral"@.len()); }
        reveal_strlit("IC");
        assert("tr"@ != "IC"@) by { reveal_strlit("tr"); reveal_strlit("IC"); assert("tr"@[0] != "IC"@[0]); }
        reveal_strlit("ClassifyODE");
        assert("tr"@ != "ClassifyODE"@) by { reveal_strlit("tr"); reveal_strlit("ClassifyODE"); assert("tr"@.len() != "ClassifyODE"@.len()); }
        reveal_strlit("SolveODE");
        assert("tr"@ != "SolveODE"@) by { reveal_strlit("tr"); reveal_strlit("SolveODE"); assert("tr"@.len() != "SolveODE"@.len()); }
        reveal_strlit("Inv");
        assert("tr"@ != "Inv"@) by { reveal_strlit("tr"); reveal_strlit("Inv"); assert("tr"@.len() != "Inv"@.len()); }
        reveal_strlit("Simplify");
        assert("tr"@ != "Simplify"@) by { reveal_strlit("tr"); reveal_strlit("Simplify"); assert("tr"@.len() != "Simplify"@.len()); }
        reveal_strlit("diff");
        assert("tr"@ != "diff"@) by { reveal_strlit("tr"); reveal_strlit("diff"); assert("tr"@.len() != "diff"@.len()); }
        reveal_strlit("simplify");
        assert("tr"@ != "simplify"@) by { reveal_strlit("tr"); reveal_strlit("simplify"); assert("tr"@.len() != "simplify"@.len()); }
        reveal_strlit("sum");
        assert("tr"@ != "sum"@) by { reveal_strlit("tr"); reveal_strlit("sum"); assert("tr"@.len() != "sum"@.len()); }
        reveal_strlit("det");
        assert("tr"@ != "det"@) by { reveal_strlit("tr"); reveal_strlit("det"); assert("tr"@.len() != "det"@.len()); }
    }
    assert(call_target_spec("Inv"@) == Ok::<CallTarget, Seq<char>>(CallTarget::Inv)) by {
        reveal_strlit("Inv");
        reveal_strlit("Scalar");
        assert("Inv"@ != "Scalar"@) by { reveal_strlit("Inv"); reveal_strlit("Scalar"); assert("Inv"@.len() != "Scalar"@.len()); }
        reveal_strlit("Var");
        assert("Inv"@ != "Var"@) by { reveal_strlit("Inv"); reveal_strlit("Var"); assert("Inv"@[0] != "Var"@[0]); }
        reveal_strlit("Function");
        assert("Inv"@ != "Function"@) by { reveal_strlit("Inv"); reveal_strlit("Function"); assert("Inv"@.len() != "Function"@.len()); }
        reveal_strlit("Tensor");
        assert("Inv"@ != "Tensor"@) by { reveal_strlit("Inv"); reveal_strlit("Tensor"); assert("Inv"@.len() != "Tensor"@.len()); }
        reveal_strlit("Sum");
        assert("Inv"@ != "Sum"@) by { reveal_strlit("Inv"); reveal_strlit("Sum"); assert("Inv"@[0] != "Sum"@[0]); }
        reveal_strlit("ScalarSet");
        assert("Inv"@ != "ScalarSet"@) by { reveal_strlit("Inv"); reveal_strlit("ScalarSet"); assert("Inv"@.len() != "ScalarSet"@.len()); }
        reveal_strlit("VectorSet");
        assert("Inv"@ != "VectorSet"@) by { reveal_strlit("Inv"); reveal_strlit("VectorSet"); assert("Inv"@.len() != "VectorSet"@.len()); }
        reveal_strlit("Spectral");
        assert("Inv"@ != "Spectral"@) by { reveal_strlit("Inv"); reveal_strlit("Spectral"); assert("Inv"@.len() != "Spectral"@.len()); }
        reveal_strlit("Det");
        assert("Inv"@ != "Det"@) by { reveal_strlit("Inv"); reveal_strlit("Det"); assert("Inv"@[0] != "Det"@[0]); }
        reveal_strlit("Tr");
        assert("Inv"@ != "Tr"@) by { reveal_strlit("Inv"); reveal_strlit("Tr"); assert("Inv"@.len() != "Tr"@.len()); }
        reveal_strlit("log");
        assert("Inv"@ != "log"@) by { reveal_strlit("Inv"); reveal_strlit("log"); assert("Inv"@[0] != "log"@[0]); }
        reveal_strlit("sqrt");
        assert("Inv"@ != "sqrt"@) by { reveal_strlit("Inv"); reveal_strlit("sqrt"); assert("Inv"@.len() != "sqrt"@.len()); }
        reveal_strlit("exp");
        assert("Inv"@ != "exp"@) by { reveal_strlit("Inv"); reveal_strlit("exp"); assert("Inv"@[0] != "exp"@[0]); }
        reveal_strlit("sinh");
        assert("Inv"@ != "sinh"@) by { reveal_strlit("Inv"); reveal_strlit("sinh"); assert("Inv"@.len() != "sinh"@.len()); }
        reveal_strlit("cosh");
        assert("Inv"@ != "cosh"@) by { reveal_strlit("Inv"); reveal_strlit("cosh"); assert("Inv"@.len() != "cosh"@.len()); }
        reveal_strlit("tanh");
        assert("Inv"@ != "tanh"@) by { reveal_strlit("Inv"); reveal_strlit("tanh"); assert("Inv"@.len() != "tanh"@.len()); }
        reveal_strlit("sin");
        assert("Inv"@ != "sin"@) by { reveal_strlit("Inv"); reveal_strlit("sin"); assert("Inv"@[0] != "sin"@[0]); }
        reveal_strlit("cos");
        assert("Inv"@ != "cos"@) by { reveal_strlit("Inv"); reveal_strlit("cos"); assert("Inv"@[0] != "cos"@[0]); }
        reveal_strlit("tan");
        assert("Inv"@ != "tan"@) by { reveal_strlit("Inv"); reveal_strlit("tan"); assert("Inv"@[0] != "tan"@[0]); }
        reveal_strlit("Diff");
        assert("Inv"@ != "Diff"@) by { reveal_strlit("Inv"); reveal_strlit("Diff"); assert("Inv"@.len() != "Diff"@.len()); }
        reveal_strlit("Derivative");
        assert("Inv"@ != "Derivative"@) by { reveal_strlit("Inv"); reveal_strlit("Derivative"); assert("Inv"@.len() != "Derivative"@.len()); }
        reveal_strlit("Equation");
        assert("Inv"@ != "Equation"@) by { reveal_strlit("Inv"); reveal_strlit("Equation"); assert("Inv"@.len() != "Equation"@.len()); }
        reveal_strlit("BoundaryCondition");
        assert("Inv"@ != "BoundaryCondition"@) by { reveal_strlit("Inv"); reveal_strlit("BoundaryCondition"); assert("Inv"@.len() != "BoundaryCondition"@.len()); }
        reveal_strlit("ODE");
        assert("Inv"@ != "ODE"@) by { reveal_strlit("Inv"); reveal_strlit("ODE"); assert("Inv"@[0] != "ODE"@[0]); }
        reveal_strlit("Integrate");
        assert("Inv"@ != "Integrate"@) by { reveal_strlit("Inv"); reveal_strlit("Integrate"); assert("Inv"@.len() != "Integrate"@.len()); }
        reveal_strlit("Integral");
        assert("Inv"@ != "Integral"@) by { reveal_strlit("Inv"); reveal_strlit("Integral"); assert("Inv"@.len() != "Integral"@.len()); }
        reveal_strlit("IC");
        assert("Inv"@ != "IC"@) by { reveal_strlit("Inv"); reveal_strlit("IC"); assert("Inv"@.len() != "IC"@.len()); }
        reveal_strlit("ClassifyODE");
        assert("Inv"@ != "ClassifyODE"@) by { reveal_strlit("Inv"); reveal_strlit("ClassifyODE"); assert("Inv"@.len() != "ClassifyODE"@.len()); }
        reveal_strlit("SolveODE");
        assert("Inv"@ != "SolveODE"@) by { reveal_strlit("Inv"); reveal_strlit("SolveODE"); assert("Inv"@.len() != "SolveODE"@.len()); }
    }
    assert(call_target_spec("inv"@) == Ok::<CallTarget, Seq<char>>(CallTarget::Inv)) by {
        reveal_strlit("inv");
        reveal_strlit("Scalar");
        assert("inv"@ != "Scalar"@) by { reveal_strlit("inv"); reveal_strlit("Scalar"); assert("inv"@.len() != "Scalar"@.len()); }
        reveal_strlit("Var");
        assert("inv"@ != "Var"@) by { reveal_strlit("inv"); reveal_strlit("Var"); assert("inv"@[0] != "Var"@[0]); }
        reveal_strlit("Function");
        assert("inv"@ != "Function"@) by { reveal_strlit("inv"); reveal_strlit("Function"); assert("inv"@.len() != "Function"@.len()); }
        reveal_strlit("Tensor");
        assert("inv"@ != "Tensor"@) by { reveal_strlit("inv"); reveal_strlit("Tensor"); assert("inv"@.len() != "Tensor"@.len()); }
        reveal_strlit("Sum");
        assert("inv"@ != "Sum"@) by { reveal_strlit("inv"); reveal_strlit("Sum"); assert("inv"@[0] != "Sum"@[0]); }
        reveal_strlit("ScalarSet");
        assert("inv"@ != "ScalarSet"@) by { reveal_strlit("inv"); reveal_strlit("ScalarSet"); assert("inv"@.len() != "ScalarSet"@.len()); }
        reveal_strlit("VectorSet");
        assert("inv"@ != "VectorSet"@) by { reveal_strlit("inv"); reveal_strlit("VectorSet"); assert("inv"@.len() != "VectorSet"@.len()); }
        reveal_strlit("Spectral");
        assert("inv"@ != "Spectral"@) by { reveal_strlit("inv"); reveal_strlit("Spectral"); assert("inv"@.len() != "Spectral"@.len()); }
        reveal_strlit("Det");
        assert("inv"@ != "Det"@) by { reveal_strlit("inv"); reveal_strlit("Det"); assert("inv"@[0] != "Det"@[0]); }
        reveal_strlit("Tr");
        assert("inv"@ != "Tr"@) by { reveal_strlit("inv"); reveal_strlit("Tr"); assert("inv"@.len() != "Tr"@.len()); }
        reveal_strlit("log");
        assert("inv"@ != "log"@) by { reveal_strlit("inv"); reveal_strlit("log"); assert("inv"@[0] != "log"@[0]); }
        reveal_strlit("sqrt");
        assert("inv"@ != "sqrt"@) by { reveal_strlit("inv"); reveal_strlit("sqrt"); assert("inv"@.len() != "sqrt"@.len()); }
        reveal_strlit("exp");
        assert("inv"@ != "exp"@) by { reveal_strlit("inv"); reveal_strlit("exp"); assert("inv"@[0] != "exp"@[0]); }
        reveal_strlit("sinh");
        assert("inv"@ != "sinh"@) by { reveal_strlit("inv"); reveal_strlit("sinh"); assert("inv"@.len() != "sinh"@.len()); }
        reveal_strlit("cosh");
        assert("inv"@ != "cosh"@) by { reveal_strlit("inv"); reveal_strlit("cosh"); assert("inv"@.len() != "cosh"@.len()); }
        reveal_strlit("tanh");
        assert("inv"@ != "tanh"@) by { reveal_strlit("inv"); reveal_strlit("tanh"); assert("inv"@.len() != "tanh"@.len()); }
        reveal_strlit("sin");
        assert("inv"@ != "sin"@) by { reveal_strlit("inv"); reveal_strlit("sin"); assert("inv"@[0] != "sin"@[0]); }
        reveal_strlit("cos");
        assert("inv"@ != "cos"@) by { reveal_strlit("inv"); reveal_strlit("cos"); assert("inv"@[0] != "cos"@[0]); }
        reveal_strlit("tan");
        assert("inv"@ != "tan"@) by { reveal_strlit("inv"); reveal_strlit("tan"); assert("inv"@[0] != "tan"@[0]); }
        reveal_strlit("Diff");
        assert("inv"@ != "Diff"@) by { reveal_strlit("inv"); reveal_strlit("Diff"); assert("inv"@.len() != "Diff"@.len()); }
        reveal_strlit("Derivative");
        assert("inv"@ != "Derivative"@) by { reveal_strlit("inv"); reveal_strlit("Derivative"); assert("inv"@.len() != "Derivative"@.len()); }
        reveal_strlit("Equation");
        assert("inv"@ != "Equation"@) by { reveal_strlit("inv"); reveal_strlit("Equation"); assert("inv"@.len() != "Equation"@.len()); }
        reveal_strlit("BoundaryCondition");
        assert("inv"@ != "BoundaryCondition"@) by { reveal_strlit("inv"); reveal_strlit("BoundaryCondition"); assert("inv"@.len() != "BoundaryCondition"@.len()); }
        reveal_strlit("ODE");
        assert("inv"@ != "ODE"@) by { reveal_strlit("inv"); reveal_strlit("ODE"); assert("inv"@[0] != "ODE"@[0]); }
        reveal_strlit("Integrate");
        assert("inv"@ != "Integrate"@) by { reveal_strlit("inv"); reveal_strlit("Integrate"); assert("inv"@.len() != "Integrate"@.len()); }
        reveal_strlit("Integral");
        assert("inv"@ != "Integral"@) by { reveal_strlit("inv"); reveal_strlit("Integral"); assert("inv"@.len() != "Integral"@.len()); }
        reveal_strlit("IC");
        assert("inv"@ != "IC"@) by { reveal_strlit("inv"); reveal_strlit("IC"); assert("inv"@.len() != "IC"@.len()); }
        reveal_strlit("ClassifyODE");
        assert("inv"@ != "ClassifyODE"@) by { reveal_strlit("inv"); reveal_strlit("ClassifyODE"); assert("inv"@.len() != "ClassifyODE"@.len()); }
        reveal_strlit("SolveODE");
        assert("inv"@ != "SolveODE"@) by { reveal_strlit("inv"); reveal_strlit("SolveODE"); assert("inv"@.len() != "SolveODE"@.len()); }
        reveal_strlit("Inv");
        assert("inv"@ != "Inv"@) by { reveal_strlit("inv"); reveal_strlit("Inv"); assert("inv"@[0] != "Inv"@[0]); }
        reveal_strlit("Simplify");
        assert("inv"@ != "Simplify"@) by { reveal_strlit("inv"); reveal_strlit("Simplify"); assert("inv"@.len() != "Simplify"@.len()); }
        reveal_strlit("diff");
        assert("inv"@ != "diff"@) by { reveal_strlit("inv"); reveal_strlit("diff"); assert("inv"@.len() != "diff"@.len()); }
        reveal_strlit("simplify");
        assert("inv"@ != "simplify"@) by { reveal_strlit("inv"); reveal_strlit("simplify"); assert("inv"@.len() != "simplify"@.len()); }
        reveal_strlit("sum");
        assert("inv"@ != "sum"@) by { reveal_strlit("inv"); reveal_strlit("sum"); assert("inv"@[0] != "sum"@[0]); }
        reveal_strlit("det");
        assert("inv"@ != "det"@) by { reveal_strlit("inv"); reveal_strlit("det"); assert("inv"@[0] != "det"@[0]); }
        reveal_strlit("tr");
        assert("inv"@ != "tr"@) by { reveal_strlit("inv"); reveal_strlit("tr"); assert("inv"@.len() != "tr"@.len()); }
    }
    assert(call_target_spec("Diff"@) == Ok::<CallTarget, Seq<char>>(CallTarget::Diff)) by {
        reveal_strlit("Diff");
        reveal_strlit("Scalar");
        assert("Diff"@ != "Scalar"@) by { reveal_strlit("Diff"); reveal_strlit("Scalar"); assert("Diff"@.len() != "Scalar"@.len()); }
        reveal_strlit("Var");
        assert("Diff"@ != "Var"@) by { reveal_strlit("Diff"); reveal_strlit("Var"); assert("Diff"@.len() != "Var"@.len()); }
        reveal_strlit("Function");
        assert("Diff"@ != "Function"@) by { reveal_strlit("Diff"); reveal_strlit("Function"); assert("Diff"@.len() != "Function"@.len()); }
        reveal_strlit("Tensor");
        assert("Diff"@ != "Tensor"@) by { reveal_strlit("Diff"); reveal_strlit("Tensor"); assert("Diff"@.len() != "Tensor"@.len()); }
        reveal_strlit("Sum");
        assert("Diff"@ != "Sum"@) by { reveal_strlit("Diff"); reveal_strlit("Sum"); assert("Diff"@.len() != "Sum"@.len()); }
        reveal_strlit("ScalarSet");
        assert("Diff"@ != "ScalarSet"@) by { reveal_strlit("Diff"); reveal_strlit("ScalarSet"); assert("Diff"@.len() != "ScalarSet"@.len()); }
        reveal_strlit("VectorSet");
        assert("Diff"@ != "VectorSet"@) by { reveal_strlit("Diff"); reveal_strlit("VectorSet"); assert("Diff"@.len() != "VectorSet"@.len()); }
        reveal_strlit("Spectral");
        assert("Diff"@ != "Spectral"@) by { reveal_strlit("Diff"); reveal_strlit("Spectral"); assert("Diff"@.len() != "Spectral"@.len()); }
        reveal_strlit("Det");
        assert("Diff"@ != "Det"@) by { reveal_strlit("Diff"); reveal_strlit("Det"); assert("Diff"@.len() != "Det"@.len()); }
        reveal_strlit("Tr");
        assert("Diff"@ != "Tr"@) by { reveal_strlit("Diff"); reveal_strlit("Tr"); assert("Diff"@.len() != "Tr"@.len()); }
        reveal_strlit("log");
        assert("Diff"@ != "log"@) by { reveal_strlit("Diff"); reveal_strlit("log"); assert("Diff"@.len() != "log"@.len()); }
        reveal_strlit("sqrt");
        assert("Diff"@ != "sqrt"@) by { reveal_strlit("Diff"); reveal_strlit("sqrt"); assert("Diff"@[0] != "sqrt"@[0]); }
        reveal_strlit("exp");
        assert("Diff"@ != "exp"@) by { reveal_strlit("Diff"); reveal_strlit("exp"); assert("Diff"@.len() != "exp"@.len()); }
        reveal_strlit("sinh");
        assert("Diff"@ != "sinh"@) by { reveal_strlit("Diff"); reveal_strlit("sinh"); assert("Diff"@[0] != "sinh"@[0]); }
        reveal_strlit("cosh");
        assert("Diff"@ != "cosh"@) by { reveal_strlit("Diff"); reveal_strlit("cosh"); assert("Diff"@[0] != "cosh"@[0]); }
        reveal_strlit("tanh");
        assert("Diff"@ != "tanh"@) by { reveal_strlit("Diff"); reveal_strlit("tanh"); assert("Diff"@[0] != "tanh"@[0]); }
        reveal_strlit("sin");
        assert("Diff"@ != "sin"@) by { reveal_strlit("Diff"); reveal_strlit("sin"); assert("Diff"@.len() != "sin"@.len()); }
        reveal_strlit("cos");
        assert("Diff"@ != "cos"@) by { reveal_strlit("Diff"); reveal_strlit("cos"); assert("Diff"@.len() != "cos"@.len()); }
        reveal_strlit("tan");
        assert("Diff"@ != "tan"@) by { reveal_strlit("Diff"); reveal_strlit("tan"); assert("Diff"@.len() != "tan"@.len()); }
    }
    assert(call_target_spec("diff"@) == Ok::<CallTarget, Seq<char>>(CallTarget::Diff)) by {
        reveal_strlit("diff");
        reveal_strlit("Scalar");
        assert("diff"@ != "Scalar"@) by { reveal_strlit("diff"); reveal_strlit("Scalar"); assert("diff"@.len() != "Scalar"@.len()); }
        reveal_strlit("Var");
        assert("diff"@ != "Var"@) by { reveal_strlit("diff"); reveal_strlit("Var"); assert("diff"@.len() != "Var"@.len()); }
        reveal_strlit("Function");
        assert("diff"@ != "Function"@) by { reveal_strlit("diff"); reveal_strlit("Function"); assert("diff"@.len() != "Function"@.len()); }
        reveal_strlit("Tensor");
        assert("diff"@ != "Tensor"@) by { reveal_strlit("diff"); reveal_strlit("Tensor"); assert("diff"@.len() != "Tensor"@.len()); }
        reveal_strlit("Sum");
        assert("diff"@ != "Sum"@) by { reveal_strlit("diff"); reveal_strlit("Sum"); assert("diff"@.len() != "Sum"@.len()); }
        reveal_strlit("ScalarSet");
        assert("diff"@ != "ScalarSet"@) by { reveal_strlit("diff"); reveal_strlit("ScalarSet"); assert("diff"@.len() != "ScalarSet"@.len()); }
        reveal_strlit("VectorSet");
        assert("diff"@ != "VectorSet"@) by { reveal_strlit("diff"); reveal_strlit("VectorSet"); assert("diff"@.len() != "VectorSet"@.len()); }
        reveal_strlit("Spectral");
        assert("diff"@ != "Spectral"@) by { reveal_strlit("diff"); reveal_strlit("Spectral"); assert("diff"@.len() != "Spectral"@.len()); }
        reveal_strlit("Det");
        assert("diff"@ != "Det"@) by { reveal_strlit("diff"); reveal_strlit("Det"); assert("diff"@.len() != "Det"@.len()); }
        reveal_strlit("Tr");
        assert("diff"@ != "Tr"@) by { reveal_strlit("diff"); reveal_strlit("Tr"); assert("diff"@.len() != "Tr"@.len()); }
        reveal_strlit("log");
        assert("diff"@ != "log"@) by { reveal_strlit("diff"); reveal_strlit("log"); assert("diff"@.len() != "log"@.len()); }
        reveal_strlit("sqrt");
        assert("diff"@ != "sqrt"@) by { reveal_strlit("diff"); reveal_strlit("sqrt"); assert("diff"@[0] != "sqrt"@[0]); }
        reveal_strlit("exp");
        assert("diff"@ != "exp"@) by { reveal_strlit("diff"); reveal_strlit("exp"); assert("diff"@.len() != "exp"@.len()); }
        reveal_strlit("sinh");
        assert("diff"@ != "sinh"@) by { reveal_strlit("diff"); reveal_strlit("sinh"); assert("diff"@[0] != "sinh"@[0]); }
        reveal_strlit("cosh");
        assert("diff"@ != "cosh"@) by { reveal_strlit("diff"); reveal_strlit("cosh"); assert("diff"@[0] != "cosh"@[0]); }
        reveal_strlit("tanh");
        assert("diff"@ != "tanh"@) by { reveal_strlit("diff"); reveal_strlit("tanh"); assert("diff"@[0] != "tanh"@[0]); }
        reveal_strlit("sin");
        assert("diff"@ != "sin"@) by { reveal_strlit("diff"); reveal_strlit("sin"); assert("diff"@.len() != "sin"@.len()); }
        reveal_strlit("cos");
        assert("diff"@ != "cos"@) by { reveal_strlit("diff"); reveal_strlit("cos"); assert("diff"@.len() != "cos"@.len()); }
        reveal_strlit("tan");
        assert("diff"@ != "tan"@) by { reveal_strlit("diff"); reveal_strlit("tan"); assert("diff"@.len() != "tan"@.len()); }
        reveal_strlit("Diff");
        assert("diff"@ != "Diff"@) by { reveal_strlit("diff"); reveal_strlit("Diff"); assert("diff"@[0] != "Diff"@[0]); }
        reveal_strlit("Derivative");
        assert("diff"@ != "Derivative"@) by { reveal_strlit("diff"); reveal_strlit("Derivative"); assert("diff"@.len() != "Derivative"@.len()); }
        reveal_strlit("Equation");
        assert("diff"@ != "Equation"@) by { reveal_strlit("diff"); reveal_strlit("Equation"); assert("diff"@.len() != "Equation"@.len()); }
        reveal_strlit("BoundaryCondition");
        assert("diff"@ != "BoundaryCondition"@) by { reveal_strlit("diff"); reveal_strlit("BoundaryCondition"); assert("diff"@.len() != "BoundaryCondition"@.len()); }
        reveal_strlit("ODE");
        assert("diff"@ != "ODE"@) by { reveal_strlit("diff"); reveal_strlit("ODE"); assert("diff"@.len() != "ODE"@.len()); }
        reveal_strlit("Integrate");
        assert("diff"@ != "Integrate"@) by { reveal_strlit("diff"); reveal_strlit("Integrate"); assert("diff"@.len() != "Integrate"@.len()); }
        reveal_strlit("Integral");
        assert("diff"@ != "Integral"@) by { reveal_strlit("diff"); reveal_strlit("Integral"); assert("diff"@.len() != "Integral"@.len()); }
        reveal_strlit("IC");
        assert("diff"@ != "IC"@) by { reveal_strlit("diff"); reveal_strlit("IC"); assert("diff"@.len() != "IC"@.len()); }
        reveal_strlit("ClassifyODE");
        assert("diff"@ != "ClassifyODE"@) by { reveal_strlit("diff"); reveal_strlit("ClassifyODE"); assert("diff"@.len() != "ClassifyODE"@.len()); }
        reveal_strlit("SolveODE");
        assert("diff"@ != "SolveODE"@) by { reveal_strlit("diff"); reveal_strlit("SolveODE"); assert("diff"@.len() != "SolveODE"@.len()); }
        reveal_strlit("Inv");
        assert("diff"@ != "Inv"@) by { reveal_strlit("diff"); reveal_strlit("Inv"); assert("diff"@.len() != "Inv"@.len()); }
        reveal_strlit("Simplify");
        assert("diff"@ != "Simplify"@) by { reveal_strlit("diff"); reveal_strlit("Simplify"); assert("diff"@.len() != "Simplify"@.len()); }
    }
    assert(call_target_spec("Derivative"@) == Ok::<CallTarget, Seq<char>>(CallTarget::Derivative)) by {
        reveal_strlit("Derivative");
        reveal_strlit("Scalar");
        assert("Derivative"@ != "Scalar"@) by { reveal_strlit("Derivative"); reveal_strlit("Scalar"); assert("Derivative"@.len() != "Scalar"@.len()); }
        reveal_strlit("Var");
        assert("Derivative"@ != "Var"@) by { reveal_strlit("Derivative"); reveal_strlit("Var"); assert("Derivative"@.len() != "Var"@.len()); }
        reveal_strlit("Function");
        assert("Derivative"@ != "Function"@) by { reveal_strlit("Derivative"); reveal_strlit("Function"); assert("Derivative"@.len() != "Function"@.len()); }
        reveal_strlit("Tensor");
        assert("Derivative"@ != "Tensor"@) by { reveal_strlit("Derivative"); reveal_strlit("Tensor"); assert("Derivative"@.len() != "Tensor"@.len()); }
        reveal_strlit("Sum");
        assert("Derivative"@ != "Sum"@) by { reveal_strlit("Derivative"); reveal_strlit("Sum"); assert("Derivative"@.len() != "Sum"@.len()); }
        reveal_strlit("ScalarSet");
        assert("Derivative"@ != "ScalarSet"@) by { reveal_strlit("Derivative"); reveal_strlit("ScalarSet"); assert("Derivative"@.len() != "ScalarSet"@.len()); }
        reveal_strlit("VectorSet");
        assert("Derivative"@ != "VectorSet"@) by { reveal_strlit("Derivative"); reveal_strlit("VectorSet"); assert("Derivative"@.len() != "VectorSet"@.len()); }
        reveal_strlit("Spectral");
        assert("Derivative"@ != "Spectral"@) by { reveal_strlit("Derivative"); reveal_strlit("Spectral"); assert("Derivative"@.len() != "Spectral"@.len()); }
        reveal_strlit("Det");
        assert("Derivative"@ != "Det"@) by { reveal_strlit("Derivative"); reveal_strlit("Det"); assert("Derivative"@.len() != "Det"@.len()); }
        reveal_strlit("Tr");
        assert("Derivative"@ != "Tr"@) by { reveal_strlit("Derivative"); reveal_strlit("Tr"); assert("Derivative"@.len() != "Tr"@.len()); }
        reveal_strlit("log");
        assert("Derivative"@ != "log"@) by { reveal_strlit("Derivative"); reveal_strlit("log"); assert("Derivative"@.len() != "log"@.len()); }
        reveal_strlit("sqrt");
        assert("Derivative"@ != "sqrt"@) by { reveal_strlit("Derivative"); reveal_strlit("sqrt"); assert("Derivative"@.len() != "sqrt"@.len()); }
        reveal_strlit("exp");
        assert("Derivative"@ != "exp"@) by { reveal_strlit("Derivative"); reveal_strlit("exp"); assert("Derivative"@.len() != "exp"@.len()); }
        reveal_strlit("sinh");
        assert("Derivative"@ != "sinh"@) by { reveal_strlit("Derivative"); reveal_strlit("sinh"); assert("Derivative"@.len() != "sinh"@.len()); }
        reveal_strlit("cosh");
        assert("Derivative"@ != "cosh"@) by { reveal_strlit("Derivative"); reveal_strlit("cosh"); assert("Derivative"@.len() != "cosh"@.len()); }
        reveal_strlit("tanh");
        assert("Derivative"@ != "tanh"@) by { reveal_strlit("Derivative"); reveal_strlit("tanh"); assert("Derivative"@.len() != "tanh"@.len()); }
        reveal_strlit("sin");
        assert("Derivative"@ != "sin"@) by { reveal_strlit("Derivative"); reveal_strlit("sin"); assert("Derivative"@.len() != "sin"@.len()); }
        reveal_strlit("cos");
        assert("Derivative"@ != "cos"@) by { reveal_strlit("Derivative"); reveal_strlit("cos"); assert("Derivative"@.len() != "cos"@.len()); }
        reveal_strlit("tan");
        assert("Derivative"@ != "tan"@) by { reveal_strlit("Derivative"); reveal_strlit("tan"); assert("Derivative"@.len() != "tan"@.len()); }
        reveal_strlit("Diff");
        assert("Derivative"@ != "Diff"@) by { reveal_strlit("Derivative"); reveal_strlit("Diff"); assert("Derivative"@.len() != "Diff"@.len()); }
    }
    assert(call_target_spec("Equation"@) == Ok::<CallTarget, Seq<char>>(CallTarget::Equation)) by {
        reveal_strlit("Equation");
        reveal_strlit("Scalar");
        assert("Equation"@ != "Scalar"@) by { reveal_strlit("Equation"); reveal_strlit("Scalar"); assert("Equation"@.len() != "Scalar"@.len()); }
        reveal_strlit("Var");
        assert("Equation"@ != "Var"@) by { reveal_strlit("Equation"); reveal_strlit("Var"); assert("Equation"@.len() != "Var"@.len()); }
        reveal_strlit("Function");
        assert("Equation"@ != "Function"@) by { reveal_strlit("Equation"); reveal_strlit("Function"); assert("Equation"@[0] != "Function"@[0]); }
        reveal_strlit("Tensor");
        assert("Equation"@ != "Tensor"@) by { reveal_strlit("Equation"); reveal_strlit("Tensor"); assert("Equation"@.len() != "Tensor"@.len()); }
        reveal_strlit("Sum");
        assert("Equation"@ != "Sum"@) by { reveal_strlit("Equation"); reveal_strlit("Sum"); assert("Equation"@.len() != "Sum"@.len()); }
        reveal_strlit("ScalarSet");
        assert("Equation"@ != "ScalarSet"@) by { reveal_strlit("Equation"); reveal_strlit("ScalarSet"); assert("Equation"@.len() != "ScalarSet"@.len()); }
        reveal_strlit("VectorSet");
        assert("Equation"@ != "VectorSet"@) by { reveal_strlit("Equation"); reveal_strlit("VectorSet"); assert("Equation"@.len() != "VectorSet"@.len()); }
        reveal_strlit("Spectral");
        assert("Equation"@ != "Spectral"@) by { reveal_strlit("Equation"); reveal_strlit("Spectral"); assert("Equation"@[0] != "Spectral"@[0]); }
        reveal_strlit("Det");
        assert("Equation"@ != "Det"@) by { reveal_strlit("Equation"); reveal_strlit("Det"); assert("Equation"@.len() != "Det"@.len()); }
        reveal_strlit("Tr");
        assert("Equation"@ != "Tr"@) by { reveal_strlit("Equation"); reveal_strlit("Tr"); assert("Equation"@.len() != "Tr"@.len()); }
        reveal_strlit("log");
        assert("Equation"@ != "log"@) by { reveal_strlit("Equation"); reveal_strlit("log"); assert("Equation"@.len() != "log"@.len()); }
        reveal_strlit("sqrt");
        assert("Equation"@ != "sqrt"@) by { reveal_strlit("Equation"); reveal_strlit("sqrt"); assert("Equation"@.len() != "sqrt"@.len()); }
        reveal_strlit("exp");
        assert("Equation"@ != "exp"@) by { reveal_strlit("Equation"); reveal_strlit("exp"); assert("Equation"@.len() != "exp"@.len()); }
        reveal_strlit("sinh");
        assert("Equation"@ != "sinh"@) by { reveal_strlit("Equation"); reveal_strlit("sinh"); assert("Equation"@.len() != "sinh"@.len()); }
        reveal_strlit("cosh");
        assert("Equation"@ != "cosh"@) by { reveal_strlit("Equation"); reveal_strlit("cosh"); assert("Equation"@.len() != "cosh"@.len()); }
        reveal_strlit("tanh");
        assert("Equation"@ != "tanh"@) by { reveal_strlit("Equation"); reveal_strlit("tanh"); assert("Equation"@.len() != "tanh"@.len()); }
        reveal_strlit("sin");
        assert("Equation"@ != "sin"@) by { reveal_strlit("Equation"); reveal_strlit("sin"); assert("Equation"@.len() != "sin"@.len()); }
        reveal_strlit("cos");
        assert("Equation"@ != "cos"@) by { reveal_strlit("Equation"); reveal_strlit("cos"); assert("Equation"@.len() != "cos"@.len()); }
        reveal_strlit("tan");
        assert("Equation"@ != "tan"@) by { reveal_strlit("Equation"); reveal_strlit("tan"); assert("Equation"@.len() != "tan"@.len()); }
        reveal_strlit("Diff");
        assert("Equation"@ != "Diff"@) by { reveal_strlit("Equation"); reveal_strlit("Diff"); assert("Equation"@.len() != "Diff"@.len()); }
        reveal_strlit("Derivative");
        assert("Equation"@ != "Derivative"@) by { reveal_strlit("Equation"); reveal_strlit("Derivative"); assert("Equation"@.len() != "Derivative"@.len()); }
    }
    assert(call_target_spec("BoundaryCondition"@) == Ok::<CallTarget, Seq<char>>(CallTarget::BoundaryCondition)) by {
        reveal_strlit("BoundaryCondition");
        reveal_strlit("Scalar");
        assert("BoundaryCondition"@ != "Scalar"@) by { reveal_strlit("BoundaryCondition"); reveal_strlit("Scalar"); assert("BoundaryCondition"@.len() != "Scalar"@.len()); }
        reveal_strlit("Var");
        assert("BoundaryCondition"@ != "Var"@) by { reveal_strlit("BoundaryCondition"); reveal_strlit("Var"); assert("BoundaryCondition"@.len() != "Var"@.len()); }
        reveal_strlit("Function");
        assert("BoundaryCondition"@ != "Function"@) by { reveal_strlit("BoundaryCondition"); reveal_strlit("Function"); assert("BoundaryCondition"@.len() != "Function"@.len()); }
        reveal_strlit("Tensor");
        assert("BoundaryCondition"@ != "Tensor"@) by { reveal_strlit("BoundaryCondition"); reveal_strlit("Tensor"); assert("BoundaryCondition"@.len() != "Tensor"@.len()); }
        reveal_strlit("Sum");
        assert("BoundaryCondition"@ != "Sum"@) by { reveal_strlit("BoundaryCondition"); reveal_strlit("Sum"); assert("BoundaryCondition"@.len() != "Sum"@.len()); }
        reveal_strlit("ScalarSet");
        assert("BoundaryCondition"@ != "ScalarSet"@) by { reveal_strlit("BoundaryCondition"); reveal_strlit("ScalarSet"); assert("BoundaryCondition"@.len() != "ScalarSet"@.len()); }
        reveal_strlit("VectorSet");
        assert("BoundaryCondition"@ != "VectorSet"@) by { reveal_strlit("BoundaryCondition"); reveal_strlit("VectorSet"); assert("BoundaryCondition"@.len() != "VectorSet"@.len()); }
        reveal_strlit("Spectral");
        assert("BoundaryCondition"@ != "Spectral"@) by { reveal_strlit("BoundaryCondition"); reveal_strlit("Spectral"); assert("BoundaryCondition"@.len() != "Spectral"@.len()); }
        reveal_strlit("Det");
        assert("BoundaryCondition"@ != "Det"@) by { reveal_strlit("BoundaryCondition"); reveal_strlit("Det"); assert("BoundaryCondition"@.len() != "Det"@.len()); }
        reveal_strlit("Tr");
        assert("BoundaryCondition"@ != "Tr"@) by { reveal_strlit("BoundaryCondition"); reveal_strlit("Tr"); assert("BoundaryCondition"@.len() != "Tr"@.len()); }
        reveal_strlit("log");
        assert("BoundaryCondition"@ != "log"@) by { reveal_strlit("BoundaryCondition"); reveal_strlit("log"); assert("BoundaryCondition"@.len() != "log"@.len()); }
        reveal_strlit("sqrt");
        assert("BoundaryCondition"@ != "sqrt"@) by { reveal_strlit("BoundaryCondition"); reveal_strlit("sqrt"); assert("BoundaryCondition"@.len() != "sqrt"@.len()); }
        reveal_strlit("exp");
        assert("BoundaryCondition"@ != "exp"@) by { reveal_strlit("BoundaryCondition"); reveal_strlit("exp"); assert("BoundaryCondition"@.len() != "exp"@.len()); }
        reveal_strlit("sinh");
        assert("BoundaryCondition"@ != "sinh"@) by { reveal_strlit("BoundaryCondition"); reveal_strlit("sinh"); assert("BoundaryCondition"@.len() != "sinh"@.len()); }
        reveal_strlit("cosh");
        assert("BoundaryCondition"@ != "cosh"@) by { reveal_strlit("BoundaryCondition"); reveal_strlit("cosh"); assert("BoundaryCondition"@.len() != "cosh"@.len()); }
        reveal_strlit("tanh");
        assert("BoundaryCondition"@ != "tanh"@) by { reveal_strlit("BoundaryCondition"); reveal_strlit("tanh"); assert("BoundaryCondition"@.len() != "tanh"@.len()); }
        reveal_strlit("sin");
        assert("BoundaryCondition"@ != "sin"@) by { reveal_strlit("BoundaryCondition"); reveal_strlit("sin"); assert("BoundaryCondition"@.len() != "sin"@.len()); }
        reveal_strlit("cos");
        assert("BoundaryCondition"@ != "cos"@) by { reveal_strlit("BoundaryCondition"); reveal_strlit("cos"); assert("BoundaryCondition"@.len() != "cos"@.len()); }
        reveal_strlit("tan");
        assert("BoundaryCondition"@ != "tan"@) by { reveal_strlit("BoundaryCondition"); reveal_strlit("tan"); assert("BoundaryCondition"@.len() != "tan"@.len()); }
        reveal_strlit("Diff");
        assert("BoundaryCondition"@ != "Diff"@) by { reveal_strlit("BoundaryCondition"); reveal_strlit("Diff"); assert("BoundaryCondition"@.len() != "Diff"@.len()); }
        reveal_strlit("Derivative");
        assert("BoundaryCondition"@ != "Derivative"@) by { reveal_strlit("BoundaryCondition"); reveal_strlit("Derivative"); assert("BoundaryCondition"@.len() != "Derivative"@.len()); }
        reveal_strlit("Equation");
        assert("BoundaryCondition"@ != "Equation"@) by { reveal_strlit("BoundaryCondition"); reveal_strlit("Equation"); assert("BoundaryCondition"@.len() != "Equation"@.len()); }
    }
    assert(call_target_spec("ODE"@) == Ok::<CallTarget, Seq<char>>(CallTarget::Ode)) by {
        reveal_strlit("ODE");
        reveal_strlit("Scalar");
        assert("ODE"@ != "Scalar"@) by { reveal_strlit("ODE"); reveal_strlit("Scalar"); assert("ODE"@.len() != "Scalar"@.len()); }
        reveal_strlit("Var");
        assert("ODE"@ != "Var"@) by { reveal_strlit("ODE"); reveal_strlit("Var"); assert("ODE"@[0] != "Var"@[0]); }
        reveal_strlit("Function");
        assert("ODE"@ != "Function"@) by { reveal_strlit("ODE"); reveal_strlit("Function"); assert("ODE"@.len() != "Function"@.len()); }
        reveal_strlit("Tensor");
        assert("ODE"@ != "Tensor"@) by { reveal_strlit("ODE"); reveal_strlit("Tensor"); assert("ODE"@.len() != "Tensor"@.len()); }
        reveal_strlit("Sum");
        assert("ODE"@ != "Sum"@) by { reveal_strlit("ODE"); reveal_strlit("Sum"); assert("ODE"@[0] != "Sum"@[0]); }
        reveal_strlit("ScalarSet");
        assert("ODE"@ != "ScalarSet"@) by { reveal_strlit("ODE"); reveal_strlit("ScalarSet"); assert("ODE"@.len() != "ScalarSet"@.len()); }
        reveal_strlit("VectorSet");
        assert("ODE"@ != "VectorSet"@) by { reveal_strlit("ODE"); reveal_strlit("VectorSet"); assert("ODE"@.len() != "VectorSet"@.len()); }
        reveal_strlit("Spectral");
        assert("ODE"@ != "Spectral"@) by { reveal_strlit("ODE"); reveal_strlit("Spectral"); assert("ODE"@.len() != "Spectral"@.len()); }
        reveal_strlit("Det");
        assert("ODE"@ != "Det"@) by { reveal_strlit("ODE"); reveal_strlit("Det"); assert("ODE"@[0] != "Det"@[0]); }
        reveal_strlit("Tr");
        assert("ODE"@ != "Tr"@) by { reveal_strlit("ODE"); reveal_strlit("Tr"); assert("ODE"@.len() != "Tr"@.len()); }
        reveal_strlit("log");
        assert("ODE"@ != "log"@) by { reveal_strlit("ODE"); reveal_strlit("log"); assert("ODE"@[0] != "log"@[0]); }
        reveal_strlit("sqrt");
        assert("ODE"@ != "sqrt"@) by { reveal_strlit("ODE"); reveal_strlit("sqrt"); assert("ODE"@.len() != "sqrt"@.len()); }
        reveal_strlit("exp");
        assert("ODE"@ != "exp"@) by { reveal_strlit("ODE"); reveal_strlit("exp"); assert("ODE"@[0] != "exp"@[0]); }
        reveal_strlit("sinh");
        assert("ODE"@ != "sinh"@) by { reveal_strlit("ODE"); reveal_strlit("sinh"); assert("ODE"@.len() != "sinh"@.len()); }
        reveal_strlit("cosh");
        assert("ODE"@ != "cosh"@) by { reveal_strlit("ODE"); reveal_strlit("cosh"); assert("ODE"@.len() != "cosh"@.len()); }
        reveal_strlit("tanh");
        assert("ODE"@ != "tanh"@) by { reveal_strlit("ODE"); reveal_strlit("tanh"); assert("ODE"@.len() != "tanh"@.len()); }
        reveal_strlit("sin");
        assert("ODE"@ != "sin"@) by { reveal_strlit("ODE"); reveal_strlit("sin"); assert("ODE"@[0] != "sin"@[0]); }
        reveal_strlit("cos");
        assert("ODE"@ != "cos"@) by { reveal_strlit("ODE"); reveal_strlit("cos"); assert("ODE"@[0] != "cos"@[0]); }
        reveal_strlit("tan");
        assert("ODE"@ != "tan"@) by { reveal_strlit("ODE"); reveal_strlit("tan"); assert("ODE"@[0] != "tan"@[0]); }
        reveal_strlit("Diff");
        assert("ODE"@ != "Diff"@) by { reveal_strlit("ODE"); reveal_strlit("Diff"); assert("ODE"@.len() != "Diff"@.len()); }
        reveal_strlit("Derivative");
        assert("ODE"@ != "Derivative"@) by { reveal_strlit("ODE"); reveal_strlit("Derivative"); assert("ODE"@.len() != "Derivative"@.len()); }
        reveal_strlit("Equation");
        assert("ODE"@ != "Equation"@) by { reveal_strlit("ODE"); reveal_strlit("Equation"); assert("ODE"@.len() != "Equation"@.len()); }
        reveal_strlit("BoundaryCondition");
        assert("ODE"@ != "BoundaryCondition"@) by { reveal_strlit("ODE"); reveal_strlit("BoundaryCondition"); assert("ODE"@.len() != "BoundaryCondition"@.len()); }
    }
    assert(call_target_spec("Integrate"@) == Ok::<CallTarget, Seq<char>>(CallTarget::Integrate)) by {
        reveal_strlit("Integrate");
        reveal_strlit("Scalar");
        assert("Integrate"@ != "Scalar"@) by { reveal_strlit("Integrate"); reveal_strlit("Scalar"); assert("Integrate"@.len() != "Scalar"@.len()); }
        reveal_strlit("Var");
        assert("Integrate"@ != "Var"@) by { reveal_strlit("Integrate"); reveal_strlit("Var"); assert("Integrate"@.len() != "Var"@.len()); }
        reveal_strlit("Function");
        assert("Integrate"@ != "Function"@) by { reveal_strlit("Integrate"); reveal_strlit("Function"); assert("Integrate"@.len() != "Function"@.len()); }
        reveal_strlit("Tensor");
        assert("Integrate"@ != "Tensor"@) by { reveal_strlit("Integrate"); reveal_strlit("Tensor"); assert("Integrate"@.len() != "Tensor"@.len()); }
        reveal_strlit("Sum");
        assert("Integrate"@ != "Sum"@) by { reveal_strlit("Integrate"); reveal_strlit("Sum"); assert("Integrate"@.len() != "Sum"@.len()); }
        reveal_strlit("ScalarSet");
        assert("Integrate"@ != "ScalarSet"@) by { reveal_strlit("Integrate"); reveal_strlit("ScalarSet"); assert("Integrate"@[0] != "ScalarSet"@[0]); }
        reveal_strlit("VectorSet");
        assert("Integrate"@ != "VectorSet"@) by { reveal_strlit("Integrate"); reveal_strlit("VectorSet"); assert("Integrate"@[0] != "VectorSet"@[0]); }
        reveal_strlit("Spectral");
        assert("Integrate"@ != "Spectral"@) by { reveal_strlit("Integrate"); reveal_strlit("Spectral"); assert("Integrate"@.len() != "Spectral"@.len()); }
        reveal_strlit("Det");
        assert("Integrate"@ != "Det"@) by { reveal_strlit("Integrate"); reveal_strlit("Det"); assert("Integrate"@.len() != "Det"@.len()); }
        reveal_strlit("Tr");
        assert("Integrate"@ != "Tr"@) by { reveal_strlit("Integrate"); reveal_strlit("Tr"); assert("Integrate"@.len() != "Tr"@.len()); }
        reveal_strlit("log");
        assert("Integrate"@ != "log"@) by { reveal_strlit("Integrate"); reveal_strlit("log"); assert("Integrate"@.len() != "log"@.len()); }
        reveal_strlit("sqrt");
        assert("Integrate"@ != "sqrt"@) by { reveal_strlit("Integrate"); reveal_strlit("sqrt"); assert("Integrate"@.len() != "sqrt"@.len()); }
        reveal_strlit("exp");
        assert("Integrate"@ != "exp"@) by { reveal_strlit("Integrate"); reveal_strlit("exp"); assert("Integrate"@.len() != "exp"@.len()); }
        reveal_strlit("sinh");
        assert("Integrate"@ != "sinh"@) by { reveal_strlit("Integrate"); reveal_strlit("sinh"); assert("Integrate"@.len() != "sinh"@.len()); }
        reveal_strlit("cosh");
        assert("Integrate"@ != "cosh"@) by { reveal_strlit("Integrate"); reveal_strlit("cosh"); assert("Integrate"@.len() != "cosh"@.len()); }
        reveal_strlit("tanh");
        assert("Integrate"@ != "tanh"@) by { reveal_strlit("Integrate"); reveal_strlit("tanh"); assert("Integrate"@.len() != "tanh"@.len()); }
        reveal_strlit("sin");
        assert("Integrate"@ != "sin"@) by { reveal_strlit("Integrate"); reveal_strlit("sin"); assert("Integrate"@.len() != "sin"@.len()); }
        reveal_strlit("cos");
        assert("Integrate"@ != "cos"@) by { reveal_strlit("Integrate"); reveal_strlit("cos"); assert("Integrate"@.len() != "cos"@.len()); }
        reveal_strlit("tan");
        assert("Integrate"@ != "tan"@) by { reveal_strlit("Integrate"); reveal_strlit("tan"); assert("Integrate"@.len() != "tan"@.len()); }
        reveal_strlit("Diff");
        assert("Integrate"@ != "Diff"@) by { reveal_strlit("Integrate"); reveal_strlit("Diff"); assert("Integrate"@.len() != "Diff"@.len()); }
        reveal_strlit("Derivative");
        assert("Integrate"@ != "Derivative"@) by { reveal_strlit("Integrate"); reveal_strlit("Derivative"); assert("Integrate"@.len() != "Derivative"@.len()); }
        reveal_strlit("Equation");
        assert("Integrate"@ != "Equation"@) by { reveal_strlit("Integrate"); reveal_strlit("Equation"); assert("Integrate"@.len() != "Equation"@.len()); }
        reveal_strlit("BoundaryCondition");
        assert("Integrate"@ != "BoundaryCondition"@) by { reveal_strlit("Integrate"); reveal_strlit("BoundaryCondition"); assert("Integrate"@.len() != "BoundaryCondition"@.len()); }
        reveal_strlit("ODE");
        assert("Integrate"@ != "ODE"@) by { reveal_strlit("Integrate"); reveal_strlit("ODE"); assert("Integrate"@.len() != "ODE"@.len()); }
    }
    assert(call_target_spec("Integral"@) == Ok::<CallTarget, Seq<char>>(CallTarget::Integral)) by {
        reveal_strlit("Integral");
        reveal_strlit("Scalar");
        assert("Integral"@ != "Scalar"@) by { reveal_strlit("Integral"); reveal_strlit("Scalar"); assert("Integral"@.len() != "Scalar"@.len()); }
        reveal_strlit("Var");
        assert("Integral"@ != "Var"@) by { reveal_strlit("Integral"); reveal_strlit("Var"); assert("Integral"@.len() != "Var"@.len()); }
        reveal_strlit("Function");
        assert("Integral"@ != "Function"@) by { reveal_strlit("Integral"); reveal_strlit("Function"); assert("Integral"@[0] != "Function"@[0]); }
        reveal_strlit("Tensor");
        assert("Integral"@ != "Tensor"@) by { reveal_strlit("Integral"); reveal_strlit("Tensor"); assert("Integral"@.len() != "Tensor"@.len()); }
        reveal_strlit("Sum");
        assert("Integral"@ != "Sum"@) by { reveal_strlit("Integral"); reveal_strlit("Sum"); assert("Integral"@.len() != "Sum"@.len()); }
        reveal_strlit("ScalarSet");
        assert("Integral"@ != "ScalarSet"@) by { reveal_strlit("Integral"); reveal_strlit("ScalarSet"); assert("Integral"@.len() != "ScalarSet"@.len()); }
        reveal_strlit("VectorSet");
        assert("Integral"@ != "VectorSet"@) by { reveal_strlit("Integral"); reveal_strlit("VectorSet"); assert("Integral"@.len() != "VectorSet"@.len()); }
        reveal_strlit("Spectral");
        assert("Integral"@ != "Spectral"@) by { reveal_strlit("Integral"); reveal_strlit("Spectral"); assert("Integral"@[0] != "Spectral"@[0]); }
        reveal_strlit("Det");
        assert("Integral"@ != "Det"@) by { reveal_strlit("Integral"); reveal_strlit("Det"); assert("Integral"@.len() != "Det"@.len()); }
        reveal_strlit("Tr");
        assert("Integral"@ != "Tr"@) by { reveal_strlit("Integral"); reveal_strlit("Tr"); assert("Integral"@.len() != "Tr"@.len()); }
        reveal_strlit("log");
        assert("Integral"@ != "log"@) by { reveal_strlit("Integral"); reveal_strlit("log"); assert("Integral"@.len() != "log"@.len()); }
        reveal_strlit("sqrt");
        assert("Integral"@ != "sqrt"@) by { reveal_strlit("Integral"); reveal_strlit("sqrt"); assert("Integral"@.len() != "sqrt"@.len()); }
        reveal_strlit("exp");
        assert("Integral"@ != "exp"@) by { reveal_strlit("Integral"); reveal_strlit("exp"); assert("Integral"@.len() != "exp"@.len()); }
        reveal_strlit("sinh");
        assert("Integral"@ != "sinh"@) by { reveal_strlit("Integral"); reveal_strlit("sinh"); assert("Integral"@.len() != "sinh"@.len()); }
        reveal_strlit("cosh");
        assert("Integral"@ != "cosh"@) by { reveal_strlit("Integral"); reveal_strlit("cosh"); assert("Integral"@.len() != "cosh"@.len()); }
        reveal_strlit("tanh");
        assert("Integral"@ != "tanh"@) by { reveal_strlit("Integral"); reveal_strlit("tanh"); assert("Integral"@.len() != "tanh"@.len()); }
        reveal_strlit("sin");
        assert("Integral"@ != "sin"@) by { reveal_strlit("Integral"); reveal_strlit("sin"); assert("Integral"@.len() != "sin"@.len()); }
        reveal_strlit("cos");
        assert("Integral"@ != "cos"@) by { reveal_strlit("Integral"); reveal_strlit("cos"); assert("Integral"@.len() != "cos"@.len()); }
        reveal_strlit("tan");
        assert("Integral"@ != "tan"@) by { reveal_strlit("Integral"); reveal_strlit("tan"); assert("Integral"@.len() != "tan"@.len()); }
        reveal_strlit("Diff");
        assert("Integral"@ != "Diff"@) by { reveal_strlit("Integral"); reveal_strlit("Diff"); assert("Integral"@.len() != "Diff"@.len()); }
        reveal_strlit("Derivative");
        assert("Integral"@ != "Derivative"@) by { reveal_strlit("Integral"); reveal_strlit("Derivative"); assert("Integral"@.len() != "Derivative"@.len()); }
        reveal_strlit("Equation");
        assert("Integral"@ != "Equation"@) by { reveal_strlit("Integral"); reveal_strlit("Equation"); assert("Integral"@[0] != "Equation"@[0]); }
        reveal_strlit("BoundaryCondition");
        assert("Integral"@ != "BoundaryCondition"@) by { reveal_strlit("Integral"); reveal_strlit("BoundaryCondition"); assert("Integral"@.len() != "BoundaryCondition"@.len()); }
        reveal_strlit("ODE");
        assert("Integral"@ != "ODE"@) by { reveal_strlit("Integral"); reveal_strlit("ODE"); assert("Integral"@.len() != "ODE"@.len()); }
        reveal_strlit("Integrate");
        assert("Integral"@ != "Integrate"@) by { reveal_strlit("Integral"); reveal_strlit("Integrate"); assert("Integral"@.len() != "Integrate"@.len()); }
    }
    assert(call_target_spec("Simplify"@) == Ok::<CallTarget, Seq<char>>(CallTarget::Simplify)) by {
        reveal_strlit("Simplify");
        reveal_strlit("Scalar");
        assert("Simplify"@ != "Scalar"@) by { reveal_strlit("Simplify"); reveal_strlit("Scalar"); assert("Simplify"@.len() != "Scalar"@.len()); }
        reveal_strlit("Var");
        assert("Simplify"@ != "Var"@) by { reveal_strlit("Simplify"); reveal_strlit("Var"); assert("Simplify"@.len() != "Var"@.len()); }
        reveal_strlit("Function");
        assert("Simplify"@ != "Function"@) by { reveal_strlit("Simplify"); reveal_strlit("Function"); assert("Simplify"@[0] != "Function"@[0]); }
        reveal_strlit("Tensor");
        assert("Simplify"@ != "Tensor"@) by { reveal_strlit("Simplify"); reveal_strlit("Tensor"); assert("Simplify"@.len() != "Tensor"@.len()); }
        reveal_strlit("Sum");
        assert("Simplify"@ != "Sum"@) by { reveal_strlit("Simplify"); reveal_strlit("Sum"); assert("Simplify"@.len() != "Sum"@.len()); }
        reveal_strlit("ScalarSet");
        assert("Simplify"@ != "ScalarSet"@) by { reveal_strlit("Simplify"); reveal_strlit("ScalarSet"); assert("Simplify"@.len() != "ScalarSet"@.len()); }
        reveal_strlit("VectorSet");
        assert("Simplify"@ != "VectorSet"@) by { reveal_strlit("Simplify"); reveal_strlit("VectorSet"); assert("Simplify"@.len() != "VectorSet"@.len()); }
        reveal_strlit("Spectral");
        assert("Simplify"@ != "Spectral"@) by { reveal_strlit("Simplify"); reveal_strlit("Spectral"); assert("Simplify"@[1] != "Spectral"@[1]); }
        reveal_strlit("Det");
        assert("Simplify"@ != "Det"@) by { reveal_strlit("Simplify"); reveal_strlit("Det"); assert("Simplify"@.len() != "Det"@.len()); }
        reveal_strlit("Tr");
        assert("Simplify"@ != "Tr"@) by { reveal_strlit("Simplify"); reveal_strlit("Tr"); assert("Simplify"@.len() != "Tr"@.len()); }
        reveal_strlit("log");
        assert("Simplify"@ != "log"@) by { reveal_strlit("Simplify"); reveal_strlit("log"); assert("Simplify"@.len() != "log"@.len()); }
        reveal_strlit("sqrt");
        assert("Simplify"@ != "sqrt"@) by { reveal_strlit("Simplify"); reveal_strlit("sqrt"); assert("Simplify"@.len() != "sqrt"@.len()); }
        reveal_strlit("exp");
        assert("Simplify"@ != "exp"@) by { reveal_strlit("Simplify"); reveal_strlit("exp"); assert("Simplify"@.len() != "exp"@.len()); }
        reveal_strlit("sinh");
        assert("Simplify"@ != "sinh"@) by { reveal_strlit("Simplify"); reveal_strlit("sinh"); assert("Simplify"@.len() != "sinh"@.len()); }
        reveal_strlit("cosh");
        assert("Simplify"@ != "cosh"@) by { reveal_strlit("Simplify"); reveal_strlit("cosh"); assert("Simplify"@.len() != "cosh"@.len()); }
        reveal_strlit("tanh");
        assert("Simplify"@ != "tanh"@) by { reveal_strlit("Simplify"); reveal_strlit("tanh"); assert("Simplify"@.len() != "tanh"@.len()); }
        reveal_strlit("sin");
        assert("Simplify"@ != "sin"@) by { reveal_strlit("Simplify"); reveal_strlit("sin"); assert("Simplify"@.len() != "sin"@.len()); }
        reveal_strlit("cos");
        assert("Simplify"@ != "cos"@) by { reveal_strlit("Simplify"); reveal_strlit("cos"); assert("Simplify"@.len() != "cos"@.len()); }
        reveal_strlit("tan");
        assert("Simplify"@ != "tan"@) by { reveal_strlit("Simplify"); reveal_strlit("tan"); assert("Simplify"@.len() != "tan"@.len()); }
        reveal_strlit("Diff");
        assert("Simplify"@ != "Diff"@) by { reveal_strlit("Simplify"); reveal_strlit("Diff"); assert("Simplify"@.len() != "Diff"@.len()); }
        reveal_strlit("Derivative");
        assert("Simplify"@ != "Derivative"@) by { reveal_strlit("Simplify"); reveal_strlit("Derivative"); assert("Simplify"@.len() != "Derivative"@.len()); }
        reveal_strlit("Equation");
        assert("Simplify"@ != "Equation"@) by { reveal_strlit("Simplify"); reveal_strlit("Equation"); assert("Simplify"@[0] != "Equation"@[0]); }
        reveal_strlit("BoundaryCondition");
        assert("Simplify"@ != "BoundaryCondition"@) by { reveal_strlit("Simplify"); reveal_strlit("BoundaryCondition"); assert("Simplify"@.len() != "BoundaryCondition"@.len()); }
        reveal_strlit("ODE");
        assert("Simplify"@ != "ODE"@) by { reveal_strlit("Simplify"); reveal_strlit("ODE"); assert("Simplify"@.len() != "ODE"@.len()); }
        reveal_strlit("Integrate");
        assert("Simplify"@ != "Integrate"@) by { reveal_strlit("Simplify"); reveal_strlit("Integrate"); assert("Simplify"@.len() != "Integrate"@.len()); }
        reveal_strlit("Integral");
        assert("Simplify"@ != "Integral"@) by { reveal_strlit("Simplify"); reveal_strlit("Integral"); assert("Simplify"@[0] != "Integral"@[0]); }
        reveal_strlit("IC");
        assert("Simplify"@ != "IC"@) by { reveal_strlit("Simplify"); reveal_strlit("IC"); assert("Simplify"@.len() != "IC"@.len()); }
        reveal_strlit("ClassifyODE");
        assert("Simplify"@ != "ClassifyODE"@) by { reveal_strlit("Simplify"); reveal_strlit("ClassifyODE"); assert("Simplify"@.len() != "ClassifyODE"@.len()); }
        reveal_strlit("SolveODE");
        assert("Simplify"@ != "SolveODE"@) by { reveal_strlit("Simplify"); reveal_strlit("SolveODE"); assert("Simplify"@[1] != "SolveODE"@[1]); }
        reveal_strlit("Inv");
        assert("Simplify"@ != "Inv"@) by { reveal_strlit("Simplify"); reveal_strlit("Inv"); assert("Simplify"@.len() != "Inv"@.len()); }
    }
    assert(call_target_spec("simplify"@) == Ok::<CallTarget, Seq<char>>(CallTarget::Simplify)) by {
        reveal_strlit("simplify");
        reveal_strlit("Scalar");
        assert("simplify"@ != "Scalar"@) by { reveal_strlit("simplify"); reveal_strlit("Scalar"); assert("simplify"@.len() != "Scalar"@.len()); }
        reveal_strlit("Var");
        assert("simplify"@ != "Var"@) by { reveal_strlit("simplify"); reveal_strlit("Var"); assert("simplify"@.len() != "Var"@.len()); }
        reveal_strlit("Function");
        assert("simplify"@ != "Function"@) by { reveal_strlit("simplify"); reveal_strlit("Function"); assert("simplify"@[0] != "Function"@[0]); }
        reveal_strlit("Tensor");
        assert("simplify"@ != "Tensor"@) by { reveal_strlit("simplify"); reveal_strlit("Tensor"); assert("simplify"@.len() != "Tensor"@.len()); }
        reveal_strlit("Sum");
        assert("simplify"@ != "Sum"@) by { reveal_strlit("simplify"); reveal_strlit("Sum"); assert("simplify"@.len() != "Sum"@.len()); }
        reveal_strlit("ScalarSet");
        assert("simplify"@ != "ScalarSet"@) by { reveal_strlit("simplify"); reveal_strlit("ScalarSet"); assert("simplify"@.len() != "ScalarSet"@.len()); }
        reveal_strlit("VectorSet");
        assert("simplify"@ != "VectorSet"@) by { reveal_strlit("simplify"); reveal_strlit("VectorSet"); assert("simplify"@.len() != "VectorSet"@.len()); }
        reveal_strlit("Spectral");
        assert("simplify"@ != "Spectral"@) by { reveal_strlit("simplify"); reveal_strlit("Spectral"); assert("simplify"@[0] != "Spectral"@[0]); }
        reveal_strlit("Det");
        assert("simplify"@ != "Det"@) by { reveal_strlit("simplify"); reveal_strlit("Det"); assert("simplify"@.len() != "Det"@.len()); }
        reveal_strlit("Tr");
        assert("simplify"@ != "Tr"@) by { reveal_strlit("simplify"); reveal_strlit("Tr"); assert("simplify"@.len() != "Tr"@.len()); }
        reveal_strlit("log");
        assert("simplify"@ != "log"@) by { reveal_strlit("simplify"); reveal_strlit("log"); assert("simplify"@.len() != "log"@.len()); }
        reveal_strlit("sqrt");
        assert("simplify"@ != "sqrt"@) by { reveal_strlit("simplify"); reveal_strlit("sqrt"); assert("simplify"@.len() != "sqrt"@.len()); }
        reveal_strlit("exp");
        assert("simplify"@ != "exp"@) by { reveal_strlit("simplify"); reveal_strlit("exp"); assert("simplify"@.len() != "exp"@.len()); }
        reveal_strlit("sinh");
        assert("simplify"@ != "sinh"@) by { reveal_strlit("simplify"); reveal_strlit("sinh"); assert("simplify"@.len() != "sinh"@.len()); }
        reveal_strlit("cosh");
        assert("simplify"@ != "cosh"@) by { reveal_strlit("simplify"); reveal_strlit("cosh"); assert("simplify"@.len() != "cosh"@.len()); }
        reveal_strlit("tanh");
        assert("simplify"@ != "tanh"@) by { reveal_strlit("simplify"); reveal_strlit("tanh"); assert("simplify"@.len() != "tanh"@.len()); }
        reveal_strlit("sin");
        assert("simplify"@ != "sin"@) by { reveal_strlit("simplify"); reveal_strlit("sin"); assert("simplify"@.len() != "sin"@.len()); }
        reveal_strlit("cos");
        assert("simplify"@ != "cos"@) by { reveal_strlit("simplify"); reveal_strlit("cos"); assert("simplify"@.len() != "cos"@.len()); }
        reveal_strlit("tan");
        assert("simplify"@ != "tan"@) by { reveal_strlit("simplify"); reveal_strlit("tan"); assert("simplify"@.len() != "tan"@.len()); }
        reveal_strlit("Diff");
        assert("simplify"@ != "Diff"@) by { reveal_strlit("simplify"); reveal_strlit("Diff"); assert("simplify"@.len() != "Diff"@.len()); }
        reveal_strlit("Derivative");
        assert("simplify"@ != "Derivative"@) by { reveal_strlit("simplify"); reveal_strlit("Derivative"); assert("simplify"@.len() != "Derivative"@.len()); }
        reveal_strlit("Equation");
        assert("simplify"@ != "Equation"@) by { reveal_strlit("simplify"); reveal_strlit("Equation"); assert("simplify"@[0] != "Equation"@[0]); }
        reveal_strlit("BoundaryCondition");
        assert("simplify"@ != "BoundaryCondition"@) by { reveal_strlit("simplify"); reveal_strlit("BoundaryCondition"); assert("simplify"@.len() != "BoundaryCondition"@.len()); }
        reveal_strlit("ODE");
        assert("simplify"@ != "ODE"@) by { reveal_strlit("simplify"); reveal_strlit("ODE"); assert("simplify"@.len() != "ODE"@.len()); }
        reveal_strlit("Integrate");
        assert("simplify"@ != "Integrate"@) by { reveal_strlit("simplify"); reveal_strlit("Integrate"); assert("simplify"@.len() != "Integrate"@.len()); }
        reveal_strlit("Integral");
        assert("simplify"@ != "Integral"@) by { reveal_strlit("simplify"); reveal_strlit("Integral"); assert("simplify"@[0] != "Integral"@[0]); }
        reveal_strlit("IC");
        assert("simplify"@ != "IC"@) by { reveal_strlit("simplify"); reveal_strlit("IC"); assert("simplify"@.len() != "IC"@.len()); }
        reveal_strlit("ClassifyODE");
        assert("simplify"@ != "ClassifyODE"@) by { reveal_strlit("simplify"); reveal_strlit("ClassifyODE"); assert("simplify"@.len() != "ClassifyODE"@.len()); }
        reveal_strlit("SolveODE");
        assert("simplify"@ != "SolveODE"@) by { reveal_strlit("simplify"); reveal_strlit("SolveODE"); assert("simplify"@[0] != "SolveODE"@[0]); }
        reveal_strlit("Inv");
        assert("simplify"@ != "Inv"@) by { reveal_strlit("simplify"); reveal_strlit("Inv"); assert("simplify"@.len() != "Inv"@.len()); }
        reveal_strlit("Simplify");
        assert("simplify"@ != "Simplify"@) by { reveal_strlit("simplify"); reveal_strlit("Simplify"); assert("simplify"@[0] != "Simplify"@[0]); }
        reveal_strlit("diff");
        assert("simplify"@ != "diff"@) by { reveal_strlit("simplify"); reveal_strlit("diff"); assert("simplify"@.len() != "diff"@.len()); }
    }
    assert(call_target_spec("dot"@) == Ok::<CallTarget, Seq<char>>(CallTarget::Dot)) by {
        reveal_strlit("dot");
        reveal_strlit("Scalar");
        assert("dot"@ != "Scalar"@) by { reveal_strlit("dot"); reveal_strlit("Scalar"); assert("dot"@.len() != "Scalar"@.len()); }
        reveal_strlit("Var");
        assert("dot"@ != "Var"@) by { reveal_strlit("dot"); reveal_strlit("Var"); assert("dot"@[0] != "Var"@[0]); }
        reveal_strlit("Function");
        assert("dot"@ != "Function"@) by { reveal_strlit("dot"); reveal_strlit("Function"); assert("dot"@.len() != "Function"@.len()); }
        reveal_strlit("Tensor");
        assert("dot"@ != "Tensor"@) by { reveal_strlit("dot"); reveal_strlit("Tensor"); assert("dot"@.len() != "Tensor"@.len()); }
        reveal_strlit("Sum");
        assert("dot"@ != "Sum"@) by { reveal_strlit("dot"); reveal_strlit("Sum"); assert("dot"@[0] != "Sum"@[0]); }
        reveal_strlit("ScalarSet");
        assert("dot"@ != "ScalarSet"@) by { reveal_strlit("dot"); reveal_strlit("ScalarSet"); assert("dot"@.len() != "ScalarSet"@.len()); }
        reveal_strlit("VectorSet");
        assert("dot"@ != "VectorSet"@) by { reveal_strlit("dot"); reveal_strlit("VectorSet"); assert("dot"@.len() != "VectorSet"@.len()); }
        reveal_strlit("Spectral");
        assert("dot"@ != "Spectral"@) by { reveal_strlit("dot"); reveal_strlit("Spectral"); assert("dot"@.len() != "Spectral"@.len()); }
        reveal_strlit("Det");
        assert("dot"@ != "Det"@) by { reveal_strlit("dot"); reveal_strlit("Det"); assert("dot"@[0] != "Det"@[0]); }
        reveal_strlit("Tr");
        assert("dot"@ != "Tr"@) by { reveal_strlit("dot"); reveal_strlit("Tr"); assert("dot"@.len() != "Tr"@.len()); }
        reveal_strlit("log");
        assert("dot"@ != "log"@) by { reveal_strlit("dot"); reveal_strlit("log"); assert("dot"@[0] != "log"@[0]); }
        reveal_strlit("sqrt");
        assert("dot"@ != "sqrt"@) by { reveal_strlit("dot"); reveal_strlit("sqrt"); assert("dot"@.len() != "sqrt"@.len()); }
        reveal_strlit("exp");
        assert("dot"@ != "exp"@) by { reveal_strlit("dot"); reveal_strlit("exp"); assert("dot"@[0] != "exp"@[0]); }
        reveal_strlit("sinh");
        assert("dot"@ != "sinh"@) by { reveal_strlit("dot"); reveal_strlit("sinh"); assert("dot"@.len() != "sinh"@.len()); }
        reveal_strlit("cosh");
        assert("dot"@ != "cosh"@) by { reveal_strlit("dot"); reveal_strlit("cosh"); assert("dot"@.len() != "cosh"@.len()); }
        reveal_strlit("tanh");
        assert("dot"@ != "tanh"@) by { reveal_strlit("dot"); reveal_strlit("tanh"); assert("dot"@.len() != "tanh"@.len()); }
        reveal_strlit("sin");
        assert("dot"@ != "sin"@) by { reveal_strlit("dot"); reveal_strlit("sin"); assert("dot"@[0] != "sin"@[0]); }
        reveal_strlit("cos");
        assert("dot"@ != "cos"@) by { reveal_strlit("dot"); reveal_strlit("cos"); assert("dot"@[0] != "cos"@[0]); }
        reveal_strlit("tan");
        assert("dot"@ != "tan"@) by { reveal_strlit("dot"); reveal_strlit("tan"); assert("dot"@[0] != "tan"@[0]); }
        reveal_strlit("Diff");
        assert("dot"@ != "Diff"@) by { reveal_strlit("dot"); reveal_strlit("Diff"); assert("dot"@.len() != "Diff"@.len()); }
        reveal_strlit("Derivative");
        assert("dot"@ != "Derivative"@) by { reveal_strlit("dot"); reveal_strlit("Derivative"); assert("dot"@.len() != "Derivative"@.len()); }
        reveal_strlit("Equation");
        assert("dot"@ != "Equation"@) by { reveal_strlit("dot"); reveal_strlit("Equation"); assert("dot"@.len() != "Equation"@.len()); }
        reveal_strlit("BoundaryCondition");
        assert("dot"@ != "BoundaryCondition"@) by { reveal_strlit("dot"); reveal_strlit("BoundaryCondition"); assert("dot"@.len() != "BoundaryCondition"@.len()); }
        reveal_strlit("ODE");
        assert("dot"@ != "ODE"@) by { reveal_strlit("dot"); reveal_strlit("ODE"); assert("dot"@[0] != "ODE"@[0]); }
        reveal_strlit("Integrate");
        assert("dot"@ != "Integrate"@) by { reveal_strlit("dot"); reveal_strlit("Integrate"); assert("dot"@.len() != "Integrate"@.len()); }
        reveal_strlit("Integral");
        assert("dot"@ != "Integral"@) by { reveal_strlit("dot"); reveal_strlit("Integral"); assert("dot"@.len() != "Integral"@.len()); }
        reveal_strlit("IC");
        assert("dot"@ != "IC"@) by { reveal_strlit("dot"); reveal_strlit("IC"); assert("dot"@.len() != "IC"@.len()); }
        reveal_strlit("ClassifyODE");
        assert("dot"@ != "ClassifyODE"@) by { reveal_strlit("dot"); reveal_strlit("ClassifyODE"); assert("dot"@.len() != "ClassifyODE"@.len()); }
        reveal_strlit("SolveODE");
        assert("dot"@ != "SolveODE"@) by { reveal_strlit("dot"); reveal_strlit("SolveODE"); assert("dot"@.len() != "SolveODE"@.len()); }
        reveal_strlit("Inv");
        assert("dot"@ != "Inv"@) by { reveal_strlit("dot"); reveal_strlit("Inv"); assert("dot"@[0] != "Inv"@[0]); }
        reveal_strlit("Simplify");
        assert("dot"@ != "Simplify"@) by { reveal_strlit("dot"); reveal_strlit("Simplify"); assert("dot"@.len() != "Simplify"@.len()); }
        reveal_strlit("diff");
        assert("dot"@ != "diff"@) by { reveal_strlit("dot"); reveal_strlit("diff"); assert("dot"@.len() != "diff"@.len()); }
        reveal_strlit("simplify");
        assert("dot"@ != "simplify"@) by { reveal_strlit("dot"); reveal_strlit("simplify"); assert("dot"@.len() != "simplify"@.len()); }
        reveal_strlit("sum");
        assert("dot"@ != "sum"@) by { reveal_strlit("dot"); reveal_strlit("sum"); assert("dot"@[0] != "sum"@[0]); }
        reveal_strlit("det");
        assert("dot"@ != "det"@) by { reveal_strlit("dot"); reveal_strlit("det"); assert("dot"@[1] != "det"@[1]); }
        reveal_strlit("tr");
        assert("dot"@ != "tr"@) by { reveal_strlit("dot"); reveal_strlit("tr"); assert("dot"@.len() != "tr"@.len()); }
        reveal_strlit("inv");
        assert("dot"@ != "inv"@) by { reveal_strlit("dot"); reveal_strlit("inv"); assert("dot"@[0] != "inv"@[0]); }
    }
    assert(call_target_spec("ddot"@) == Ok::<CallTarget, Seq<char>>(CallTarget::Ddot)) by {
        reveal_strlit("ddot");
        reveal_strlit("Scalar");
        assert("ddot"@ != "Scalar"@) by { reveal_strlit("ddot"); reveal_strlit("Scalar"); assert("ddot"@.len() != "Scalar"@.len()); }
        reveal_strlit("Var");
        assert("ddot"@ != "Var"@) by { reveal_strlit("ddot"); reveal_strlit("Var"); assert("ddot"@.len() != "Var"@.len()); }
        reveal_strlit("Function");
        assert("ddot"@ != "Function"@) by { reveal_strlit("ddot"); reveal_strlit("Function"); assert("ddot"@.len() != "Function"@.len()); }
        reveal_strlit("Tensor");
        assert("ddot"@ != "Tensor"@) by { reveal_strlit("ddot"); reveal_strlit("Tensor"); assert("ddot"@.len() != "Tensor"@.len()); }
        reveal_strlit("Sum");
        assert("ddot"@ != "Sum"@) by { reveal_strlit("ddot"); reveal_strlit("Sum"); assert("ddot"@.len() != "Sum"@.len()); }
        reveal_strlit("ScalarSet");
        assert("ddot"@ != "ScalarSet"@) by { reveal_strlit("ddot"); reveal_strlit("ScalarSet"); assert("ddot"@.len() != "ScalarSet"@.len()); }
        reveal_strlit("VectorSet");
        assert("ddot"@ != "VectorSet"@) by { reveal_strlit("ddot"); reveal_strlit("VectorSet"); assert("ddot"@.len() != "VectorSet"@.len()); }
        reveal_strlit("Spectral");
        assert("ddot"@ != "Spectral"@) by { reveal_strlit("ddot"); reveal_strlit("Spectral"); assert("ddot"@.len() != "Spectral"@.len()); }
        reveal_strlit("Det");
        assert("ddot"@ != "Det"@) by { reveal_strlit("ddot"); reveal_strlit("Det"); assert("ddot"@.len() != "Det"@.len()); }
        reveal_strlit("Tr");
        assert("ddot"@ != "Tr"@) by { reveal_strlit("ddot"); reveal_strlit("Tr"); assert("ddot"@.len() != "Tr"@.len()); }
        reveal_strlit("log");
        assert("ddot"@ != "log"@) by { reveal_strlit("ddot"); reveal_strlit("log"); assert("ddot"@.len() != "log"@.len()); }
        reveal_strlit("sqrt");
        assert("ddot"@ != "sqrt"@) by { reveal_strlit("ddot"); reveal_strlit("sqrt"); assert("ddot"@[0] != "sqrt"@[0]); }
        reveal_strlit("exp");
        assert("ddot"@ != "exp"@) by { reveal_strlit("ddot"); reveal_strlit("exp"); assert("ddot"@.len() != "exp"@.len()); }
        reveal_strlit("sinh");
        assert("ddot"@ != "sinh"@) by { reveal_strlit("ddot"); reveal_strlit("sinh"); assert("ddot"@[0] != "sinh"@[0]); }
        reveal_strlit("cosh");
        assert("ddot"@ != "cosh"@) by { reveal_strlit("ddot"); reveal_strlit("cosh"); assert("ddot"@[0] != "cosh"@[0]); }
        reveal_strlit("tanh");
        assert("ddot"@ != "tanh"@) by { reveal_strlit("ddot"); reveal_strlit("tanh"); assert("ddot"@[0] != "tanh"@[0]); }
        reveal_strlit("sin");
        assert("ddot"@ != "sin"@) by { reveal_strlit("ddot"); reveal_strlit("sin"); assert("ddot"@.len() != "sin"@.len()); }
        reveal_strlit("cos");
        assert("ddot"@ != "cos"@) by { reveal_strlit("ddot"); reveal_strlit("cos"); assert("ddot"@.len() != "cos"@.len()); }
        reveal_strlit("tan");
        assert("ddot"@ != "tan"@) by { reveal_strlit("ddot"); reveal_strlit("tan"); assert("ddot"@.len() != "tan"@.len()); }
        reveal_strlit("Diff");
        assert("ddot"@ != "Diff"@) by { reveal_strlit("ddot"); reveal_strlit("Diff"); assert("ddot"@[0] != "Diff"@[0]); }
        reveal_strlit("Derivative");
        assert("ddot"@ != "Derivative"@) by { reveal_strlit("ddot"); reveal_strlit("Derivative"); assert("ddot"@.len() != "Derivative"@.len()); }
        reveal_strlit("Equation");
        assert("ddot"@ != "Equation"@) by { reveal_strlit("ddot"); reveal_strlit("Equation"); assert("ddot"@.len() != "Equation"@.len()); }
        reveal_strlit("BoundaryCondition");
        assert("ddot"@ != "BoundaryCondition"@) by { reveal_strlit("ddot"); reveal_strlit("BoundaryCondition"); assert("ddot"@.len() != "BoundaryCondition"@.len()); }
        reveal_strlit("ODE");
        assert("ddot"@ != "ODE"@) by { reveal_strlit("ddot"); reveal_strlit("ODE"); assert("ddot"@.len() != "ODE"@.len()); }
        reveal_strlit("Integrate");
        assert("ddot"@ != "Integrate"@) by { reveal_strlit("ddot"); reveal_strlit("Integrate"); assert("ddot"@.len() != "Integrate"@.len()); }
        reveal_strlit("Integral");
        assert("ddot"@ != "Integral"@) by { reveal_strlit("ddot"); reveal_strlit("Integral"); assert("ddot"@.len() != "Integral"@.len()); }
        reveal_strlit("IC");
        assert("ddot"@ != "IC"@) by { reveal_strlit("ddot"); reveal_strlit("IC"); assert("ddot"@.len() != "IC"@.len()); }
        reveal_strlit("ClassifyODE");
        assert("ddot"@ != "ClassifyODE"@) by { reveal_strlit("ddot"); reveal_strlit("ClassifyODE"); assert("ddot"@.len() != "ClassifyODE"@.len()); }
        reveal_strlit("SolveODE");
        assert("ddot"@ != "SolveODE"@) by { reveal_strlit("ddot"); reveal_strlit("SolveODE"); assert("ddot"@.len() != "SolveODE"@.len()); }
        reveal_strlit("Inv");
        assert("ddot"@ != "Inv"@) by { reveal_strlit("ddot"); reveal_strlit("Inv"); assert("ddot"@.len() != "Inv"@.len()); }
        reveal_strlit("Simplify");
        assert("ddot"@ != "Simplify"@) by { reveal_strlit("ddot"); reveal_strlit("Simplify"); assert("ddot"@.len() != "Simplify"@.len()); }
        reveal_strlit("diff");
        assert("ddot"@ != "diff"@) by { reveal_strlit("ddot"); reveal_strlit("diff"); assert("ddot"@[1] != "diff"@[1]); }
        reveal_strlit("simplify");
        assert("ddot"@ != "simplify"@) by { reveal_strlit("ddot"); reveal_strlit("simplify"); assert("ddot"@.len() != "simplify"@.len()); }
        reveal_strlit("sum");
        assert("ddot"@ != "sum"@) by { reveal_strlit("ddot"); reveal_strlit("sum"); assert("ddot"@.len() != "sum"@.len()); }
        reveal_strlit("det");
        assert("ddot"@ != "det"@) by { reveal_strlit("ddot"); reveal_strlit("det"); assert("ddot"@.len() != "det"@.len()); }
        reveal_strlit("tr");
        assert("ddot"@ != "tr"@) by { reveal_strlit("ddot"); reveal_strlit("tr"); assert("ddot"@.len() != "tr"@.len()); }
        reveal_strlit("inv");
        assert("ddot"@ != "inv"@) by { reveal_strlit("ddot"); reveal_strlit("inv"); assert("ddot"@.len() != "inv"@.len()); }
        reveal_strlit("dot");
        assert("ddot"@ != "dot"@) by { reveal_strlit("ddot"); reveal_strlit("dot"); assert("ddot"@.len() != "dot"@.len()); }
    }
    assert(call_target_spec("display"@) == Ok::<CallTarget, Seq<char>>(CallTarget::Display)) by {
        reveal_strlit("display");
        reveal_strlit("Scalar");
        assert("display"@ != "Scalar"@) by { reveal_strlit("display"); reveal_strlit("Scalar"); assert("display"@.len() != "Scalar"@.len()); }
        reveal_strlit("Var");
        assert("display"@ != "Var"@) by { reveal_strlit("display"); reveal_strlit("Var"); assert("display"@.len() != "Var"@.len()); }
        reveal_strlit("Function");
        assert("display"@ != "Function"@) by { reveal_strlit("display"); reveal_strlit("Function"); assert("display"@.len() != "Function"@.len()); }
        reveal_strlit("Tensor");
        assert("display"@ != "Tensor"@) by { reveal_strlit("display"); reveal_strlit("Tensor"); assert("display"@.len() != "Tensor"@.len()); }
        reveal_strlit("Sum");
        assert("display"@ != "Sum"@) by { reveal_strlit("display"); reveal_strlit("Sum"); assert("display"@.len() != "Sum"@.len()); }
        reveal_strlit("ScalarSet");
        assert("display"@ != "ScalarSet"@) by { reveal_strlit("display"); reveal_strlit("ScalarSet"); assert("display"@.len() != "ScalarSet"@.len()); }
        reveal_strlit("VectorSet");
        assert("display"@ != "VectorSet"@) by { reveal_strlit("display"); reveal_strlit("VectorSet"); assert("display"@.len() != "VectorSet"@.len()); }
        reveal_strlit("Spectral");
        assert("display"@ != "Spectral"@) by { reveal_strlit("display"); reveal_strlit("Spectral"); assert("display"@.len() != "Spectral"@.len()); }
        reveal_strlit("Det");
        assert("display"@ != "Det"@) by { reveal_strlit("display"); reveal_strlit("Det"); assert("display"@.len() != "Det"@.len()); }
        reveal_strlit("Tr");
        assert("display"@ != "Tr"@) by { reveal_strlit("display"); reveal_strlit("Tr"); assert("display"@.len() != "Tr"@.len()); }
        reveal_strlit("log");
        assert("display"@ != "log"@) by { reveal_strlit("display"); reveal_strlit("log"); assert("display"@.len() != "log"@.len()); }
        reveal_strlit("sqrt");
        assert("display"@ != "sqrt"@) by { reveal_strlit("display"); reveal_strlit("sqrt"); assert("display"@.len() != "sqrt"@.len()); }
        reveal_strlit("exp");
        assert("display"@ != "exp"@) by { reveal_strlit("display"); reveal_strlit("exp"); assert("display"@.len() != "exp"@.len()); }
        reveal_strlit("sinh");
        assert("display"@ != "sinh"@) by { reveal_strlit("display"); reveal_strlit("sinh"); assert("display"@.len() != "sinh"@.len()); }
        reveal_strlit("cosh");
        assert("display"@ != "cosh"@) by { reveal_strlit("display"); reveal_strlit("cosh"); assert("display"@.len() != "cosh"@.len()); }
        reveal_strlit("tanh");
        assert("display"@ != "tanh"@) by { reveal_strlit("display"); reveal_strlit("tanh"); assert("display"@.len() != "tanh"@.len()); }
        reveal_strlit("sin");
        assert("display"@ != "sin"@) by { reveal_strlit("display"); reveal_strlit("sin"); assert("display"@.len() != "sin"@.len()); }
        reveal_strlit("cos");
        assert("display"@ != "cos"@) by { reveal_strlit("display"); reveal_strlit("cos"); assert("display"@.len() != "cos"@.len()); }
        reveal_strlit("tan");
        assert("display"@ != "tan"@) by { reveal_strlit("display"); reveal_strlit("tan"); assert("display"@.len() != "tan"@.len()); }
        reveal_strlit("Diff");
        assert("display"@ != "Diff"@) by { reveal_strlit("display"); reveal_strlit("Diff"); assert("display"@.len() != "Diff"@.len()); }
        reveal_strlit("Derivative");
        assert("display"@ != "Derivative"@) by { reveal_strlit("display"); reveal_strlit("Derivative"); assert("display"@.len() != "Derivative"@.len()); }
        reveal_strlit("Equation");
        assert("display"@ != "Equation"@) by { reveal_strlit("display"); reveal_strlit("Equation"); assert("display"@.len() != "Equation"@.len()); }
        reveal_strlit("BoundaryCondition");
        assert("display"@ != "BoundaryCondition"@) by { reveal_strlit("display"); reveal_strlit("BoundaryCondition"); assert("display"@.len() != "BoundaryCondition"@.len()); }
        reveal_strlit("ODE");
        assert("display"@ != "ODE"@) by { reveal_strlit("display"); reveal_strlit("ODE"); assert("display"@.len() != "ODE"@.len()); }
        reveal_strlit("Integrate");
        assert("display"@ != "Integrate"@) by { reveal_strlit("display"); reveal_strlit("Integrate"); assert("display"@.len() != "Integrate"@.len()); }
        reveal_strlit("Integral");
        assert("display"@ != "Integral"@) by { reveal_strlit("display"); reveal_strlit("Integral"); assert("display"@.len() != "Integral"@.len()); }
        reveal_strlit("IC");
        assert("display"@ != "IC"@) by { reveal_strlit("display"); reveal_strlit("IC"); assert("display"@.len() != "IC"@.len()); }
        reveal_strlit("ClassifyODE");
        assert("display"@ != "ClassifyODE"@) by { reveal_strlit("display"); reveal_strlit("ClassifyODE"); assert("display"@.len() != "ClassifyODE"@.len()); }
        reveal_strlit("SolveODE");
        assert("display"@ != "SolveODE"@) by { reveal_strlit("display"); reveal_strlit("SolveODE"); assert("display"@.len() != "SolveODE"@.len()); }
        reveal_strlit("Inv");
        assert("display"@ != "Inv"@) by { reveal_strlit("display"); reveal_strlit("Inv"); assert("display"@.len() != "Inv"@.len()); }
        reveal_strlit("Simplify");
        assert("display"@ != "Simplify"@) by { reveal_strlit("display"); reveal_strlit("Simplify"); assert("display"@.len() != "Simplify"@.len()); }
        reveal_strlit("diff");
        assert("display"@ != "diff"@) by { reveal_strlit("display"); reveal_strlit("diff"); assert("display"@.len() != "diff"@.len()); }
        reveal_strlit("simplify");
        assert("display"@ != "simplify"@) by { reveal_strlit("display"); reveal_strlit("simplify"); assert("display"@.len() != "simplify"@.len()); }
        reveal_strlit("sum");
        assert("display"@ != "sum"@) by { reveal_strlit("display"); reveal_strlit("sum"); assert("display"@.len() != "sum"@.len()); }
        reveal_strlit("det");
        assert("display"@ != "det"@) by { reveal_strlit("display"); reveal_strlit("det"); assert("display"@.len() != "det"@.len()); }
        reveal_strlit("tr");
        assert("display"@ != "tr"@) by { reveal_strlit("display"); reveal_strlit("tr"); assert("display"@.len() != "tr"@.len()); }
        reveal_strlit("inv");
        assert("display"@ != "inv"@) by { reveal_strlit("display"); reveal_strlit("inv"); assert("display"@.len() != "inv"@.len()); }
        reveal_strlit("dot");
        assert("display"@ != "dot"@) by { reveal_strlit("display"); reveal_strlit("dot"); assert("display"@.len() != "dot"@.len()); }
        reveal_strlit("ddot");
        assert("display"@ != "ddot"@) by { reveal_strlit("display"); reveal_strlit("ddot"); assert("display"@.len() != "ddot"@.len()); }
        reveal_strlit("outer");
        assert("display"@ != "outer"@) by { reveal_strlit("display"); reveal_strlit("outer"); assert("display"@.len() != "outer"@.len()); }
        reveal_strlit("otimes");
        assert("display"@ != "otimes"@) by { reveal_strlit("display"); reveal_strlit("otimes"); assert("display"@.len() != "otimes"@.len()); }
    }
    assert(call_target_spec("export"@) == Ok::<CallTarget, Seq<char>>(CallTarget::Export)) by {
        reveal_strlit("export");
        reveal_strlit("Scalar");
        assert("export"@ != "Scalar"@) by { reveal_strlit("export"); reveal_strlit("Scalar"); assert("export"@[0] != "Scalar"@[0]); }
        reveal_strlit("Var");
        assert("export"@ != "Var"@) by { reveal_strlit("export"); reveal_strlit("Var"); assert("export"@.len() != "Var"@.len()); }
        reveal_strlit("Function");
        assert("export"@ != "Function"@) by { reveal_strlit("export"); reveal_strlit("Function"); assert("export"@.len() != "Function"@.len()); }
        reveal_strlit("Tensor");
        assert("export"@ != "Tensor"@) by { reveal_strlit("export"); reveal_strlit("Tensor"); assert("export"@[0] != "Tensor"@[0]); }
        reveal_strlit("Sum");
        assert("export"@ != "Sum"@) by { reveal_strlit("export"); reveal_strlit("Sum"); assert("export"@.len() != "Sum"@.len()); }
        reveal_strlit("ScalarSet");
        assert("export"@ != "ScalarSet"@) by { reveal_strlit("export"); reveal_strlit("ScalarSet"); assert("export"@.len() != "ScalarSet"@.len()); }
        reveal_strlit("VectorSet");
        assert("export"@ != "VectorSet"@) by { reveal_strlit("export"); reveal_strlit("VectorSet"); assert("export"@.len() != "VectorSet"@.len()); }
        reveal_strlit("Spectral");
        assert("export"@ != "Spectral"@) by { reveal_strlit("export"); reveal_strlit("Spectral"); assert("export"@.len() != "Spectral"@.len()); }
        reveal_strlit("Det");
        assert("export"@ != "Det"@) by { reveal_strlit("export"); reveal_strlit("Det"); assert("export"@.len() != "Det"@.len()); }
        reveal_strlit("Tr");
        assert("export"@ != "Tr"@) by { reveal_strlit("export"); reveal_strlit("Tr"); assert("export"@.len() != "Tr"@.len()); }
        reveal_strlit("log");
        assert("export"@ != "log"@) by { reveal_strlit("export"); reveal_strlit("log"); assert("export"@.len() != "log"@.len()); }
        reveal_strlit("sqrt");
        assert("export"@ != "sqrt"@) by { reveal_strlit("export"); reveal_strlit("sqrt"); assert("export"@.len() != "sqrt"@.len()); }
        reveal_strlit("exp");
        assert("export"@ != "exp"@) by { reveal_strlit("export"); reveal_strlit("exp"); assert("export"@.len() != "exp"@.len()); }
        reveal_strlit("sinh");
        assert("export"@ != "sinh"@) by { reveal_strlit("export"); reveal_strlit("sinh"); assert("export"@.len() != "sinh"@.len()); }
        reveal_strlit("cosh");
        assert("export"@ != "cosh"@) by { reveal_strlit("export"); reveal_strlit("cosh"); assert("export"@.len() != "cosh"@.len()); }
        reveal_strlit("tanh");
        assert("export"@ != "tanh"@) by { reveal_strlit("export"); reveal_strlit("tanh"); assert("export"@.len() != "tanh"@.len()); }
        reveal_strlit("sin");
        assert("export"@ != "sin"@) by { reveal_strlit("export"); reveal_strlit("sin"); assert("export"@.len() != "sin"@.len()); }
        reveal_strlit("cos");
        assert("export"@ != "cos"@) by { reveal_strlit("export"); reveal_strlit("cos"); assert("export"@.len() != "cos"@.len()); }
        reveal_strlit("tan");
        assert("export"@ != "tan"@) by { reveal_strlit("export"); reveal_strlit("tan"); assert("export"@.len() != "tan"@.len()); }
        reveal_strlit("Diff");
        assert("export"@ != "Diff"@) by { reveal_strlit("export"); reveal_strlit("Diff"); assert("export"@.len() != "Diff"@.len()); }
        reveal_strlit("Derivative");
        assert("export"@ != "Derivative"@) by { reveal_strlit("export"); reveal_strlit("Derivative"); assert("export"@.len() != "Derivative"@.len()); }
        reveal_strlit("Equation");
        assert("export"@ != "Equation"@) by { reveal_strlit("export"); reveal_strlit("Equation"); assert("export"@.len() != "Equation"@.len()); }
        reveal_strlit("BoundaryCondition");
        assert("export"@ != "BoundaryCondition"@) by { reveal_strlit("export"); reveal_strlit("BoundaryCondition"); assert("export"@.len() != "BoundaryCondition"@.len()); }
        reveal_strlit("ODE");
        assert("export"@ != "ODE"@) by { reveal_strlit("export"); reveal_strlit("ODE"); assert("export"@.len() != "ODE"@.len()); }
        reveal_strlit("Integrate");
        assert("export"@ != "Integrate"@) by { reveal_strlit("export"); reveal_strlit("Integrate"); assert("export"@.len() != "Integrate"@.len()); }
        reveal_strlit("Integral");
        assert("export"@ != "Integral"@) by { reveal_strlit("export"); reveal_strlit("Integral"); assert("export"@.len() != "Integral"@.len()); }
        reveal_strlit("IC");
        assert("export"@ != "IC"@) by { reveal_strlit("export"); reveal_strlit("IC"); assert("export"@.len() != "IC"@.len()); }
        reveal_strlit("ClassifyODE");
        assert("export"@ != "ClassifyODE"@) by { reveal_strlit("export"); reveal_strlit("ClassifyODE"); assert("export"@.len() != "ClassifyODE"@.len()); }
        reveal_strlit("SolveODE");
        assert("export"@ != "SolveODE"@) by { reveal_strlit("export"); reveal_strlit("SolveODE"); assert("export"@.len() != "SolveODE"@.len()); }
        reveal_strlit("Inv");
        assert("export"@ != "Inv"@) by { reveal_strlit("export"); reveal_strlit("Inv"); assert("export"@.len() != "Inv"@.len()); }
        reveal_strlit("Simplify");
        assert("export"@ != "Simplify"@) by { reveal_strlit("export"); reveal_strlit("Simplify"); assert("export"@.len() != "Simplify"@.len()); }
        reveal_strlit("diff");
        assert("export"@ != "diff"@) by { reveal_strlit("export"); reveal_strlit("diff"); assert("export"@.len() != "diff"@.len()); }
        reveal_strlit("simplify");
        assert("export"@ != "simplify"@) by { reveal_strlit("export"); reveal_strlit("simplify"); assert("export"@.len() != "simplify"@.len()); }
        reveal_strlit("sum");
        assert("export"@ != "sum"@) by { reveal_strlit("export"); reveal_strlit("sum"); assert("export"@.len() != "sum"@.len()); }
        reveal_strlit("det");
        assert("export"@ != "det"@) by { reveal_strlit("export"); reveal_strlit("det"); assert("export"@.len() != "det"@.len()); }
        reveal_strlit("tr");
        assert("export"@ != "tr"@) by { reveal_strlit("export"); reveal_strlit("tr"); assert("export"@.len() != "tr"@.len()); }
        reveal_strlit("inv");
        assert("export"@ != "inv"@) by { reveal_strlit("export"); reveal_strlit("inv"); assert("export"@.len() != "inv"@.len()); }
        reveal_strlit("dot");
        assert("export"@ != "dot"@) by { reveal_strlit("export"); reveal_strlit("dot"); assert("export"@.len() != "dot"@.len()); }
        reveal_strlit("ddot");
        assert("export"@ != "ddot"@) by { reveal_strlit("export"); reveal_strlit("ddot"); assert("export"@.len() != "ddot"@.len()); }
        reveal_strlit("outer");
        assert("export"@ != "outer"@) by { reveal_strlit("export"); reveal_strlit("outer"); assert("export"@.len() != "outer"@.len()); }
        reveal_strlit("otimes");
        assert("export"@ != "otimes"@) by { reveal_strlit("export"); reveal_strlit("otimes"); assert("export"@[0] != "otimes"@[0]); }
        reveal_strlit("display");
        assert("export"@ != "display"@) by { reveal_strlit("export"); reveal_strlit("display"); assert("export"@.len() != "display"@.len()); }
    }
    assert(call_target_spec("log"@) == Ok::<CallTarget, Seq<char>>(CallTarget::ScalarFunction)) by {
        reveal_strlit("log");
        reveal_strlit("Scalar");
        assert("log"@ != "Scalar"@) by { reveal_strlit("log"); reveal_strlit("Scalar"); assert("log"@.len() != "Scalar"@.len()); }
        reveal_strlit("Var");
        assert("log"@ != "Var"@) by { reveal_strlit("log"); reveal_strlit("Var"); assert("log"@[0] != "Var"@[0]); }
        reveal_strlit("Function");
        assert("log"@ != "Function"@) by { reveal_strlit("log"); reveal_strlit("Function"); assert("log"@.len() != "Function"@.len()); }
        reveal_strlit("Tensor");
        assert("log"@ != "Tensor"@) by { reveal_strlit("log"); reveal_strlit("Tensor"); assert("log"@.len() != "Tensor"@.len()); }
        reveal_strlit("Sum");
        assert("log"@ != "Sum"@) by { reveal_strlit("log"); reveal_strlit("Sum"); assert("log"@[0] != "Sum"@[0]); }
        reveal_strlit("ScalarSet");
        assert("log"@ != "ScalarSet"@) by { reveal_strlit("log"); reveal_strlit("ScalarSet"); assert("log"@.len() != "ScalarSet"@.len()); }
        reveal_strlit("VectorSet");
        assert("log"@ != "VectorSet"@) by { reveal_strlit("log"); reveal_strlit("VectorSet"); assert("log"@.len() != "VectorSet"@.len()); }
        reveal_strlit("Spectral");
        assert("log"@ != "Spectral"@) by { reveal_strlit("log"); reveal_strlit("Spectral"); assert("log"@.len() != "Spectral"@.len()); }
        reveal_strlit("Det");
        assert("log"@ != "Det"@) by { reveal_strlit("log"); reveal_strlit("Det"); assert("log"@[0] != "Det"@[0]); }
        reveal_strlit("Tr");
        assert("log"@ != "Tr"@) by { reveal_strlit("log"); reveal_strlit("Tr"); assert("log"@.len() != "Tr"@.len()); }
    }
    assert(call_target_spec("sqrt"@) == Ok::<CallTarget, Seq<char>>(CallTarget::ScalarFunction)) by {
        reveal_strlit("sqrt");
        reveal_strlit("Scalar");
        assert("sqrt"@ != "Scalar"@) by { reveal_strlit("sqrt"); reveal_strlit("Scalar"); assert("sqrt"@.len() != "Scalar"@.len()); }
        reveal_strlit("Var");
        assert("sqrt"@ != "Var"@) by { reveal_strlit("sqrt"); reveal_strlit("Var"); assert("sqrt"@.len() != "Var"@.len()); }
        reveal_strlit("Function");
        assert("sqrt"@ != "Function"@) by { reveal_strlit("sqrt"); reveal_strlit("Function"); assert("sqrt"@.len() != "Function"@.len()); }
        reveal_strlit("Tensor");
        assert("sqrt"@ != "Tensor"@) by { reveal_strlit("sqrt"); reveal_strlit("Tensor"); assert("sqrt"@.len() != "Tensor"@.len()); }
        reveal_strlit("Sum");
        assert("sqrt"@ != "Sum"@) by { reveal_strlit("sqrt"); reveal_strlit("Sum"); assert("sqrt"@.len() != "Sum"@.len()); }
        reveal_strlit("ScalarSet");
        assert("sqrt"@ != "ScalarSet"@) by { reveal_strlit("sqrt"); reveal_strlit("ScalarSet"); assert("sqrt"@.len() != "ScalarSet"@.len()); }
        reveal_strlit("VectorSet");
        assert("sqrt"@ != "VectorSet"@) by { reveal_strlit("sqrt"); reveal_strlit("VectorSet"); assert("sqrt"@.len() != "VectorSet"@.len()); }
        reveal_strlit("Spectral");
        assert("sqrt"@ != "Spectral"@) by { reveal_strlit("sqrt"); reveal_strlit("Spectral"); assert("sqrt"@.len() != "Spectral"@.len()); }
        reveal_strlit("Det");
        assert("sqrt"@ != "Det"@) by { reveal_strlit("sqrt"); reveal_strlit("Det"); assert("sqrt"@.len() != "Det"@.len()); }
        reveal_strlit("Tr");
        assert("sqrt"@ != "Tr"@) by { reveal_strlit("sqrt"); reveal_strlit("Tr"); assert("sqrt"@.len() != "Tr"@.len()); }
        reveal_strlit("log");
        assert("sqrt"@ != "log"@) by { reveal_strlit("sqrt"); reveal_strlit("log"); assert("sqrt"@.len() != "log"@.len()); }
    }
    assert(call_target_spec("exp"@) == Ok::<CallTarget, Seq<char>>(CallTarget::ScalarFunction)) by {
        reveal_strlit("exp");
        reveal_strlit("Scalar");
        assert("exp"@ != "Scalar"@) by { reveal_strlit("exp"); reveal_strlit("Scalar"); assert("exp"@.len() != "Scalar"@.len()); }
        reveal_strlit("Var");
        assert("exp"@ != "Var"@) by { reveal_strlit("exp"); reveal_strlit("Var"); assert("exp"@[0] != "Var"@[0]); }
        reveal_strlit("Function");
        assert("exp"@ != "Function"@) by { reveal_strlit("exp"); reveal_strlit("Function"); assert("exp"@.len() != "Function"@.len()); }
        reveal_strlit("Tensor");
        assert("exp"@ != "Tensor"@) by { reveal_strlit("exp"); reveal_strlit("Tensor"); assert("exp"@.len() != "Tensor"@.len()); }
        reveal_strlit("Sum");
        assert("exp"@ != "Sum"@) by { reveal_strlit("exp"); reveal_strlit("Sum"); assert("exp"@[0] != "Sum"@[0]); }
        reveal_strlit("ScalarSet");
        assert("exp"@ != "ScalarSet"@) by { reveal_strlit("exp"); reveal_strlit("ScalarSet"); assert("exp"@.len() != "ScalarSet"@.len()); }
        reveal_strlit("VectorSet");
        assert("exp"@ != "VectorSet"@) by { reveal_strlit("exp"); reveal_strlit("VectorSet"); assert("exp"@.len() != "VectorSet"@.len()); }
        reveal_strlit("Spectral");
        assert("exp"@ != "Spectral"@) by { reveal_strlit("exp"); reveal_strlit("Spectral"); assert("exp"@.len() != "Spectral"@.len()); }
        reveal_strlit("Det");
        assert("exp"@ != "Det"@) by { reveal_strlit("exp"); reveal_strlit("Det"); assert("exp"@[0] != "Det"@[0]); }
        reveal_strlit("Tr");
        assert("exp"@ != "Tr"@) by { reveal_strlit("exp"); reveal_strlit("Tr"); assert("exp"@.len() != "Tr"@.len()); }
        reveal_strlit("log");
        assert("exp"@ != "log"@) by { reveal_strlit("exp"); reveal_strlit("log"); assert("exp"@[0] != "log"@[0]); }
        reveal_strlit("sqrt");
        assert("exp"@ != "sqrt"@) by { reveal_strlit("exp"); reveal_strlit("sqrt"); assert("exp"@.len() != "sqrt"@.len()); }
    }
}

} // verus!
