//! Syntactic checks and labels that the interpreter applies to parsed
//! expressions before evaluating them: `.show(...)` modes and headers,
//! boolean and solve-method keyword arguments, renamed builtins, operator
//! names, default display labels and set declarations.

use vstd::prelude::*;
use crate::ast::{BinOp, Expr, ExprModel, UnOp, expr_model, exprs_model, kwargs_model};
use crate::error::{Error, ErrorModel};
use crate::ode::{SolveMethod, method_named};
use crate::text::{chars_of, concat_str, decimal, decimal_string, join, str_eq, strings_view};

verus! {

/// What `.show(...)` arguments select: the mode, or the error message.
pub open spec fn show_mode_spec(args: Seq<ExprModel>, kwargs_len: nat) -> Result<Seq<char>, Seq<char>> {
    if kwargs_len > 0 {
        Err("`.show(...)` takes an optional positional mode; use `A.show(matrix)`, not `mode=`"@)
    } else if args.len() == 0 {
        Ok("symbol"@)
    } else if args.len() == 1 {
        match args[0] {
            ExprModel::Ident(m) => Ok(m),
            ExprModel::Str(m) => Ok(m),
            _ => Err(
                "`.show(...)` mode must be a bare identifier such as `matrix` or `classification`"@,
            ),
        }
    } else {
        Err(
            "`.show(...)` takes at most one mode, such as `symbol`, `matrix`, `classification`, or `methods`"@,
        )
    }
}

/// Lifts a message result to one with a library error (no line).
pub open spec fn with_error<T>(r: Result<T, Seq<char>>) -> Result<T, ErrorModel> {
    match r {
        Ok(v) => Ok(v),
        Err(m) => Err(ErrorModel { message: m, line: None }),
    }
}

pub open spec fn string_result_view(r: Result<String, Error>) -> Result<Seq<char>, ErrorModel> {
    match r {
        Ok(s) => Ok(s@),
        Err(e) => Err(e@),
    }
}

/// The display mode `.show(...)` asks for: none means `symbol`; one bare
/// identifier or string names it; keyword arguments and anything else are
/// refused.
pub fn show_mode(args: &Vec<Expr>, kwargs: &Vec<(String, Expr)>) -> (r: Result<String, Error>)
    ensures
        string_result_view(r) == with_error(show_mode_spec(exprs_model(args@), kwargs@.len())),
{
    proof {
        crate::ast::lemma_exprs_model_index(args@);
    }
    if kwargs.len() > 0 {
        return Err(
            Error::msg(
                String::from_str(
                    "`.show(...)` takes an optional positional mode; use `A.show(matrix)`, not `mode=`",
                ),
            ),
        );
    }
    if args.len() == 0 {
        return Ok(String::from_str("symbol"));
    }
    if args.len() == 1 {
        return match &args[0] {
            Expr::Ident(m) => Ok(m.clone()),
            Expr::Str(m) => Ok(m.clone()),
            _ => Err(
                Error::msg(
                    String::from_str(
                        "`.show(...)` mode must be a bare identifier such as `matrix` or `classification`",
                    ),
                ),
            ),
        };
    }
    Err(
        Error::msg(
            String::from_str(
                "`.show(...)` takes at most one mode, such as `symbol`, `matrix`, `classification`, or `methods`",
            ),
        ),
    )
}

/// The header of a `.show(...)` output: `A.show()` when no mode was
/// written, `A.show(mode)` otherwise.
pub open spec fn show_header_spec(subject: Seq<char>, mode: Seq<char>, implicit_symbol: bool) -> Seq<char> {
    if implicit_symbol {
        subject + ".show()"@
    } else {
        subject + ".show("@ + mode + ")"@
    }
}

pub fn show_header(subject: &str, mode: &str, implicit_symbol: bool) -> (s: String)
    ensures
        s@ == show_header_spec(subject@, mode@, implicit_symbol),
{
    if implicit_symbol {
        concat_str(subject, ".show()")
    } else {
        let mut s = concat_str(subject, ".show(");
        s.append(mode);
        s.append(")");
        s
    }
}

/// The error for a builtin that was renamed.
pub open spec fn renamed_message(old: Seq<char>, new: Seq<char>) -> Seq<char> {
    "`"@ + old + "(...)` was renamed; use `"@ + new + "(...)`"@
}

pub fn renamed_builtin_error(old: &str, new: &str) -> (e: Error)
    ensures
        e@ == (ErrorModel { message: renamed_message(old@, new@), line: None }),
{
    let mut m = concat_str("`", old);
    m.append("(...)` was renamed; use `");
    m.append(new);
    m.append("(...)`");
    Error::msg(m)
}

/// The source symbol of a binary operator.
pub open spec fn op_symbol(op: BinOp) -> Seq<char> {
    match op {
        BinOp::Add => "+"@,
        BinOp::Sub => "-"@,
        BinOp::Mul => "*"@,
        BinOp::Div => "/"@,
        BinOp::Pow => "^"@,
        BinOp::Outer => "&"@,
        BinOp::Ddot => ":"@,
    }
}

pub fn op_name(op: BinOp) -> (s: &'static str)
    ensures
        s@ == op_symbol(op),
{
    match op {
        BinOp::Add => "+",
        BinOp::Sub => "-",
        BinOp::Mul => "*",
        BinOp::Div => "/",
        BinOp::Pow => "^",
        BinOp::Outer => "&",
        BinOp::Ddot => ":",
    }
}

/// A boolean keyword argument: a `true`/`false` literal, else an error
/// naming the argument.
pub fn expect_bool(expr: &Expr, what: &str) -> (r: Result<bool, Error>)
    ensures
        match expr@ {
            ExprModel::Bool(b) => r == Ok::<bool, Error>(b),
            _ => r is Err && r->Err_0@ == (ErrorModel {
                message: "`"@ + what@ + "` must be true or false"@,
                line: None,
            }),
        },
{
    match expr {
        Expr::Bool(b) => Ok(*b),
        _ => {
            let mut m = concat_str("`", what);
            m.append("` must be true or false");
            Err(Error::msg(m))
        },
    }
}

pub open spec fn bad_method_form_message() -> Seq<char> {
    "`method` must be one of auto, linear, separable, exact, characteristic, undetermined, variation, power_series, or frobenius"@
}

pub open spec fn unknown_method_message(name: Seq<char>) -> Seq<char> {
    "unknown ODE solve method `"@ + name
        + "`; expected auto, linear, separable, exact, characteristic, undetermined, variation, power_series, or frobenius"@
}

/// The solve method a `method=` argument names.
pub open spec fn solve_method_spec(e: ExprModel) -> Result<SolveMethod, Seq<char>> {
    match e {
        ExprModel::Ident(name) => match method_named(name) {
            Some(m) => Ok(m),
            None => Err(unknown_method_message(name)),
        },
        ExprModel::Str(name) => match method_named(name) {
            Some(m) => Ok(m),
            None => Err(unknown_method_message(name)),
        },
        _ => Err(bad_method_form_message()),
    }
}

pub fn expect_solve_method(expr: &Expr) -> (r: Result<SolveMethod, Error>)
    ensures
        match r {
            Ok(m) => solve_method_spec(expr@) == Ok::<SolveMethod, Seq<char>>(m),
            Err(e) => solve_method_spec(expr@) is Err && e@ == (ErrorModel {
                message: solve_method_spec(expr@)->Err_0,
                line: None,
            }),
        },
{
    let name = match expr {
        Expr::Ident(name) => name.as_str(),
        Expr::Str(name) => name.as_str(),
        _ => {
            return Err(
                Error::msg(
                    String::from_str(
                        "`method` must be one of auto, linear, separable, exact, characteristic, undetermined, variation, power_series, or frobenius",
                    ),
                ),
            );
        },
    };
    match SolveMethod::parse(name) {
        Some(m) => Ok(m),
        None => {
            let mut msg = concat_str("unknown ODE solve method `", name);
            msg.append(
                "`; expected auto, linear, separable, exact, characteristic, undetermined, variation, power_series, or frobenius",
            );
            Err(Error::msg(msg))
        },
    }
}

/// The default display label of a one-letter tensor name: blackboard bold
/// for fourth-order tensors, bold otherwise.
pub open spec fn default_tensor_label_spec(name: Seq<char>, order: nat) -> Seq<char> {
    if order == 4 {
        "\\mathbb "@ + name
    } else {
        "\\bm "@ + name
    }
}

pub fn default_tensor_label(name: &str, order: usize) -> (s: String)
    ensures
        s@ == default_tensor_label_spec(name@, order as nat),
{
    if order == 4 {
        concat_str("\\mathbb ", name)
    } else {
        concat_str("\\bm ", name)
    }
}

/// `{\lambda}_{a}\quad \text{with }a=1,2,3`: how a set declaration shows.
pub open spec fn set_decl_spec(latex: Seq<char>, dim: nat) -> Seq<char> {
    "{"@ + latex + "}_{a}\\quad \\text{with }a="@ + join(
        Seq::new(dim, |i: int| decimal((i + 1) as nat)),
        ","@,
    )
}

pub fn render_set_decl(latex: &str, dim: usize) -> (s: String)
    ensures
        s@ == set_decl_spec(latex@, dim as nat),
{
    let mut values = String::new();
    let mut i: usize = 0;
    while i < dim
        invariant
            i <= dim,
            values@ == join(Seq::new(i as nat, |k: int| decimal((k + 1) as nat)), ","@),
        decreases dim - i,
    {
        let ghost prev = Seq::new(i as nat, |k: int| decimal((k + 1) as nat));
        let ghost next = Seq::new((i + 1) as nat, |k: int| decimal((k + 1) as nat));
        assert(next.drop_last() == prev);
        if i != 0 {
            values.append(",");
        }
        let d = decimal_string(i + 1);
        values.append(d.as_str());
        i = i + 1;
    }
    let mut s = concat_str("{", latex);
    s.append("}_{a}\\quad \\text{with }a=");
    s.append(values.as_str());
    s
}


/// The position of the first `.` of `s`, or its length.
pub open spec fn dot_index(s: Seq<char>) -> nat
    decreases s.len(),
{
    if s.len() == 0 || s[0] == '.' {
        0
    } else {
        1 + dot_index(s.drop_first())
    }
}

pub open spec fn strip_leading_zeros(s: Seq<char>) -> Seq<char>
    decreases s.len(),
{
    if s.len() > 0 && s[0] == '0' {
        strip_leading_zeros(s.drop_first())
    } else {
        s
    }
}

pub open spec fn strip_trailing_zeros(s: Seq<char>) -> Seq<char>
    decreases s.len(),
{
    if s.len() > 0 && s.last() == '0' {
        strip_trailing_zeros(s.drop_last())
    } else {
        s
    }
}

/// The canonical form of a numeral: its integer digits without leading
/// zeros and its fraction digits without trailing zeros. Two numerals
/// denote the same number exactly when their canonical forms are equal.
pub open spec fn numeral_canon(s: Seq<char>) -> (Seq<char>, Seq<char>) {
    let d = dot_index(s);
    (
        strip_leading_zeros(s.take(d as int)),
        strip_trailing_zeros(if d < s.len() { s.skip(d + 1 as int) } else { Seq::empty() }),
    )
}

proof fn lemma_dot_index(s: Seq<char>, i: int)
    requires
        0 <= i <= dot_index(s),
    ensures
        dot_index(s) <= s.len(),
        dot_index(s) == i + dot_index(s.skip(i)),
        forall|j: int| 0 <= j < i ==> s[j] != '.',
        dot_index(s) < s.len() ==> s[dot_index(s) as int] == '.',
    decreases s.len(),
{
    if s.len() > 0 && s[0] != '.' {
        if i > 0 {
            lemma_dot_index(s.drop_first(), i - 1);
            assert(s.drop_first().skip(i - 1) =~= s.skip(i));
            assert forall|j: int| 0 <= j < i implies s[j] != '.' by {
                if j > 0 {
                    assert(s[j] == s.drop_first()[j - 1]);
                }
            }
        } else {
            lemma_dot_index(s.drop_first(), 0);
            assert(s.skip(0) =~= s);
        }
        if dot_index(s) < s.len() {
            assert(s[dot_index(s) as int] == s.drop_first()[dot_index(s.drop_first()) as int]);
        }
    } else {
        assert(s.skip(0) =~= s);
    }
}

/// Whether two numerals denote the same number (see [`numeral_canon`]).
pub fn numerals_equal(x: &str, y: &str) -> (r: bool)
    ensures
        r == (numeral_canon(x@) == numeral_canon(y@)),
{
    let a = chars_of(x);
    let b = chars_of(y);
    let (ai, aj, af, ak) = numeral_bounds(&a);
    let (bi, bj, bf, bk) = numeral_bounds(&b);
    proof {
        assert(numeral_canon(a@).0 == a@.subrange(ai as int, aj as int));
        assert(numeral_canon(b@).0 == b@.subrange(bi as int, bj as int));
        assert(numeral_canon(a@).1 == a@.subrange(af as int, ak as int));
        assert(numeral_canon(b@).1 == b@.subrange(bf as int, bk as int));
    }
    range_pair_eq(&a, ai, aj, &b, bi, bj) && range_pair_eq(&a, af, ak, &b, bf, bk)
}

/// Whether `a[ai..aj]` and `b[bi..bj]` are equal.
fn range_pair_eq(a: &Vec<char>, ai: usize, aj: usize, b: &Vec<char>, bi: usize, bj: usize) -> (r: bool)
    requires
        ai <= aj <= a@.len(),
        bi <= bj <= b@.len(),
    ensures
        r == (a@.subrange(ai as int, aj as int) == b@.subrange(bi as int, bj as int)),
{
    if aj - ai != bj - bi {
        assert(a@.subrange(ai as int, aj as int).len() != b@.subrange(bi as int, bj as int).len());
        return false;
    }
    let ghost sa = a@.subrange(ai as int, aj as int);
    let ghost sb = b@.subrange(bi as int, bj as int);
    let mut k: usize = 0;
    while k < aj - ai
        invariant
            ai <= aj <= a@.len(),
            bi <= bj <= b@.len(),
            aj - ai == bj - bi,
            k <= aj - ai,
            sa == a@.subrange(ai as int, aj as int),
            sb == b@.subrange(bi as int, bj as int),
            forall|m: int| 0 <= m < k ==> #[trigger] sa[m] == sb[m],
        decreases aj - ai - k,
    {
        assert(sa[k as int] == a@[ai + k]);
        assert(sb[k as int] == b@[bi + k]);
        if a[ai + k] != b[bi + k] {
            return false;
        }
        k = k + 1;
    }
    assert(sa =~= sb);
    true
}

/// The bounds of the canonical parts of a numeral: integer digits
/// `s[r.0..r.1]`, fraction digits `s[r.2..r.3]`.
pub(crate) fn numeral_bounds(s: &Vec<char>) -> (r: (usize, usize, usize, usize))
    ensures
        r.0 <= r.1 <= s@.len(),
        r.2 <= r.3 <= s@.len(),
        numeral_canon(s@).0 == s@.subrange(r.0 as int, r.1 as int),
        numeral_canon(s@).1 == s@.subrange(r.2 as int, r.3 as int),
{
    let ghost d = dot_index(s@);
    proof {
        lemma_dot_index(s@, 0);
    }
    let mut i: usize = 0;
    while i < s.len() && s[i] != '.'
        invariant
            d == dot_index(s@),
            d <= s@.len(),
            i <= d,
            d < s@.len() ==> s@[d as int] == '.',
        decreases s.len() - i,
    {
        proof {
            lemma_dot_index(s@, i as int);
            if i == d {
                assert(false);
            }
        }
        i = i + 1;
    }
    proof {
        lemma_dot_index(s@, d as int);
        if i < d {
            assert(s@[i as int] != '.');
        }
    }
    assert(i == d);
    let ghost int_part = s@.take(d as int);
    let mut a: usize = 0;
    assert(int_part == s@.subrange(0, d as int));
    while a < i && s[a] == '0'
        invariant
            i == d,
            a <= i <= s@.len(),
            int_part == s@.take(d as int),
            strip_leading_zeros(int_part) == strip_leading_zeros(s@.subrange(a as int, i as int)),
        decreases i - a,
    {
        assert(s@.subrange(a as int, i as int).drop_first() =~= s@.subrange(a + 1, i as int));
        a = a + 1;
    }
    assert(strip_leading_zeros(s@.subrange(a as int, i as int)) == s@.subrange(a as int, i as int));
    let f: usize = if i < s.len() {
        i + 1
    } else {
        s.len()
    };
    let ghost frac = if d < s@.len() {
        s@.skip(d + 1 as int)
    } else {
        Seq::<char>::empty()
    };
    assert(frac =~= s@.subrange(f as int, s@.len() as int));
    let mut e: usize = s.len();
    while e > f && s[e - 1] == '0'
        invariant
            f <= e <= s@.len(),
            strip_trailing_zeros(frac) == strip_trailing_zeros(s@.subrange(f as int, e as int)),
        decreases e,
    {
        assert(s@.subrange(f as int, e as int).drop_last() =~= s@.subrange(f as int, e - 1));
        e = e - 1;
    }
    assert(strip_trailing_zeros(s@.subrange(f as int, e as int)) == s@.subrange(f as int, e as int));
    (a, i, f, e)
}

/// Expression equality: structural, with numerals compared by the number
/// they denote.
pub open spec fn same_expr(a: ExprModel, b: ExprModel) -> bool
    decreases a,
{
    match (a, b) {
        (ExprModel::Num(x), ExprModel::Num(y)) => numeral_canon(x) == numeral_canon(y),
        (ExprModel::Str(x), ExprModel::Str(y)) => x == y,
        (ExprModel::Bool(x), ExprModel::Bool(y)) => x == y,
        (ExprModel::Ident(x), ExprModel::Ident(y)) => x == y,
        (ExprModel::Unary { op: o1, expr: e1 }, ExprModel::Unary { op: o2, expr: e2 }) => o1 == o2
            && same_expr(*e1, *e2),
        (
            ExprModel::Binary { op: o1, lhs: l1, rhs: r1 },
            ExprModel::Binary { op: o2, lhs: l2, rhs: r2 },
        ) => o1 == o2 && same_expr(*l1, *l2) && same_expr(*r1, *r2),
        (ExprModel::Field { target: t1, name: n1 }, ExprModel::Field { target: t2, name: n2 }) => n1
            == n2 && same_expr(*t1, *t2),
        (
            ExprModel::MethodCall { target: t1, method: m1, args: a1, kwargs: k1 },
            ExprModel::MethodCall { target: t2, method: m2, args: a2, kwargs: k2 },
        ) => m1 == m2 && same_expr(*t1, *t2) && same_exprs(a1, a2) && same_kwargs(k1, k2),
        (
            ExprModel::Call { callee: c1, args: a1, kwargs: k1 },
            ExprModel::Call { callee: c2, args: a2, kwargs: k2 },
        ) => c1 == c2 && same_exprs(a1, a2) && same_kwargs(k1, k2),
        (ExprModel::Index { target: t1, index: i1 }, ExprModel::Index { target: t2, index: i2 }) =>
            same_expr(*t1, *t2) && same_expr(*i1, *i2),
        _ => false,
    }
}

/// [`same_expr`] position by position.
pub open spec fn same_exprs(a: Seq<ExprModel>, b: Seq<ExprModel>) -> bool
    decreases a,
{
    if a.len() != b.len() {
        false
    } else if a.len() == 0 {
        true
    } else {
        same_expr(a[0], b[0]) && same_exprs(a.drop_first(), b.drop_first())
    }
}

/// Equal keys and [`same_expr`] values, position by position.
pub open spec fn same_kwargs(a: Seq<(Seq<char>, ExprModel)>, b: Seq<(Seq<char>, ExprModel)>) -> bool
    decreases a,
{
    if a.len() != b.len() {
        false
    } else if a.len() == 0 {
        true
    } else {
        a[0].0 == b[0].0 && same_expr(a[0].1, b[0].1) && same_kwargs(a.drop_first(), b.drop_first())
    }
}

/// Whether two expressions are the same (see [`same_expr`]).
pub fn expr_eq(a: &Expr, b: &Expr) -> (r: bool)
    ensures
        r == same_expr(a@, b@),
    decreases a,
{
    match (a, b) {
        (Expr::Num(x), Expr::Num(y)) => numerals_equal(x.as_str(), y.as_str()),
        (Expr::Str(x), Expr::Str(y)) => str_eq(x.as_str(), y.as_str()),
        (Expr::Bool(x), Expr::Bool(y)) => *x == *y,
        (Expr::Ident(x), Expr::Ident(y)) => str_eq(x.as_str(), y.as_str()),
        (Expr::Unary { op: o1, expr: e1 }, Expr::Unary { op: o2, expr: e2 }) => {
            let same_op = match (o1, o2) {
                (UnOp::Neg, UnOp::Neg) => true,
            };
            same_op && expr_eq(e1, e2)
        },
        (Expr::Binary { op: o1, lhs: l1, rhs: r1 }, Expr::Binary { op: o2, lhs: l2, rhs: r2 }) => {
            binop_eq(*o1, *o2) && expr_eq(l1, l2) && expr_eq(r1, r2)
        },
        (Expr::Field { target: t1, name: n1 }, Expr::Field { target: t2, name: n2 }) => {
            str_eq(n1.as_str(), n2.as_str()) && expr_eq(t1, t2)
        },
        (
            Expr::MethodCall { target: t1, method: m1, args: a1, kwargs: k1 },
            Expr::MethodCall { target: t2, method: m2, args: a2, kwargs: k2 },
        ) => {
            str_eq(m1.as_str(), m2.as_str()) && expr_eq(t1, t2) && exprs_eq(a1, a2) && kwargs_eq(
                k1,
                k2,
            )
        },
        (
            Expr::Call { callee: c1, args: a1, kwargs: k1 },
            Expr::Call { callee: c2, args: a2, kwargs: k2 },
        ) => { str_eq(c1.as_str(), c2.as_str()) && exprs_eq(a1, a2) && kwargs_eq(k1, k2) },
        (Expr::Index { target: t1, index: i1 }, Expr::Index { target: t2, index: i2 }) => {
            expr_eq(t1, t2) && expr_eq(i1, i2)
        },
        _ => false,
    }
}

/// Whether two operators are the same.
pub fn binop_eq(a: BinOp, b: BinOp) -> (r: bool)
    ensures
        r == (a == b),
{
    match (a, b) {
        (BinOp::Add, BinOp::Add) => true,
        (BinOp::Sub, BinOp::Sub) => true,
        (BinOp::Mul, BinOp::Mul) => true,
        (BinOp::Div, BinOp::Div) => true,
        (BinOp::Pow, BinOp::Pow) => true,
        (BinOp::Outer, BinOp::Outer) => true,
        (BinOp::Ddot, BinOp::Ddot) => true,
        _ => false,
    }
}

/// Element-wise equality of two argument lists (see [`same_exprs`]).
pub fn exprs_eq(a: &Vec<Expr>, b: &Vec<Expr>) -> (r: bool)
    ensures
        r == same_exprs(exprs_model(a@), exprs_model(b@)),
    decreases a,
{
    let ghost am = exprs_model(a@);
    let ghost bm = exprs_model(b@);
    proof {
        crate::ast::lemma_exprs_model_index(a@);
        crate::ast::lemma_exprs_model_index(b@);
    }
    if a.len() != b.len() {
        return false;
    }
    let mut i: usize = 0;
    assert(am.skip(0) =~= am && bm.skip(0) =~= bm);
    while i < a.len()
        invariant
            a@.len() == b@.len(),
            i <= a@.len(),
            am == exprs_model(a@),
            bm == exprs_model(b@),
            am.len() == a@.len(),
            bm.len() == b@.len(),
            forall|k: int| 0 <= k < a@.len() ==> #[trigger] am[k] == expr_model(a@[k]),
            forall|k: int| 0 <= k < b@.len() ==> #[trigger] bm[k] == expr_model(b@[k]),
            same_exprs(am, bm) == same_exprs(am.skip(i as int), bm.skip(i as int)),
        decreases a.len() - i,
    {
        assert(decreases_to!(a => a@[i as int]));
        assert(am.skip(i as int).drop_first() =~= am.skip(i + 1));
        assert(bm.skip(i as int).drop_first() =~= bm.skip(i + 1));
        assert(am.skip(i as int)[0] == am[i as int]);
        assert(bm.skip(i as int)[0] == bm[i as int]);
        if !expr_eq(&a[i], &b[i]) {
            return false;
        }
        i = i + 1;
    }
    true
}

/// Pair-wise equality of two keyword-argument lists (see
/// [`same_kwargs`]).
pub fn kwargs_eq(a: &Vec<(String, Expr)>, b: &Vec<(String, Expr)>) -> (r: bool)
    ensures
        r == same_kwargs(kwargs_model(a@), kwargs_model(b@)),
    decreases a,
{
    let ghost am = kwargs_model(a@);
    let ghost bm = kwargs_model(b@);
    proof {
        crate::ast::lemma_kwargs_model_index(a@);
        crate::ast::lemma_kwargs_model_index(b@);
    }
    if a.len() != b.len() {
        return false;
    }
    let mut i: usize = 0;
    assert(am.skip(0) =~= am && bm.skip(0) =~= bm);
    while i < a.len()
        invariant
            a@.len() == b@.len(),
            i <= a@.len(),
            am == kwargs_model(a@),
            bm == kwargs_model(b@),
            am.len() == a@.len(),
            bm.len() == b@.len(),
            forall|k: int| 0 <= k < a@.len() ==> #[trigger] am[k] == (a@[k].0@, expr_model(a@[k].1)),
            forall|k: int| 0 <= k < b@.len() ==> #[trigger] bm[k] == (b@[k].0@, expr_model(b@[k].1)),
            same_kwargs(am, bm) == same_kwargs(am.skip(i as int), bm.skip(i as int)),
        decreases a.len() - i,
    {
        assert(decreases_to!(a => a@[i as int].1));
        assert(am.skip(i as int).drop_first() =~= am.skip(i + 1));
        assert(bm.skip(i as int).drop_first() =~= bm.skip(i + 1));
        assert(am.skip(i as int)[0] == am[i as int]);
        assert(bm.skip(i as int)[0] == bm[i as int]);
        let same_key = str_eq(a[i].0.as_str(), b[i].0.as_str());
        if !same_key || !expr_eq(&a[i].1, &b[i].1) {
            return false;
        }
        i = i + 1;
    }
    true
}

/// Whether `candidate` is `base.T`.
pub open spec fn is_transpose_of_spec(candidate: ExprModel, base: ExprModel) -> bool {
    match candidate {
        ExprModel::Field { target, name } => name == "T"@ && same_expr(*target, base),
        _ => false,
    }
}

pub fn is_transpose_of(candidate: &Expr, base: &Expr) -> (r: bool)
    ensures
        r == is_transpose_of_spec(candidate@, base@),
{
    match candidate {
        Expr::Field { target, name } => str_eq(name.as_str(), "T") && expr_eq(target, base),
        _ => false,
    }
}

/// Whether a definition reads `A.T * A` or `A * A.T`: such products are
/// displayed as written rather than expanded.
pub open spec fn is_transpose_product_spec(e: ExprModel) -> bool {
    match e {
        ExprModel::Binary { op, lhs, rhs } => op == BinOp::Mul && (is_transpose_of_spec(*lhs, *rhs)
            || is_transpose_of_spec(*rhs, *lhs)),
        _ => false,
    }
}

pub fn is_raw_transpose_product_definition(expr: &Expr) -> (r: bool)
    ensures
        r == is_transpose_product_spec(expr@),
{
    match expr {
        Expr::Binary { op: BinOp::Mul, lhs, rhs } => is_transpose_of(lhs, rhs) || is_transpose_of(
            rhs,
            lhs,
        ),
        _ => false,
    }
}

/// Whether an expression's value is a derived display result: it names a
/// variable listed in `derived`, or takes a derivative (`Diff`), anywhere
/// inside.
pub open spec fn derived_spec(e: ExprModel, derived: Seq<Seq<char>>) -> bool
    decreases e,
{
    match e {
        ExprModel::Ident(n) => derived.contains(n),
        ExprModel::Unary { expr, .. } => derived_spec(*expr, derived),
        ExprModel::Binary { lhs, rhs, .. } => derived_spec(*lhs, derived) || derived_spec(*rhs, derived),
        ExprModel::Field { target, .. } => derived_spec(*target, derived),
        ExprModel::Index { target, index } => derived_spec(*target, derived) || derived_spec(
            *index,
            derived,
        ),
        ExprModel::MethodCall { target, args, kwargs, .. } => derived_spec(*target, derived)
            || any_derived(args, derived) || any_kwarg_value_derived(kwargs, derived),
        ExprModel::Call { callee, args, kwargs } => callee == "Diff"@ || any_derived(args, derived)
            || any_kwarg_value_derived(kwargs, derived),
        _ => false,
    }
}

/// Whether some argument is a derived display result.
pub open spec fn any_derived(args: Seq<ExprModel>, derived: Seq<Seq<char>>) -> bool
    decreases args,
{
    if args.len() == 0 {
        false
    } else {
        derived_spec(args[0], derived) || any_derived(args.drop_first(), derived)
    }
}

/// Whether some keyword value is a derived display result.
pub open spec fn any_kwarg_value_derived(kwargs: Seq<(Seq<char>, ExprModel)>, derived: Seq<Seq<char>>) -> bool
    decreases kwargs,
{
    if kwargs.len() == 0 {
        false
    } else {
        derived_spec(kwargs[0].1, derived) || any_kwarg_value_derived(kwargs.drop_first(), derived)
    }
}

fn listed_name(derived: &Vec<String>, n: &str) -> (r: bool)
    ensures
        r == strings_view(derived@).contains(n@),
{
    let ghost v = strings_view(derived@);
    let mut i: usize = 0;
    while i < derived.len()
        invariant
            i <= derived.len(),
            v == strings_view(derived@),
            forall|k: int| 0 <= k < i ==> v[k] != n@,
        decreases derived.len() - i,
    {
        if str_eq(derived[i].as_str(), n) {
            assert(v[i as int] == n@);
            return true;
        }
        i = i + 1;
    }
    false
}

/// Whether an expression is a derived display result (see
/// [`derived_spec`]).
pub fn is_derived_expr(expr: &Expr, derived: &Vec<String>) -> (r: bool)
    ensures
        r == derived_spec(expr@, strings_view(derived@)),
    decreases expr,
{
    match expr {
        Expr::Ident(n) => listed_name(derived, n.as_str()),
        Expr::Unary { expr, .. } => is_derived_expr(expr, derived),
        Expr::Binary { lhs, rhs, .. } => is_derived_expr(lhs, derived) || is_derived_expr(rhs, derived),
        Expr::Field { target, .. } => is_derived_expr(target, derived),
        Expr::Index { target, index } => is_derived_expr(target, derived) || is_derived_expr(
            index,
            derived,
        ),
        Expr::MethodCall { target, args, kwargs, .. } => {
            is_derived_expr(target, derived) || any_arg_derived(args, derived) || any_kwarg_derived(
                kwargs,
                derived,
            )
        },
        Expr::Call { callee, args, kwargs } => {
            str_eq(callee.as_str(), "Diff") || any_arg_derived(args, derived) || any_kwarg_derived(
                kwargs,
                derived,
            )
        },
        _ => false,
    }
}

fn any_arg_derived(args: &Vec<Expr>, derived: &Vec<String>) -> (r: bool)
    ensures
        r == any_derived(exprs_model(args@), strings_view(derived@)),
    decreases args,
{
    let ghost d = strings_view(derived@);
    let ghost am = exprs_model(args@);
    proof {
        crate::ast::lemma_exprs_model_index(args@);
    }
    let mut i: usize = 0;
    assert(am.skip(0) =~= am);
    while i < args.len()
        invariant
            i <= args@.len(),
            d == strings_view(derived@),
            am == exprs_model(args@),
            am.len() == args@.len(),
            forall|k: int| 0 <= k < args@.len() ==> #[trigger] am[k] == expr_model(args@[k]),
            any_derived(am, d) == any_derived(am.skip(i as int), d),
        decreases args.len() - i,
    {
        assert(decreases_to!(args => args@[i as int]));
        assert(am.skip(i as int).drop_first() =~= am.skip(i + 1));
        assert(am.skip(i as int)[0] == am[i as int]);
        if is_derived_expr(&args[i], derived) {
            return true;
        }
        i = i + 1;
    }
    false
}

fn any_kwarg_derived(kwargs: &Vec<(String, Expr)>, derived: &Vec<String>) -> (r: bool)
    ensures
        r == any_kwarg_value_derived(kwargs_model(kwargs@), strings_view(derived@)),
    decreases kwargs,
{
    let ghost d = strings_view(derived@);
    let ghost km = kwargs_model(kwargs@);
    proof {
        crate::ast::lemma_kwargs_model_index(kwargs@);
    }
    let mut i: usize = 0;
    assert(km.skip(0) =~= km);
    while i < kwargs.len()
        invariant
            i <= kwargs@.len(),
            d == strings_view(derived@),
            km == kwargs_model(kwargs@),
            km.len() == kwargs@.len(),
            forall|k: int|
                0 <= k < kwargs@.len() ==> #[trigger] km[k] == (kwargs@[k].0@, expr_model(kwargs@[k].1)),
            any_kwarg_value_derived(km, d) == any_kwarg_value_derived(km.skip(i as int), d),
        decreases kwargs.len() - i,
    {
        assert(decreases_to!(kwargs => kwargs@[i as int].1));
        assert(km.skip(i as int).drop_first() =~= km.skip(i + 1));
        assert(km.skip(i as int)[0] == km[i as int]);
        if is_derived_expr(&kwargs[i].1, derived) {
            return true;
        }
        i = i + 1;
    }
    false
}

} // verus!
