//! Declarations of the DSL: `Scalar("..")`, `Var("..")`, `Function("..", x)`,
//! `Tensor("..", order=.., dim=.., ...)` and `ScalarSet/VectorSet("..", dim=..)`,
//! with their argument checks and the fixed error for each malformed call.

use vstd::prelude::*;
use crate::ast::{Expr, ExprModel, exprs_model, kwargs_model, lemma_exprs_model_index,
    lemma_kwargs_model_index, expr_model};
use crate::checks::expect_bool;
use crate::error::{Error, ErrorModel};
use crate::tensor::{TensorExpr, TensorModel, TensorProperties};
use crate::text::{chars_of, concat_str, decimal, decimal_string, is_digit, str_eq};

verus! {

/// The value of a run of decimal digits.
pub open spec fn digits_value(s: Seq<char>) -> nat
    decreases s.len(),
{
    if s.len() == 0 {
        0
    } else {
        digits_value(s.drop_last()) * 10 + (s.last() as nat - '0' as nat) as nat
    }
}

/// The length of the leading run of digits of `s`.
pub open spec fn digit_run(s: Seq<char>) -> nat
    decreases s.len(),
{
    if s.len() == 0 || !is_digit(s[0]) {
        0
    } else {
        1 + digit_run(s.drop_first())
    }
}

/// A numeric literal with an integral value: digits, optionally followed by
/// a `.` and zeros only.
pub open spec fn integral_literal(s: Seq<char>) -> bool {
    let k = digit_run(s);
    &&& k >= 1
    &&& (k == s.len() || (s[k as int] == '.' && forall|j: int| k < j < s.len() ==> s[j] == '0'))
}

/// The integral value of such a literal.
pub open spec fn literal_value(s: Seq<char>) -> nat {
    digits_value(s.take(digit_run(s) as int))
}

/// `v`, or `usize::MAX` when it does not fit (a saturating conversion).
pub open spec fn saturate(v: nat) -> usize {
    if v > usize::MAX {
        usize::MAX
    } else {
        v as usize
    }
}

proof fn lemma_digit_run_prefix(s: Seq<char>, i: int)
    requires
        0 <= i <= digit_run(s),
    ensures
        digit_run(s) <= s.len(),
        forall|j: int| 0 <= j < i ==> is_digit(#[trigger] s[j]),
        i < s.len() && i == digit_run(s) ==> !is_digit(s[i]),
    decreases s.len(),
{
    if s.len() > 0 && is_digit(s[0]) {
        if i > 0 {
            lemma_digit_run_prefix(s.drop_first(), i - 1);
            assert forall|j: int| 0 <= j < i implies is_digit(#[trigger] s[j]) by {
                if j > 0 {
                    assert(s[j] == s.drop_first()[j - 1]);
                }
            }
        } else {
            lemma_digit_run_prefix(s.drop_first(), 0);
        }
    }
}

/// The integral value of a numeric literal, saturating, or `None` when it
/// is not integral (see [`integral_literal`]).
pub fn literal_usize(text: &str) -> (r: Option<usize>)
    ensures
        match r {
            Some(v) => integral_literal(text@) && v == saturate(literal_value(text@)),
            None => !integral_literal(text@),
        },
{
    let s = chars_of(text);
    let ghost k = digit_run(s@);
    proof {
        lemma_digit_run_prefix(s@, 0);
    }
    let mut i: usize = 0;
    let mut acc: usize = 0;
    while i < s.len() && is_digit_exec(s[i])
        invariant
            s@ == text@,
            k == digit_run(s@),
            k <= s@.len(),
            i <= k,
            acc == saturate(digits_value(s@.take(i as int))),
        decreases s.len() - i,
    {
        proof {
            lemma_digit_run_prefix(s@, i as int);
            if i == k {
                lemma_digit_run_prefix(s@, k as int);
            }
        }
        assert(i < k);
        let d = (s[i] as u32 - '0' as u32) as usize;
        let ghost prev = digits_value(s@.take(i as int));
        assert(s@.take(i + 1).drop_last() =~= s@.take(i as int));
        assert(digits_value(s@.take(i + 1)) == prev * 10 + d);
        if acc == usize::MAX {
            assert(prev >= usize::MAX);
            assert(prev * 10 + d >= usize::MAX) by (nonlinear_arith)
                requires
                    prev >= usize::MAX,
            ;
        } else if acc > (usize::MAX - d) / 10 {
            assert(prev == acc);
            assert(prev * 10 + d > usize::MAX) by (nonlinear_arith)
                requires
                    prev > (usize::MAX - d) / 10,
                    d <= 9,
            ;
            acc = usize::MAX;
        } else {
            assert(acc * 10 + d <= usize::MAX) by (nonlinear_arith)
                requires
                    acc <= (usize::MAX - d) / 10,
                    d <= 9,
            ;
            acc = acc * 10 + d;
        }
        i = i + 1;
    }
    proof {
        lemma_digit_run_prefix(s@, k as int);
        if i < k {
            assert(is_digit(s@[i as int]));
        }
    }
    assert(i == k);
    if i == 0 {
        return None;
    }
    if i == s.len() {
        return Some(acc);
    }
    if s[i] != '.' {
        return None;
    }
    let mut j: usize = i + 1;
    while j < s.len()
        invariant
            s@ == text@,
            k == digit_run(s@),
            i == k,
            k < j <= s@.len(),
            s@[k as int] == '.',
            forall|m: int| k < m < j ==> s@[m] == '0',
        decreases s.len() - j,
    {
        if s[j] != '0' {
            return None;
        }
        j = j + 1;
    }
    Some(acc)
}

fn is_digit_exec(c: char) -> (r: bool)
    ensures
        r == is_digit(c),
{
    '0' <= c && c <= '9'
}

pub open spec fn usize_message(what: Seq<char>) -> Seq<char> {
    "`"@ + what + "` must be a non-negative integer"@
}

/// A non-negative integer keyword value: an integral numeric literal, its
/// value saturating at `usize::MAX`.
pub open spec fn usize_arg_spec(e: ExprModel, what: Seq<char>) -> Result<usize, Seq<char>> {
    match e {
        ExprModel::Num(s) => if integral_literal(s) {
            Ok(saturate(literal_value(s)))
        } else {
            Err(usize_message(what))
        },
        _ => Err(usize_message(what)),
    }
}

/// A non-negative integer argument (see [`usize_arg_spec`]).
pub fn expect_usize(expr: &Expr, what: &str) -> (r: Result<usize, Error>)
    ensures
        match usize_arg_spec(expr@, what@) {
            Ok(v) => r == Ok::<usize, Error>(v),
            Err(m) => r is Err && r->Err_0@ == (ErrorModel { message: m, line: None }),
        },
{
    let n = match expr {
        Expr::Num(text) => literal_usize(text.as_str()),
        _ => None,
    };
    match n {
        Some(v) => Ok(v),
        None => {
            let mut m = concat_str("`", what);
            m.append("` must be a non-negative integer");
            Err(Error::msg(m))
        },
    }
}

/// The LaTeX name of `Scalar("..")` or `Var("..")`: one string argument
/// and no keywords.
pub open spec fn symbol_name_spec(callee: Seq<char>, args: Seq<ExprModel>, nkwargs: nat) -> Result<
    Seq<char>,
    Seq<char>,
> {
    if args.len() != 1 || nkwargs != 0 {
        Err("`"@ + callee + "` takes exactly one argument: "@ + callee + "(\"<latex>\")"@)
    } else {
        match args[0] {
            ExprModel::Str(latex) => Ok(latex),
            _ => Err("`"@ + callee + "` expects a string LaTeX name"@),
        }
    }
}

pub open spec fn text_result_matches(r: Result<String, Error>, s: Result<Seq<char>, Seq<char>>) -> bool {
    match s {
        Ok(v) => r is Ok && r->Ok_0@ == v,
        Err(m) => r is Err && r->Err_0@ == (ErrorModel { message: m, line: None }),
    }
}

/// The LaTeX name a `Scalar` or `Var` declaration gives its symbol (see
/// [`symbol_name_spec`]).
pub fn symbol_name(callee: &str, args: &Vec<Expr>, kwargs: &Vec<(String, Expr)>) -> (r: Result<
    String,
    Error,
>)
    ensures
        text_result_matches(r, symbol_name_spec(callee@, exprs_model(args@), kwargs@.len())),
{
    proof {
        lemma_exprs_model_index(args@);
    }
    if args.len() != 1 || kwargs.len() != 0 {
        let mut m = concat_str("`", callee);
        m.append("` takes exactly one argument: ");
        m.append(callee);
        m.append("(\"<latex>\")");
        return Err(Error::msg(m));
    }
    match &args[0] {
        Expr::Str(latex) => Ok(latex.clone()),
        _ => {
            let mut m = concat_str("`", callee);
            m.append("` expects a string LaTeX name");
            Err(Error::msg(m))
        },
    }
}

/// The LaTeX name of `Function("..", x, ...)`: a string and at least one
/// variable, no keywords.
pub open spec fn function_name_spec(args: Seq<ExprModel>, nkwargs: nat) -> Result<
    Seq<char>,
    Seq<char>,
> {
    if args.len() < 2 || nkwargs != 0 {
        Err(
            "`Function` expects a name and at least one variable: Function(\"<latex>\", x)"@,
        )
    } else {
        match args[0] {
            ExprModel::Str(latex) => Ok(latex),
            _ => Err("`Function` expects a string LaTeX name"@),
        }
    }
}

/// The LaTeX name of a `Function` declaration (see [`function_name_spec`]);
/// its variables are scalar expressions, checked where they are evaluated.
pub fn function_name(args: &Vec<Expr>, kwargs: &Vec<(String, Expr)>) -> (r: Result<String, Error>)
    ensures
        text_result_matches(r, function_name_spec(exprs_model(args@), kwargs@.len())),
{
    proof {
        lemma_exprs_model_index(args@);
    }
    if args.len() < 2 || kwargs.len() != 0 {
        return Err(
            Error::msg(
                String::from_str(
                    "`Function` expects a name and at least one variable: Function(\"<latex>\", x)",
                ),
            ),
        );
    }
    match &args[0] {
        Expr::Str(latex) => Ok(latex.clone()),
        _ => Err(Error::msg(String::from_str("`Function` expects a string LaTeX name"))),
    }
}

/// The keywords of a `Tensor` declaration read so far.
#[derive(Debug, Clone, Copy, PartialEq, Eq)]
pub struct TensorKeywords {
    pub order: Option<usize>,
    pub dim: Option<usize>,
    pub props: TensorProperties,
}

pub open spec fn bool_arg_spec(e: ExprModel, what: Seq<char>) -> Result<bool, Seq<char>> {
    match e {
        ExprModel::Bool(b) => Ok(b),
        _ => Err("`"@ + what + "` must be true or false"@),
    }
}

/// The keywords from position `i` on, applied in order to `st`; a later
/// keyword overrides an earlier one, and the first malformed one is the
/// error.
pub open spec fn tensor_keywords_from(
    kw: Seq<(Seq<char>, ExprModel)>,
    i: int,
    st: TensorKeywords,
) -> Result<TensorKeywords, Seq<char>>
    decreases kw.len() - i,
{
    if i < 0 || i >= kw.len() {
        Ok(st)
    } else {
        let key = kw[i].0;
        let v = kw[i].1;
        let next: Result<TensorKeywords, Seq<char>> = if key == "order"@ {
            match usize_arg_spec(v, "order"@) {
                Ok(n) => Ok(TensorKeywords { order: Some(n), ..st }),
                Err(m) => Err(m),
            }
        } else if key == "dim"@ {
            match usize_arg_spec(v, "dim"@) {
                Ok(n) => Ok(TensorKeywords { dim: Some(n), ..st }),
                Err(m) => Err(m),
            }
        } else if key == "identity"@ {
            match bool_arg_spec(v, key) {
                Ok(b) => Ok(TensorKeywords { props: TensorProperties { identity: b, ..st.props }, ..st }),
                Err(m) => Err(m),
            }
        } else if key == "symmetric"@ {
            match bool_arg_spec(v, key) {
                Ok(b) => Ok(TensorKeywords { props: TensorProperties { symmetric: b, ..st.props }, ..st }),
                Err(m) => Err(m),
            }
        } else if key == "antisymmetric"@ {
            match bool_arg_spec(v, key) {
                Ok(b) => Ok(
                    TensorKeywords { props: TensorProperties { antisymmetric: b, ..st.props }, ..st },
                ),
                Err(m) => Err(m),
            }
        } else if key == "orthogonal"@ {
            match bool_arg_spec(v, key) {
                Ok(b) => Ok(TensorKeywords { props: TensorProperties { orthogonal: b, ..st.props }, ..st }),
                Err(m) => Err(m),
            }
        } else if key == "isotropic"@ {
            match bool_arg_spec(v, key) {
                Ok(b) => Ok(TensorKeywords { props: TensorProperties { isotropic: b, ..st.props }, ..st }),
                Err(m) => Err(m),
            }
        } else {
            Err("unknown Tensor property `"@ + key + "`"@)
        };
        match next {
            Ok(st2) => tensor_keywords_from(kw, i + 1, st2),
            Err(m) => Err(m),
        }
    }
}

pub open spec fn no_keywords() -> TensorKeywords {
    TensorKeywords {
        order: None,
        dim: None,
        props: TensorProperties {
            identity: false,
            symmetric: false,
            antisymmetric: false,
            orthogonal: false,
            isotropic: false,
        },
    }
}

/// The tensor variable `Tensor("latex", order=n, dim=d, ...)` declares:
/// named and displayed by its LaTeX, with the given order, dim and
/// properties. `order` and `dim` are required, the order is positive, and
/// a tensor is not both symmetric and antisymmetric.
pub open spec fn declare_tensor_spec(args: Seq<ExprModel>, kw: Seq<(Seq<char>, ExprModel)>) -> Result<
    TensorModel,
    Seq<char>,
> {
    if args.len() != 1 {
        Err("`Tensor` expects a string LaTeX name as its first argument"@)
    } else {
        match args[0] {
            ExprModel::Str(latex) => match tensor_keywords_from(kw, 0, no_keywords()) {
                Err(m) => Err(m),
                Ok(st) => if st.order is None {
                    Err("`Tensor` requires `order=<n>`"@)
                } else if st.dim is None {
                    Err("`Tensor` requires `dim=<n>`"@)
                } else if st.order->0 == 0 {
                    Err("order-0 tensors should be declared with `Scalar(...)`"@)
                } else if st.props.symmetric && st.props.antisymmetric {
                    Err("a tensor cannot be both symmetric and antisymmetric (unless zero)"@)
                } else {
                    Ok(
                        TensorModel::Var {
                            name: latex,
                            latex,
                            order: st.order->0 as nat,
                            dim: st.dim->0 as nat,
                            props: st.props,
                        },
                    )
                },
            },
            _ => Err("`Tensor` expects a string LaTeX name"@),
        }
    }
}

fn fail<T>(message: &str) -> (r: Result<T, Error>)
    ensures
        r is Err && r->Err_0@ == (ErrorModel { message: message@, line: None }),
{
    Err(Error::msg(String::from_str(message)))
}

/// The keywords of a `Tensor` declaration applied in order (see
/// [`tensor_keywords_from`]).
pub fn tensor_keywords(kwargs: &Vec<(String, Expr)>) -> (r: Result<TensorKeywords, Error>)
    ensures
        match tensor_keywords_from(kwargs_model(kwargs@), 0, no_keywords()) {
            Ok(st) => r == Ok::<TensorKeywords, Error>(st),
            Err(m) => r is Err && r->Err_0@ == (ErrorModel { message: m, line: None }),
        },
{
    let ghost kw = kwargs_model(kwargs@);
    proof {
        lemma_kwargs_model_index(kwargs@);
    }
    let mut st = TensorKeywords { order: None, dim: None, props: TensorProperties {
        identity: false,
        symmetric: false,
        antisymmetric: false,
        orthogonal: false,
        isotropic: false,
    } };
    let mut i: usize = 0;
    while i < kwargs.len()
        invariant
            i <= kwargs.len(),
            kw == kwargs_model(kwargs@),
            kw.len() == kwargs.len(),
            forall|j: int|
                0 <= j < kwargs.len() ==> #[trigger] kw[j] == (kwargs@[j].0@, expr_model(kwargs@[j].1)),
            tensor_keywords_from(kw, 0, no_keywords()) == tensor_keywords_from(kw, i as int, st),
        decreases kwargs.len() - i,
    {
        let key = kwargs[i].0.as_str();
        let value = &kwargs[i].1;
        if str_eq(key, "order") {
            let n = expect_usize(value, "order")?;
            st.order = Some(n);
        } else if str_eq(key, "dim") {
            let n = expect_usize(value, "dim")?;
            st.dim = Some(n);
        } else if str_eq(key, "identity") {
            st.props.identity = expect_bool(value, key)?;
        } else if str_eq(key, "symmetric") {
            st.props.symmetric = expect_bool(value, key)?;
        } else if str_eq(key, "antisymmetric") {
            st.props.antisymmetric = expect_bool(value, key)?;
        } else if str_eq(key, "orthogonal") {
            st.props.orthogonal = expect_bool(value, key)?;
        } else if str_eq(key, "isotropic") {
            st.props.isotropic = expect_bool(value, key)?;
        } else {
            let mut m = concat_str("unknown Tensor property `", key);
            m.append("`");
            return Err(Error::msg(m));
        }
        i = i + 1;
    }
    Ok(st)
}

/// The tensor variable a `Tensor` declaration makes (see
/// [`declare_tensor_spec`]).
pub fn declare_tensor(args: &Vec<Expr>, kwargs: &Vec<(String, Expr)>) -> (r: Result<
    TensorExpr,
    Error,
>)
    ensures
        match declare_tensor_spec(exprs_model(args@), kwargs_model(kwargs@)) {
            Ok(t) => r is Ok && r->Ok_0@ == t,
            Err(m) => r is Err && r->Err_0@ == (ErrorModel { message: m, line: None }),
        },
{
    proof {
        lemma_exprs_model_index(args@);
    }
    if args.len() != 1 {
        return fail("`Tensor` expects a string LaTeX name as its first argument");
    }
    let latex = match &args[0] {
        Expr::Str(s) => s,
        _ => {
            return fail("`Tensor` expects a string LaTeX name");
        },
    };
    let st = tensor_keywords(kwargs)?;
    let order = match st.order {
        Some(n) => n,
        None => {
            return fail("`Tensor` requires `order=<n>`");
        },
    };
    let dim = match st.dim {
        Some(n) => n,
        None => {
            return fail("`Tensor` requires `dim=<n>`");
        },
    };
    if order == 0 {
        return fail("order-0 tensors should be declared with `Scalar(...)`");
    }
    if st.props.symmetric && st.props.antisymmetric {
        return fail("a tensor cannot be both symmetric and antisymmetric (unless zero)");
    }
    Ok(TensorExpr::Var { name: latex.clone(), latex: latex.clone(), order, dim, props: st.props })
}

/// A declared set: its display LaTeX, size, and whether its elements are
/// vectors (`VectorSet`) or scalars (`ScalarSet`).
#[derive(Debug, Clone, PartialEq, Eq)]
pub struct SetDeclaration {
    pub latex: String,
    pub dim: usize,
    pub vector: bool,
}

pub struct SetDeclarationModel {
    pub latex: Seq<char>,
    pub dim: nat,
    pub vector: bool,
}

impl View for SetDeclaration {
    type V = SetDeclarationModel;

    open spec fn view(&self) -> SetDeclarationModel {
        SetDeclarationModel { latex: self.latex@, dim: self.dim as nat, vector: self.vector }
    }
}

/// The `dim` keyword of a set declaration, the last one winning.
pub open spec fn set_dim_from(callee: Seq<char>, kw: Seq<(Seq<char>, ExprModel)>, i: int, dim: Option<
    usize,
>) -> Result<Option<usize>, Seq<char>>
    decreases kw.len() - i,
{
    if i < 0 || i >= kw.len() {
        Ok(dim)
    } else if kw[i].0 == "dim"@ {
        match usize_arg_spec(kw[i].1, "dim"@) {
            Ok(n) => set_dim_from(callee, kw, i + 1, Some(n)),
            Err(m) => Err(m),
        }
    } else {
        Err("unknown "@ + callee + " keyword `"@ + kw[i].0 + "`"@)
    }
}

/// The set `callee("latex", dim=n)` declares, `callee` being `ScalarSet` or
/// `VectorSet`.
pub open spec fn declare_set_spec(callee: Seq<char>, args: Seq<ExprModel>, kw: Seq<
    (Seq<char>, ExprModel),
>) -> Result<SetDeclarationModel, Seq<char>> {
    if args.len() != 1 || !(args[0] is Str) {
        Err(
            "`"@ + callee + "` expects a string LaTeX name: "@ + callee
                + "(\"<latex>\", dim=<n>)"@,
        )
    } else {
        match set_dim_from(callee, kw, 0, None) {
            Err(m) => Err(m),
            Ok(None) => Err("`"@ + callee + "` requires `dim=<n>`"@),
            Ok(Some(d)) => Ok(
                SetDeclarationModel {
                    latex: args[0]->Str_0,
                    dim: d as nat,
                    vector: callee == "VectorSet"@,
                },
            ),
        }
    }
}

/// The set a `ScalarSet`/`VectorSet` declaration makes (see
/// [`declare_set_spec`]).
pub fn declare_set(callee: &str, args: &Vec<Expr>, kwargs: &Vec<(String, Expr)>) -> (r: Result<
    SetDeclaration,
    Error,
>)
    ensures
        match declare_set_spec(callee@, exprs_model(args@), kwargs_model(kwargs@)) {
            Ok(d) => r is Ok && r->Ok_0@ == d,
            Err(m) => r is Err && r->Err_0@ == (ErrorModel { message: m, line: None }),
        },
{
    proof {
        lemma_exprs_model_index(args@);
    }
    let latex = if args.len() == 1 {
        match &args[0] {
            Expr::Str(s) => Some(s.clone()),
            _ => None,
        }
    } else {
        None
    };
    let latex = match latex {
        Some(l) => l,
        None => {
            let mut m = concat_str("`", callee);
            m.append("` expects a string LaTeX name: ");
            m.append(callee);
            m.append("(\"<latex>\", dim=<n>)");
            return Err(Error::msg(m));
        },
    };
    let ghost kw = kwargs_model(kwargs@);
    proof {
        lemma_kwargs_model_index(kwargs@);
    }
    let mut dim: Option<usize> = None;
    let mut i: usize = 0;
    while i < kwargs.len()
        invariant
            i <= kwargs.len(),
            kw == kwargs_model(kwargs@),
            kw.len() == kwargs.len(),
            forall|j: int|
                0 <= j < kwargs.len() ==> #[trigger] kw[j] == (kwargs@[j].0@, expr_model(kwargs@[j].1)),
            set_dim_from(callee@, kw, 0, None) == set_dim_from(callee@, kw, i as int, dim),
            exprs_model(args@).len() == 1,
            exprs_model(args@)[0] == ExprModel::Str(latex@),
        decreases kwargs.len() - i,
    {
        let key = kwargs[i].0.as_str();
        if str_eq(key, "dim") {
            let n = expect_usize(&kwargs[i].1, "dim")?;
            dim = Some(n);
        } else {
            let mut m = String::from_str("unknown ");
            m.append(callee);
            m.append(" keyword `");
            m.append(key);
            m.append("`");
            return Err(Error::msg(m));
        }
        i = i + 1;
    }
    match dim {
        Some(d) => Ok(SetDeclaration { latex, dim: d, vector: str_eq(callee, "VectorSet") }),
        None => {
            let mut m = concat_str("`", callee);
            m.append("` requires `dim=<n>`");
            Err(Error::msg(m))
        },
    }
}

pub open spec fn set_model_opt(o: Option<SetDeclaration>) -> Option<SetDeclarationModel> {
    match o {
        Some(d) => Some(d@),
        None => None,
    }
}

/// The check on one target of `[values, directions] = Spec_Decomp(C)`:
/// a declared set of the expected kind (`vector`) and of the tensor's dim.
pub open spec fn decomposition_target_spec(
    name: Seq<char>,
    decl: Option<SetDeclarationModel>,
    vector: bool,
    dim: nat,
) -> Result<(), Seq<char>> {
    match decl {
        Some(d) => if d.vector == vector && d.dim == dim {
            Ok(())
        } else if d.vector != vector {
            if vector {
                Err("`"@ + name + "` must be a VectorSet (the principal directions)"@)
            } else {
                Err("`"@ + name + "` must be a ScalarSet (the principal values)"@)
            }
        } else {
            Err("set dimension does not match the tensor"@)
        },
        None => Err(
            "declare `"@ + name + "` first: "@ + name + (if vector {
                " = VectorSet(\"<latex>\", dim="@
            } else {
                " = ScalarSet(\"<latex>\", dim="@
            }) + decimal(dim) + ")"@,
        ),
    }
}

/// The targets of a spectral decomposition: first the principal values
/// (a `ScalarSet`), then the principal directions (a `VectorSet`), both of
/// the tensor's dim.
pub open spec fn decomposition_targets_spec(
    first: Seq<char>,
    first_decl: Option<SetDeclarationModel>,
    second: Seq<char>,
    second_decl: Option<SetDeclarationModel>,
    dim: nat,
) -> Result<(), Seq<char>> {
    match decomposition_target_spec(first, first_decl, false, dim) {
        Err(m) => Err(m),
        Ok(_) => decomposition_target_spec(second, second_decl, true, dim),
    }
}

fn decomposition_target(name: &str, decl: &Option<SetDeclaration>, vector: bool, dim: usize) -> (r: Result<
    (),
    Error,
>)
    ensures
        match decomposition_target_spec(name@, set_model_opt(*decl), vector, dim as nat) {
            Ok(_) => r is Ok,
            Err(m) => r is Err && r->Err_0@ == (ErrorModel { message: m, line: None }),
        },
{
    match decl {
        Some(d) => if d.vector == vector && d.dim == dim {
            Ok(())
        } else if d.vector != vector {
            let mut m = concat_str("`", name);
            if vector {
                m.append("` must be a VectorSet (the principal directions)");
            } else {
                m.append("` must be a ScalarSet (the principal values)");
            }
            Err(Error::msg(m))
        } else {
            fail("set dimension does not match the tensor")
        },
        None => {
            let mut m = concat_str("declare `", name);
            m.append("` first: ");
            m.append(name);
            if vector {
                m.append(" = VectorSet(\"<latex>\", dim=");
            } else {
                m.append(" = ScalarSet(\"<latex>\", dim=");
            }
            m.append(decimal_string(dim).as_str());
            m.append(")");
            Err(Error::msg(m))
        },
    }
}

/// Checks the targets of a spectral decomposition (see
/// [`decomposition_targets_spec`]).
pub fn decomposition_targets(
    first: &str,
    first_decl: &Option<SetDeclaration>,
    second: &str,
    second_decl: &Option<SetDeclaration>,
    dim: usize,
) -> (r: Result<(), Error>)
    ensures
        match decomposition_targets_spec(
            first@,
            set_model_opt(*first_decl),
            second@,
            set_model_opt(*second_decl),
            dim as nat,
        ) {
            Ok(_) => r is Ok,
            Err(m) => r is Err && r->Err_0@ == (ErrorModel { message: m, line: None }),
        },
{
    decomposition_target(first, first_decl, false, dim)?;
    decomposition_target(second, second_decl, true, dim)
}

} // verus!
