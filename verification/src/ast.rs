//! Syntactic AST produced by the parser.
//!
//! This layer knows nothing about mathematics: `F.T * F` is just a
//! `Binary(Mul, Field(F, "T"), F)`. Numeric literals keep their source text.

use vstd::prelude::*;

verus! {

broadcast use vstd::std_specs::vec::axiom_vec_decreases_to_view;

#[derive(Debug, PartialEq)]
pub enum Stmt {
    /// `name = expr`
    Assign { name: String, expr: Expr, line: usize, block: usize },
    /// Component assignment into a declared tensor: `F[1][1] = expr`
    /// (one index group per tensor order).
    AssignComponent { name: String, indices: Vec<Expr>, expr: Expr, line: usize, block: usize },
    /// Destructuring assignment `[a, b] = Spec_Decomp(C)`.
    AssignPair { first: String, second: String, expr: Expr, line: usize, block: usize },
    /// A bare expression statement.
    Expr(Expr, usize, usize),
    /// A row of output calls.
    OutputRow { exprs: Vec<Expr>, line: usize, block: usize },
}

#[derive(Debug, PartialEq)]
pub enum Expr {
    /// A numeric literal, as written (digits with at most one `.`).
    Num(String),
    Str(String),
    Bool(bool),
    Ident(String),
    Unary { op: UnOp, expr: Box<Expr> },
    Binary { op: BinOp, lhs: Box<Expr>, rhs: Box<Expr> },
    /// Property access, e.g. `F.T`.
    Field { target: Box<Expr>, name: String },
    /// Method call, e.g. `C.show(matrix)`.
    MethodCall { target: Box<Expr>, method: String, args: Vec<Expr>, kwargs: Vec<(String, Expr)> },
    /// `callee(args..., key=value...)`
    Call { callee: String, args: Vec<Expr>, kwargs: Vec<(String, Expr)> },
    /// Set element access, e.g. `lambda[a]` or `N[1]`.
    Index { target: Box<Expr>, index: Box<Expr> },
}

#[derive(Debug, Clone, Copy, PartialEq, Eq)]
pub enum UnOp {
    Neg,
}

#[derive(Debug, Clone, Copy, PartialEq, Eq)]
pub enum BinOp {
    Add,
    Sub,
    Mul,
    Div,
    Pow,
    /// Outer product `A & B`.
    Outer,
    /// Double contraction `A : B`.
    Ddot,
}

/// Mathematical model of an [`Expr`]: text as character sequences.
pub enum ExprModel {
    Num(Seq<char>),
    Str(Seq<char>),
    Bool(bool),
    Ident(Seq<char>),
    Unary { op: UnOp, expr: Box<ExprModel> },
    Binary { op: BinOp, lhs: Box<ExprModel>, rhs: Box<ExprModel> },
    Field { target: Box<ExprModel>, name: Seq<char> },
    MethodCall {
        target: Box<ExprModel>,
        method: Seq<char>,
        args: Seq<ExprModel>,
        kwargs: Seq<(Seq<char>, ExprModel)>,
    },
    Call { callee: Seq<char>, args: Seq<ExprModel>, kwargs: Seq<(Seq<char>, ExprModel)> },
    Index { target: Box<ExprModel>, index: Box<ExprModel> },
}

/// Mathematical model of a [`Stmt`].
pub enum StmtModel {
    Assign { name: Seq<char>, expr: ExprModel, line: nat, block: nat },
    AssignComponent { name: Seq<char>, indices: Seq<ExprModel>, expr: ExprModel, line: nat, block: nat },
    AssignPair { first: Seq<char>, second: Seq<char>, expr: ExprModel, line: nat, block: nat },
    Expr(ExprModel, nat, nat),
    OutputRow { exprs: Seq<ExprModel>, line: nat, block: nat },
}

pub open spec fn expr_model(e: Expr) -> ExprModel
    decreases e,
{
    match e {
        Expr::Num(s) => ExprModel::Num(s@),
        Expr::Str(s) => ExprModel::Str(s@),
        Expr::Bool(b) => ExprModel::Bool(b),
        Expr::Ident(s) => ExprModel::Ident(s@),
        Expr::Unary { op, expr } => ExprModel::Unary { op, expr: Box::new(expr_model(*expr)) },
        Expr::Binary { op, lhs, rhs } => ExprModel::Binary {
            op,
            lhs: Box::new(expr_model(*lhs)),
            rhs: Box::new(expr_model(*rhs)),
        },
        Expr::Field { target, name } => ExprModel::Field {
            target: Box::new(expr_model(*target)),
            name: name@,
        },
        Expr::MethodCall { target, method, args, kwargs } => ExprModel::MethodCall {
            target: Box::new(expr_model(*target)),
            method: method@,
            args: exprs_model(args@),
            kwargs: kwargs_model(kwargs@),
        },
        Expr::Call { callee, args, kwargs } => ExprModel::Call {
            callee: callee@,
            args: exprs_model(args@),
            kwargs: kwargs_model(kwargs@),
        },
        Expr::Index { target, index } => ExprModel::Index {
            target: Box::new(expr_model(*target)),
            index: Box::new(expr_model(*index)),
        },
    }
}

#[verifier::opaque]
pub open spec fn exprs_model(s: Seq<Expr>) -> Seq<ExprModel>
    decreases s,
{
    if s.len() == 0 {
        Seq::empty()
    } else {
        exprs_model(s.subrange(0, s.len() - 1)).push(expr_model(s[s.len() - 1]))
    }
}

#[verifier::opaque]
pub open spec fn kwargs_model(s: Seq<(String, Expr)>) -> Seq<(Seq<char>, ExprModel)>
    decreases s,
{
    if s.len() == 0 {
        Seq::empty()
    } else {
        kwargs_model(s.subrange(0, s.len() - 1)).push(
            (s[s.len() - 1].0@, expr_model(s[s.len() - 1].1)),
        )
    }
}

} // verus!

verus! {

impl View for Expr {
    type V = ExprModel;

    open spec fn view(&self) -> ExprModel {
        expr_model(*self)
    }
}

pub proof fn lemma_exprs_model_empty(v: Seq<Expr>)
    requires
        v.len() == 0,
    ensures
        exprs_model(v) == Seq::<ExprModel>::empty(),
{
    reveal(exprs_model);
}

pub proof fn lemma_kwargs_model_empty(v: Seq<(String, Expr)>)
    requires
        v.len() == 0,
    ensures
        kwargs_model(v) == Seq::<(Seq<char>, ExprModel)>::empty(),
{
    reveal(kwargs_model);
}

pub proof fn lemma_exprs_model_push(v: Seq<Expr>, e: Expr)
    ensures
        exprs_model(v.push(e)) == exprs_model(v).push(e@),
{
    reveal(exprs_model);
    assert(v.push(e).subrange(0, v.len() as int) == v);
}

pub proof fn lemma_kwargs_model_push(v: Seq<(String, Expr)>, k: (String, Expr))
    ensures
        kwargs_model(v.push(k)) == kwargs_model(v).push((k.0@, k.1@)),
{
    reveal(kwargs_model);
    assert(v.push(k).subrange(0, v.len() as int) == v);
}

/// The model of a sequence of expressions is taken element by element.
pub proof fn lemma_exprs_model_index(v: Seq<Expr>)
    ensures
        exprs_model(v).len() == v.len(),
        forall|i: int| 0 <= i < v.len() ==> #[trigger] exprs_model(v)[i] == expr_model(v[i]),
    decreases v.len(),
{
    reveal(exprs_model);
    if v.len() > 0 {
        lemma_exprs_model_index(v.subrange(0, v.len() - 1));
    }
}

/// The model of keyword arguments is taken pair by pair.
pub proof fn lemma_kwargs_model_index(v: Seq<(String, Expr)>)
    ensures
        kwargs_model(v).len() == v.len(),
        forall|i: int|
            0 <= i < v.len() ==> #[trigger] kwargs_model(v)[i] == (v[i].0@, expr_model(v[i].1)),
    decreases v.len(),
{
    reveal(kwargs_model);
    if v.len() > 0 {
        lemma_kwargs_model_index(v.subrange(0, v.len() - 1));
    }
}

pub open spec fn stmt_model(s: Stmt) -> StmtModel {
    match s {
        Stmt::Assign { name, expr, line, block } => StmtModel::Assign {
            name: name@,
            expr: expr_model(expr),
            line: line as nat,
            block: block as nat,
        },
        Stmt::AssignComponent { name, indices, expr, line, block } => StmtModel::AssignComponent {
            name: name@,
            indices: exprs_model(indices@),
            expr: expr_model(expr),
            line: line as nat,
            block: block as nat,
        },
        Stmt::AssignPair { first, second, expr, line, block } => StmtModel::AssignPair {
            first: first@,
            second: second@,
            expr: expr_model(expr),
            line: line as nat,
            block: block as nat,
        },
        Stmt::Expr(e, line, block) => StmtModel::Expr(expr_model(e), line as nat, block as nat),
        Stmt::OutputRow { exprs, line, block } => StmtModel::OutputRow {
            exprs: exprs_model(exprs@),
            line: line as nat,
            block: block as nat,
        },
    }
}

impl View for Stmt {
    type V = StmtModel;

    open spec fn view(&self) -> StmtModel {
        stmt_model(*self)
    }
}

pub open spec fn stmts_model(s: Seq<Stmt>) -> Seq<StmtModel> {
    s.map_values(|st: Stmt| stmt_model(st))
}

impl Stmt {
    /// The source line the statement starts on.
    pub fn line(&self) -> (l: usize)
        ensures
            l == match *self {
                Stmt::Assign { line, .. } => line,
                Stmt::AssignComponent { line, .. } => line,
                Stmt::AssignPair { line, .. } => line,
                Stmt::Expr(_, line, _) => line,
                Stmt::OutputRow { line, .. } => line,
            },
    {
        match self {
            Stmt::Assign { line, .. } => *line,
            Stmt::AssignComponent { line, .. } => *line,
            Stmt::AssignPair { line, .. } => *line,
            Stmt::Expr(_, line, _) => *line,
            Stmt::OutputRow { line, .. } => *line,
        }
    }

    /// The notebook block the statement belongs to.
    pub fn block(&self) -> (b: usize)
        ensures
            b == match *self {
                Stmt::Assign { block, .. } => block,
                Stmt::AssignComponent { block, .. } => block,
                Stmt::AssignPair { block, .. } => block,
                Stmt::Expr(_, _, block) => block,
                Stmt::OutputRow { block, .. } => block,
            },
    {
        match self {
            Stmt::Assign { block, .. } => *block,
            Stmt::AssignComponent { block, .. } => *block,
            Stmt::AssignPair { block, .. } => *block,
            Stmt::Expr(_, _, block) => *block,
            Stmt::OutputRow { block, .. } => *block,
        }
    }
}

} // verus!
