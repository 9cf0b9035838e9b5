//! Running a program statement by statement: which action each statement
//! form takes, the bookkeeping an assignment does on the names of the
//! program (display labels, definitions for back-substitution, derived
//! names, direct display values), and what a run does with the outcome of
//! each statement, strictly (stop at the first error) or leniently (record
//! an error output and go on).
//!
//! Evaluating expressions is the symbolic engine's work; values appear
//! here only through the facts the bookkeeping reads of them.

use vstd::prelude::*;
use crate::ast::{Expr, ExprModel, Stmt, StmtModel};
use crate::calls::{declared_label, declared_label_spec, declares_set, declares_set_spec};
use crate::checks::{
    default_tensor_label, default_tensor_label_spec, derived_spec, is_derived_expr,
    is_raw_transpose_product_definition, is_transpose_product_spec,
};
use crate::error::{Error, ErrorModel};
use crate::text::{concat_str, decimal, decimal_string, str_eq, strings_view};

verus! {

broadcast use vstd::std_specs::vec::axiom_vec_decreases_to_view;

// ---- statement dispatch ----------------------------------------------------

/// What executing a statement does.
#[derive(Debug, Clone, Copy, PartialEq, Eq)]
pub enum ExecAction {
    /// `name = ScalarSet(...)` / `name = VectorSet(...)`: declare a set.
    DeclareSet,
    /// `name = expr`: evaluate and bind.
    Assign,
    /// `F[i][j] = expr`: set one component of a tensor.
    AssignComponent,
    /// `[a, b] = expr`: destructuring assignment.
    AssignPair,
    /// `expr.show(...)`: display output.
    Show,
    /// `expr.plot(...)`: plot output.
    Plot,
    /// `ode.solve(...)`: solution output.
    Solve,
    /// A row of outputs shown side by side.
    OutputRow,
    /// Any other expression: evaluated for its errors only.
    Evaluate,
}

/// The action a statement takes.
pub open spec fn exec_action_spec(s: StmtModel) -> ExecAction {
    match s {
        StmtModel::Assign { expr, .. } => if declares_set_spec(expr) {
            ExecAction::DeclareSet
        } else {
            ExecAction::Assign
        },
        StmtModel::AssignComponent { .. } => ExecAction::AssignComponent,
        StmtModel::AssignPair { .. } => ExecAction::AssignPair,
        StmtModel::Expr(e, _, _) => match e {
            ExprModel::MethodCall { method, .. } => if method == "show"@ {
                ExecAction::Show
            } else if method == "plot"@ {
                ExecAction::Plot
            } else if method == "solve"@ {
                ExecAction::Solve
            } else {
                ExecAction::Evaluate
            },
            _ => ExecAction::Evaluate,
        },
        StmtModel::OutputRow { .. } => ExecAction::OutputRow,
    }
}

/// The action a statement takes (see [`exec_action_spec`]).
pub fn exec_action(stmt: &Stmt) -> (a: ExecAction)
    ensures
        a == exec_action_spec(stmt@),
{
    match stmt {
        Stmt::Assign { expr, .. } => if declares_set(expr) {
            ExecAction::DeclareSet
        } else {
            ExecAction::Assign
        },
        Stmt::AssignComponent { .. } => ExecAction::AssignComponent,
        Stmt::AssignPair { .. } => ExecAction::AssignPair,
        Stmt::Expr(e, _, _) => match e {
            Expr::MethodCall { method, .. } => if str_eq(method.as_str(), "show") {
                ExecAction::Show
            } else if str_eq(method.as_str(), "plot") {
                ExecAction::Plot
            } else if str_eq(method.as_str(), "solve") {
                ExecAction::Solve
            } else {
                ExecAction::Evaluate
            },
            _ => ExecAction::Evaluate,
        },
        Stmt::OutputRow { .. } => ExecAction::OutputRow,
    }
}

// ---- names of the program ----------------------------------------------------

/// Identifies a value held by the evaluator.
pub type ValueId = u64;

/// A definition registered for display-time back-substitution: the label
/// it displays as, the value it stands for, and its block.
#[derive(Debug, Clone)]
pub struct Definition {
    pub latex: String,
    pub value: ValueId,
    pub block: usize,
}

pub struct DefinitionModel {
    pub latex: Seq<char>,
    pub value: ValueId,
    pub block: nat,
}

impl View for Definition {
    type V = DefinitionModel;

    open spec fn view(&self) -> DefinitionModel {
        DefinitionModel { latex: self.latex@, value: self.value, block: self.block as nat }
    }
}

/// The interpreter's bookkeeping of names: display labels declared by
/// `Scalar("...")`, `Tensor("...")`, `Var("...")` or `Function("...")`
/// (name, label); definitions for back-substitution, in insertion order;
/// names whose values are derived results; names with a direct display
/// value.
#[derive(Debug, Clone)]
pub struct NameState {
    pub labels: Vec<(String, String)>,
    pub defs: Vec<Definition>,
    pub derived: Vec<String>,
    pub display_values: Vec<String>,
}

pub struct NameStateModel {
    pub labels: Seq<(Seq<char>, Seq<char>)>,
    pub defs: Seq<DefinitionModel>,
    pub derived: Seq<Seq<char>>,
    pub display_values: Seq<Seq<char>>,
}

pub open spec fn pairs_view(v: Seq<(String, String)>) -> Seq<(Seq<char>, Seq<char>)> {
    v.map_values(|p: (String, String)| (p.0@, p.1@))
}

pub open spec fn defs_view(v: Seq<Definition>) -> Seq<DefinitionModel> {
    v.map_values(|d: Definition| d@)
}

impl View for NameState {
    type V = NameStateModel;

    open spec fn view(&self) -> NameStateModel {
        NameStateModel {
            labels: pairs_view(self.labels@),
            defs: defs_view(self.defs@),
            derived: strings_view(self.derived@),
            display_values: strings_view(self.display_values@),
        }
    }
}

/// The label registered last for `name`.
pub open spec fn label_lookup(labels: Seq<(Seq<char>, Seq<char>)>, name: Seq<char>) -> Option<Seq<char>>
    decreases labels.len(),
{
    if labels.len() == 0 {
        None
    } else if labels.last().0 == name {
        Some(labels.last().1)
    } else {
        label_lookup(labels.drop_last(), name)
    }
}

/// `labels` without the entries of `name`.
pub open spec fn without_label(labels: Seq<(Seq<char>, Seq<char>)>, name: Seq<char>) -> Seq<(Seq<char>, Seq<char>)>
    decreases labels.len(),
{
    if labels.len() == 0 {
        labels
    } else if labels.last().0 == name {
        without_label(labels.drop_last(), name)
    } else {
        without_label(labels.drop_last(), name).push(labels.last())
    }
}

/// `names` without `name`.
pub open spec fn without_name(names: Seq<Seq<char>>, name: Seq<char>) -> Seq<Seq<char>>
    decreases names.len(),
{
    if names.len() == 0 {
        names
    } else if names.last() == name {
        without_name(names.drop_last(), name)
    } else {
        without_name(names.drop_last(), name).push(names.last())
    }
}

/// `defs` without the definitions displayed as `latex`.
pub open spec fn without_def(defs: Seq<DefinitionModel>, latex: Seq<char>) -> Seq<DefinitionModel>
    decreases defs.len(),
{
    if defs.len() == 0 {
        defs
    } else if defs.last().latex == latex {
        without_def(defs.drop_last(), latex)
    } else {
        without_def(defs.drop_last(), latex).push(defs.last())
    }
}

/// The label a name displays as: its declared label; else, for a tensor
/// value under a one-character name, the default tensor label; else the
/// name itself. `tensor_order` is the value's order when it is a tensor.
pub open spec fn display_label_spec(
    labels: Seq<(Seq<char>, Seq<char>)>,
    name: Seq<char>,
    tensor_order: Option<nat>,
) -> Seq<char> {
    match label_lookup(labels, name) {
        Some(l) => l,
        None => match tensor_order {
            Some(order) => if name.len() == 1 {
                default_tensor_label_spec(name, order)
            } else {
                name
            },
            None => name,
        },
    }
}

/// What `name = expr` does to the names of the program, given the order
/// of the value when it is a tensor, the value's id, the statement's
/// block, whether the value is a leaf (a declared variable, a symbol, a
/// number or an unknown function) and whether a direct display value
/// could be evaluated:
/// - a declaration call with a string label registers that label (labels
///   survive later reassignments);
/// - the definitions displayed under the name's label are dropped, and a
///   new one is added unless the value is a leaf or a derived result;
/// - the name is marked derived exactly when `expr` mentions a derived
///   name;
/// - the name keeps a direct display value exactly when one was evaluated,
///   the value is no leaf, and `expr` is a raw transpose product.
pub open spec fn assignment_effects_spec(
    s: NameStateModel,
    name: Seq<char>,
    expr: ExprModel,
    tensor_order: Option<nat>,
    value: ValueId,
    block: nat,
    is_leaf: bool,
    has_display_value: bool,
) -> NameStateModel {
    let labels = match declared_label_spec(expr) {
        Some(l) => without_label(s.labels, name).push((name, l)),
        None => s.labels,
    };
    let derived = derived_spec(expr, s.derived);
    let latex = display_label_spec(labels, name, tensor_order);
    let kept = without_def(s.defs, latex);
    let defs = if !is_leaf && !derived {
        kept.push(DefinitionModel { latex, value, block })
    } else {
        kept
    };
    let derived_names = if derived {
        without_name(s.derived, name).push(name)
    } else {
        without_name(s.derived, name)
    };
    let display_values = if has_display_value && !is_leaf && is_transpose_product_spec(expr) {
        without_name(s.display_values, name).push(name)
    } else {
        without_name(s.display_values, name)
    };
    NameStateModel { labels, defs, derived: derived_names, display_values }
}

/// The label registered last for `name` (see [`label_lookup`]).
fn find_label(labels: &Vec<(String, String)>, name: &str) -> (r: Option<String>)
    ensures
        match r {
            Some(l) => label_lookup(pairs_view(labels@), name@) == Some(l@),
            None => label_lookup(pairs_view(labels@), name@) is None,
        },
{
    let ghost v = pairs_view(labels@);
    assert(v.take(labels.len() as int) =~= v);
    let mut i: usize = labels.len();
    while i > 0
        invariant
            i <= labels.len(),
            v == pairs_view(labels@),
            label_lookup(v, name@) == label_lookup(v.take(i as int), name@),
        decreases i,
    {
        let ghost w = v.take(i as int);
        assert(w.last() == v[i - 1]);
        assert(w.drop_last() =~= v.take(i - 1));
        if str_eq(labels[i - 1].0.as_str(), name) {
            return Some(labels[i - 1].1.clone());
        }
        i = i - 1;
    }
    assert(v.take(0) =~= Seq::<(Seq<char>, Seq<char>)>::empty());
    None
}

/// A copy of `labels`.
fn copy_labels(labels: &Vec<(String, String)>) -> (r: Vec<(String, String)>)
    ensures
        pairs_view(r@) == pairs_view(labels@),
{
    let ghost v = pairs_view(labels@);
    let mut out: Vec<(String, String)> = Vec::new();
    let mut i: usize = 0;
    while i < labels.len()
        invariant
            i <= labels.len(),
            v == pairs_view(labels@),
            pairs_view(out@) == v.take(i as int),
        decreases labels.len() - i,
    {
        let entry = (labels[i].0.clone(), labels[i].1.clone());
        out.push(entry);
        assert(v.take(i + 1) =~= v.take(i as int).push(v[i as int]));
        assert(pairs_view(out@) =~= v.take(i + 1));
        i = i + 1;
    }
    assert(v.take(labels.len() as int) =~= v);
    out
}

/// `labels` without the entries of `name`, then `(name, label)`.
fn set_label(labels: &Vec<(String, String)>, name: &str, label: String) -> (r: Vec<(String, String)>)
    ensures
        pairs_view(r@) == without_label(pairs_view(labels@), name@).push((name@, label@)),
{
    let ghost v = pairs_view(labels@);
    let mut out: Vec<(String, String)> = Vec::new();
    let mut i: usize = 0;
    while i < labels.len()
        invariant
            i <= labels.len(),
            v == pairs_view(labels@),
            pairs_view(out@) == without_label(v.take(i as int), name@),
        decreases labels.len() - i,
    {
        let ghost w = v.take(i + 1);
        assert(w.drop_last() =~= v.take(i as int));
        assert(w.last() == v[i as int]);
        if !str_eq(labels[i].0.as_str(), name) {
            let entry = (labels[i].0.clone(), labels[i].1.clone());
            out.push(entry);
            assert(pairs_view(out@) =~= without_label(v.take(i as int), name@).push(v[i as int]));
        }
        i = i + 1;
    }
    assert(v.take(labels.len() as int) =~= v);
    let ghost before = pairs_view(out@);
    out.push((String::from_str(name), label));
    assert(pairs_view(out@) =~= before.push((name@, label@)));
    out
}

/// `names` without `name`.
fn drop_name(names: &Vec<String>, name: &str) -> (r: Vec<String>)
    ensures
        strings_view(r@) == without_name(strings_view(names@), name@),
{
    let ghost v = strings_view(names@);
    let mut out: Vec<String> = Vec::new();
    let mut i: usize = 0;
    while i < names.len()
        invariant
            i <= names.len(),
            v == strings_view(names@),
            strings_view(out@) == without_name(v.take(i as int), name@),
        decreases names.len() - i,
    {
        let ghost w = v.take(i + 1);
        assert(w.drop_last() =~= v.take(i as int));
        assert(w.last() == v[i as int]);
        if !str_eq(names[i].as_str(), name) {
            out.push(names[i].clone());
            assert(strings_view(out@) =~= without_name(v.take(i as int), name@).push(v[i as int]));
        }
        i = i + 1;
    }
    assert(v.take(names.len() as int) =~= v);
    out
}

/// `defs` without the definitions displayed as `latex`.
fn drop_defs(defs: &Vec<Definition>, latex: &str) -> (r: Vec<Definition>)
    ensures
        defs_view(r@) == without_def(defs_view(defs@), latex@),
{
    let ghost v = defs_view(defs@);
    let mut out: Vec<Definition> = Vec::new();
    let mut i: usize = 0;
    while i < defs.len()
        invariant
            i <= defs.len(),
            v == defs_view(defs@),
            defs_view(out@) == without_def(v.take(i as int), latex@),
        decreases defs.len() - i,
    {
        let ghost w = v.take(i + 1);
        assert(w.drop_last() =~= v.take(i as int));
        assert(w.last() == v[i as int]);
        if !str_eq(defs[i].latex.as_str(), latex) {
            let d = Definition { latex: defs[i].latex.clone(), value: defs[i].value, block: defs[i].block };
            out.push(d);
            assert(defs_view(out@) =~= without_def(v.take(i as int), latex@).push(v[i as int]));
        }
        i = i + 1;
    }
    assert(v.take(defs.len() as int) =~= v);
    out
}

/// `names` with `name` appended.
fn push_name(names: Vec<String>, name: &str) -> (r: Vec<String>)
    ensures
        strings_view(r@) == strings_view(names@).push(name@),
{
    let mut out = names;
    let ghost before = strings_view(out@);
    out.push(String::from_str(name));
    assert(strings_view(out@) =~= before.push(name@));
    out
}

/// What `name = expr` does to the names of the program (see
/// [`assignment_effects_spec`]).
pub fn assignment_effects(
    s: &NameState,
    name: &str,
    expr: &Expr,
    tensor_order: Option<usize>,
    value: ValueId,
    block: usize,
    is_leaf: bool,
    has_display_value: bool,
) -> (n: NameState)
    ensures
        n@ == assignment_effects_spec(
            s@,
            name@,
            expr@,
            match tensor_order {
                Some(o) => Some(o as nat),
                None => None,
            },
            value,
            block as nat,
            is_leaf,
            has_display_value,
        ),
{
    let labels = match declared_label(expr) {
        Some(l) => set_label(&s.labels, name, l),
        None => copy_labels(&s.labels),
    };
    assert(pairs_view(labels@) =~= match declared_label_spec(expr@) {
        Some(l) => without_label(s@.labels, name@).push((name@, l)),
        None => s@.labels,
    });
    let derived = is_derived_expr(expr, &s.derived);
    let latex = match find_label(&labels, name) {
        Some(l) => l,
        None => match tensor_order {
            Some(order) => if name.unicode_len() == 1 {
                default_tensor_label(name, order)
            } else {
                String::from_str(name)
            },
            None => String::from_str(name),
        },
    };
    let kept = drop_defs(&s.defs, latex.as_str());
    let mut defs = kept;
    if !is_leaf && !derived {
        let ghost before = defs_view(defs@);
        defs.push(Definition { latex, value, block });
        assert(defs_view(defs@) =~= before.push(defs@.last()@));
    }
    let without = drop_name(&s.derived, name);
    let derived_names = if derived {
        push_name(without, name)
    } else {
        without
    };
    let without_display = drop_name(&s.display_values, name);
    let display_values = if has_display_value && !is_leaf && is_raw_transpose_product_definition(expr) {
        push_name(without_display, name)
    } else {
        without_display
    };
    NameState { labels, defs, derived: derived_names, display_values }
}

proof fn lemma_lookup_without(labels: Seq<(Seq<char>, Seq<char>)>, name: Seq<char>, other: Seq<char>)
    requires
        other != name,
    ensures
        label_lookup(without_label(labels, name), other) == label_lookup(labels, other),
    decreases labels.len(),
{
    if labels.len() > 0 {
        lemma_lookup_without(labels.drop_last(), name, other);
        if labels.last().0 != name {
            let w = without_label(labels.drop_last(), name).push(labels.last());
            assert(w.drop_last() =~= without_label(labels.drop_last(), name));
        }
    }
}

proof fn lemma_without_def_free(defs: Seq<DefinitionModel>, latex: Seq<char>)
    ensures
        forall|i: int| 0 <= i < without_def(defs, latex).len() ==> #[trigger] without_def(defs, latex)[i].latex != latex,
    decreases defs.len(),
{
    if defs.len() > 0 {
        lemma_without_def_free(defs.drop_last(), latex);
        let r = without_def(defs.drop_last(), latex);
        if defs.last().latex != latex {
            let w = r.push(defs.last());
            assert forall|i: int| 0 <= i < w.len() implies #[trigger] w[i].latex != latex by {
                if i < r.len() {
                    assert(w[i] == r[i]);
                }
            }
        }
    }
}

/// Display labels survive reassignment: after `name = expr`, the label of
/// every other name is unchanged, and the label of `name` is the one
/// `expr` declares, or else the one it had. Re-registering a label drops
/// its earlier definitions: at most one definition is displayed under the
/// label of `name`.
pub proof fn law_assignment_keeps_labels_and_one_definition(
    s: NameStateModel,
    name: Seq<char>,
    expr: ExprModel,
    tensor_order: Option<nat>,
    value: ValueId,
    block: nat,
    is_leaf: bool,
    has_display_value: bool,
)
    ensures
        ({
            let n = assignment_effects_spec(s, name, expr, tensor_order, value, block, is_leaf, has_display_value);
            let latex = display_label_spec(n.labels, name, tensor_order);
            &&& forall|other: Seq<char>| other != name ==> #[trigger] label_lookup(n.labels, other) == label_lookup(s.labels, other)
            &&& label_lookup(n.labels, name) == match declared_label_spec(expr) {
                Some(l) => Some(l),
                None => label_lookup(s.labels, name),
            }
            &&& forall|i: int, j: int| 0 <= i < n.defs.len() && 0 <= j < n.defs.len()
                && #[trigger] n.defs[i].latex == latex && #[trigger] n.defs[j].latex == latex ==> i == j
        }),
{
    let n = assignment_effects_spec(s, name, expr, tensor_order, value, block, is_leaf, has_display_value);
    let latex = display_label_spec(n.labels, name, tensor_order);
    assert forall|other: Seq<char>| other != name implies #[trigger] label_lookup(n.labels, other) == label_lookup(s.labels, other) by {
        if let Some(l) = declared_label_spec(expr) {
            let w = without_label(s.labels, name).push((name, l));
            assert(w.drop_last() =~= without_label(s.labels, name));
            lemma_lookup_without(s.labels, name, other);
        }
    }
    let kept = without_def(s.defs, latex);
    lemma_without_def_free(s.defs, latex);
    assert forall|i: int, j: int| 0 <= i < n.defs.len() && 0 <= j < n.defs.len()
        && #[trigger] n.defs[i].latex == latex && #[trigger] n.defs[j].latex == latex implies i == j by {
        if i < kept.len() {
            assert(kept[i].latex != latex);
        }
        if j < kept.len() {
            assert(kept[j].latex != latex);
        }
    }
}

// ---- running a program ---------------------------------------------------------

/// The error output a lenient run records for a failing statement: header
/// `line N`, the line, and the error's message (no LaTeX, no row).
#[derive(Debug, Clone)]
pub struct ErrorOutput {
    pub header: String,
    pub line: usize,
    pub message: String,
}

pub struct ErrorOutputModel {
    pub header: Seq<char>,
    pub line: nat,
    pub message: Seq<char>,
}

impl View for ErrorOutput {
    type V = ErrorOutputModel;

    open spec fn view(&self) -> ErrorOutputModel {
        ErrorOutputModel { header: self.header@, line: self.line as nat, message: self.message@ }
    }
}

/// What a run does after one statement.
#[derive(Debug, Clone)]
pub enum RunStep {
    /// The statement succeeded: go on.
    Continue,
    /// Strict run: stop with this error.
    Stop(Error),
    /// Lenient run: record this output and go on.
    Record(ErrorOutput),
}

/// What a run does with the outcome of a statement on line `stmt_line`:
/// success goes on; a strict run stops with the error, given the
/// statement's line when it has none; a lenient run records an error
/// output at the error's line (else the statement's) and goes on.
pub fn run_step(lenient: bool, stmt_line: usize, outcome: Result<(), Error>) -> (a: RunStep)
    ensures
        match outcome {
            Ok(_) => a is Continue,
            Err(e) => {
                let l: nat = match e.line {
                    Some(k) => k as nat,
                    None => stmt_line as nat,
                };
                if lenient {
                    &&& a is Record
                    &&& a->Record_0.header@ == "line "@ + decimal(l)
                    &&& a->Record_0.line == l
                    &&& a->Record_0.message@ == e.message@
                } else {
                    &&& a is Stop
                    &&& a->Stop_0@ == (ErrorModel { message: e.message@, line: Some(l) })
                }
            },
        },
{
    match outcome {
        Ok(()) => RunStep::Continue,
        Err(e) => {
            let l = match e.line {
                Some(k) => k,
                None => stmt_line,
            };
            if lenient {
                let digits = decimal_string(l);
                let header = concat_str("line ", digits.as_str());
                RunStep::Record(ErrorOutput { header, line: l, message: e.message })
            } else {
                RunStep::Stop(Error::new(e.message, Some(l)))
            }
        },
    }
}


/// The outcome of one statement, as a run sees it: its line, and the
/// error it failed with, if any.
pub type StepModel = (nat, Option<ErrorModel>);

/// The line a failure is reported at: the error's own, else the
/// statement's.
pub open spec fn failure_line(step: StepModel) -> nat {
    match step.1 {
        Some(e) => match e.line {
            Some(l) => l,
            None => step.0,
        },
        None => step.0,
    }
}

/// The error output a lenient run records for a failing step.
pub open spec fn record_of(step: StepModel) -> ErrorOutputModel {
    ErrorOutputModel {
        header: "line "@ + decimal(failure_line(step)),
        line: failure_line(step),
        message: step.1->Some_0.message,
    }
}

/// The error a strict run stops with at a failing step.
pub open spec fn stop_of(step: StepModel) -> ErrorModel {
    ErrorModel { message: step.1->Some_0.message, line: Some(failure_line(step)) }
}

/// What a run has produced: the error outputs recorded, in order, and the
/// error a strict run stopped with.
pub struct RunModel {
    pub records: Seq<ErrorOutputModel>,
    pub stopped: Option<ErrorModel>,
}

/// One step of a run (see [`run_step`]); a stopped run runs nothing more.
pub open spec fn run_advance(r: RunModel, lenient: bool, step: StepModel) -> RunModel {
    if r.stopped is Some || step.1 is None {
        r
    } else if lenient {
        RunModel { records: r.records.push(record_of(step)), stopped: None }
    } else {
        RunModel { records: r.records, stopped: Some(stop_of(step)) }
    }
}

/// A run over the outcomes of the statements, in order.
pub open spec fn run_fold(lenient: bool, steps: Seq<StepModel>) -> RunModel
    decreases steps.len(),
{
    if steps.len() == 0 {
        RunModel { records: Seq::empty(), stopped: None }
    } else {
        run_advance(run_fold(lenient, steps.drop_last()), lenient, steps.last())
    }
}

/// The error outputs of the failing steps, in order.
pub open spec fn failure_records(steps: Seq<StepModel>) -> Seq<ErrorOutputModel>
    decreases steps.len(),
{
    if steps.len() == 0 {
        Seq::empty()
    } else if steps.last().1 is Some {
        failure_records(steps.drop_last()).push(record_of(steps.last()))
    } else {
        failure_records(steps.drop_last())
    }
}

/// The state of a running program.
#[derive(Debug, Clone)]
pub struct RunState {
    pub records: Vec<ErrorOutput>,
    pub stopped: Option<Error>,
}

impl View for RunState {
    type V = RunModel;

    open spec fn view(&self) -> RunModel {
        RunModel {
            records: self.records@.map_values(|o: ErrorOutput| o@),
            stopped: match self.stopped {
                Some(e) => Some(e@),
                None => None,
            },
        }
    }
}

pub open spec fn outcome_model(outcome: Result<(), Error>) -> Option<ErrorModel> {
    match outcome {
        Ok(_) => None,
        Err(e) => Some(e@),
    }
}

impl RunState {
    /// A run that has produced nothing yet.
    pub fn new() -> (r: RunState)
        ensures
            r@ == (RunModel { records: Seq::empty(), stopped: None }),
    {
        let r = RunState { records: Vec::new(), stopped: None };
        assert(r@.records =~= Seq::<ErrorOutputModel>::empty());
        r
    }

    /// Whether the run goes on to the next statement.
    pub fn running(&self) -> (b: bool)
        ensures
            b == (self@.stopped is None),
    {
        self.stopped.is_none()
    }

    /// Takes the outcome of the statement on line `stmt_line` (see
    /// [`run_step`] and [`run_advance`]).
    pub fn advance(&mut self, lenient: bool, stmt_line: usize, outcome: Result<(), Error>)
        ensures
            final(self)@ == run_advance(old(self)@, lenient, (stmt_line as nat, outcome_model(outcome))),
    {
        if self.stopped.is_some() {
            return;
        }
        let ghost step: StepModel = (stmt_line as nat, outcome_model(outcome));
        let ghost before = self@;
        match run_step(lenient, stmt_line, outcome) {
            RunStep::Continue => {},
            RunStep::Stop(e) => {
                self.stopped = Some(e);
            },
            RunStep::Record(o) => {
                self.records.push(o);
                assert(self@.records =~= before.records.push(record_of(step)));
            },
        }
    }
}

/// A strict run records nothing.
pub proof fn law_strict_run_records_nothing(steps: Seq<StepModel>)
    ensures
        run_fold(false, steps).records == Seq::<ErrorOutputModel>::empty(),
    decreases steps.len(),
{
    if steps.len() > 0 {
        law_strict_run_records_nothing(steps.drop_last());
    }
}

/// A run in which every statement succeeds does not stop.
pub proof fn law_run_without_failure_goes_through(lenient: bool, steps: Seq<StepModel>)
    requires
        forall|m: int| 0 <= m < steps.len() ==> #[trigger] steps[m].1 is None,
    ensures
        run_fold(lenient, steps).stopped is None,
    decreases steps.len(),
{
    if steps.len() > 0 {
        let p = steps.drop_last();
        assert forall|m: int| 0 <= m < p.len() implies #[trigger] p[m].1 is None by {
            assert(p[m] == steps[m]);
        }
        law_run_without_failure_goes_through(lenient, p);
        assert(steps[steps.len() - 1].1 is None);
    }
}

/// A strict run stops at the first failing statement `k`, with that
/// statement's error, given the statement's line when it has none.
pub proof fn law_strict_run_stops_at_first_failure(steps: Seq<StepModel>, k: int)
    requires
        0 <= k < steps.len(),
        steps[k].1 is Some,
        forall|m: int| 0 <= m < k ==> #[trigger] steps[m].1 is None,
    ensures
        run_fold(false, steps).stopped == Some(stop_of(steps[k])),
    decreases steps.len(),
{
    let p = steps.drop_last();
    if k == steps.len() - 1 {
        assert forall|m: int| 0 <= m < p.len() implies #[trigger] p[m].1 is None by {
            assert(p[m] == steps[m]);
        }
        law_run_without_failure_goes_through(false, p);
    } else {
        assert(p[k] == steps[k]);
        assert forall|m: int| 0 <= m < k implies #[trigger] p[m].1 is None by {
            assert(p[m] == steps[m]);
        }
        law_strict_run_stops_at_first_failure(p, k);
    }
}

/// A lenient run never stops, and records the error output of every
/// failing statement, in the order of the statements.
pub proof fn law_lenient_run_records_every_failure(steps: Seq<StepModel>)
    ensures
        run_fold(true, steps).stopped is None,
        run_fold(true, steps).records == failure_records(steps),
    decreases steps.len(),
{
    if steps.len() > 0 {
        law_lenient_run_records_every_failure(steps.drop_last());
    }
}

} // verus!
