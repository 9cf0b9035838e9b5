//! The decision and presentation layer of the ODE/PDE tools: solver method
//! names, what a classification says and which solvers it admits, and the
//! LaTeX text in which classifications and solution steps are shown.
//!
//! The symbolic work (building residuals, testing an equation for a form)
//! happens on floating-point expression trees outside this library; what the
//! decisions read from it is handed over as plain values.

use vstd::prelude::*;
use crate::text::{
    concat_str, decimal, decimal_string, escaped_everywhere, join, join_strings,
    lemma_replace_absent, lemma_replace_escapes, lemma_replace_keeps_escaped, replace_char,
    replace_char_str, str_eq, strings_view,
};

verus! {

/// A symbolic solution method that `solve(..., method=...)` can ask for.
#[derive(Debug, Clone, Copy, PartialEq, Eq)]
pub enum SolveMethod {
    Auto,
    Linear,
    Separable,
    Exact,
    Characteristic,
    Undetermined,
    Variation,
    PowerSeries,
    Frobenius,
}

/// The name under which a method is written in a program.
pub open spec fn method_label(m: SolveMethod) -> Seq<char> {
    match m {
        SolveMethod::Auto => "auto"@,
        SolveMethod::Linear => "linear"@,
        SolveMethod::Separable => "separable"@,
        SolveMethod::Exact => "exact"@,
        SolveMethod::Characteristic => "characteristic"@,
        SolveMethod::Undetermined => "undetermined"@,
        SolveMethod::Variation => "variation"@,
        SolveMethod::PowerSeries => "power_series"@,
        SolveMethod::Frobenius => "frobenius"@,
    }
}

/// The method a name denotes, if any.
pub open spec fn method_named(name: Seq<char>) -> Option<SolveMethod> {
    if name == "auto"@ {
        Some(SolveMethod::Auto)
    } else if name == "linear"@ {
        Some(SolveMethod::Linear)
    } else if name == "separable"@ {
        Some(SolveMethod::Separable)
    } else if name == "exact"@ {
        Some(SolveMethod::Exact)
    } else if name == "characteristic"@ {
        Some(SolveMethod::Characteristic)
    } else if name == "undetermined"@ {
        Some(SolveMethod::Undetermined)
    } else if name == "variation"@ {
        Some(SolveMethod::Variation)
    } else if name == "power_series"@ {
        Some(SolveMethod::PowerSeries)
    } else if name == "frobenius"@ {
        Some(SolveMethod::Frobenius)
    } else {
        None
    }
}

impl SolveMethod {
    /// The method called `name`, or `None` for an unknown name.
    pub fn parse(name: &str) -> (r: Option<SolveMethod>)
        ensures
            r == method_named(name@),
    {
        if str_eq(name, "auto") {
            Some(SolveMethod::Auto)
        } else if str_eq(name, "linear") {
            Some(SolveMethod::Linear)
        } else if str_eq(name, "separable") {
            Some(SolveMethod::Separable)
        } else if str_eq(name, "exact") {
            Some(SolveMethod::Exact)
        } else if str_eq(name, "characteristic") {
            Some(SolveMethod::Characteristic)
        } else if str_eq(name, "undetermined") {
            Some(SolveMethod::Undetermined)
        } else if str_eq(name, "variation") {
            Some(SolveMethod::Variation)
        } else if str_eq(name, "power_series") {
            Some(SolveMethod::PowerSeries)
        } else if str_eq(name, "frobenius") {
            Some(SolveMethod::Frobenius)
        } else {
            None
        }
    }

    /// The name of this method.
    pub fn label(self) -> (s: &'static str)
        ensures
            s@ == method_label(self),
    {
        match self {
            SolveMethod::Auto => "auto",
            SolveMethod::Linear => "linear",
            SolveMethod::Separable => "separable",
            SolveMethod::Exact => "exact",
            SolveMethod::Characteristic => "characteristic",
            SolveMethod::Undetermined => "undetermined",
            SolveMethod::Variation => "variation",
            SolveMethod::PowerSeries => "power_series",
            SolveMethod::Frobenius => "frobenius",
        }
    }
}

/// Every method's name parses back to that method, so no two methods share
/// a name.
pub proof fn law_method_label_parses_back(m: SolveMethod)
    ensures
        method_named(method_label(m)) == Some(m),
        forall|n: SolveMethod| method_label(n) == method_label(m) ==> n == m,
{
    reveal_strlit("auto");
    reveal_strlit("linear");
    reveal_strlit("separable");
    reveal_strlit("exact");
    reveal_strlit("characteristic");
    reveal_strlit("undetermined");
    reveal_strlit("variation");
    reveal_strlit("power_series");
    reveal_strlit("frobenius");
    assert forall|n: SolveMethod| method_named(method_label(n)) == Some(n) by {
        match n {
            SolveMethod::Auto => {},
            SolveMethod::Linear => {
                assert(method_label(n)[0] != "auto"@[0]);
            },
            SolveMethod::Separable => {
                assert(method_label(n)[0] != "auto"@[0]);
                assert(method_label(n)[0] != "linear"@[0]);
            },
            SolveMethod::Exact => {
                assert(method_label(n)[0] != "auto"@[0]);
                assert(method_label(n)[0] != "linear"@[0]);
                assert(method_label(n)[0] != "separable"@[0]);
            },
            SolveMethod::Characteristic => {
                assert(method_label(n)[0] != "auto"@[0]);
                assert(method_label(n)[0] != "linear"@[0]);
                assert(method_label(n)[0] != "separable"@[0]);
                assert(method_label(n)[0] != "exact"@[0]);
            },
            SolveMethod::Undetermined => {
                assert(method_label(n)[0] != "auto"@[0]);
                assert(method_label(n)[0] != "linear"@[0]);
                assert(method_label(n)[0] != "separable"@[0]);
                assert(method_label(n)[0] != "exact"@[0]);
                assert(method_label(n)[0] != "characteristic"@[0]);
            },
            SolveMethod::Variation => {
                assert(method_label(n)[0] != "auto"@[0]);
                assert(method_label(n)[0] != "linear"@[0]);
                assert(method_label(n)[0] != "separable"@[0]);
                assert(method_label(n)[0] != "exact"@[0]);
                assert(method_label(n)[0] != "characteristic"@[0]);
                assert(method_label(n)[0] != "undetermined"@[0]);
            },
            SolveMethod::PowerSeries => {
                assert(method_label(n)[0] != "auto"@[0]);
                assert(method_label(n)[0] != "linear"@[0]);
                assert(method_label(n)[0] != "separable"@[0]);
                assert(method_label(n)[0] != "exact"@[0]);
                assert(method_label(n)[0] != "characteristic"@[0]);
                assert(method_label(n)[0] != "undetermined"@[0]);
                assert(method_label(n)[0] != "variation"@[0]);
            },
            SolveMethod::Frobenius => {
                assert(method_label(n)[0] != "auto"@[0]);
                assert(method_label(n)[0] != "linear"@[0]);
                assert(method_label(n)[0] != "separable"@[0]);
                assert(method_label(n)[0] != "exact"@[0]);
                assert(method_label(n)[0] != "characteristic"@[0]);
                assert(method_label(n)[0] != "undetermined"@[0]);
                assert(method_label(n)[0] != "variation"@[0]);
                assert(method_label(n)[0] != "power_series"@[0]);
            },
        }
    }
}


/// LaTeX-escapes text for `\text{..}`: backslashes, then underscores, then
/// ampersands (each replacement leaves no character that a later one
/// rewrites).
pub open spec fn escape_spec(text: Seq<char>) -> Seq<char> {
    replace_char(
        replace_char(replace_char(text, '\\', "\\textbackslash{}"@), '_', "\\_"@),
        '&',
        "\\&"@,
    )
}

pub fn escape_text(text: &str) -> (s: String)
    ensures
        s@ == escape_spec(text@),
{
    let a = replace_char_str(text, '\\', "\\textbackslash{}");
    let b = replace_char_str(a.as_str(), '_', "\\_");
    replace_char_str(b.as_str(), '&', "\\&")
}

/// Escaping for `\text{..}` leaves text without `\`, `_` and `&` as it is,
/// and in any escaped text every `_` and every `&` follows a backslash.
pub proof fn law_escape_guards_specials(text: Seq<char>)
    ensures
        !text.contains('\\') && !text.contains('_') && !text.contains('&') ==> escape_spec(text)
            == text,
        escaped_everywhere(escape_spec(text), '_'),
        escaped_everywhere(escape_spec(text), '&'),
{
    reveal_strlit("\\textbackslash{}");
    reveal_strlit("\\_");
    reveal_strlit("\\&");
    let a = replace_char(text, '\\', "\\textbackslash{}"@);
    let b = replace_char(a, '_', "\\_"@);
    assert("\\_"@ == seq!['\\', '_']);
    assert("\\&"@ == seq!['\\', '&']);
    lemma_replace_escapes(a, '_');
    lemma_replace_escapes(b, '&');
    assert(!"\\&"@.contains('_')) by {
        if "\\&"@.contains('_') {
            let k = choose|k: int| 0 <= k < "\\&"@.len() && "\\&"@[k] == '_';
            assert(k == 0 || k == 1);
        }
    }
    lemma_replace_keeps_escaped(b, '&', "\\&"@, '_');
    if !text.contains('\\') && !text.contains('_') && !text.contains('&') {
        lemma_replace_absent(text, '\\', "\\textbackslash{}"@);
        lemma_replace_absent(a, '_', "\\_"@);
        lemma_replace_absent(b, '&', "\\&"@);
    }
}

/// `\text{..}` around escaped text.
pub open spec fn text_cell_spec(text: Seq<char>) -> Seq<char> {
    "\\text{"@ + escape_spec(text) + "}"@
}

pub fn text_cell(text: &str) -> (s: String)
    ensures
        s@ == text_cell_spec(text@),
{
    let e = escape_text(text);
    let mut s = concat_str("\\text{", e.as_str());
    s.append("}");
    s
}

/// Each part wrapped by [`text_cell`].
pub fn text_cells(parts: &Vec<String>) -> (v: Vec<String>)
    ensures
        strings_view(v@) == strings_view(parts@).map_values(|p: Seq<char>| text_cell_spec(p)),
{
    let mut v: Vec<String> = Vec::new();
    let mut i: usize = 0;
    while i < parts.len()
        invariant
            i <= parts@.len(),
            v@.len() == i,
            forall|j: int| 0 <= j < i ==> (#[trigger] v@[j])@ == text_cell_spec(parts@[j]@),
        decreases parts.len() - i,
    {
        let c = text_cell(parts[i].as_str());
        v.push(c);
        i = i + 1;
    }
    assert(strings_view(v@) =~= strings_view(parts@).map_values(|p: Seq<char>| text_cell_spec(p)));
    v
}

/// Appends an owned copy of `s`.
pub fn push_owned(v: &mut Vec<String>, s: &str)
    ensures
        strings_view(final(v)@) == strings_view(old(v)@).push(s@),
{
    let ghost before = strings_view(v@);
    v.push(String::from_str(s));
    assert(strings_view(v@) =~= before.push(s@));
}

/// The name of the constant of integration in a general solution.
pub fn constant_name() -> (s: &'static str)
    ensures
        s@ == "C_1"@,
{
    "C_1"
}

/// The name of the second constant of a second-order general solution.
pub fn constant2_name() -> (s: &'static str)
    ensures
        s@ == "C_2"@,
{
    "C_2"
}

/// One term `A_i x^i` of the trial polynomial for undetermined coefficients.
pub open spec fn template_term(i: nat) -> Seq<char> {
    if i == 0 {
        "A_0"@
    } else if i == 1 {
        "A_1x"@
    } else {
        "A_"@ + decimal(i) + "x^"@ + decimal(i)
    }
}

/// The trial polynomial `A_0+A_1x+...+A_nx^n` of degree `n`.
pub open spec fn polynomial_template_spec(degree: nat) -> Seq<char> {
    join(Seq::new(degree + 1, |i: int| template_term(i as nat)), "+"@)
}

pub fn polynomial_template_latex(degree: usize) -> (s: String)
    requires
        degree < usize::MAX,
    ensures
        s@ == polynomial_template_spec(degree as nat),
{
    let mut terms: Vec<String> = Vec::new();
    let mut i: usize = 0;
    while i <= degree
        invariant
            i <= degree + 1,
            degree < usize::MAX,
            strings_view(terms@) == Seq::new(i as nat, |k: int| template_term(k as nat)),
        decreases degree + 1 - i,
    {
        let ghost before = strings_view(terms@);
        if i == 0 {
            push_owned(&mut terms, "A_0");
        } else if i == 1 {
            push_owned(&mut terms, "A_1x");
        } else {
            let d = decimal_string(i);
            let mut t = concat_str("A_", d.as_str());
            t.append("x^");
            t.append(d.as_str());
            terms.push(t);
            assert(strings_view(terms@) =~= before.push(template_term(i as nat)));
        }
        assert(strings_view(terms@) =~= Seq::new((i + 1) as nat, |k: int| template_term(k as nat)));
        i = i + 1;
    }
    join_strings(&terms, "+")
}


/// Whether an equation is an ordinary or a partial differential equation.
#[derive(Debug, Clone, Copy, PartialEq, Eq)]
pub enum DifferentialKind {
    Ode,
    Pde,
}

/// What a classification found, as plain values: the kind, the highest
/// derivative order, whether the target appears linearly, whether the
/// equation is homogeneous, and the names of the recognised forms
/// (`linear`, `separable`, `exact`, `constant_coefficients`,
/// `regular_singular`, `ordinary_point`).
#[derive(Debug, Clone)]
pub struct OdeClassSummary {
    pub kind: DifferentialKind,
    pub order: usize,
    pub linear: bool,
    pub homogeneous: bool,
    pub subtypes: Vec<String>,
}

/// Mathematical model of an [`OdeClassSummary`].
pub struct ClassModel {
    pub kind: DifferentialKind,
    pub order: nat,
    pub linear: bool,
    pub homogeneous: bool,
    pub subtypes: Seq<Seq<char>>,
}

impl View for OdeClassSummary {
    type V = ClassModel;

    open spec fn view(&self) -> ClassModel {
        ClassModel {
            kind: self.kind,
            order: self.order as nat,
            linear: self.linear,
            homogeneous: self.homogeneous,
            subtypes: strings_view(self.subtypes@),
        }
    }
}

/// `seq![s]` when `b` holds, else nothing.
pub open spec fn when(b: bool, s: Seq<char>) -> Seq<Seq<char>> {
    if b {
        seq![s]
    } else {
        Seq::empty()
    }
}

/// The solver labels a classification admits, in the order they are
/// offered; the first is the default solve path.
pub open spec fn supported_methods_spec(c: ClassModel) -> Seq<Seq<char>> {
    let has = |name: Seq<char>| c.subtypes.contains(name);
    if c.kind != DifferentialKind::Ode {
        Seq::empty()
    } else if c.order == 2 && c.linear {
        when(has("constant_coefficients"@) && c.homogeneous, "characteristic"@) + (if has(
            "constant_coefficients"@,
        ) && !c.homogeneous {
            seq!["undetermined coefficients"@, "variation of parameters"@]
        } else {
            Seq::empty()
        }) + when(has("ordinary_point"@), "power series"@) + when(
            has("regular_singular"@),
            "frobenius"@,
        )
    } else if c.order != 1 {
        Seq::empty()
    } else {
        when(has("linear"@), "linear integrating factor"@) + when(has("separable"@), "separable"@)
            + when(has("exact"@), "exact"@)
    }
}

/// Why no solver is offered.
pub open spec fn unsupported_reason_spec(c: ClassModel) -> Seq<char> {
    if c.kind == DifferentialKind::Pde {
        "PDE solving is not implemented"@
    } else if c.order != 1 {
        "only first-order and supported second-order linear ODE solvers are implemented"@
    } else {
        "no supported symbolic method matched"@
    }
}

/// Whether `name` is among `subtypes`.
pub fn has_subtype(subtypes: &Vec<String>, name: &str) -> (r: bool)
    ensures
        r == strings_view(subtypes@).contains(name@),
{
    let mut i: usize = 0;
    while i < subtypes.len()
        invariant
            i <= subtypes@.len(),
            forall|j: int| 0 <= j < i ==> (#[trigger] subtypes@[j])@ != name@,
        decreases subtypes.len() - i,
    {
        if str_eq(subtypes[i].as_str(), name) {
            assert(strings_view(subtypes@)[i as int] == name@);
            return true;
        }
        i = i + 1;
    }
    assert(!strings_view(subtypes@).contains(name@)) by {
        if strings_view(subtypes@).contains(name@) {
            let j = choose|j: int| 0 <= j < strings_view(subtypes@).len() && strings_view(subtypes@)[j] == name@;
            assert(subtypes@[j]@ == name@);
        }
    }
    false
}

/// The solver labels a classification admits (see [`supported_methods_spec`]).
pub fn supported_method_labels(class: &OdeClassSummary) -> (v: Vec<String>)
    ensures
        strings_view(v@) == supported_methods_spec(class@),
{
    let mut v: Vec<String> = Vec::new();
    if let DifferentialKind::Pde = class.kind {
        assert(strings_view(v@) =~= Seq::<Seq<char>>::empty());
        return v;
    }
    if class.order == 2 && class.linear {
        let cc = has_subtype(&class.subtypes, "constant_coefficients");
        if cc && class.homogeneous {
            push_owned(&mut v, "characteristic");
        }
        if cc && !class.homogeneous {
            push_owned(&mut v, "undetermined coefficients");
            push_owned(&mut v, "variation of parameters");
        }
        if has_subtype(&class.subtypes, "ordinary_point") {
            push_owned(&mut v, "power series");
        }
        if has_subtype(&class.subtypes, "regular_singular") {
            push_owned(&mut v, "frobenius");
        }
        assert(strings_view(v@) =~= supported_methods_spec(class@));
        return v;
    }
    if class.order != 1 {
        assert(strings_view(v@) =~= Seq::<Seq<char>>::empty());
        return v;
    }
    if has_subtype(&class.subtypes, "linear") {
        push_owned(&mut v, "linear integrating factor");
    }
    if has_subtype(&class.subtypes, "separable") {
        push_owned(&mut v, "separable");
    }
    if has_subtype(&class.subtypes, "exact") {
        push_owned(&mut v, "exact");
    }
    assert(strings_view(v@) =~= supported_methods_spec(class@));
    v
}

/// Why no solver is offered for `class`.
pub fn unsupported_method_reason(class: &OdeClassSummary) -> (s: String)
    ensures
        s@ == unsupported_reason_spec(class@),
{
    match class.kind {
        DifferentialKind::Pde => String::from_str("PDE solving is not implemented"),
        DifferentialKind::Ode => {
            if class.order != 1 {
                String::from_str(
                    "only first-order and supported second-order linear ODE solvers are implemented",
                )
            } else {
                String::from_str("no supported symbolic method matched")
            }
        },
    }
}


/// The four words of a classification: `ODE`/`PDE`, the order,
/// `linear`/`nonlinear`, `homogeneous`/`non-homogeneous`.
pub open spec fn kind_text(k: DifferentialKind) -> Seq<char> {
    match k {
        DifferentialKind::Ode => "ODE"@,
        DifferentialKind::Pde => "PDE"@,
    }
}

pub open spec fn linear_text(linear: bool) -> Seq<char> {
    if linear {
        "linear"@
    } else {
        "nonlinear"@
    }
}

pub open spec fn homogeneous_text(homogeneous: bool) -> Seq<char> {
    if homogeneous {
        "homogeneous"@
    } else {
        "non-homogeneous"@
    }
}

pub fn classification_values(class: &OdeClassSummary) -> (r: (String, String, String, String))
    ensures
        r.0@ == kind_text(class.kind),
        r.1@ == decimal(class.order as nat),
        r.2@ == linear_text(class.linear),
        r.3@ == homogeneous_text(class.homogeneous),
{
    let kind = match class.kind {
        DifferentialKind::Ode => String::from_str("ODE"),
        DifferentialKind::Pde => String::from_str("PDE"),
    };
    let linear = if class.linear {
        String::from_str("linear")
    } else {
        String::from_str("nonlinear")
    };
    let homogeneous = if class.homogeneous {
        String::from_str("homogeneous")
    } else {
        String::from_str("non-homogeneous")
    };
    (kind, decimal_string(class.order), linear, homogeneous)
}

/// The one-row LaTeX array that `show(classification)` displays.
pub open spec fn classification_summary_spec(c: ClassModel) -> Seq<char> {
    "\\begin{array}{cccc}"@ + text_cell_spec(kind_text(c.kind)) + " & "@ + text_cell_spec(
        "order "@ + decimal(c.order),
    ) + " & "@ + text_cell_spec(linear_text(c.linear)) + " & "@ + text_cell_spec(
        homogeneous_text(c.homogeneous),
    ) + "\\end{array}"@
}

pub fn classification_summary(class: &OdeClassSummary) -> (s: String)
    ensures
        s@ == classification_summary_spec(class@),
{
    let (kind, order, linear, homogeneous) = classification_values(class);
    let order_words = concat_str("order ", order.as_str());
    let mut s = String::from_str("\\begin{array}{cccc}");
    s.append(text_cell(kind.as_str()).as_str());
    s.append(" & ");
    s.append(text_cell(order_words.as_str()).as_str());
    s.append(" & ");
    s.append(text_cell(linear.as_str()).as_str());
    s.append(" & ");
    s.append(text_cell(homogeneous.as_str()).as_str());
    s.append("\\end{array}");
    s
}

/// A classification shown in any display mode: the summary array.
pub fn render_classification(class: &OdeClassSummary, mode: &str) -> (s: String)
    ensures
        s@ == classification_summary_spec(class@),
{
    classification_summary(class)
}

/// The two-row LaTeX array that `show(methods)` displays: the admitted
/// solvers (or `none`) and the default solve path (or the reason there is
/// none).
pub open spec fn available_methods_spec(c: ClassModel) -> Seq<char> {
    let ms = supported_methods_spec(c);
    let available = if ms.len() == 0 {
        "\\text{none}"@
    } else {
        join(ms.map_values(|p: Seq<char>| text_cell_spec(p)), ", "@)
    };
    let default = if ms.len() == 0 {
        text_cell_spec(unsupported_reason_spec(c))
    } else {
        text_cell_spec(ms[0])
    };
    "\\begin{array}{rl}\n\\text{available methods} & "@ + available
        + "\\\\[3pt]\n\\text{default solve path} & "@ + default + "\n\\end{array}"@
}

pub fn render_available_methods(class: &OdeClassSummary) -> (s: String)
    ensures
        s@ == available_methods_spec(class@),
{
    let methods = supported_method_labels(class);
    let available = if methods.len() == 0 {
        String::from_str("\\text{none}")
    } else {
        let cells = text_cells(&methods);
        join_strings(&cells, ", ")
    };
    let default = if methods.len() == 0 {
        let reason = unsupported_method_reason(class);
        text_cell(reason.as_str())
    } else {
        text_cell(methods[0].as_str())
    };
    let mut s = String::from_str("\\begin{array}{rl}\n\\text{available methods} & ");
    s.append(available.as_str());
    s.append("\\\\[3pt]\n\\text{default solve path} & ");
    s.append(default.as_str());
    s.append("\n\\end{array}");
    s
}

/// Classification fields behind `show(classification)`.
pub struct OdeClassInfo {
    pub kind: String,
    pub order: usize,
    pub linear: bool,
    pub homogeneous: bool,
}

pub fn classification_info(class: &OdeClassSummary) -> (r: OdeClassInfo)
    ensures
        r.kind@ == kind_text(class.kind),
        r.order == class.order,
        r.linear == class.linear,
        r.homogeneous == class.homogeneous,
{
    let kind = match class.kind {
        DifferentialKind::Ode => String::from_str("ODE"),
        DifferentialKind::Pde => String::from_str("PDE"),
    };
    OdeClassInfo { kind, order: class.order, linear: class.linear, homogeneous: class.homogeneous }
}

/// Available and default solver labels behind `show(methods)`.
pub struct OdeMethodsInfo {
    pub available: Vec<String>,
    pub default: String,
}

pub fn methods_info(class: &OdeClassSummary) -> (r: OdeMethodsInfo)
    ensures
        strings_view(r.available@) == supported_methods_spec(class@),
        r.default@ == (if supported_methods_spec(class@).len() == 0 {
            unsupported_reason_spec(class@)
        } else {
            supported_methods_spec(class@)[0]
        }),
{
    let available = supported_method_labels(class);
    let default = if available.len() == 0 {
        unsupported_method_reason(class)
    } else {
        assert(strings_view(available@)[0] == available@[0]@);
        available[0].clone()
    };
    OdeMethodsInfo { available, default }
}


/// One labelled derivation row of a solution.
#[derive(Debug, Clone, PartialEq)]
pub struct OdeStep {
    pub label: String,
    pub latex: String,
}

impl OdeStep {
    pub fn new(label: &str, latex: String) -> (s: OdeStep)
        ensures
            s.label@ == label@,
            s.latex == latex,
    {
        OdeStep { label: String::from_str(label), latex }
    }
}

/// The LaTeX of each step, in order.
pub fn step_latex(steps: Vec<OdeStep>) -> (v: Vec<String>)
    ensures
        v@.len() == steps@.len(),
        forall|i: int| 0 <= i < steps@.len() ==> (#[trigger] v@[i])@ == steps@[i].latex@,
{
    let mut v: Vec<String> = Vec::new();
    let mut i: usize = 0;
    while i < steps.len()
        invariant
            i <= steps@.len(),
            v@.len() == i,
            forall|j: int| 0 <= j < i ==> (#[trigger] v@[j])@ == steps@[j].latex@,
        decreases steps.len() - i,
    {
        v.push(steps[i].latex.clone());
        i = i + 1;
    }
    v
}

/// The note row shown for a solver warning.
pub open spec fn note_text(warning: Seq<char>) -> Seq<char> {
    "\\text{Note: "@ + escape_spec(warning) + "}"@
}

pub fn note_row(warning: &str) -> (s: String)
    ensures
        s@ == note_text(warning@),
{
    let e = escape_text(warning);
    let mut s = concat_str("\\text{Note: ", e.as_str());
    s.append("}");
    s
}

/// Appends a `note` step when the solver left a warning.
pub fn push_warning_step(steps: &mut Vec<OdeStep>, warning: &Option<String>)
    ensures
        match warning {
            Some(w) => {
                &&& final(steps)@.len() == old(steps)@.len() + 1
                &&& final(steps)@.take(old(steps)@.len() as int) == old(steps)@
                &&& final(steps)@.last().label@ == "note"@
                &&& final(steps)@.last().latex@ == note_text(w@)
            },
            None => final(steps)@ == old(steps)@,
        },
{
    if let Some(w) = warning {
        let step = OdeStep::new("note", note_row(w.as_str()));
        steps.push(step);
        assert(steps@.take(old(steps)@.len() as int) =~= old(steps)@);
    }
}

/// Appends the note row when the solver left a warning.
pub fn push_warning(rows: &mut Vec<String>, warning: &Option<String>)
    ensures
        strings_view(final(rows)@) == match warning {
            Some(w) => strings_view(old(rows)@).push(note_text(w@)),
            None => strings_view(old(rows)@),
        },
{
    if let Some(w) = warning {
        let ghost before = strings_view(rows@);
        rows.push(note_row(w.as_str()));
        assert(strings_view(rows@) =~= before.push(note_text(w@)));
    }
}

/// The warning of a solution, or the generic reason when there is none.
pub open spec fn warning_or_default(warning: Option<Seq<char>>) -> Seq<char> {
    match warning {
        Some(w) => w,
        None => "no symbolic method matched"@,
    }
}

pub open spec fn option_view(o: Option<String>) -> Option<Seq<char>> {
    match o {
        Some(s) => Some(s@),
        None => None,
    }
}

/// The row shown when no symbolic solution was found.
pub open spec fn unsupported_text_spec(warning: Option<Seq<char>>) -> Seq<char> {
    "\\text{Unsupported: "@ + escape_spec(warning_or_default(warning)) + "}"@
}

pub fn unsupported_text(warning: &Option<String>) -> (s: String)
    ensures
        s@ == unsupported_text_spec(option_view(*warning)),
{
    let reason = match warning {
        Some(w) => escape_text(w.as_str()),
        None => escape_text("no symbolic method matched"),
    };
    let mut s = concat_str("\\text{Unsupported: ", reason.as_str());
    s.append("}");
    s
}

/// The text shown by `show(solution)` when no solution was found.
pub open spec fn missing_solution_spec(warning: Option<Seq<char>>) -> Seq<char> {
    "\\text{unsupported: "@ + escape_spec(warning_or_default(warning)) + "}"@
}

pub fn missing_solution_text(warning: &Option<String>) -> (s: String)
    ensures
        s@ == missing_solution_spec(option_view(*warning)),
{
    let reason = match warning {
        Some(w) => escape_text(w.as_str()),
        None => escape_text("no symbolic method matched"),
    };
    let mut s = concat_str("\\text{unsupported: ", reason.as_str());
    s.append("}");
    s
}

/// Rows set one under another in an `aligned` block, or a notice when there
/// are none.
pub open spec fn aligned_process_spec(rows: Seq<Seq<char>>) -> Seq<char> {
    if rows.len() == 0 {
        "\\text{No symbolic steps available.}"@
    } else {
        "\\begin{aligned}\n&"@ + join(rows, "\\\\[3pt]\n&"@) + "\n\\end{aligned}"@
    }
}

pub fn aligned_process(rows: Vec<String>) -> (s: String)
    ensures
        s@ == aligned_process_spec(strings_view(rows@)),
{
    if rows.len() == 0 {
        return String::from_str("\\text{No symbolic steps available.}");
    }
    let body = join_strings(&rows, "\\\\[3pt]\n&");
    let mut s = concat_str("\\begin{aligned}\n&", body.as_str());
    s.append("\n\\end{aligned}");
    s
}

/// The `steps` display of a solution: its rows in an `aligned` block.
pub open spec fn steps_block_spec(rows: Seq<Seq<char>>) -> Seq<char> {
    "\\begin{aligned}\n"@ + join(rows, "\\\\\n"@) + "\n\\end{aligned}"@
}

pub fn steps_block(rows: &Vec<String>) -> (s: String)
    ensures
        s@ == steps_block_spec(strings_view(rows@)),
{
    let body = join_strings(rows, "\\\\\n");
    let mut s = concat_str("\\begin{aligned}\n", body.as_str());
    s.append("\n\\end{aligned}");
    s
}


/// Total derivative order of one occurrence of the target: the sum of its
/// per-argument derivative orders.
pub open spec fn order_sum(orders: Seq<usize>) -> nat
    decreases orders.len(),
{
    if orders.len() == 0 {
        0
    } else {
        order_sum(orders.drop_last()) + orders.last() as nat
    }
}

/// The highest total derivative order over all occurrences (0 when the
/// target does not occur).
pub open spec fn max_order(occurrences: Seq<Seq<usize>>) -> nat
    decreases occurrences.len(),
{
    if occurrences.len() == 0 {
        0
    } else {
        let rest = max_order(occurrences.drop_last());
        let last = order_sum(occurrences.last());
        if rest >= last {
            rest
        } else {
            last
        }
    }
}

/// The views of a vector of derivative-order vectors.
pub open spec fn occurrences_view(v: Seq<Vec<usize>>) -> Seq<Seq<usize>> {
    v.map_values(|o: Vec<usize>| o@)
}

proof fn lemma_order_sum_prefix(s: Seq<usize>, j: int)
    requires
        0 <= j <= s.len(),
    ensures
        order_sum(s.take(j)) <= order_sum(s),
    decreases s.len(),
{
    if j < s.len() {
        assert(s.drop_last().take(j) == s.take(j));
        lemma_order_sum_prefix(s.drop_last(), j);
    } else {
        assert(s.take(j) == s);
    }
}

/// The total derivative order of one occurrence.
pub fn occurrence_order(orders: &Vec<usize>) -> (n: usize)
    requires
        order_sum(orders@) <= usize::MAX,
    ensures
        n as nat == order_sum(orders@),
{
    let mut n: usize = 0;
    let mut i: usize = 0;
    while i < orders.len()
        invariant
            i <= orders@.len(),
            n as nat == order_sum(orders@.take(i as int)),
            order_sum(orders@) <= usize::MAX,
        decreases orders.len() - i,
    {
        assert(orders@.take(i + 1).drop_last() == orders@.take(i as int));
        proof {
            lemma_order_sum_prefix(orders@, i + 1);
        }
        n = n + orders[i];
        i = i + 1;
    }
    assert(orders@.take(orders@.len() as int) == orders@);
    n
}

/// The order of a differential equation: the highest total derivative
/// order of the target over its occurrences.
pub fn differential_order(occurrences: &Vec<Vec<usize>>) -> (n: usize)
    requires
        forall|j: int| 0 <= j < occurrences@.len() ==> order_sum(#[trigger] occurrences@[j]@) <= usize::MAX,
    ensures
        n as nat == max_order(occurrences_view(occurrences@)),
{
    let ghost occ = occurrences_view(occurrences@);
    let mut n: usize = 0;
    let mut j: usize = 0;
    while j < occurrences.len()
        invariant
            occ == occurrences_view(occurrences@),
            j <= occurrences@.len(),
            n as nat == max_order(occ.take(j as int)),
            forall|k: int| 0 <= k < occurrences@.len() ==> order_sum(#[trigger] occurrences@[k]@) <= usize::MAX,
        decreases occurrences.len() - j,
    {
        assert(occ.take(j + 1).drop_last() == occ.take(j as int));
        assert(occ[j as int] == occurrences@[j as int]@);
        let o = occurrence_order(&occurrences[j]);
        if o > n {
            n = o;
        }
        j = j + 1;
    }
    assert(occ.take(occurrences@.len() as int) == occ);
    n
}

/// The view of a vector of optional names.
pub open spec fn names_view(v: Seq<Option<String>>) -> Seq<Option<Seq<char>>> {
    v.map_values(|o: Option<String>| option_view(o))
}

/// Whether argument `i` of the target is a symbol other than the
/// independent variable `x`.
pub open spec fn other_variable(names: Seq<Option<Seq<char>>>, i: int, x: Seq<char>) -> bool {
    0 <= i < names.len() && names[i] is Some && names[i]->0 != x
}

/// A PDE when the target takes several arguments or is differentiated with
/// respect to a symbol other than `x`; an ODE otherwise.
pub open spec fn kind_spec(
    names: Seq<Option<Seq<char>>>,
    x: Seq<char>,
    occurrences: Seq<Seq<usize>>,
) -> DifferentialKind {
    if names.len() > 1 || exists|j: int, i: int|
        0 <= j < occurrences.len() && 0 <= i < occurrences[j].len() && #[trigger] occurrences[j][i]
            > 0 && other_variable(names, i, x) {
        DifferentialKind::Pde
    } else {
        DifferentialKind::Ode
    }
}

/// Whether `name` is present and differs from `x`.
fn names_other(name: &Option<String>, x: &str) -> (r: bool)
    ensures
        r == (option_view(*name) is Some && option_view(*name)->0 != x@),
{
    match name {
        Some(n) => !str_eq(n.as_str(), x),
        None => false,
    }
}

/// Whether the equation is an ODE or a PDE (see [`kind_spec`]).
/// `arg_names[i]` is the symbol name of the target's `i`-th argument, where
/// it is a plain symbol.
pub fn differential_kind(
    arg_names: &Vec<Option<String>>,
    x_name: &str,
    occurrences: &Vec<Vec<usize>>,
) -> (k: DifferentialKind)
    ensures
        k == kind_spec(names_view(arg_names@), x_name@, occurrences_view(occurrences@)),
{
    let ghost names = names_view(arg_names@);
    let ghost occ = occurrences_view(occurrences@);
    if arg_names.len() > 1 {
        return DifferentialKind::Pde;
    }
    let mut j: usize = 0;
    while j < occurrences.len()
        invariant
            names == names_view(arg_names@),
            occ == occurrences_view(occurrences@),
            j <= occurrences@.len(),
            forall|jj: int, i: int|
                0 <= jj < j && 0 <= i < occ[jj].len() && #[trigger] occ[jj][i] > 0 ==> !other_variable(
                    names,
                    i,
                    x_name@,
                ),
        decreases occurrences.len() - j,
    {
        let orders = &occurrences[j];
        assert(occ[j as int] == orders@);
        let mut i: usize = 0;
        while i < orders.len()
            invariant
                names == names_view(arg_names@),
                occ == occurrences_view(occurrences@),
                j < occurrences@.len(),
                occ[j as int] == orders@,
                i <= orders@.len(),
                forall|jj: int, ii: int|
                    0 <= jj < j && 0 <= ii < occ[jj].len() && #[trigger] occ[jj][ii] > 0 ==> !other_variable(
                        names,
                        ii,
                        x_name@,
                    ),
                forall|ii: int|
                    0 <= ii < i && #[trigger] orders@[ii] > 0 ==> !other_variable(names, ii, x_name@),
            decreases orders.len() - i,
        {
            if orders[i] > 0 && i < arg_names.len() {
                assert(names[i as int] == option_view(arg_names@[i as int]));
                if names_other(&arg_names[i], x_name) {
                    assert(occ[j as int][i as int] > 0 && other_variable(names, i as int, x_name@));
                    return DifferentialKind::Pde;
                }
            }
            i = i + 1;
        }
        j = j + 1;
    }
    DifferentialKind::Ode
}


/// Which standard forms the symbolic tests recognised in an equation. The
/// first-order tests are made only for first-order ODEs, the second-order
/// ones only for linear second-order ODEs.
#[derive(Debug, Clone, Copy, PartialEq, Eq)]
pub struct FormFacts {
    /// `y' + p(x) y = q(x)` with coefficients free of `y`.
    pub linear_first_order: bool,
    /// `y' = f(x) g(y)`.
    pub separable: bool,
    /// `M dx + N dy = 0` with `M_y = N_x`.
    pub exact: bool,
    /// The equation could be put as `a2 y'' + a1 y' + a0 y = f`.
    pub second_order_form: bool,
    /// ... with constant coefficients.
    pub constant_coefficients: bool,
    /// ... with a regular singular point at the expansion point.
    pub regular_singular: bool,
}

/// The recognised forms, by name, in the order they are listed.
pub open spec fn subtypes_spec(
    kind: DifferentialKind,
    order: nat,
    linear: bool,
    f: FormFacts,
) -> Seq<Seq<char>> {
    if kind == DifferentialKind::Ode && order == 1 {
        when(f.linear_first_order, "linear"@) + when(f.separable, "separable"@) + when(
            f.exact,
            "exact"@,
        )
    } else if kind == DifferentialKind::Ode && order == 2 && linear && f.second_order_form {
        when(f.constant_coefficients, "constant_coefficients"@) + (if f.regular_singular {
            seq!["regular_singular"@]
        } else {
            seq!["ordinary_point"@]
        })
    } else {
        Seq::empty()
    }
}

pub fn classification_subtypes(
    kind: DifferentialKind,
    order: usize,
    linear: bool,
    facts: &FormFacts,
) -> (v: Vec<String>)
    ensures
        strings_view(v@) == subtypes_spec(kind, order as nat, linear, *facts),
{
    let mut v: Vec<String> = Vec::new();
    let is_ode = match kind {
        DifferentialKind::Ode => true,
        DifferentialKind::Pde => false,
    };
    if is_ode && order == 1 {
        if facts.linear_first_order {
            push_owned(&mut v, "linear");
        }
        if facts.separable {
            push_owned(&mut v, "separable");
        }
        if facts.exact {
            push_owned(&mut v, "exact");
        }
    } else if is_ode && order == 2 && linear && facts.second_order_form {
        if facts.constant_coefficients {
            push_owned(&mut v, "constant_coefficients");
        }
        if facts.regular_singular {
            push_owned(&mut v, "regular_singular");
        } else {
            push_owned(&mut v, "ordinary_point");
        }
    }
    assert(strings_view(v@) =~= subtypes_spec(kind, order as nat, linear, *facts));
    v
}

/// The reasons listed with a classification.
pub open spec fn reasons_spec(arg_count: nat, order: nat, linear: bool) -> Seq<Seq<char>> {
    seq![
        decimal(arg_count) + " independent variable(s)"@,
        "highest derivative order = "@ + decimal(order),
        if linear {
            "target function appears linearly"@
        } else {
            "target function appears nonlinearly"@
        },
    ]
}

pub fn classification_reasons(arg_count: usize, order: usize, linear: bool) -> (v: Vec<String>)
    ensures
        strings_view(v@) == reasons_spec(arg_count as nat, order as nat, linear),
{
    let mut v: Vec<String> = Vec::new();
    let mut first = decimal_string(arg_count);
    first.append(" independent variable(s)");
    v.push(first);
    let order_digits = decimal_string(order);
    v.push(concat_str("highest derivative order = ", order_digits.as_str()));
    if linear {
        v.push(String::from_str("target function appears linearly"));
    } else {
        v.push(String::from_str("target function appears nonlinearly"));
    }
    assert(strings_view(v@) =~= reasons_spec(arg_count as nat, order as nat, linear));
    v
}

/// The classification of an equation from what the symbolic analysis
/// found: the target's argument names, the independent variable, the
/// derivative orders of each occurrence of the target, whether it appears
/// linearly, whether the equation is homogeneous, and the recognised forms.
pub open spec fn classify_spec(
    names: Seq<Option<Seq<char>>>,
    x: Seq<char>,
    occurrences: Seq<Seq<usize>>,
    linear: bool,
    homogeneous: bool,
    facts: FormFacts,
) -> ClassModel {
    let kind = kind_spec(names, x, occurrences);
    let order = max_order(occurrences);
    ClassModel {
        kind,
        order,
        linear,
        homogeneous,
        subtypes: subtypes_spec(kind, order, linear, facts),
    }
}

pub fn classify_summary(
    arg_names: &Vec<Option<String>>,
    x_name: &str,
    occurrences: &Vec<Vec<usize>>,
    linear: bool,
    homogeneous: bool,
    facts: &FormFacts,
) -> (c: OdeClassSummary)
    requires
        forall|j: int| 0 <= j < occurrences@.len() ==> order_sum(#[trigger] occurrences@[j]@) <= usize::MAX,
    ensures
        c@ == classify_spec(
            names_view(arg_names@),
            x_name@,
            occurrences_view(occurrences@),
            linear,
            homogeneous,
            *facts,
        ),
{
    let kind = differential_kind(arg_names, x_name, occurrences);
    let order = differential_order(occurrences);
    let subtypes = classification_subtypes(kind, order, linear, facts);
    OdeClassSummary { kind, order, linear, homogeneous, subtypes }
}


/// Solvers are offered only for ODEs of first order, or of second order when
/// linear; a PDE is offered none, with the reason that PDE solving is not
/// implemented.
pub proof fn law_methods_only_for_supported_odes(c: ClassModel)
    ensures
        supported_methods_spec(c).len() > 0 ==> c.kind == DifferentialKind::Ode && (c.order == 1
            || (c.order == 2 && c.linear)),
        c.kind == DifferentialKind::Pde ==> supported_methods_spec(c).len() == 0
            && unsupported_reason_spec(c) == "PDE solving is not implemented"@,
{
}

/// The first character of a sequence decides membership in a sequence whose
/// elements all start with other characters.
proof fn lemma_first_char_differs(s: Seq<Seq<char>>, name: Seq<char>)
    requires
        name.len() > 0,
        forall|i: int| 0 <= i < s.len() ==> s[i].len() > 0 && s[i][0] != name[0],
    ensures
        !s.contains(name),
{
    if s.contains(name) {
        let i = choose|i: int| 0 <= i < s.len() && s[i] == name;
        assert(s[i][0] == name[0]);
    }
}

/// For a first-order ODE the solvers offered are exactly those of the
/// recognised forms, in the order linear (integrating factor), separable,
/// exact.
pub proof fn law_first_order_methods_follow_forms(
    names: Seq<Option<Seq<char>>>,
    x: Seq<char>,
    occurrences: Seq<Seq<usize>>,
    linear: bool,
    homogeneous: bool,
    facts: FormFacts,
)
    requires
        kind_spec(names, x, occurrences) == DifferentialKind::Ode,
        max_order(occurrences) == 1,
    ensures
        supported_methods_spec(classify_spec(names, x, occurrences, linear, homogeneous, facts))
            == when(facts.linear_first_order, "linear integrating factor"@) + when(
            facts.separable,
            "separable"@,
        ) + when(facts.exact, "exact"@),
{
    reveal_strlit("linear");
    reveal_strlit("separable");
    reveal_strlit("exact");
    let st = subtypes_spec(DifferentialKind::Ode, 1, linear, facts);
    let a = when(facts.linear_first_order, "linear"@);
    let b = when(facts.separable, "separable"@);
    let c = when(facts.exact, "exact"@);
    assert(st == a + b + c);
    assert(st.contains("linear"@) == facts.linear_first_order) by {
        if facts.linear_first_order {
            assert(st[0] == "linear"@);
        } else {
            lemma_first_char_differs(st, "linear"@);
        }
    }
    assert(st.contains("separable"@) == facts.separable) by {
        if facts.separable {
            assert(st[a.len() as int] == "separable"@);
        } else {
            lemma_first_char_differs(st, "separable"@);
        }
    }
    assert(st.contains("exact"@) == facts.exact) by {
        if facts.exact {
            assert(st[(a.len() + b.len()) as int] == "exact"@);
        } else {
            lemma_first_char_differs(st, "exact"@);
        }
    }
}

/// For a linear second-order ODE in standard form the solvers offered are:
/// the characteristic equation when the coefficients are constant and the
/// equation homogeneous; undetermined coefficients and variation of
/// parameters when they are constant and it is not; then a power series
/// about an ordinary point, or the Frobenius method about a regular singular
/// one.
pub proof fn law_second_order_methods_follow_forms(
    names: Seq<Option<Seq<char>>>,
    x: Seq<char>,
    occurrences: Seq<Seq<usize>>,
    homogeneous: bool,
    facts: FormFacts,
)
    requires
        kind_spec(names, x, occurrences) == DifferentialKind::Ode,
        max_order(occurrences) == 2,
        facts.second_order_form,
    ensures
        supported_methods_spec(classify_spec(names, x, occurrences, true, homogeneous, facts))
            == when(facts.constant_coefficients && homogeneous, "characteristic"@) + (if facts.constant_coefficients
            && !homogeneous {
            seq!["undetermined coefficients"@, "variation of parameters"@]
        } else {
            Seq::empty()
        }) + when(!facts.regular_singular, "power series"@) + when(
            facts.regular_singular,
            "frobenius"@,
        ),
{
    reveal_strlit("constant_coefficients");
    reveal_strlit("regular_singular");
    reveal_strlit("ordinary_point");
    let st = subtypes_spec(DifferentialKind::Ode, 2, true, facts);
    let a = when(facts.constant_coefficients, "constant_coefficients"@);
    assert(st.contains("constant_coefficients"@) == facts.constant_coefficients) by {
        if facts.constant_coefficients {
            assert(st[0] == "constant_coefficients"@);
        } else {
            lemma_first_char_differs(st, "constant_coefficients"@);
        }
    }
    assert(st.contains("regular_singular"@) == facts.regular_singular) by {
        if facts.regular_singular {
            assert(st[a.len() as int] == "regular_singular"@);
        } else {
            lemma_first_char_differs(st, "regular_singular"@);
        }
    }
    assert(st.contains("ordinary_point"@) == !facts.regular_singular) by {
        if !facts.regular_singular {
            assert(st[a.len() as int] == "ordinary_point"@);
        } else {
            lemma_first_char_differs(st, "ordinary_point"@);
        }
    }
}


/// The symbolic solution strategies, in the order `solve` tries them.
#[derive(Debug, Clone, Copy, PartialEq, Eq)]
pub enum Strategy {
    LinearFirstOrder,
    Separable,
    Exact,
    Characteristic,
    Undetermined,
    Variation,
    PowerSeries,
    Frobenius,
}

/// The strategy at position `i` of the trial order.
pub open spec fn strategy_at(i: nat) -> Strategy {
    if i == 0 {
        Strategy::LinearFirstOrder
    } else if i == 1 {
        Strategy::Separable
    } else if i == 2 {
        Strategy::Exact
    } else if i == 3 {
        Strategy::Characteristic
    } else if i == 4 {
        Strategy::Undetermined
    } else if i == 5 {
        Strategy::Variation
    } else if i == 6 {
        Strategy::PowerSeries
    } else {
        Strategy::Frobenius
    }
}

/// The number of strategies.
pub open spec fn strategy_count() -> nat {
    8
}

/// The method that asks for a strategy by name.
pub open spec fn method_of(s: Strategy) -> SolveMethod {
    match s {
        Strategy::LinearFirstOrder => SolveMethod::Linear,
        Strategy::Separable => SolveMethod::Separable,
        Strategy::Exact => SolveMethod::Exact,
        Strategy::Characteristic => SolveMethod::Characteristic,
        Strategy::Undetermined => SolveMethod::Undetermined,
        Strategy::Variation => SolveMethod::Variation,
        Strategy::PowerSeries => SolveMethod::PowerSeries,
        Strategy::Frobenius => SolveMethod::Frobenius,
    }
}

/// Whether `method` lets `s` be tried: `auto` tries every strategy, a
/// named method only its own.
pub open spec fn allowed(method: SolveMethod, s: Strategy) -> bool {
    method == SolveMethod::Auto || method == method_of(s)
}

/// The first strategy at or after position `from` that `method` allows,
/// with its position.
pub open spec fn next_strategy_spec(method: SolveMethod, from: nat) -> Option<(Strategy, nat)>
    decreases strategy_count() - from,
{
    if from >= strategy_count() {
        None
    } else if allowed(method, strategy_at(from)) {
        Some((strategy_at(from), from))
    } else {
        next_strategy_spec(method, from + 1)
    }
}

fn strategy_at_exec(i: usize) -> (s: Strategy)
    ensures
        s == strategy_at(i as nat),
{
    if i == 0 {
        Strategy::LinearFirstOrder
    } else if i == 1 {
        Strategy::Separable
    } else if i == 2 {
        Strategy::Exact
    } else if i == 3 {
        Strategy::Characteristic
    } else if i == 4 {
        Strategy::Undetermined
    } else if i == 5 {
        Strategy::Variation
    } else if i == 6 {
        Strategy::PowerSeries
    } else {
        Strategy::Frobenius
    }
}

fn allowed_exec(method: SolveMethod, s: Strategy) -> (b: bool)
    ensures
        b == allowed(method, s),
{
    match (method, s) {
        (SolveMethod::Auto, _) => true,
        (SolveMethod::Linear, Strategy::LinearFirstOrder) => true,
        (SolveMethod::Separable, Strategy::Separable) => true,
        (SolveMethod::Exact, Strategy::Exact) => true,
        (SolveMethod::Characteristic, Strategy::Characteristic) => true,
        (SolveMethod::Undetermined, Strategy::Undetermined) => true,
        (SolveMethod::Variation, Strategy::Variation) => true,
        (SolveMethod::PowerSeries, Strategy::PowerSeries) => true,
        (SolveMethod::Frobenius, Strategy::Frobenius) => true,
        _ => false,
    }
}

/// The next strategy to try, starting at position `from` of the trial
/// order: `solve` tries them in turn until one applies.
pub fn next_strategy(method: SolveMethod, from: usize) -> (r: Option<(Strategy, usize)>)
    ensures
        match r {
            Some((s, i)) => next_strategy_spec(method, from as nat) == Some((s, i as nat)),
            None => next_strategy_spec(method, from as nat) is None,
        },
{
    let mut i = from;
    while i < 8
        invariant
            from <= i,
            next_strategy_spec(method, from as nat) == next_strategy_spec(method, i as nat),
        decreases 8 - i,
    {
        let s = strategy_at_exec(i);
        if allowed_exec(method, s) {
            return Some((s, i));
        }
        i = i + 1;
    }
    None
}

/// The warning of a solution when the requested method did not apply.
pub open spec fn unavailable_warning_spec(method: SolveMethod, c: ClassModel) -> Seq<char> {
    let ms = supported_methods_spec(c);
    "requested method `"@ + method_label(method) + "` is not available; available methods: "@ + (if ms.len()
        == 0 {
        "none"@
    } else {
        join(ms, ", "@)
    })
}

/// The warning left when no strategy solved the equation: for `auto`, why
/// no method applies; for a named method, that it is not available and
/// which are.
pub open spec fn no_solution_warning_spec(method: SolveMethod, c: ClassModel) -> Seq<char> {
    if c.kind == DifferentialKind::Pde {
        "PDE solving is not implemented"@
    } else if method == SolveMethod::Auto {
        unsupported_reason_spec(c)
    } else {
        unavailable_warning_spec(method, c)
    }
}

pub fn no_solution_warning(method: SolveMethod, class: &OdeClassSummary) -> (s: String)
    ensures
        s@ == no_solution_warning_spec(method, class@),
{
    if let DifferentialKind::Pde = class.kind {
        return String::from_str("PDE solving is not implemented");
    }
    if let SolveMethod::Auto = method {
        return unsupported_method_reason(class);
    }
    let available = supported_method_labels(class);
    let mut s = concat_str("requested method `", method.label());
    s.append("` is not available; available methods: ");
    if available.len() == 0 {
        s.append("none");
    } else {
        s.append(join_strings(&available, ", ").as_str());
    }
    s
}

/// `auto` tries every strategy in the fixed order; a named method tries
/// only its own strategy, and nothing else.
pub proof fn law_named_method_tries_only_itself(method: SolveMethod, from: nat)
    requires
        method != SolveMethod::Auto,
    ensures
        match next_strategy_spec(method, from) {
            Some((s, i)) => method_of(s) == method && strategy_at(i) == s && from <= i,
            None => true,
        },
        next_strategy_spec(SolveMethod::Auto, from) == (if from < strategy_count() {
            Some((strategy_at(from), from))
        } else {
            None
        }),
    decreases strategy_count() - from,
{
    if from < strategy_count() && !allowed(method, strategy_at(from)) {
        law_named_method_tries_only_itself(method, from + 1);
    }
}

} // verus!
