use tensorforge::ode::{next_strategy, no_solution_warning, Strategy};
use tensorforge::ode::{
    aligned_process, classification_info, classification_reasons, classification_subtypes,
    classification_summary, classification_values, classify_summary, constant2_name, constant_name,
    differential_kind, differential_order, escape_text, methods_info, missing_solution_text,
    polynomial_template_latex, push_warning, push_warning_step, render_available_methods,
    render_classification, step_latex, steps_block, supported_method_labels, unsupported_method_reason,
    unsupported_text, DifferentialKind, FormFacts, OdeClassSummary, OdeStep, SolveMethod,
};

fn summary(kind: DifferentialKind, order: usize, linear: bool, homogeneous: bool, subtypes: &[&str]) -> OdeClassSummary {
    OdeClassSummary {
        kind,
        order,
        linear,
        homogeneous,
        subtypes: subtypes.iter().map(|s| s.to_string()).collect(),
    }
}

const NO_FORMS: FormFacts = FormFacts {
    linear_first_order: false,
    separable: false,
    exact: false,
    second_order_form: false,
    constant_coefficients: false,
    regular_singular: false,
};

#[test]
fn solve_method_names_round_trip() {
    let all = [
        SolveMethod::Auto,
        SolveMethod::Linear,
        SolveMethod::Separable,
        SolveMethod::Exact,
        SolveMethod::Characteristic,
        SolveMethod::Undetermined,
        SolveMethod::Variation,
        SolveMethod::PowerSeries,
        SolveMethod::Frobenius,
    ];
    for m in all {
        assert_eq!(SolveMethod::parse(m.label()), Some(m));
    }
    assert_eq!(SolveMethod::parse("power_series"), Some(SolveMethod::PowerSeries));
    assert_eq!(SolveMethod::Frobenius.label(), "frobenius");
    assert_eq!(SolveMethod::parse("Linear"), None);
    assert_eq!(SolveMethod::parse("power series"), None);
}

#[test]
fn escape_text_escapes_latex_specials() {
    assert_eq!(escape_text("a_b & c\\d"), "a\\_b \\& c\\textbackslash{}d");
    assert_eq!(escape_text("plain"), "plain");
}

#[test]
fn escaped_specials_follow_a_backslash() {
    for text in ["x_1 && y__2", "\\_", "&_\\&", "a \\text_b"] {
        let out: Vec<char> = escape_text(text).chars().collect();
        for (i, c) in out.iter().enumerate() {
            if *c == '_' || *c == '&' {
                assert!(i > 0 && out[i - 1] == '\\', "{text:?} escaped to {out:?}");
            }
        }
    }
    assert_eq!(escape_text("x_1 && y"), "x\\_1 \\&\\& y");
    assert_eq!(escape_text("no specials here"), "no specials here");
}

#[test]
fn classification_summary_array() {
    let c = summary(DifferentialKind::Ode, 1, true, true, &["linear"]);
    let expected = "\\begin{array}{cccc}\\text{ODE} & \\text{order 1} & \\text{linear} & \\text{homogeneous}\\end{array}";
    assert_eq!(classification_summary(&c), expected);
    assert_eq!(render_classification(&c, "symbol"), expected);
    let p = summary(DifferentialKind::Pde, 12, false, false, &[]);
    assert_eq!(
        classification_summary(&p),
        "\\begin{array}{cccc}\\text{PDE} & \\text{order 12} & \\text{nonlinear} & \\text{non-homogeneous}\\end{array}"
    );
    let (k, o, l, h) = classification_values(&p);
    assert_eq!((k.as_str(), o.as_str(), l.as_str(), h.as_str()), ("PDE", "12", "nonlinear", "non-homogeneous"));
}

#[test]
fn first_order_methods_follow_recognised_forms() {
    let c = summary(DifferentialKind::Ode, 1, true, false, &["exact", "linear"]);
    assert_eq!(supported_method_labels(&c), vec!["linear integrating factor".to_string(), "exact".to_string()]);
    assert_eq!(
        render_available_methods(&summary(DifferentialKind::Ode, 1, true, true, &["linear", "separable"])),
        "\\begin{array}{rl}\n\\text{available methods} & \\text{linear integrating factor}, \\text{separable}\\\\[3pt]\n\\text{default solve path} & \\text{linear integrating factor}\n\\end{array}"
    );
}

#[test]
fn second_order_methods() {
    let hom = summary(DifferentialKind::Ode, 2, true, true, &["constant_coefficients", "ordinary_point"]);
    assert_eq!(supported_method_labels(&hom), vec!["characteristic".to_string(), "power series".to_string()]);
    let forced = summary(DifferentialKind::Ode, 2, true, false, &["constant_coefficients", "ordinary_point"]);
    let info = methods_info(&forced);
    assert_eq!(
        info.available,
        vec![
            "undetermined coefficients".to_string(),
            "variation of parameters".to_string(),
            "power series".to_string()
        ]
    );
    assert_eq!(info.default, "undetermined coefficients");
    let singular = summary(DifferentialKind::Ode, 2, true, true, &["regular_singular"]);
    assert_eq!(supported_method_labels(&singular), vec!["frobenius".to_string()]);
    let nonlinear = summary(DifferentialKind::Ode, 2, false, true, &["constant_coefficients"]);
    assert!(supported_method_labels(&nonlinear).is_empty());
}

#[test]
fn no_method_reasons() {
    let pde = summary(DifferentialKind::Pde, 1, true, true, &["linear"]);
    assert!(supported_method_labels(&pde).is_empty());
    assert_eq!(unsupported_method_reason(&pde), "PDE solving is not implemented");
    assert_eq!(
        render_available_methods(&pde),
        "\\begin{array}{rl}\n\\text{available methods} & \\text{none}\\\\[3pt]\n\\text{default solve path} & \\text{PDE solving is not implemented}\n\\end{array}"
    );
    let third = summary(DifferentialKind::Ode, 3, true, true, &[]);
    assert_eq!(
        methods_info(&third).default,
        "only first-order and supported second-order linear ODE solvers are implemented"
    );
    let first = summary(DifferentialKind::Ode, 1, false, true, &[]);
    assert_eq!(unsupported_method_reason(&first), "no supported symbolic method matched");
}

#[test]
fn classification_info_fields() {
    let c = summary(DifferentialKind::Pde, 2, false, true, &[]);
    let info = classification_info(&c);
    assert_eq!(info.kind, "PDE");
    assert_eq!(info.order, 2);
    assert!(!info.linear);
    assert!(info.homogeneous);
}

#[test]
fn order_and_kind_of_an_equation() {
    assert_eq!(differential_order(&vec![vec![1, 0], vec![2, 1], vec![0]]), 3);
    assert_eq!(differential_order(&vec![]), 0);
    let x = vec![Some("x".to_string())];
    assert_eq!(differential_kind(&x, "x", &vec![vec![2], vec![0]]), DifferentialKind::Ode);
    let t = vec![Some("t".to_string())];
    assert_eq!(differential_kind(&t, "x", &vec![vec![1]]), DifferentialKind::Pde);
    assert_eq!(differential_kind(&t, "x", &vec![vec![0]]), DifferentialKind::Ode);
    let two = vec![Some("x".to_string()), Some("t".to_string())];
    assert_eq!(differential_kind(&two, "x", &vec![]), DifferentialKind::Pde);
    let unnamed = vec![None];
    assert_eq!(differential_kind(&unnamed, "x", &vec![vec![1]]), DifferentialKind::Ode);
}

#[test]
fn subtypes_and_reasons() {
    let facts = FormFacts { linear_first_order: true, exact: true, ..NO_FORMS };
    assert_eq!(
        classification_subtypes(DifferentialKind::Ode, 1, true, &facts),
        vec!["linear".to_string(), "exact".to_string()]
    );
    let second = FormFacts { second_order_form: true, constant_coefficients: true, ..NO_FORMS };
    assert_eq!(
        classification_subtypes(DifferentialKind::Ode, 2, true, &second),
        vec!["constant_coefficients".to_string(), "ordinary_point".to_string()]
    );
    assert!(classification_subtypes(DifferentialKind::Pde, 1, true, &facts).is_empty());
    assert_eq!(
        classification_reasons(1, 2, false),
        vec![
            "1 independent variable(s)".to_string(),
            "highest derivative order = 2".to_string(),
            "target function appears nonlinearly".to_string()
        ]
    );
}

#[test]
fn classify_then_offer_methods() {
    let facts = FormFacts { separable: true, ..NO_FORMS };
    let c = classify_summary(&vec![Some("x".to_string())], "x", &vec![vec![1], vec![0]], false, false, &facts);
    assert_eq!(c.kind, DifferentialKind::Ode);
    assert_eq!(c.order, 1);
    assert_eq!(c.subtypes, vec!["separable".to_string()]);
    assert_eq!(supported_method_labels(&c), vec!["separable".to_string()]);
}

#[test]
fn constants_and_templates() {
    assert_eq!(constant_name(), "C_1");
    assert_eq!(constant2_name(), "C_2");
    assert_eq!(polynomial_template_latex(0), "A_0");
    assert_eq!(polynomial_template_latex(1), "A_0+A_1x");
    assert_eq!(polynomial_template_latex(3), "A_0+A_1x+A_2x^2+A_3x^3");
    assert_eq!(polynomial_template_latex(10).ends_with("+A_10x^10"), true);
}

#[test]
fn process_rows() {
    assert_eq!(aligned_process(vec![]), "\\text{No symbolic steps available.}");
    assert_eq!(
        aligned_process(vec!["a".to_string(), "b".to_string()]),
        "\\begin{aligned}\n&a\\\\[3pt]\n&b\n\\end{aligned}"
    );
    assert_eq!(
        steps_block(&vec!["x".to_string(), "y".to_string()]),
        "\\begin{aligned}\nx\\\\\ny\n\\end{aligned}"
    );
    assert_eq!(unsupported_text(&None), "\\text{Unsupported: no symbolic method matched}");
    assert_eq!(unsupported_text(&Some("bad_x".to_string())), "\\text{Unsupported: bad\\_x}");
    assert_eq!(missing_solution_text(&None), "\\text{unsupported: no symbolic method matched}");
    let mut rows = vec!["r".to_string()];
    push_warning(&mut rows, &Some("w".to_string()));
    assert_eq!(rows, vec!["r".to_string(), "\\text{Note: w}".to_string()]);
    push_warning(&mut rows, &None);
    assert_eq!(rows.len(), 2);
}

#[test]
fn warning_steps() {
    let mut steps = vec![OdeStep::new("solution", "y = C_1".to_string())];
    push_warning_step(&mut steps, &Some("check & verify".to_string()));
    assert_eq!(steps.len(), 2);
    assert_eq!(steps[1].label, "note");
    assert_eq!(steps[1].latex, "\\text{Note: check \\& verify}");
    push_warning_step(&mut steps, &None);
    assert_eq!(steps.len(), 2);
    assert_eq!(step_latex(steps), vec!["y = C_1".to_string(), "\\text{Note: check \\& verify}".to_string()]);
}

#[test]
fn strategies_follow_the_requested_method() {
    assert_eq!(next_strategy(SolveMethod::Auto, 0), Some((Strategy::LinearFirstOrder, 0)));
    assert_eq!(next_strategy(SolveMethod::Auto, 3), Some((Strategy::Characteristic, 3)));
    assert_eq!(next_strategy(SolveMethod::Auto, 8), None);
    assert_eq!(next_strategy(SolveMethod::Exact, 0), Some((Strategy::Exact, 2)));
    assert_eq!(next_strategy(SolveMethod::Exact, 3), None);
    assert_eq!(next_strategy(SolveMethod::Frobenius, 0), Some((Strategy::Frobenius, 7)));
    let c = summary(DifferentialKind::Ode, 1, true, true, &["linear", "separable"]);
    assert_eq!(
        no_solution_warning(SolveMethod::Exact, &c),
        "requested method `exact` is not available; available methods: linear integrating factor, separable"
    );
    let none = summary(DifferentialKind::Ode, 3, true, true, &[]);
    assert_eq!(
        no_solution_warning(SolveMethod::Frobenius, &none),
        "requested method `frobenius` is not available; available methods: none"
    );
    assert_eq!(no_solution_warning(SolveMethod::Auto, &none), "only first-order and supported second-order linear ODE solvers are implemented");
    let pde = summary(DifferentialKind::Pde, 1, true, true, &[]);
    assert_eq!(no_solution_warning(SolveMethod::Linear, &pde), "PDE solving is not implemented");
}
