use atom_conformance::loader::{merge_specs, Catalogue, MergedSpecs};
use atom_conformance::model::{AtomSpec, Category, CurvatureSpec, ValidationResult};
use atom_conformance::oracle::{Curvature, OracleReport, Sign};
use atom_conformance::orchestrator::{
    all_checks_passed, atom_result, validate_all, validate_atom, validate_atoms, worklist,
};

fn spec(curvature: CurvatureSpec, sign: &str) -> AtomSpec {
    AtomSpec {
        description: String::new(),
        curvature,
        sign: sign.to_string(),
        arity: String::new(),
        dcp_requires: None,
    }
}

fn simple(symbol: &str) -> CurvatureSpec {
    CurvatureSpec::Simple(symbol.to_string())
}

fn named(name: &str, curvature: CurvatureSpec, sign: &str) -> (String, AtomSpec) {
    (name.to_string(), spec(curvature, sign))
}

fn flat(result: &ValidationResult) -> (String, bool, Vec<(String, bool, String)>) {
    (
        result.atom_name.clone(),
        result.passed,
        result.checks.iter().map(|c| (c.name.clone(), c.passed, c.message.clone())).collect(),
    )
}

fn full_catalogue() -> MergedSpecs {
    merge_specs(&Catalogue {
        affine_atoms: ["sum", "reshape", "transpose", "trace", "diag", "vstack", "hstack"]
            .iter()
            .map(|n| named(n, CurvatureSpec::Unknown, "unknown"))
            .collect(),
        convex_atoms: vec![
            named("norm1", simple("convex"), "nonnegative"),
            named("norm2", simple("convex"), "nonnegative"),
            named("normInf", simple("convex"), "nonnegative"),
            named("abs", simple("convex"), "nonnegative"),
            named("pos", simple("convex"), "nonnegative"),
            named("negPart", simple("convex"), "nonnegative"),
            named("maximum", CurvatureSpec::Complex, "unknown"),
            named("sum_squares", simple("convex"), "nonnegative"),
            named("quad_form", CurvatureSpec::Complex, "nonnegative"),
            named("exp", simple("convex"), "nonnegative"),
        ],
        concave_atoms: vec![
            named("log", simple("concave"), "unknown"),
            named("entropy", simple("concave"), "unknown"),
            named("sqrt", simple("concave"), "nonnegative"),
            named("minimum", CurvatureSpec::Complex, "unknown"),
            named("power", CurvatureSpec::Complex, "unknown"),
        ],
    })
}

#[test]
fn unbuilt_atom_has_one_failing_check() {
    let result = atom_result("cumsum", &spec(simple("affine"), "unknown"), Category::Affine, None);
    assert_eq!(
        flat(&result),
        (
            "cumsum".to_string(),
            false,
            vec![(
                "exists".to_string(),
                false,
                "atom 'cumsum' not implemented in cvxrust".to_string()
            )]
        )
    );
}

#[test]
fn built_atom_has_three_checks_in_order() {
    let report = OracleReport { curvature: Curvature::Convex, sign: Sign::Nonnegative };
    let result = atom_result(
        "abs",
        &spec(simple("convex"), "nonnegative"),
        Category::Convex,
        Some(report),
    );
    assert_eq!(
        flat(&result),
        (
            "abs".to_string(),
            true,
            vec![
                ("exists".to_string(), true, "atom exists in cvxrust".to_string()),
                ("curvature".to_string(), true, "expected convex, got convex".to_string()),
                ("sign".to_string(), true, "expected nonnegative, got nonnegative".to_string()),
            ]
        )
    );
}

#[test]
fn verdict_is_conjunction_of_curvature_and_sign() {
    let curvatures = [Curvature::Convex, Curvature::Concave];
    let signs = [Sign::Nonnegative, Sign::Unknown];
    for c in curvatures {
        for s in signs {
            let result = atom_result(
                "abs",
                &spec(simple("convex"), "nonnegative"),
                Category::Convex,
                Some(OracleReport { curvature: c, sign: s }),
            );
            assert_eq!(result.checks.len(), 3);
            assert!(result.checks[0].passed);
            assert_eq!(result.checks[1].passed, c == Curvature::Convex);
            assert_eq!(result.checks[2].passed, s == Sign::Nonnegative);
            assert_eq!(result.passed, result.checks[1].passed && result.checks[2].passed);
            assert_eq!(result.passed, all_checks_passed(&result.checks));
        }
    }
}

#[test]
fn both_checks_run_when_the_first_fails() {
    let result = atom_result(
        "log",
        &spec(simple("concave"), "nonpositive"),
        Category::Concave,
        Some(OracleReport { curvature: Curvature::Unknown, sign: Sign::Nonnegative }),
    );
    assert_eq!(
        flat(&result),
        (
            "log".to_string(),
            false,
            vec![
                ("exists".to_string(), true, "atom exists in cvxrust".to_string()),
                ("curvature".to_string(), false, "expected concave, got unknown".to_string()),
                ("sign".to_string(), false, "expected nonpositive, got nonnegative".to_string()),
            ]
        )
    );
}

#[test]
fn affine_category_decides_the_expected_curvature() {
    let report = Some(OracleReport { curvature: Curvature::Convex, sign: Sign::Unknown });
    let result = atom_result("sum", &spec(simple("convex"), "unknown"), Category::Affine, report);
    assert_eq!(result.checks[1].message, "expected affine, got convex");
    assert!(!result.checks[1].passed);
    assert!(!result.passed);
    let result = atom_result("sum", &spec(simple("convex"), "unknown"), Category::Convex, report);
    assert_eq!(result.checks[1].message, "expected convex, got convex");
    assert!(result.passed);
}

#[test]
fn composite_curvature_expects_nothing() {
    let report = Some(OracleReport { curvature: Curvature::Unknown, sign: Sign::Unknown });
    let result = atom_result("x", &spec(CurvatureSpec::Complex, ""), Category::Concave, report);
    assert_eq!(result.checks[1].message, "expected unknown, got unknown");
    assert_eq!(result.checks[2].message, "expected , got unknown");
    assert!(result.passed);
}

#[test]
fn all_checks_passed_of_no_checks() {
    assert!(all_checks_passed(&vec![]));
}

#[test]
fn scenario_sum_declared_affine_passes() {
    let specs = merge_specs(&Catalogue {
        affine_atoms: vec![named("sum", CurvatureSpec::Unknown, "unknown")],
        convex_atoms: vec![],
        concave_atoms: vec![],
    });
    let (sum, category) = specs.get("sum").unwrap();
    let result = validate_atom("sum", sum, category);
    assert_eq!(
        flat(&result),
        (
            "sum".to_string(),
            true,
            vec![
                ("exists".to_string(), true, "atom exists in cvxrust".to_string()),
                ("curvature".to_string(), true, "expected affine, got affine".to_string()),
                ("sign".to_string(), true, "expected unknown, got unknown".to_string()),
            ]
        )
    );
}

#[test]
fn scenario_quad_form_declared_convex_passes_curvature() {
    let specs = merge_specs(&Catalogue {
        affine_atoms: vec![],
        convex_atoms: vec![named("quad_form", CurvatureSpec::Complex, "nonnegative")],
        concave_atoms: vec![],
    });
    let (quad_form, category) = specs.get("quad_form").unwrap();
    let result = validate_atom("quad_form", quad_form, category);
    assert_eq!(result.checks.len(), 3);
    assert_eq!(result.checks[1].name, "curvature");
    assert!(result.checks[1].passed);
    assert_eq!(result.checks[1].message, "expected convex, got convex");
    assert!(result.passed);
}

#[test]
fn scenario_worklist_name_without_entry_yields_nothing() {
    let specs = merge_specs(&Catalogue {
        affine_atoms: vec![named("sum", CurvatureSpec::Unknown, "unknown")],
        convex_atoms: vec![],
        concave_atoms: vec![],
    });
    let results = validate_all(&specs);
    assert_eq!(results.len(), 1);
    assert_eq!(results[0].atom_name, "sum");
    assert!(results[0].passed);
    let results = validate_atoms(&specs, &vec!["abs", "sum", "nothing"]);
    assert_eq!(results.len(), 1);
    assert_eq!(results[0].atom_name, "sum");
    let none = merge_specs(&Catalogue {
        affine_atoms: vec![],
        convex_atoms: vec![],
        concave_atoms: vec![],
    });
    assert!(validate_all(&none).is_empty());
}

#[test]
fn declared_atom_without_builder_fails_existence() {
    let specs = merge_specs(&Catalogue {
        affine_atoms: vec![named("cumsum", CurvatureSpec::Unknown, "unknown")],
        convex_atoms: vec![],
        concave_atoms: vec![],
    });
    assert!(validate_all(&specs).is_empty());
    let results = validate_atoms(&specs, &vec!["cumsum"]);
    assert_eq!(results.len(), 1);
    assert_eq!(
        flat(&results[0]),
        (
            "cumsum".to_string(),
            false,
            vec![(
                "exists".to_string(),
                false,
                "atom 'cumsum' not implemented in cvxrust".to_string()
            )]
        )
    );
    let (cumsum, category) = specs.get("cumsum").unwrap();
    assert_eq!(flat(&validate_atom("cumsum", cumsum, category)), flat(&results[0]));
}

#[test]
fn worklist_is_the_fixed_list() {
    assert_eq!(
        worklist(),
        vec![
            "sum",
            "reshape",
            "transpose",
            "trace",
            "diag",
            "vstack",
            "hstack",
            "norm1",
            "norm2",
            "normInf",
            "abs",
            "pos",
            "negPart",
            "maximum",
            "sum_squares",
            "quad_form",
            "exp",
            "log",
            "entropy",
            "sqrt",
            "minimum",
            "power",
        ]
    );
}

#[test]
fn full_run_follows_the_worklist() {
    let results = validate_all(&full_catalogue());
    let names: Vec<&str> = results.iter().map(|r| r.atom_name.as_str()).collect();
    assert_eq!(names, worklist());
    for result in &results {
        assert_eq!(result.checks.len(), 3, "{}", result.atom_name);
        assert_eq!(result.checks[0].name, "exists");
        assert_eq!(result.checks[1].name, "curvature");
        assert_eq!(result.checks[2].name, "sign");
        assert_eq!(result.passed, result.checks.iter().all(|c| c.passed));
    }
    let failed: Vec<&str> =
        results.iter().filter(|r| !r.passed).map(|r| r.atom_name.as_str()).collect();
    assert_eq!(failed, vec!["sqrt"]);
    let sqrt = results.iter().find(|r| r.atom_name == "sqrt").unwrap();
    assert_eq!(sqrt.checks[1].message, "expected concave, got concave");
    assert_eq!(sqrt.checks[2].message, "expected nonnegative, got unknown");
    assert!(!sqrt.checks[2].passed);
}

#[test]
fn running_twice_gives_identical_results() {
    let specs = full_catalogue();
    let first: Vec<_> = validate_all(&specs).iter().map(flat).collect();
    let second: Vec<_> = validate_all(&specs).iter().map(flat).collect();
    assert_eq!(first, second);
    assert_eq!(first.len(), 22);
}

#[test]
fn order_of_names_only_orders_the_results() {
    let specs = full_catalogue();
    let forward: Vec<_> = validate_atoms(&specs, &vec!["abs", "log"]).iter().map(flat).collect();
    let mut backward: Vec<_> =
        validate_atoms(&specs, &vec!["log", "abs"]).iter().map(flat).collect();
    backward.reverse();
    assert_eq!(forward, backward);
}
