use atom_conformance::model::{
    AtomSpec, Category, CurvatureSpec, ValidationCheck, ValidationResult,
};

fn check(name: &str, passed: bool, message: &str) -> ValidationCheck {
    ValidationCheck { name: name.to_string(), passed, message: message.to_string() }
}

#[test]
fn curvature_spec_symbol() {
    assert_eq!(CurvatureSpec::Simple("convex".to_string()).as_str(), "convex");
    assert_eq!(CurvatureSpec::Simple("anything".to_string()).as_str(), "anything");
    assert_eq!(CurvatureSpec::Simple(String::new()).as_str(), "");
    assert_eq!(CurvatureSpec::Complex.as_str(), "unknown");
    assert_eq!(CurvatureSpec::Unknown.as_str(), "unknown");
}

#[test]
fn curvature_spec_defaults_to_unknown() {
    assert!(matches!(CurvatureSpec::default(), CurvatureSpec::Unknown));
}

#[test]
fn atom_spec_defaults_are_empty() {
    let spec = AtomSpec::default();
    assert_eq!(spec.description, "");
    assert!(matches!(spec.curvature, CurvatureSpec::Unknown));
    assert_eq!(spec.sign, "");
    assert_eq!(spec.arity, "");
    assert_eq!(spec.dcp_requires, None);
}

#[test]
fn atom_spec_clone_keeps_every_field() {
    let spec = AtomSpec {
        description: "sum of entries".to_string(),
        curvature: CurvatureSpec::Simple("affine".to_string()),
        sign: "unknown".to_string(),
        arity: "1".to_string(),
        dcp_requires: Some("none".to_string()),
    };
    let copy = spec.clone();
    assert_eq!(copy.description, "sum of entries");
    assert_eq!(copy.curvature.as_str(), "affine");
    assert_eq!(copy.sign, "unknown");
    assert_eq!(copy.arity, "1");
    assert_eq!(copy.dcp_requires, Some("none".to_string()));
    assert!(matches!(CurvatureSpec::Complex.clone(), CurvatureSpec::Complex));
}

#[test]
fn category_names() {
    assert_eq!(Category::Affine.as_str(), "affine");
    assert_eq!(Category::Convex.as_str(), "convex");
    assert_eq!(Category::Concave.as_str(), "concave");
}

#[test]
fn failed_checks_keeps_order_and_drops_passing() {
    let result = ValidationResult {
        atom_name: "abs".to_string(),
        passed: false,
        checks: vec![
            check("exists", true, "a"),
            check("curvature", false, "b"),
            check("sign", false, "c"),
        ],
    };
    let failed = result.failed_checks();
    assert_eq!(failed.len(), 2);
    assert_eq!(failed[0].name, "curvature");
    assert_eq!(failed[0].message, "b");
    assert_eq!(failed[1].name, "sign");
    assert_eq!(failed[1].message, "c");
}

#[test]
fn failed_checks_of_passing_result_is_empty() {
    let result = ValidationResult {
        atom_name: "abs".to_string(),
        passed: true,
        checks: vec![check("exists", true, "a"), check("curvature", true, "b")],
    };
    assert!(result.failed_checks().is_empty());
    let none = ValidationResult { atom_name: String::new(), passed: true, checks: vec![] };
    assert!(none.failed_checks().is_empty());
}
