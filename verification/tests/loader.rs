use atom_conformance::loader::{merge_specs, Catalogue};
use atom_conformance::model::{AtomSpec, Category, CurvatureSpec};

fn entry(name: &str, curvature: CurvatureSpec, sign: &str) -> (String, AtomSpec) {
    (
        name.to_string(),
        AtomSpec {
            description: format!("about {}", name),
            curvature,
            sign: sign.to_string(),
            arity: "1".to_string(),
            dcp_requires: None,
        },
    )
}

fn simple(symbol: &str) -> CurvatureSpec {
    CurvatureSpec::Simple(symbol.to_string())
}

#[test]
fn empty_catalogue_merges_to_nothing() {
    let merged = merge_specs(&Catalogue {
        affine_atoms: vec![],
        convex_atoms: vec![],
        concave_atoms: vec![],
    });
    assert_eq!(merged.len(), 0);
    assert!(merged.get("sum").is_none());
}

#[test]
fn each_group_gets_its_category() {
    let merged = merge_specs(&Catalogue {
        affine_atoms: vec![entry("sum", CurvatureSpec::Unknown, "unknown")],
        convex_atoms: vec![entry("abs", CurvatureSpec::Unknown, "nonnegative")],
        concave_atoms: vec![entry("log", CurvatureSpec::Unknown, "unknown")],
    });
    assert_eq!(merged.len(), 3);
    let (sum, category) = merged.get("sum").unwrap();
    assert_eq!(category, Category::Affine);
    assert_eq!(sum.curvature.as_str(), "affine");
    assert_eq!(sum.sign, "unknown");
    assert_eq!(sum.description, "about sum");
    let (abs, category) = merged.get("abs").unwrap();
    assert_eq!(category, Category::Convex);
    assert_eq!(abs.curvature.as_str(), "convex");
    assert_eq!(abs.sign, "nonnegative");
    let (log, category) = merged.get("log").unwrap();
    assert_eq!(category, Category::Concave);
    assert_eq!(log.curvature.as_str(), "concave");
    assert!(merged.get("exp").is_none());
}

#[test]
fn affine_group_fills_in_an_unresolved_curvature() {
    let merged = merge_specs(&Catalogue {
        affine_atoms: vec![
            entry("a", simple("convex"), ""),
            entry("b", simple("unknown"), ""),
            entry("c", CurvatureSpec::Complex, ""),
            entry("d", CurvatureSpec::Unknown, ""),
            entry("e", simple("Unknown"), ""),
            entry("f", simple(""), ""),
        ],
        convex_atoms: vec![],
        concave_atoms: vec![],
    });
    assert_eq!(merged.get("e").unwrap().0.curvature.as_str(), "Unknown");
    assert_eq!(merged.get("f").unwrap().0.curvature.as_str(), "");
    assert!(matches!(&merged.get("a").unwrap().0.curvature, CurvatureSpec::Simple(s) if s == "convex"));
    assert!(matches!(&merged.get("b").unwrap().0.curvature, CurvatureSpec::Simple(s) if s == "affine"));
    assert!(matches!(&merged.get("c").unwrap().0.curvature, CurvatureSpec::Simple(s) if s == "affine"));
    assert!(matches!(&merged.get("d").unwrap().0.curvature, CurvatureSpec::Simple(s) if s == "affine"));
    for name in ["a", "b", "c", "d"] {
        let (spec, category) = merged.get(name).unwrap();
        assert_eq!(category, Category::Affine);
        assert_eq!(spec.sign, "");
        assert_eq!(spec.description, format!("about {}", name));
    }
}

#[test]
fn convex_and_concave_groups_force_their_curvature() {
    let merged = merge_specs(&Catalogue {
        affine_atoms: vec![],
        convex_atoms: vec![
            entry("a", simple("concave"), ""),
            entry("b", CurvatureSpec::Complex, ""),
        ],
        concave_atoms: vec![
            entry("c", simple("affine"), ""),
            entry("d", CurvatureSpec::Complex, ""),
        ],
    });
    assert!(matches!(&merged.get("a").unwrap().0.curvature, CurvatureSpec::Simple(s) if s == "convex"));
    assert!(matches!(&merged.get("b").unwrap().0.curvature, CurvatureSpec::Simple(s) if s == "convex"));
    assert!(matches!(&merged.get("c").unwrap().0.curvature, CurvatureSpec::Simple(s) if s == "concave"));
    assert!(matches!(&merged.get("d").unwrap().0.curvature, CurvatureSpec::Simple(s) if s == "concave"));
}

#[test]
fn convex_group_overrides_affine_group() {
    let merged = merge_specs(&Catalogue {
        affine_atoms: vec![entry("both", simple("affine"), "from affine")],
        convex_atoms: vec![entry("both", CurvatureSpec::Unknown, "from convex")],
        concave_atoms: vec![],
    });
    assert_eq!(merged.len(), 1);
    let (spec, category) = merged.get("both").unwrap();
    assert_eq!(category, Category::Convex);
    assert_eq!(spec.curvature.as_str(), "convex");
    assert_eq!(spec.sign, "from convex");
}

#[test]
fn concave_group_overrides_the_other_two() {
    let merged = merge_specs(&Catalogue {
        affine_atoms: vec![entry("all", CurvatureSpec::Unknown, "from affine")],
        convex_atoms: vec![entry("all", CurvatureSpec::Unknown, "from convex")],
        concave_atoms: vec![entry("all", CurvatureSpec::Unknown, "from concave")],
    });
    assert_eq!(merged.len(), 1);
    let (spec, category) = merged.get("all").unwrap();
    assert_eq!(category, Category::Concave);
    assert_eq!(spec.curvature.as_str(), "concave");
    assert_eq!(spec.sign, "from concave");
}

#[test]
fn later_entry_of_a_group_replaces_an_earlier_one() {
    let merged = merge_specs(&Catalogue {
        affine_atoms: vec![
            entry("sum", CurvatureSpec::Unknown, "first"),
            entry("sum", simple("convex"), "second"),
        ],
        convex_atoms: vec![],
        concave_atoms: vec![],
    });
    assert_eq!(merged.len(), 1);
    let (spec, category) = merged.get("sum").unwrap();
    assert_eq!(category, Category::Affine);
    assert_eq!(spec.sign, "second");
    assert_eq!(spec.curvature.as_str(), "convex");
}

#[test]
fn merge_keeps_the_other_fields() {
    let merged = merge_specs(&Catalogue {
        affine_atoms: vec![],
        convex_atoms: vec![(
            "quad_form".to_string(),
            AtomSpec {
                description: "x' P x".to_string(),
                curvature: CurvatureSpec::Complex,
                sign: "nonnegative".to_string(),
                arity: "2".to_string(),
                dcp_requires: Some("P is PSD".to_string()),
            },
        )],
        concave_atoms: vec![],
    });
    let (spec, _) = merged.get("quad_form").unwrap();
    assert_eq!(spec.description, "x' P x");
    assert_eq!(spec.sign, "nonnegative");
    assert_eq!(spec.arity, "2");
    assert_eq!(spec.dcp_requires, Some("P is PSD".to_string()));
}

#[test]
fn no_merged_entry_is_left_unresolved() {
    let merged = merge_specs(&Catalogue {
        affine_atoms: vec![
            entry("a", CurvatureSpec::Unknown, ""),
            entry("b", CurvatureSpec::Complex, ""),
            entry("c", simple("unknown"), ""),
        ],
        convex_atoms: vec![
            entry("d", CurvatureSpec::Unknown, ""),
            entry("e", CurvatureSpec::Complex, ""),
            entry("f", simple("unknown"), ""),
        ],
        concave_atoms: vec![
            entry("g", CurvatureSpec::Unknown, ""),
            entry("h", CurvatureSpec::Complex, ""),
            entry("i", simple("unknown"), ""),
        ],
    });
    let expected = [
        ("a", "affine"),
        ("b", "affine"),
        ("c", "affine"),
        ("d", "convex"),
        ("e", "convex"),
        ("f", "convex"),
        ("g", "concave"),
        ("h", "concave"),
        ("i", "concave"),
    ];
    for (name, symbol) in expected {
        let (spec, category) = merged.get(name).unwrap();
        assert!(matches!(&spec.curvature, CurvatureSpec::Simple(s) if s == symbol), "{}", name);
        assert_eq!(category.as_str(), symbol);
    }
}
