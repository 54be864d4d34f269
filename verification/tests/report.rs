use atom_conformance::model::{ValidationCheck, ValidationResult};
use atom_conformance::report::{
    count_failed, count_passed, decimal, exit_code, repeated, report_lines, summary_line,
};

fn check(name: &str, passed: bool, message: &str) -> ValidationCheck {
    ValidationCheck { name: name.to_string(), passed, message: message.to_string() }
}

fn passing(name: &str) -> ValidationResult {
    ValidationResult {
        atom_name: name.to_string(),
        passed: true,
        checks: vec![
            check("exists", true, "atom exists in cvxrust"),
            check("curvature", true, "expected affine, got affine"),
            check("sign", true, "expected unknown, got unknown"),
        ],
    }
}

fn failing(name: &str) -> ValidationResult {
    ValidationResult {
        atom_name: name.to_string(),
        passed: false,
        checks: vec![
            check("exists", true, "atom exists in cvxrust"),
            check("curvature", false, "expected convex, got concave"),
            check("sign", false, "expected nonnegative, got unknown"),
        ],
    }
}

fn missing(name: &str) -> ValidationResult {
    ValidationResult {
        atom_name: name.to_string(),
        passed: false,
        checks: vec![check("exists", false, "atom 'x' not implemented in cvxrust")],
    }
}

#[test]
fn decimal_writes_numbers() {
    assert_eq!(decimal(0), "0");
    assert_eq!(decimal(7), "7");
    assert_eq!(decimal(9), "9");
    assert_eq!(decimal(10), "10");
    assert_eq!(decimal(22), "22");
    assert_eq!(decimal(109), "109");
    assert_eq!(decimal(1234567890), "1234567890");
    assert_eq!(decimal(usize::MAX), usize::MAX.to_string());
}

#[test]
fn repeated_writes_the_unit_in_a_row() {
    assert_eq!(repeated("=", 0), "");
    assert_eq!(repeated("-", 3), "---");
    assert_eq!(repeated("ab", 2), "abab");
    assert_eq!(repeated("=", 60), "=".repeat(60));
    assert_eq!(repeated("", 5), "");
}

#[test]
fn summary_line_gives_both_counts() {
    assert_eq!(summary_line(0, 0), "CVXRUST Validation Results: 0/0 atoms passed");
    assert_eq!(summary_line(21, 22), "CVXRUST Validation Results: 21/22 atoms passed");
}

#[test]
fn counts_and_exit_code() {
    let results = vec![passing("a"), failing("b"), missing("c"), passing("d"), passing("e")];
    assert_eq!(count_passed(&results), 3);
    assert_eq!(count_failed(&results), 2);
    assert_eq!(exit_code(&results), 2);
    let none: Vec<ValidationResult> = vec![];
    assert_eq!(count_passed(&none), 0);
    assert_eq!(count_failed(&none), 0);
    assert_eq!(exit_code(&none), 0);
    assert_eq!(exit_code(&vec![passing("a")]), 0);
}

#[test]
fn exit_code_counts_atoms_not_checks() {
    assert_eq!(exit_code(&vec![failing("b")]), 1);
    let many: Vec<ValidationResult> = (0..300).map(|_| failing("b")).collect();
    assert_eq!(exit_code(&many), 300);
}

#[test]
fn report_with_failures_and_passes() {
    let results = vec![passing("sum"), failing("abs"), missing("x"), passing("log")];
    let lines = report_lines(&results);
    let rule = "=".repeat(60);
    let thin = "-".repeat(40);
    let expected: Vec<String> = [
        "",
        rule.as_str(),
        "CVXRUST Validation Results: 2/4 atoms passed",
        rule.as_str(),
        "",
        "FAILURES:",
        thin.as_str(),
        "",
        "  abs:",
        "    FAIL curvature: expected convex, got concave",
        "    FAIL sign: expected nonnegative, got unknown",
        "",
        "  x:",
        "    FAIL exists: atom 'x' not implemented in cvxrust",
        "",
        "PASSED (2):",
        thin.as_str(),
        "  sum",
        "  log",
        "",
    ]
    .iter()
    .map(|l| l.to_string())
    .collect();
    assert_eq!(lines, expected);
}

#[test]
fn report_without_failures_has_no_failure_section() {
    let lines = report_lines(&vec![passing("sum")]);
    let rule = "=".repeat(60);
    let thin = "-".repeat(40);
    assert_eq!(
        lines,
        vec![
            String::new(),
            rule.clone(),
            "CVXRUST Validation Results: 1/1 atoms passed".to_string(),
            rule,
            String::new(),
            String::new(),
            "PASSED (1):".to_string(),
            thin,
            "  sum".to_string(),
            String::new(),
        ]
    );
}

#[test]
fn report_without_passes_has_no_passed_section() {
    let lines = report_lines(&vec![missing("x")]);
    let rule = "=".repeat(60);
    let thin = "-".repeat(40);
    assert_eq!(
        lines,
        vec![
            String::new(),
            rule.clone(),
            "CVXRUST Validation Results: 0/1 atoms passed".to_string(),
            rule,
            String::new(),
            "FAILURES:".to_string(),
            thin,
            String::new(),
            "  x:".to_string(),
            "    FAIL exists: atom 'x' not implemented in cvxrust".to_string(),
            String::new(),
        ]
    );
}

#[test]
fn report_of_nothing() {
    let rule = "=".repeat(60);
    assert_eq!(
        report_lines(&vec![]),
        vec![
            String::new(),
            rule.clone(),
            "CVXRUST Validation Results: 0/0 atoms passed".to_string(),
            rule,
            String::new(),
            String::new(),
        ]
    );
}
