//! The per-atom workflow: build the test expression, ask the oracle, run
//! both checks, and gather the verdicts.

use vstd::prelude::*;
use crate::checkers::{check_curvature, check_sign, curvature_verdict, sign_verdict};
use crate::factory::{atom_kind_of, create_test_expr, is_test_expression, recognized};
use crate::loader::{MergedSpecs, MergedView};
use crate::model::{
    all_passed, checks_view, AtomSpec, AtomSpecView, Category, ValidationCheck,
    ValidationCheckView, ValidationResult, ValidationResultView,
};
use crate::oracle::{
    expr_curvature, expr_sign, is_variable, reported_curvature, reported_sign, vector_variable,
    OracleReport,
};

verus! {

/// The curvature symbol an atom is held to. The affine category decides by
/// itself; in the other categories the entry's curvature does.
pub open spec fn expected_curvature(spec: AtomSpecView, category: Category) -> Seq<char> {
    if category is Affine {
        "affine"@
    } else {
        spec.curvature.symbol()
    }
}

/// The check recorded where a test expression was built.
pub open spec fn exists_passed() -> ValidationCheckView {
    ValidationCheckView {
        name: "exists"@,
        passed: true,
        message: "atom exists in cvxrust"@,
    }
}

/// The check recorded where no test expression could be built.
pub open spec fn exists_failed(atom_name: Seq<char>) -> ValidationCheckView {
    ValidationCheckView {
        name: "exists"@,
        passed: false,
        message: "atom '"@ + atom_name + "' not implemented in cvxrust"@,
    }
}

/// The result for an atom that the factory cannot exercise: the one
/// failing check, and a failing verdict.
pub open spec fn missing_outcome(atom_name: Seq<char>) -> ValidationResultView {
    ValidationResultView { atom_name, passed: false, checks: seq![exists_failed(atom_name)] }
}

/// The result for an atom whose test expression the oracle reported on:
/// the passing existence check, then the curvature check, then the sign
/// check, and the conjunction of the three as the verdict.
pub open spec fn checked_outcome(
    atom_name: Seq<char>,
    spec: AtomSpecView,
    category: Category,
    report: OracleReport,
) -> ValidationResultView {
    let checks = seq![
        exists_passed(),
        curvature_verdict(report.curvature, expected_curvature(spec, category)),
        sign_verdict(report.sign, spec.sign),
    ];
    ValidationResultView { atom_name, passed: all_passed(checks), checks }
}

/// The result for an atom, given what came of building and observing its
/// test expression: nothing where none could be built, the oracle's
/// report otherwise.
pub open spec fn atom_outcome(
    atom_name: Seq<char>,
    spec: AtomSpecView,
    category: Category,
    observed: Option<OracleReport>,
) -> ValidationResultView {
    match observed {
        None => missing_outcome(atom_name),
        Some(report) => checked_outcome(atom_name, spec, category, report),
    }
}

/// What the oracle reports of an expression: its curvature and its sign.
pub open spec fn report_of(expr: cvxrust::expr::Expr) -> OracleReport {
    OracleReport { curvature: reported_curvature(expr), sign: reported_sign(expr) }
}

/// Whether `x` is a reference input: a fresh vector variable of five
/// entries.
pub open spec fn is_reference_input(x: cvxrust::expr::Expr) -> bool {
    is_variable(x, seq![5usize])
}

/// Whether `report` is what the oracle says of `expr`, and `expr` the test
/// expression of the atom on the reference input `x`.
pub open spec fn observed_on(
    kind: crate::factory::AtomKind,
    x: cvxrust::expr::Expr,
    expr: cvxrust::expr::Expr,
    report: OracleReport,
) -> bool {
    is_reference_input(x) && is_test_expression(kind, x, expr) && report == report_of(expr)
}

/// Whether `observed` is what comes of building and observing the named
/// atom's test expression: nothing for a name that the factory does not
/// recognize, and otherwise the oracle's report of the atom's test
/// expression on some reference input.
pub open spec fn is_observation_of(atom_name: Seq<char>, observed: Option<OracleReport>) -> bool {
    match atom_kind_of(atom_name) {
        None => observed is None,
        Some(kind) => observed is Some && exists|x: cvxrust::expr::Expr, expr: cvxrust::expr::Expr|
            #[trigger] observed_on(kind, x, expr, observed->0),
    }
}

/// Whether `result` is what validating the atom yields: the result
/// gathered from an observation of the atom's test expression.
pub open spec fn is_outcome_of(
    result: ValidationResultView,
    atom_name: Seq<char>,
    spec: AtomSpecView,
    category: Category,
) -> bool {
    exists|observed: Option<OracleReport>|
        is_observation_of(atom_name, observed) && result == #[trigger] atom_outcome(
            atom_name,
            spec,
            category,
            observed,
        )
}

/// The results of a list by their values.
pub open spec fn results_view(results: Seq<ValidationResult>) -> Seq<ValidationResultView> {
    results.map_values(|r: ValidationResult| r@)
}

/// The names of a list by their values.
pub open spec fn names_view(names: Seq<&str>) -> Seq<Seq<char>> {
    names.map_values(|n: &str| n@)
}

/// The conjunction of the checks' verdicts.
pub fn all_checks_passed(checks: &Vec<ValidationCheck>) -> (verdict: bool)
    ensures
        verdict == all_passed(checks_view(checks@)),
{
    let mut i: usize = 0;
    while i < checks.len()
        invariant
            i <= checks.len(),
            forall|j: int| 0 <= j < i ==> (#[trigger] checks_view(checks@)[j]).passed,
        decreases checks.len() - i,
    {
        if !checks[i].passed {
            assert(!checks_view(checks@)[i as int].passed);
            return false;
        }
        i += 1;
    }
    true
}

/// Gathers the result for one atom from what the oracle reported of its
/// test expression, or from the absence of such an expression.
pub fn atom_result(
    atom_name: &str,
    spec: &AtomSpec,
    category: Category,
    observed: Option<OracleReport>,
) -> (result: ValidationResult)
    ensures
        result@ == atom_outcome(atom_name@, spec@, category, observed),
        result@.consistent(),
{
    let mut checks: Vec<ValidationCheck> = Vec::new();
    let report = match observed {
        Some(report) => {
            checks.push(
                ValidationCheck {
                    name: String::from_str("exists"),
                    passed: true,
                    message: String::from_str("atom exists in cvxrust"),
                },
            );
            report
        },
        None => {
            let mut message = String::from_str("atom '");
            message.append(atom_name);
            message.append("' not implemented in cvxrust");
            checks.push(
                ValidationCheck { name: String::from_str("exists"), passed: false, message },
            );
            let result = ValidationResult {
                atom_name: String::from_str(atom_name),
                passed: false,
                checks,
            };
            assert(result@.checks =~= seq![exists_failed(atom_name@)]);
            assert(!result@.checks[0].passed);
            return result;
        },
    };
    let expected = match category {
        Category::Affine => "affine",
        _ => spec.curvature.as_str(),
    };
    checks.push(check_curvature(report.curvature, expected));
    checks.push(check_sign(report.sign, spec.sign.as_str()));
    let passed = all_checks_passed(&checks);
    let result = ValidationResult { atom_name: String::from_str(atom_name), passed, checks };
    assert(result@.checks =~= checked_outcome(atom_name@, spec@, category, report).checks);
    result
}

/// Asks the oracle for the curvature and the sign of an expression.
pub fn observe(expr: &cvxrust::expr::Expr) -> (report: OracleReport)
    ensures
        report == report_of(*expr),
{
    OracleReport { curvature: expr_curvature(expr), sign: expr_sign(expr) }
}

/// Validates one atom: builds its test expression on a fresh vector
/// variable of five entries, asks the oracle for curvature and sign, and
/// checks both against what is expected. An atom that the factory cannot
/// exercise gets the one failing existence check.
pub fn validate_atom(atom_name: &str, spec: &AtomSpec, category: Category) -> (result:
    ValidationResult)
    ensures
        is_outcome_of(result@, atom_name@, spec@, category),
        match atom_kind_of(atom_name@) {
            None => result@ == missing_outcome(atom_name@),
            Some(kind) => exists|x: cvxrust::expr::Expr, expr: cvxrust::expr::Expr|
                #[trigger] observed_on(kind, x, expr, report_of(expr)) && result@
                    == checked_outcome(atom_name@, spec@, category, report_of(expr)),
        },
        result@.atom_name == atom_name@,
        result@.consistent(),
{
    let x = vector_variable(5);
    let ghost mut built: Option<cvxrust::expr::Expr> = None;
    let observed = match create_test_expr(atom_name, &x) {
        Some(expr) => {
            proof {
                built = Some(expr);
            }
            Some(observe(&expr))
        },
        None => None,
    };
    let result = atom_result(atom_name, spec, category, observed);
    proof {
        assert(result@ == atom_outcome(atom_name@, spec@, category, observed));
        if let Some(kind) = atom_kind_of(atom_name@) {
            let expr = built->0;
            assert(observed_on(kind, x, expr, report_of(expr)));
            assert(observed == Some(report_of(expr)));
        }
        assert(is_observation_of(atom_name@, observed));
    }
    result
}

/// The atoms that a full run validates, in the order of the report.
pub open spec fn worklist_names() -> Seq<Seq<char>> {
    seq![
        "sum"@,
        "reshape"@,
        "transpose"@,
        "trace"@,
        "diag"@,
        "vstack"@,
        "hstack"@,
        "norm1"@,
        "norm2"@,
        "normInf"@,
        "abs"@,
        "pos"@,
        "negPart"@,
        "maximum"@,
        "sum_squares"@,
        "quad_form"@,
        "exp"@,
        "log"@,
        "entropy"@,
        "sqrt"@,
        "minimum"@,
        "power"@,
    ]
}

/// The atoms that a full run validates, in the order of the report.
pub fn worklist() -> (names: Vec<&'static str>)
    ensures
        names_view(names@) == worklist_names(),
{
    let mut names: Vec<&'static str> = Vec::new();
    names.push("sum");
    names.push("reshape");
    names.push("transpose");
    names.push("trace");
    names.push("diag");
    names.push("vstack");
    names.push("hstack");
    names.push("norm1");
    names.push("norm2");
    names.push("normInf");
    names.push("abs");
    names.push("pos");
    names.push("negPart");
    names.push("maximum");
    names.push("sum_squares");
    names.push("quad_form");
    names.push("exp");
    names.push("log");
    names.push("entropy");
    names.push("sqrt");
    names.push("minimum");
    names.push("power");
    assert(names_view(names@) =~= worklist_names());
    names
}

/// Whether the oracle's answers fit a run over a worklist: there is one
/// per name, and for every name that the catalogue declares it is an
/// observation of that atom's test expression. A name that the catalogue
/// does not declare is never built, and its answer is not looked at.
pub open spec fn answers_fit(
    specs: MergedView,
    names: Seq<Seq<char>>,
    observed: Seq<Option<OracleReport>>,
) -> bool {
    &&& observed.len() == names.len()
    &&& forall|i: int|
        0 <= i < names.len() && specs.contains_key(names[i]) ==> is_observation_of(
            names[i],
            #[trigger] observed[i],
        )
}

/// The results of a run over a worklist, given the oracle's answer for
/// each name: the names are taken in order, a name that the catalogue does
/// not declare yields nothing, and every other name yields its result.
pub open spec fn run_outcome(
    specs: MergedView,
    names: Seq<Seq<char>>,
    observed: Seq<Option<OracleReport>>,
) -> Seq<ValidationResultView>
    decreases names.len(),
{
    if names.len() == 0 {
        Seq::empty()
    } else {
        let earlier = run_outcome(specs, names.drop_last(), observed.drop_last());
        let name = names.last();
        if specs.contains_key(name) {
            earlier.push(atom_outcome(name, specs[name].0, specs[name].1, observed.last()))
        } else {
            earlier
        }
    }
}

/// Validates the named atoms in order against the merged catalogue. A name
/// that the catalogue does not declare is passed over without a result.
pub fn validate_atoms(specs: &MergedSpecs, names: &Vec<&str>) -> (results: Vec<ValidationResult>)
    ensures
        exists|observed: Seq<Option<OracleReport>>|
            answers_fit(specs@, names_view(names@), observed) && results_view(results@)
                == #[trigger] run_outcome(specs@, names_view(names@), observed),
        forall|i: int| 0 <= i < results.len() ==> (#[trigger] results[i])@.consistent(),
{
    let mut results: Vec<ValidationResult> = Vec::new();
    let ghost all_names = names_view(names@);
    let ghost mut observed: Seq<Option<OracleReport>> = Seq::empty();
    let mut i: usize = 0;
    while i < names.len()
        invariant
            i <= names.len(),
            all_names == names_view(names@),
            answers_fit(specs@, all_names.take(i as int), observed),
            results_view(results@) == run_outcome(specs@, all_names.take(i as int), observed),
            forall|j: int| 0 <= j < results.len() ==> (#[trigger] results[j])@.consistent(),
        decreases names.len() - i,
    {
        let name = names[i];
        let ghost before = results_view(results@);
        let ghost answer: Option<OracleReport>;
        match specs.get(name) {
            Some((spec, category)) => {
                let result = validate_atom(name, spec, category);
                proof {
                    answer = choose|o: Option<OracleReport>|
                        is_observation_of(name@, o) && result@ == #[trigger] atom_outcome(
                            name@,
                            spec@,
                            category,
                            o,
                        );
                }
                results.push(result);
                assert(results_view(results@) =~= before.push(result@));
            },
            None => {
                proof {
                    answer = None;
                }
            },
        }
        proof {
            let next = all_names.take(i + 1);
            let grown = observed.push(answer);
            assert(next.drop_last() == all_names.take(i as int));
            assert(next.last() == name@);
            assert(grown.drop_last() == observed);
            assert(grown.last() == answer);
            observed = grown;
        }
        i += 1;
    }
    assert(all_names.take(i as int) == all_names);
    results
}

/// Validates every atom of the worklist that the catalogue declares.
pub fn validate_all(specs: &MergedSpecs) -> (results: Vec<ValidationResult>)
    ensures
        exists|observed: Seq<Option<OracleReport>>|
            answers_fit(specs@, worklist_names(), observed) && results_view(results@)
                == #[trigger] run_outcome(specs@, worklist_names(), observed),
        forall|i: int| 0 <= i < results.len() ==> (#[trigger] results[i])@.consistent(),
{
    let names = worklist();
    validate_atoms(specs, &names)
}

/// An atom that the factory cannot exercise has exactly one check, the
/// failing existence check, and a failing verdict.
pub proof fn lemma_unbuilt_atom_outcome(atom_name: Seq<char>, spec: AtomSpecView, category: Category)
    ensures
        atom_outcome(atom_name, spec, category, None).checks.len() == 1,
        atom_outcome(atom_name, spec, category, None).checks[0].name == "exists"@,
        !atom_outcome(atom_name, spec, category, None).checks[0].passed,
        !atom_outcome(atom_name, spec, category, None).passed,
        atom_outcome(atom_name, spec, category, None).atom_name == atom_name,
{
}

/// An atom whose test expression was built has exactly three checks, in
/// the order existence, curvature, sign; the existence check passes, and
/// the verdict is the conjunction of the curvature and the sign check.
pub proof fn lemma_built_atom_outcome(
    atom_name: Seq<char>,
    spec: AtomSpecView,
    category: Category,
    report: OracleReport,
)
    ensures
        atom_outcome(atom_name, spec, category, Some(report)).checks.len() == 3,
        atom_outcome(atom_name, spec, category, Some(report)).checks[0] == exists_passed(),
        atom_outcome(atom_name, spec, category, Some(report)).checks[1] == curvature_verdict(
            report.curvature,
            expected_curvature(spec, category),
        ),
        atom_outcome(atom_name, spec, category, Some(report)).checks[2] == sign_verdict(
            report.sign,
            spec.sign,
        ),
        atom_outcome(atom_name, spec, category, Some(report)).checks[0].name == "exists"@,
        atom_outcome(atom_name, spec, category, Some(report)).checks[1].name == "curvature"@,
        atom_outcome(atom_name, spec, category, Some(report)).checks[2].name == "sign"@,
        atom_outcome(atom_name, spec, category, Some(report)).passed == (atom_outcome(
            atom_name,
            spec,
            category,
            Some(report),
        ).checks[1].passed && atom_outcome(atom_name, spec, category, Some(report)).checks[2].passed),
        atom_outcome(atom_name, spec, category, Some(report)).atom_name == atom_name,
{
    let checks = atom_outcome(atom_name, spec, category, Some(report)).checks;
    if checks[1].passed && checks[2].passed {
        assert forall|i: int| 0 <= i < checks.len() implies (#[trigger] checks[i]).passed by {
            if i == 0 {
            } else if i == 1 {
            } else {
            }
        }
    }
}

/// Every result of a run has a verdict that is the conjunction of its
/// checks, whatever the oracle answered.
pub proof fn lemma_outcome_consistent(
    atom_name: Seq<char>,
    spec: AtomSpecView,
    category: Category,
    observed: Option<OracleReport>,
)
    ensures
        atom_outcome(atom_name, spec, category, observed).consistent(),
{
    if observed is None {
        assert(!missing_outcome(atom_name).checks[0].passed);
    }
}

/// Running twice gives the same results: two runs over one catalogue and
/// one worklist, in which the oracle gave the same answer for every name
/// that the catalogue declares, yield identical sequences of results.
pub proof fn lemma_rerun_identical(
    specs: MergedView,
    names: Seq<Seq<char>>,
    first: Seq<Option<OracleReport>>,
    second: Seq<Option<OracleReport>>,
)
    requires
        first.len() == names.len(),
        second.len() == names.len(),
        forall|i: int|
            0 <= i < names.len() && specs.contains_key(#[trigger] names[i]) ==> first[i]
                == second[i],
    ensures
        run_outcome(specs, names, first) == run_outcome(specs, names, second),
    decreases names.len(),
{
    if names.len() > 0 {
        let last = names.len() - 1;
        assert(names[last] == names.last());
        assert forall|i: int|
            0 <= i < names.drop_last().len() && specs.contains_key(
                #[trigger] names.drop_last()[i],
            ) implies first.drop_last()[i] == second.drop_last()[i] by {
            assert(names.drop_last()[i] == names[i]);
        }
        lemma_rerun_identical(specs, names.drop_last(), first.drop_last(), second.drop_last());
    }
}

/// The names of a run's results are the names of the worklist that the
/// catalogue declares, in the order of the worklist: a name that is not
/// declared yields no result, and every declared name yields one.
pub proof fn lemma_run_names(
    specs: MergedView,
    names: Seq<Seq<char>>,
    observed: Seq<Option<OracleReport>>,
)
    ensures
        run_outcome(specs, names, observed).map_values(|r: ValidationResultView| r.atom_name)
            == names.filter(|n: Seq<char>| specs.contains_key(n)),
        run_outcome(specs, names, observed).len() <= names.len(),
    decreases names.len(),
{
    reveal(Seq::filter);
    let declared = |n: Seq<char>| specs.contains_key(n);
    let name_of = |r: ValidationResultView| r.atom_name;
    if names.len() > 0 {
        lemma_run_names(specs, names.drop_last(), observed.drop_last());
        let earlier = run_outcome(specs, names.drop_last(), observed.drop_last());
        let name = names.last();
        if specs.contains_key(name) {
            let result = atom_outcome(name, specs[name].0, specs[name].1, observed.last());
            assert(result.atom_name == name);
            assert(earlier.push(result).map_values(name_of) =~= earlier.map_values(name_of).push(
                name,
            ));
        }
    } else {
        assert(run_outcome(specs, names, observed).map_values(name_of) =~= names.filter(declared));
    }
}

/// A worklist none of whose names the catalogue declares yields no result
/// at all.
pub proof fn lemma_undeclared_names_yield_nothing(
    specs: MergedView,
    names: Seq<Seq<char>>,
    observed: Seq<Option<OracleReport>>,
)
    requires
        forall|i: int| 0 <= i < names.len() ==> !specs.contains_key(#[trigger] names[i]),
    ensures
        run_outcome(specs, names, observed).len() == 0,
    decreases names.len(),
{
    if names.len() > 0 {
        assert(names.last() == names[names.len() - 1]);
        assert forall|i: int| 0 <= i < names.drop_last().len() implies !specs.contains_key(
            #[trigger] names.drop_last()[i],
        ) by {
            assert(names.drop_last()[i] == names[i]);
        }
        lemma_undeclared_names_yield_nothing(specs, names.drop_last(), observed.drop_last());
    }
}

/// The factory recognizes every name of the worklist, so that a full run
/// never records a failing existence check.
pub proof fn lemma_worklist_recognized()
    ensures
        worklist_names().len() == 22,
        forall|i: int| 0 <= i < worklist_names().len() ==> recognized(#[trigger] worklist_names()[i]),
{
}

/// An observation holds a report exactly where the factory recognizes the
/// name.
pub proof fn lemma_observation_present(atom_name: Seq<char>, observed: Option<OracleReport>)
    requires
        is_observation_of(atom_name, observed),
    ensures
        observed is Some <==> recognized(atom_name),
{
}

/// The oracle answers for the expression alone: two observations of one
/// test expression carry the same report, and so yield the same result.
pub proof fn lemma_same_expression_same_outcome(
    kind: crate::factory::AtomKind,
    x: cvxrust::expr::Expr,
    expr: cvxrust::expr::Expr,
    first: OracleReport,
    second: OracleReport,
    atom_name: Seq<char>,
    spec: AtomSpecView,
    category: Category,
)
    requires
        observed_on(kind, x, expr, first),
        observed_on(kind, x, expr, second),
    ensures
        first == second,
        atom_outcome(atom_name, spec, category, Some(first)) == atom_outcome(
            atom_name,
            spec,
            category,
            Some(second),
        ),
{
}

} // verus!
