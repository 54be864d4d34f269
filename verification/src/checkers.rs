//! The two property checks: an expected symbol against what the oracle
//! reported.

use vstd::prelude::*;
use crate::model::{ValidationCheck, ValidationCheckView};
use crate::oracle::{
    curvature_is_affine, curvature_is_concave, curvature_is_constant, curvature_is_convex, str_eq,
    Curvature, Sign,
};

verus! {

/// The explanation every property check carries, whatever its verdict.
pub open spec fn expectation_text(expected: Seq<char>, actual: Seq<char>) -> Seq<char> {
    "expected "@ + expected + ", got "@ + actual
}

/// Whether a reported curvature satisfies an expected symbol. The four
/// curvature symbols ask for the oracle's predicate of that name; any other
/// text asks for nothing.
pub open spec fn curvature_accepted(observed: Curvature, expected: Seq<char>) -> bool {
    if expected == "constant"@ {
        observed.constant()
    } else if expected == "affine"@ {
        observed.affine()
    } else if expected == "convex"@ {
        observed.convex()
    } else if expected == "concave"@ {
        observed.concave()
    } else {
        true
    }
}

/// Whether a reported sign satisfies an expected symbol. Zero counts as
/// both nonnegative and nonpositive; any text but the three sign symbols
/// asks for nothing.
pub open spec fn sign_accepted(observed: Sign, expected: Seq<char>) -> bool {
    if expected == "nonnegative"@ {
        observed is Nonnegative || observed is Zero
    } else if expected == "nonpositive"@ {
        observed is Nonpositive || observed is Zero
    } else if expected == "zero"@ {
        observed is Zero
    } else {
        true
    }
}

/// The check that `check_curvature` produces.
pub open spec fn curvature_verdict(observed: Curvature, expected: Seq<char>) -> ValidationCheckView {
    ValidationCheckView {
        name: "curvature"@,
        passed: curvature_accepted(observed, expected),
        message: expectation_text(expected, observed.symbol()),
    }
}

/// The check that `check_sign` produces.
pub open spec fn sign_verdict(observed: Sign, expected: Seq<char>) -> ValidationCheckView {
    ValidationCheckView {
        name: "sign"@,
        passed: sign_accepted(observed, expected),
        message: expectation_text(expected, observed.symbol()),
    }
}

fn expectation_message(expected: &str, actual: &str) -> (message: String)
    ensures
        message@ == expectation_text(expected@, actual@),
{
    let mut message = String::from_str("expected ");
    message.append(expected);
    message.append(", got ");
    message.append(actual);
    message
}

/// Checks a reported curvature against the expected symbol.
pub fn check_curvature(observed: Curvature, expected: &str) -> (check: ValidationCheck)
    ensures
        check@ == curvature_verdict(observed, expected@),
{
    let passed = if str_eq(expected, "constant") {
        curvature_is_constant(observed)
    } else if str_eq(expected, "affine") {
        curvature_is_affine(observed)
    } else if str_eq(expected, "convex") {
        curvature_is_convex(observed)
    } else if str_eq(expected, "concave") {
        curvature_is_concave(observed)
    } else {
        true
    };
    ValidationCheck {
        name: String::from_str("curvature"),
        passed,
        message: expectation_message(expected, observed.as_str()),
    }
}

/// Checks a reported sign against the expected symbol.
pub fn check_sign(observed: Sign, expected: &str) -> (check: ValidationCheck)
    ensures
        check@ == sign_verdict(observed, expected@),
{
    let passed = if str_eq(expected, "nonnegative") {
        match observed {
            Sign::Nonnegative | Sign::Zero => true,
            _ => false,
        }
    } else if str_eq(expected, "nonpositive") {
        match observed {
            Sign::Nonpositive | Sign::Zero => true,
            _ => false,
        }
    } else if str_eq(expected, "zero") {
        match observed {
            Sign::Zero => true,
            _ => false,
        }
    } else {
        true
    };
    ValidationCheck {
        name: String::from_str("sign"),
        passed,
        message: expectation_message(expected, observed.as_str()),
    }
}

/// The four curvature symbols are pairwise different texts.
pub proof fn lemma_curvature_symbols_distinct()
    ensures
        "constant"@ != "affine"@,
        "constant"@ != "convex"@,
        "constant"@ != "concave"@,
        "affine"@ != "convex"@,
        "affine"@ != "concave"@,
        "convex"@ != "concave"@,
{
    reveal_strlit("constant");
    reveal_strlit("affine");
    reveal_strlit("convex");
    reveal_strlit("concave");
    assert("constant"@.len() == 8);
    assert("affine"@.len() == 6);
    assert("convex"@.len() == 6);
    assert("concave"@.len() == 7);
    assert("affine"@[0] != "convex"@[0]);
}

/// The three sign symbols are pairwise different texts.
pub proof fn lemma_sign_symbols_distinct()
    ensures
        "nonnegative"@ != "nonpositive"@,
        "nonnegative"@ != "zero"@,
        "nonpositive"@ != "zero"@,
{
    reveal_strlit("nonnegative");
    reveal_strlit("nonpositive");
    reveal_strlit("zero");
    assert("nonnegative"@.len() == 11);
    assert("zero"@.len() == 4);
    assert("nonpositive"@.len() == 11);
    assert("nonnegative"@[3] != "nonpositive"@[3]);
}

/// Subsumption of curvature: a report that the oracle classifies as affine,
/// convex and concave at once passes the check for each of those three
/// symbols.
pub proof fn lemma_affine_report_passes_each(observed: Curvature)
    requires
        observed.affine(),
        observed.convex(),
        observed.concave(),
    ensures
        curvature_verdict(observed, "affine"@).passed,
        curvature_verdict(observed, "convex"@).passed,
        curvature_verdict(observed, "concave"@).passed,
{
    lemma_curvature_symbols_distinct();
}

/// The check for a curvature symbol rests on the oracle's predicate of that
/// name alone: a report that is convex passes the convex check whatever its
/// other classes, and likewise for the other three symbols.
pub proof fn lemma_curvature_check_follows_predicate(observed: Curvature)
    ensures
        curvature_verdict(observed, "constant"@).passed == observed.constant(),
        curvature_verdict(observed, "affine"@).passed == observed.affine(),
        curvature_verdict(observed, "convex"@).passed == observed.convex(),
        curvature_verdict(observed, "concave"@).passed == observed.concave(),
{
    lemma_curvature_symbols_distinct();
}

/// Subsumption of sign: a zero report passes every sign check, the ones
/// for nonnegative, nonpositive and zero among them.
pub proof fn lemma_zero_passes_each(expected: Seq<char>)
    ensures
        sign_verdict(Sign::Zero, expected).passed,
        sign_verdict(Sign::Zero, "nonnegative"@).passed,
        sign_verdict(Sign::Zero, "nonpositive"@).passed,
        sign_verdict(Sign::Zero, "zero"@).passed,
{
}

/// What each sign symbol admits: nonnegative admits nonnegative and zero,
/// nonpositive admits nonpositive and zero, zero admits zero only.
pub proof fn lemma_sign_check_by_symbol(observed: Sign)
    ensures
        sign_verdict(observed, "nonnegative"@).passed == (observed is Nonnegative
            || observed is Zero),
        sign_verdict(observed, "nonpositive"@).passed == (observed is Nonpositive
            || observed is Zero),
        sign_verdict(observed, "zero"@).passed == (observed is Zero),
{
    lemma_sign_symbols_distinct();
}

/// An expectation that is none of the symbols a check knows asks for
/// nothing: the check passes whatever was reported.
pub proof fn lemma_unknown_expectation_passes(c: Curvature, s: Sign, expected: Seq<char>)
    ensures
        expected != "constant"@ && expected != "affine"@ && expected != "convex"@ && expected
            != "concave"@ ==> curvature_verdict(c, expected).passed,
        expected != "nonnegative"@ && expected != "nonpositive"@ && expected != "zero"@
            ==> sign_verdict(s, expected).passed,
{
}

} // verus!
