//! The declarative catalogue of atoms and the verdicts produced for them.

use vstd::prelude::*;

verus! {

/// The group of the catalogue an atom is declared in.
#[derive(Clone, Copy, Debug, PartialEq, Eq, Structural)]
pub enum Category {
    Affine,
    Convex,
    Concave,
}

impl Category {
    /// The curvature symbol that the category stands for.
    pub open spec fn symbol(self) -> Seq<char> {
        match self {
            Category::Affine => "affine"@,
            Category::Convex => "convex"@,
            Category::Concave => "concave"@,
        }
    }

    /// The category's name, which is also its curvature symbol.
    pub fn as_str(self) -> (name: &'static str)
        ensures
            name@ == self.symbol(),
    {
        match self {
            Category::Affine => "affine",
            Category::Convex => "convex",
            Category::Concave => "concave",
        }
    }
}

/// The curvature an atom's entry declares: a single symbol, a composite
/// rule that is carried without being interpreted, or nothing at all.
#[derive(Debug)]
pub enum CurvatureSpec {
    Simple(String),
    Complex,
    Unknown,
}

/// Mathematical value of a [`CurvatureSpec`].
pub enum CurvatureSpecView {
    Simple(Seq<char>),
    Complex,
    Unknown,
}

impl CurvatureSpecView {
    /// The declared symbol, or `unknown` where the entry declares no single
    /// symbol.
    pub open spec fn symbol(self) -> Seq<char> {
        match self {
            CurvatureSpecView::Simple(s) => s,
            _ => "unknown"@,
        }
    }
}

impl View for CurvatureSpec {
    type V = CurvatureSpecView;

    open spec fn view(&self) -> CurvatureSpecView {
        match self {
            CurvatureSpec::Simple(s) => CurvatureSpecView::Simple(s@),
            CurvatureSpec::Complex => CurvatureSpecView::Complex,
            CurvatureSpec::Unknown => CurvatureSpecView::Unknown,
        }
    }
}

impl Default for CurvatureSpec {
    fn default() -> (spec: Self)
        ensures
            spec@ == CurvatureSpecView::Unknown,
    {
        CurvatureSpec::Unknown
    }
}

impl Clone for CurvatureSpec {
    fn clone(&self) -> (copy: Self)
        ensures
            copy == *self,
    {
        match self {
            CurvatureSpec::Simple(s) => CurvatureSpec::Simple(s.clone()),
            CurvatureSpec::Complex => CurvatureSpec::Complex,
            CurvatureSpec::Unknown => CurvatureSpec::Unknown,
        }
    }
}

impl CurvatureSpec {
    /// The declared symbol, or `unknown` for a composite or absent
    /// declaration.
    pub fn as_str(&self) -> (symbol: &str)
        ensures
            symbol@ == self@.symbol(),
    {
        match self {
            CurvatureSpec::Simple(s) => s.as_str(),
            _ => "unknown",
        }
    }
}

/// What the catalogue expects of one atom.
#[derive(Debug)]
pub struct AtomSpec {
    pub description: String,
    pub curvature: CurvatureSpec,
    pub sign: String,
    pub arity: String,
    pub dcp_requires: Option<String>,
}

/// Mathematical value of an [`AtomSpec`].
pub struct AtomSpecView {
    pub description: Seq<char>,
    pub curvature: CurvatureSpecView,
    pub sign: Seq<char>,
    pub arity: Seq<char>,
    pub dcp_requires: Option<Seq<char>>,
}

impl View for AtomSpec {
    type V = AtomSpecView;

    open spec fn view(&self) -> AtomSpecView {
        AtomSpecView {
            description: self.description@,
            curvature: self.curvature@,
            sign: self.sign@,
            arity: self.arity@,
            dcp_requires: match self.dcp_requires {
                Some(s) => Some(s@),
                None => None,
            },
        }
    }
}

impl Default for AtomSpec {
    fn default() -> (spec: Self)
        ensures
            spec@ == (AtomSpecView {
                description: Seq::empty(),
                curvature: CurvatureSpecView::Unknown,
                sign: Seq::empty(),
                arity: Seq::empty(),
                dcp_requires: None,
            }),
    {
        AtomSpec {
            description: String::new(),
            curvature: CurvatureSpec::Unknown,
            sign: String::new(),
            arity: String::new(),
            dcp_requires: None,
        }
    }
}

impl Clone for AtomSpec {
    fn clone(&self) -> (copy: Self)
        ensures
            copy == *self,
    {
        AtomSpec {
            description: self.description.clone(),
            curvature: self.curvature.clone(),
            sign: self.sign.clone(),
            arity: self.arity.clone(),
            dcp_requires: match &self.dcp_requires {
                Some(s) => Some(s.clone()),
                None => None,
            },
        }
    }
}

/// One named verdict about an atom.
#[derive(Debug)]
pub struct ValidationCheck {
    pub name: String,
    pub passed: bool,
    pub message: String,
}

/// Mathematical value of a [`ValidationCheck`].
pub struct ValidationCheckView {
    pub name: Seq<char>,
    pub passed: bool,
    pub message: Seq<char>,
}

impl View for ValidationCheck {
    type V = ValidationCheckView;

    open spec fn view(&self) -> ValidationCheckView {
        ValidationCheckView { name: self.name@, passed: self.passed, message: self.message@ }
    }
}

/// The checks of a list by their values.
pub open spec fn checks_view(checks: Seq<ValidationCheck>) -> Seq<ValidationCheckView> {
    checks.map_values(|c: ValidationCheck| c@)
}

/// The borrowed checks of a list by their values.
pub open spec fn borrowed_checks_view(checks: Seq<&ValidationCheck>) -> Seq<ValidationCheckView> {
    checks.map_values(|c: &ValidationCheck| c@)
}

/// Whether every check of a sequence passed.
pub open spec fn all_passed(checks: Seq<ValidationCheckView>) -> bool {
    forall|i: int| 0 <= i < checks.len() ==> (#[trigger] checks[i]).passed
}

/// The checks of a sequence that did not pass, in their order.
pub open spec fn failed_among(checks: Seq<ValidationCheckView>) -> Seq<ValidationCheckView> {
    checks.filter(|c: ValidationCheckView| !c.passed)
}

/// The checks made of one atom and their conjunction.
#[derive(Debug)]
pub struct ValidationResult {
    pub atom_name: String,
    pub passed: bool,
    pub checks: Vec<ValidationCheck>,
}

/// Mathematical value of a [`ValidationResult`].
pub struct ValidationResultView {
    pub atom_name: Seq<char>,
    pub passed: bool,
    pub checks: Seq<ValidationCheckView>,
}

impl ValidationResultView {
    /// The overall verdict is the conjunction of the checks.
    pub open spec fn consistent(self) -> bool {
        self.passed == all_passed(self.checks)
    }
}

impl View for ValidationResult {
    type V = ValidationResultView;

    open spec fn view(&self) -> ValidationResultView {
        ValidationResultView {
            atom_name: self.atom_name@,
            passed: self.passed,
            checks: checks_view(self.checks@),
        }
    }
}

impl ValidationResult {
    /// The checks that did not pass, in the order in which they were made.
    pub fn failed_checks(&self) -> (failed: Vec<&ValidationCheck>)
        ensures
            borrowed_checks_view(failed@) == failed_among(self@.checks),
    {
        let mut failed: Vec<&ValidationCheck> = Vec::new();
        let mut i: usize = 0;
        while i < self.checks.len()
            invariant
                i <= self.checks.len(),
                borrowed_checks_view(failed@) == failed_among(self@.checks.take(i as int)),
            decreases self.checks.len() - i,
        {
            proof {
                let done = self@.checks.take(i as int);
                let next = self@.checks.take(i + 1);
                assert(next.drop_last() == done);
                assert(next.last() == self.checks[i as int]@);
                reveal(Seq::filter);
            }
            let check = &self.checks[i];
            if !check.passed {
                failed.push(check);
                assert(borrowed_checks_view(failed@) == failed_among(
                    self@.checks.take(i as int),
                ).push(check@));
            }
            i += 1;
        }
        assert(self@.checks.take(i as int) == self@.checks);
        failed
    }
}

} // verus!
