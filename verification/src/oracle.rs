//! The expression library under test, seen through the calls the validator
//! makes into it.
//!
//! Every function here that is marked `external_body` is believed, not
//! proved: its body is the one call named in its comment. A function
//! without a body stands for what one such call returns; nothing is known
//! of it but that equal arguments give equal results.

use vstd::prelude::*;

verus! {

/// An expression of the library under test. Nothing inside it is visible
/// to the proofs: it is built, handed on and asked for its properties.
#[verifier::external_type_specification]
#[verifier::external_body]
pub struct ExExpr(cvxrust::expr::Expr);

/// The curvature classes the oracle reports.
#[derive(Clone, Copy, Debug, PartialEq, Eq, Structural)]
pub enum Curvature {
    Constant,
    Affine,
    Convex,
    Concave,
    Unknown,
}

impl Curvature {
    /// Constant curvature only.
    pub open spec fn constant(self) -> bool {
        self is Constant
    }

    /// Constant or affine.
    pub open spec fn affine(self) -> bool {
        self is Constant || self is Affine
    }

    /// Constant, affine or convex.
    pub open spec fn convex(self) -> bool {
        self is Constant || self is Affine || self is Convex
    }

    /// Constant, affine or concave.
    pub open spec fn concave(self) -> bool {
        self is Constant || self is Affine || self is Concave
    }

    /// The lower-case name of the class.
    pub open spec fn symbol(self) -> Seq<char> {
        match self {
            Curvature::Constant => "constant"@,
            Curvature::Affine => "affine"@,
            Curvature::Convex => "convex"@,
            Curvature::Concave => "concave"@,
            Curvature::Unknown => "unknown"@,
        }
    }

    /// The lower-case name of the class.
    pub fn as_str(self) -> (name: &'static str)
        ensures
            name@ == self.symbol(),
    {
        match self {
            Curvature::Constant => "constant",
            Curvature::Affine => "affine",
            Curvature::Convex => "convex",
            Curvature::Concave => "concave",
            Curvature::Unknown => "unknown",
        }
    }
}

/// The sign classes the oracle reports.
#[derive(Clone, Copy, Debug, PartialEq, Eq, Structural)]
pub enum Sign {
    Nonnegative,
    Nonpositive,
    Zero,
    Unknown,
}

impl Sign {
    /// The lower-case name of the class.
    pub open spec fn symbol(self) -> Seq<char> {
        match self {
            Sign::Nonnegative => "nonnegative"@,
            Sign::Nonpositive => "nonpositive"@,
            Sign::Zero => "zero"@,
            Sign::Unknown => "unknown"@,
        }
    }

    /// The lower-case name of the class.
    pub fn as_str(self) -> (name: &'static str)
        ensures
            name@ == self.symbol(),
    {
        match self {
            Sign::Nonnegative => "nonnegative",
            Sign::Nonpositive => "nonpositive",
            Sign::Zero => "zero",
            Sign::Unknown => "unknown",
        }
    }
}

/// What the oracle reports of one expression.
#[derive(Clone, Copy, Debug, PartialEq, Eq, Structural)]
pub struct OracleReport {
    pub curvature: Curvature,
    pub sign: Sign,
}

/// `str`'s `==`: whether two string slices hold the same characters.
#[verifier::external_body]
pub(crate) fn str_eq(a: &str, b: &str) -> (same: bool)
    ensures
        same == (a@ == b@),
{
    a == b
}

/// `cvxrust::dcp::Curvature::is_constant`: true of the constant class only.
#[verifier::external_body]
pub(crate) fn curvature_is_constant(c: Curvature) -> (holds: bool)
    ensures
        holds == c.constant(),
{
    match c {
        Curvature::Constant => cvxrust::dcp::Curvature::Constant,
        Curvature::Affine => cvxrust::dcp::Curvature::Affine,
        Curvature::Convex => cvxrust::dcp::Curvature::Convex,
        Curvature::Concave => cvxrust::dcp::Curvature::Concave,
        Curvature::Unknown => cvxrust::dcp::Curvature::Unknown,
    }.is_constant()
}

/// `cvxrust::dcp::Curvature::is_affine`: true of the constant and affine
/// classes.
#[verifier::external_body]
pub(crate) fn curvature_is_affine(c: Curvature) -> (holds: bool)
    ensures
        holds == c.affine(),
{
    match c {
        Curvature::Constant => cvxrust::dcp::Curvature::Constant,
        Curvature::Affine => cvxrust::dcp::Curvature::Affine,
        Curvature::Convex => cvxrust::dcp::Curvature::Convex,
        Curvature::Concave => cvxrust::dcp::Curvature::Concave,
        Curvature::Unknown => cvxrust::dcp::Curvature::Unknown,
    }.is_affine()
}

/// `cvxrust::dcp::Curvature::is_convex`: true of the constant, affine and
/// convex classes.
#[verifier::external_body]
pub(crate) fn curvature_is_convex(c: Curvature) -> (holds: bool)
    ensures
        holds == c.convex(),
{
    match c {
        Curvature::Constant => cvxrust::dcp::Curvature::Constant,
        Curvature::Affine => cvxrust::dcp::Curvature::Affine,
        Curvature::Convex => cvxrust::dcp::Curvature::Convex,
        Curvature::Concave => cvxrust::dcp::Curvature::Concave,
        Curvature::Unknown => cvxrust::dcp::Curvature::Unknown,
    }.is_convex()
}

/// `cvxrust::dcp::Curvature::is_concave`: true of the constant, affine and
/// concave classes.
#[verifier::external_body]
pub(crate) fn curvature_is_concave(c: Curvature) -> (holds: bool)
    ensures
        holds == c.concave(),
{
    match c {
        Curvature::Constant => cvxrust::dcp::Curvature::Constant,
        Curvature::Affine => cvxrust::dcp::Curvature::Affine,
        Curvature::Convex => cvxrust::dcp::Curvature::Convex,
        Curvature::Concave => cvxrust::dcp::Curvature::Concave,
        Curvature::Unknown => cvxrust::dcp::Curvature::Unknown,
    }.is_concave()
}

/// What `cvxrust::expr::Expr::curvature` returns for an expression. It
/// follows from the expression's atoms, leaves and constants alone.
pub uninterp spec fn reported_curvature(e: cvxrust::expr::Expr) -> Curvature;

/// What `cvxrust::expr::Expr::sign` returns for an expression. It follows
/// from the expression's atoms, leaves and constants alone.
pub uninterp spec fn reported_sign(e: cvxrust::expr::Expr) -> Sign;

/// `cvxrust::expr::Expr::curvature`, with the class it returns written in
/// this library's enum. Nothing is claimed of which class comes back, only
/// that it is the one the oracle computes for this expression.
#[verifier::external_body]
pub(crate) fn expr_curvature(e: &cvxrust::expr::Expr) -> (c: Curvature)
    ensures
        c == reported_curvature(*e),
{
    match e.curvature() {
        cvxrust::dcp::Curvature::Constant => Curvature::Constant,
        cvxrust::dcp::Curvature::Affine => Curvature::Affine,
        cvxrust::dcp::Curvature::Convex => Curvature::Convex,
        cvxrust::dcp::Curvature::Concave => Curvature::Concave,
        cvxrust::dcp::Curvature::Unknown => Curvature::Unknown,
    }
}

/// `cvxrust::expr::Expr::sign`, with the class it returns written in this
/// library's enum. Nothing is claimed of which class comes back, only that
/// it is the one the oracle computes for this expression.
#[verifier::external_body]
pub(crate) fn expr_sign(e: &cvxrust::expr::Expr) -> (s: Sign)
    ensures
        s == reported_sign(*e),
{
    match e.sign() {
        cvxrust::dcp::Sign::Nonnegative => Sign::Nonnegative,
        cvxrust::dcp::Sign::Nonpositive => Sign::Nonpositive,
        cvxrust::dcp::Sign::Zero => Sign::Zero,
        cvxrust::dcp::Sign::Unknown => Sign::Unknown,
    }
}

/// `Clone::clone` of `cvxrust::expr::Expr`, which is derived: the copy is
/// the same expression.
#[verifier::external_body]
pub(crate) fn clone_expr(e: &cvxrust::expr::Expr) -> (copy: cvxrust::expr::Expr)
    ensures
        copy == *e,
{
    e.clone()
}

/// Whether an expression is what `cvxrust::expr::variable` returns for a
/// shape of the given dimensions: a variable of that shape, without a name
/// or a sign constraint. Each call draws a new identifier from a counter of
/// the process, so the variable itself has no name here.
pub uninterp spec fn is_variable(e: cvxrust::expr::Expr, dims: Seq<usize>) -> bool;

/// Whether an expression is what `cvxrust::expr::constant_dmatrix` returns
/// for the identity matrix of the given order. Each call draws a new
/// identifier from a counter of the process, so the constant itself has no
/// name here.
pub uninterp spec fn is_identity_constant(e: cvxrust::expr::Expr, order: usize) -> bool;

/// `cvxrust::expr::variable` at a vector shape: a fresh variable with `n`
/// entries.
#[verifier::external_body]
pub(crate) fn vector_variable(n: usize) -> (x: cvxrust::expr::Expr)
    ensures
        is_variable(x, seq![n]),
{
    cvxrust::expr::variable(n)
}

/// `cvxrust::expr::variable` at a matrix shape: a fresh variable with
/// `rows` rows and `cols` columns.
#[verifier::external_body]
pub(crate) fn matrix_variable(rows: usize, cols: usize) -> (m: cvxrust::expr::Expr)
    ensures
        is_variable(m, seq![rows, cols]),
{
    cvxrust::expr::variable((rows, cols))
}

/// `cvxrust::expr::constant_dmatrix` of `nalgebra::DMatrix::identity`: the
/// constant identity matrix of order `n`. The bound keeps the matrix within
/// what can be allocated.
#[verifier::external_body]
pub(crate) fn identity_constant(n: usize) -> (p: cvxrust::expr::Expr)
    requires
        n <= 1024,
    ensures
        is_identity_constant(p, n),
{
    cvxrust::expr::constant_dmatrix(nalgebra::DMatrix::identity(n, n))
}

/// What `cvxrust::atoms::sum` returns: the sum of all entries of `x`.
pub uninterp spec fn sum_of(x: cvxrust::expr::Expr) -> cvxrust::expr::Expr;

/// `cvxrust::atoms::sum`.
#[verifier::external_body]
pub(crate) fn atom_sum(x: &cvxrust::expr::Expr) -> (e: cvxrust::expr::Expr)
    ensures
        e == sum_of(*x),
{
    cvxrust::atoms::sum(x)
}

/// What `cvxrust::atoms::reshape` returns: `x` reshaped to `rows` rows and
/// `cols` columns.
pub uninterp spec fn reshape_of(
    x: cvxrust::expr::Expr,
    rows: usize,
    cols: usize,
) -> cvxrust::expr::Expr;

/// `cvxrust::atoms::reshape` to `rows` rows and `cols` columns.
#[verifier::external_body]
pub(crate) fn atom_reshape(x: &cvxrust::expr::Expr, rows: usize, cols: usize) -> (e:
    cvxrust::expr::Expr)
    ensures
        e == reshape_of(*x, rows, cols),
{
    cvxrust::atoms::reshape(x, (rows, cols))
}

/// What `cvxrust::atoms::transpose` returns: the transpose of `x`.
pub uninterp spec fn transpose_of(x: cvxrust::expr::Expr) -> cvxrust::expr::Expr;

/// `cvxrust::atoms::transpose`.
#[verifier::external_body]
pub(crate) fn atom_transpose(x: &cvxrust::expr::Expr) -> (e: cvxrust::expr::Expr)
    ensures
        e == transpose_of(*x),
{
    cvxrust::atoms::transpose(x)
}

/// What `cvxrust::atoms::trace` returns: the trace of `x`.
pub uninterp spec fn trace_of(x: cvxrust::expr::Expr) -> cvxrust::expr::Expr;

/// `cvxrust::atoms::trace`.
#[verifier::external_body]
pub(crate) fn atom_trace(x: &cvxrust::expr::Expr) -> (e: cvxrust::expr::Expr)
    ensures
        e == trace_of(*x),
{
    cvxrust::atoms::trace(x)
}

/// What `cvxrust::atoms::diag` returns: the diagonal atom of `x`.
pub uninterp spec fn diag_of(x: cvxrust::expr::Expr) -> cvxrust::expr::Expr;

/// `cvxrust::atoms::diag`.
#[verifier::external_body]
pub(crate) fn atom_diag(x: &cvxrust::expr::Expr) -> (e: cvxrust::expr::Expr)
    ensures
        e == diag_of(*x),
{
    cvxrust::atoms::diag(x)
}

/// What `cvxrust::atoms::vstack` returns: the parts on top of each other, in their
/// order.
pub uninterp spec fn vstack_of(parts: Seq<cvxrust::expr::Expr>) -> cvxrust::expr::Expr;

/// `cvxrust::atoms::vstack`.
#[verifier::external_body]
pub(crate) fn atom_vstack(parts: Vec<cvxrust::expr::Expr>) -> (e: cvxrust::expr::Expr)
    ensures
        e == vstack_of(parts@),
{
    cvxrust::atoms::vstack(parts)
}

/// What `cvxrust::atoms::hstack` returns: the parts side by side, in their
/// order.
pub uninterp spec fn hstack_of(parts: Seq<cvxrust::expr::Expr>) -> cvxrust::expr::Expr;

/// `cvxrust::atoms::hstack`.
#[verifier::external_body]
pub(crate) fn atom_hstack(parts: Vec<cvxrust::expr::Expr>) -> (e: cvxrust::expr::Expr)
    ensures
        e == hstack_of(parts@),
{
    cvxrust::atoms::hstack(parts)
}

/// What `cvxrust::atoms::norm1` returns: the 1-norm of `x`.
pub uninterp spec fn norm1_of(x: cvxrust::expr::Expr) -> cvxrust::expr::Expr;

/// `cvxrust::atoms::norm1`.
#[verifier::external_body]
pub(crate) fn atom_norm1(x: &cvxrust::expr::Expr) -> (e: cvxrust::expr::Expr)
    ensures
        e == norm1_of(*x),
{
    cvxrust::atoms::norm1(x)
}

/// What `cvxrust::atoms::norm2` returns: the 2-norm of `x`.
pub uninterp spec fn norm2_of(x: cvxrust::expr::Expr) -> cvxrust::expr::Expr;

/// `cvxrust::atoms::norm2`.
#[verifier::external_body]
pub(crate) fn atom_norm2(x: &cvxrust::expr::Expr) -> (e: cvxrust::expr::Expr)
    ensures
        e == norm2_of(*x),
{
    cvxrust::atoms::norm2(x)
}

/// What `cvxrust::atoms::norm_inf` returns: the infinity norm of `x`.
pub uninterp spec fn norm_inf_of(x: cvxrust::expr::Expr) -> cvxrust::expr::Expr;

/// `cvxrust::atoms::norm_inf`.
#[verifier::external_body]
pub(crate) fn atom_norm_inf(x: &cvxrust::expr::Expr) -> (e: cvxrust::expr::Expr)
    ensures
        e == norm_inf_of(*x),
{
    cvxrust::atoms::norm_inf(x)
}

/// What `cvxrust::atoms::abs` returns: the absolute value of `x`.
pub uninterp spec fn abs_of(x: cvxrust::expr::Expr) -> cvxrust::expr::Expr;

/// `cvxrust::atoms::abs`.
#[verifier::external_body]
pub(crate) fn atom_abs(x: &cvxrust::expr::Expr) -> (e: cvxrust::expr::Expr)
    ensures
        e == abs_of(*x),
{
    cvxrust::atoms::abs(x)
}

/// What `cvxrust::atoms::pos` returns: the positive part of `x`.
pub uninterp spec fn pos_of(x: cvxrust::expr::Expr) -> cvxrust::expr::Expr;

/// `cvxrust::atoms::pos`.
#[verifier::external_body]
pub(crate) fn atom_pos(x: &cvxrust::expr::Expr) -> (e: cvxrust::expr::Expr)
    ensures
        e == pos_of(*x),
{
    cvxrust::atoms::pos(x)
}

/// What `cvxrust::atoms::neg_part` returns: the negative part of `x`.
pub uninterp spec fn neg_part_of(x: cvxrust::expr::Expr) -> cvxrust::expr::Expr;

/// `cvxrust::atoms::neg_part`.
#[verifier::external_body]
pub(crate) fn atom_neg_part(x: &cvxrust::expr::Expr) -> (e: cvxrust::expr::Expr)
    ensures
        e == neg_part_of(*x),
{
    cvxrust::atoms::neg_part(x)
}

/// What `cvxrust::atoms::max2` returns: the maximum of `a` and `b`.
pub uninterp spec fn max2_of(a: cvxrust::expr::Expr, b: cvxrust::expr::Expr) -> cvxrust::expr::Expr;

/// `cvxrust::atoms::max2`.
#[verifier::external_body]
pub(crate) fn atom_max2(a: &cvxrust::expr::Expr, b: &cvxrust::expr::Expr) -> (e:
    cvxrust::expr::Expr)
    ensures
        e == max2_of(*a, *b),
{
    cvxrust::atoms::max2(a, b)
}

/// What `cvxrust::atoms::min2` returns: the minimum of `a` and `b`.
pub uninterp spec fn min2_of(a: cvxrust::expr::Expr, b: cvxrust::expr::Expr) -> cvxrust::expr::Expr;

/// `cvxrust::atoms::min2`.
#[verifier::external_body]
pub(crate) fn atom_min2(a: &cvxrust::expr::Expr, b: &cvxrust::expr::Expr) -> (e:
    cvxrust::expr::Expr)
    ensures
        e == min2_of(*a, *b),
{
    cvxrust::atoms::min2(a, b)
}

/// What `cvxrust::atoms::sum_squares` returns: the sum of squares of `x`.
pub uninterp spec fn sum_squares_of(x: cvxrust::expr::Expr) -> cvxrust::expr::Expr;

/// `cvxrust::atoms::sum_squares`.
#[verifier::external_body]
pub(crate) fn atom_sum_squares(x: &cvxrust::expr::Expr) -> (e: cvxrust::expr::Expr)
    ensures
        e == sum_squares_of(*x),
{
    cvxrust::atoms::sum_squares(x)
}

/// What `cvxrust::atoms::quad_form` returns: the quadratic form of `x` in
/// the matrix `p`.
pub uninterp spec fn quad_form_of(
    x: cvxrust::expr::Expr,
    p: cvxrust::expr::Expr,
) -> cvxrust::expr::Expr;

/// `cvxrust::atoms::quad_form`.
#[verifier::external_body]
pub(crate) fn atom_quad_form(x: &cvxrust::expr::Expr, p: &cvxrust::expr::Expr) -> (e:
    cvxrust::expr::Expr)
    ensures
        e == quad_form_of(*x, *p),
{
    cvxrust::atoms::quad_form(x, p)
}

/// What `cvxrust::atoms::exp` returns: the exponential of `x`.
pub uninterp spec fn exp_of(x: cvxrust::expr::Expr) -> cvxrust::expr::Expr;

/// `cvxrust::atoms::exp`.
#[verifier::external_body]
pub(crate) fn atom_exp(x: &cvxrust::expr::Expr) -> (e: cvxrust::expr::Expr)
    ensures
        e == exp_of(*x),
{
    cvxrust::atoms::exp(x)
}

/// What `cvxrust::atoms::log` returns: the logarithm of `x`.
pub uninterp spec fn log_of(x: cvxrust::expr::Expr) -> cvxrust::expr::Expr;

/// `cvxrust::atoms::log`.
#[verifier::external_body]
pub(crate) fn atom_log(x: &cvxrust::expr::Expr) -> (e: cvxrust::expr::Expr)
    ensures
        e == log_of(*x),
{
    cvxrust::atoms::log(x)
}

/// What `cvxrust::atoms::entropy` returns: the entropy of `x`.
pub uninterp spec fn entropy_of(x: cvxrust::expr::Expr) -> cvxrust::expr::Expr;

/// `cvxrust::atoms::entropy`.
#[verifier::external_body]
pub(crate) fn atom_entropy(x: &cvxrust::expr::Expr) -> (e: cvxrust::expr::Expr)
    ensures
        e == entropy_of(*x),
{
    cvxrust::atoms::entropy(x)
}

/// What `cvxrust::atoms::sqrt` returns: the power atom of `x` at the
/// exponent one half.
pub uninterp spec fn sqrt_of(x: cvxrust::expr::Expr) -> cvxrust::expr::Expr;

/// `cvxrust::atoms::sqrt`, which is the power atom at the exponent one
/// half.
#[verifier::external_body]
pub(crate) fn atom_sqrt(x: &cvxrust::expr::Expr) -> (e: cvxrust::expr::Expr)
    ensures
        e == sqrt_of(*x),
{
    cvxrust::atoms::sqrt(x)
}

} // verus!
