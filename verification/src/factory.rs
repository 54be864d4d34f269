//! From an atom's name to an expression that exercises the atom.

use vstd::prelude::*;
use crate::oracle::{
    abs_of, atom_abs, atom_diag, atom_entropy, atom_exp, atom_hstack, atom_log, atom_max2,
    atom_min2, atom_neg_part, atom_norm1, atom_norm2, atom_norm_inf, atom_pos, atom_quad_form,
    atom_reshape, atom_sqrt, atom_sum, atom_sum_squares, atom_trace, atom_transpose, atom_vstack,
    clone_expr, diag_of, entropy_of, exp_of, hstack_of, identity_constant, is_identity_constant,
    is_variable, log_of, matrix_variable, max2_of, min2_of, neg_part_of, norm1_of, norm2_of,
    norm_inf_of, pos_of, quad_form_of, reshape_of, sqrt_of, str_eq, sum_of, sum_squares_of,
    trace_of, transpose_of, vector_variable, vstack_of,
};

verus! {

/// The atoms the factory knows how to exercise.
#[derive(Clone, Copy, Debug, PartialEq, Eq, Structural)]
pub enum AtomKind {
    Sum,
    Reshape,
    Transpose,
    Trace,
    Diag,
    VStack,
    HStack,
    Norm1,
    Norm2,
    NormInf,
    Abs,
    Pos,
    NegPart,
    Maximum,
    SumSquares,
    QuadForm,
    Exp,
    Log,
    Entropy,
    Sqrt,
    Minimum,
    Power,
}

/// The table of recognized names. Several names may select one atom; a
/// name that is not listed selects none.
pub open spec fn atom_kind_of(name: Seq<char>) -> Option<AtomKind> {
    if name == "sum"@ {
        Some(AtomKind::Sum)
    } else if name == "reshape"@ {
        Some(AtomKind::Reshape)
    } else if name == "transpose"@ {
        Some(AtomKind::Transpose)
    } else if name == "trace"@ {
        Some(AtomKind::Trace)
    } else if name == "diag"@ {
        Some(AtomKind::Diag)
    } else if name == "vstack"@ {
        Some(AtomKind::VStack)
    } else if name == "hstack"@ {
        Some(AtomKind::HStack)
    } else if name == "norm1"@ {
        Some(AtomKind::Norm1)
    } else if name == "norm2"@ {
        Some(AtomKind::Norm2)
    } else if name == "normInf"@ {
        Some(AtomKind::NormInf)
    } else if name == "abs"@ {
        Some(AtomKind::Abs)
    } else if name == "pos"@ {
        Some(AtomKind::Pos)
    } else if name == "neg"@ || name == "negPart"@ {
        Some(AtomKind::NegPart)
    } else if name == "maximum"@ {
        Some(AtomKind::Maximum)
    } else if name == "sum_squares"@ || name == "sumSquares"@ {
        Some(AtomKind::SumSquares)
    } else if name == "quad_form"@ || name == "quadForm"@ {
        Some(AtomKind::QuadForm)
    } else if name == "exp"@ {
        Some(AtomKind::Exp)
    } else if name == "log"@ {
        Some(AtomKind::Log)
    } else if name == "entropy"@ {
        Some(AtomKind::Entropy)
    } else if name == "sqrt"@ {
        Some(AtomKind::Sqrt)
    } else if name == "minimum"@ {
        Some(AtomKind::Minimum)
    } else if name == "power"@ {
        Some(AtomKind::Power)
    } else {
        None
    }
}

/// Whether the factory can build an expression for the name.
pub open spec fn recognized(name: Seq<char>) -> bool {
    atom_kind_of(name) is Some
}

/// Looks the name up in the table of recognized names.
pub fn atom_kind(name: &str) -> (kind: Option<AtomKind>)
    ensures
        kind == atom_kind_of(name@),
{
    if str_eq(name, "sum") {
        Some(AtomKind::Sum)
    } else if str_eq(name, "reshape") {
        Some(AtomKind::Reshape)
    } else if str_eq(name, "transpose") {
        Some(AtomKind::Transpose)
    } else if str_eq(name, "trace") {
        Some(AtomKind::Trace)
    } else if str_eq(name, "diag") {
        Some(AtomKind::Diag)
    } else if str_eq(name, "vstack") {
        Some(AtomKind::VStack)
    } else if str_eq(name, "hstack") {
        Some(AtomKind::HStack)
    } else if str_eq(name, "norm1") {
        Some(AtomKind::Norm1)
    } else if str_eq(name, "norm2") {
        Some(AtomKind::Norm2)
    } else if str_eq(name, "normInf") {
        Some(AtomKind::NormInf)
    } else if str_eq(name, "abs") {
        Some(AtomKind::Abs)
    } else if str_eq(name, "pos") {
        Some(AtomKind::Pos)
    } else if str_eq(name, "neg") || str_eq(name, "negPart") {
        Some(AtomKind::NegPart)
    } else if str_eq(name, "maximum") {
        Some(AtomKind::Maximum)
    } else if str_eq(name, "sum_squares") || str_eq(name, "sumSquares") {
        Some(AtomKind::SumSquares)
    } else if str_eq(name, "quad_form") || str_eq(name, "quadForm") {
        Some(AtomKind::QuadForm)
    } else if str_eq(name, "exp") {
        Some(AtomKind::Exp)
    } else if str_eq(name, "log") {
        Some(AtomKind::Log)
    } else if str_eq(name, "entropy") {
        Some(AtomKind::Entropy)
    } else if str_eq(name, "sqrt") {
        Some(AtomKind::Sqrt)
    } else if str_eq(name, "minimum") {
        Some(AtomKind::Minimum)
    } else if str_eq(name, "power") {
        Some(AtomKind::Power)
    } else {
        None
    }
}

/// Whether `expr` is the expression that exercises the atom on the
/// reference input `x`. An atom of one argument is applied to `x`; the
/// reshape goes to one row of five columns; the stacks, the maximum and the
/// minimum take `x` and then a fresh vector variable of five entries; the
/// trace takes a fresh variable of three rows and three columns; the
/// quadratic form takes `x` and the identity matrix of order five; the power
/// atom is exercised at the exponent one half, which is the oracle's square
/// root.
pub open spec fn is_test_expression(
    kind: AtomKind,
    x: cvxrust::expr::Expr,
    expr: cvxrust::expr::Expr,
) -> bool {
    match kind {
        AtomKind::Sum => expr == sum_of(x),
        AtomKind::Reshape => expr == reshape_of(x, 1, 5),
        AtomKind::Transpose => expr == transpose_of(x),
        AtomKind::Trace => exists|m: cvxrust::expr::Expr|
            is_variable(m, seq![3usize, 3usize]) && expr == #[trigger] trace_of(m),
        AtomKind::Diag => expr == diag_of(x),
        AtomKind::VStack => exists|y: cvxrust::expr::Expr|
            is_variable(y, seq![5usize]) && expr == vstack_of(#[trigger] pair_of(x, y)),
        AtomKind::HStack => exists|y: cvxrust::expr::Expr|
            is_variable(y, seq![5usize]) && expr == hstack_of(#[trigger] pair_of(x, y)),
        AtomKind::Norm1 => expr == norm1_of(x),
        AtomKind::Norm2 => expr == norm2_of(x),
        AtomKind::NormInf => expr == norm_inf_of(x),
        AtomKind::Abs => expr == abs_of(x),
        AtomKind::Pos => expr == pos_of(x),
        AtomKind::NegPart => expr == neg_part_of(x),
        AtomKind::Maximum => exists|y: cvxrust::expr::Expr|
            is_variable(y, seq![5usize]) && expr == #[trigger] max2_of(x, y),
        AtomKind::SumSquares => expr == sum_squares_of(x),
        AtomKind::QuadForm => exists|p: cvxrust::expr::Expr|
            is_identity_constant(p, 5) && expr == #[trigger] quad_form_of(x, p),
        AtomKind::Exp => expr == exp_of(x),
        AtomKind::Log => expr == log_of(x),
        AtomKind::Entropy => expr == entropy_of(x),
        AtomKind::Sqrt => expr == sqrt_of(x),
        AtomKind::Minimum => exists|y: cvxrust::expr::Expr|
            is_variable(y, seq![5usize]) && expr == #[trigger] min2_of(x, y),
        AtomKind::Power => expr == sqrt_of(x),
    }
}

/// The two parts of a stack, in their order.
pub open spec fn pair_of(
    first: cvxrust::expr::Expr,
    second: cvxrust::expr::Expr,
) -> Seq<cvxrust::expr::Expr> {
    seq![first, second]
}

/// Whether the atom is exercised on the reference input alone, without a
/// fresh auxiliary input.
pub open spec fn takes_reference_only(kind: AtomKind) -> bool {
    !(kind is Trace || kind is VStack || kind is HStack || kind is Maximum || kind is QuadForm
        || kind is Minimum)
}

fn stack_parts(x: &cvxrust::expr::Expr, y: cvxrust::expr::Expr) -> (parts: Vec<
    cvxrust::expr::Expr,
>)
    ensures
        parts@ == pair_of(*x, y),
{
    let mut parts: Vec<cvxrust::expr::Expr> = Vec::new();
    parts.push(clone_expr(x));
    parts.push(y);
    assert(parts@ =~= pair_of(*x, y));
    parts
}

/// Builds the expression that exercises one atom on the reference input
/// `x`, a vector variable of five entries. Atoms of two arguments get a
/// second fresh variable of the same size, the trace a fresh square matrix
/// variable, the quadratic form the identity matrix. The power atom is
/// exercised at the exponent one half, which is the oracle's square root.
pub fn build_atom(kind: AtomKind, x: &cvxrust::expr::Expr) -> (expr: cvxrust::expr::Expr)
    ensures
        is_test_expression(kind, *x, expr),
{
    match kind {
        AtomKind::Sum => atom_sum(x),
        AtomKind::Reshape => atom_reshape(x, 1, 5),
        AtomKind::Transpose => atom_transpose(x),
        AtomKind::Trace => {
            let m = matrix_variable(3, 3);
            atom_trace(&m)
        },
        AtomKind::Diag => atom_diag(x),
        AtomKind::VStack => {
            let y = vector_variable(5);
            atom_vstack(stack_parts(x, y))
        },
        AtomKind::HStack => {
            let y = vector_variable(5);
            atom_hstack(stack_parts(x, y))
        },
        AtomKind::Norm1 => atom_norm1(x),
        AtomKind::Norm2 => atom_norm2(x),
        AtomKind::NormInf => atom_norm_inf(x),
        AtomKind::Abs => atom_abs(x),
        AtomKind::Pos => atom_pos(x),
        AtomKind::NegPart => atom_neg_part(x),
        AtomKind::Maximum => {
            let y = vector_variable(5);
            atom_max2(x, &y)
        },
        AtomKind::SumSquares => atom_sum_squares(x),
        AtomKind::QuadForm => {
            let p = identity_constant(5);
            atom_quad_form(x, &p)
        },
        AtomKind::Exp => atom_exp(x),
        AtomKind::Log => atom_log(x),
        AtomKind::Entropy => atom_entropy(x),
        AtomKind::Sqrt => atom_sqrt(x),
        AtomKind::Minimum => {
            let y = vector_variable(5);
            atom_min2(x, &y)
        },
        AtomKind::Power => atom_sqrt(x),
    }
}

/// Builds the test expression for the named atom on the reference input,
/// or nothing where the name is not recognized.
pub fn create_test_expr(atom_name: &str, x: &cvxrust::expr::Expr) -> (expr: Option<
    cvxrust::expr::Expr,
>)
    ensures
        expr is Some <==> recognized(atom_name@),
        match atom_kind_of(atom_name@) {
            Some(kind) => expr is Some && is_test_expression(kind, *x, expr->0),
            None => expr is None,
        },
{
    match atom_kind(atom_name) {
        Some(kind) => Some(build_atom(kind, x)),
        None => None,
    }
}

/// An atom that is exercised on the reference input alone has one test
/// expression for each input: two expressions built for it on one input,
/// under whichever of its names, are the same.
pub proof fn lemma_expression_determined(
    kind: AtomKind,
    x: cvxrust::expr::Expr,
    first: cvxrust::expr::Expr,
    second: cvxrust::expr::Expr,
)
    requires
        takes_reference_only(kind),
        is_test_expression(kind, x, first),
        is_test_expression(kind, x, second),
    ensures
        first == second,
{
}

/// Both spellings of the negative part build the negative part of the
/// reference input, and both spellings of the sum of squares its sum of
/// squares.
pub proof fn lemma_alias_expressions(x: cvxrust::expr::Expr, expr: cvxrust::expr::Expr)
    ensures
        is_test_expression(atom_kind_of("neg"@)->0, x, expr) <==> expr == neg_part_of(x),
        is_test_expression(atom_kind_of("negPart"@)->0, x, expr) <==> expr == neg_part_of(x),
        is_test_expression(atom_kind_of("sum_squares"@)->0, x, expr) <==> expr == sum_squares_of(
            x,
        ),
        is_test_expression(atom_kind_of("sumSquares"@)->0, x, expr) <==> expr == sum_squares_of(x),
        atom_kind_of("quad_form"@) == atom_kind_of("quadForm"@),
{
    lemma_atom_table();
}

/// The table of recognized names, entry by entry: each listed name selects
/// the atom it stands for, and both spellings of an atom select the same
/// one.
pub proof fn lemma_atom_table()
    ensures
        atom_kind_of("sum"@) == Some(AtomKind::Sum),
        atom_kind_of("reshape"@) == Some(AtomKind::Reshape),
        atom_kind_of("transpose"@) == Some(AtomKind::Transpose),
        atom_kind_of("trace"@) == Some(AtomKind::Trace),
        atom_kind_of("diag"@) == Some(AtomKind::Diag),
        atom_kind_of("vstack"@) == Some(AtomKind::VStack),
        atom_kind_of("hstack"@) == Some(AtomKind::HStack),
        atom_kind_of("norm1"@) == Some(AtomKind::Norm1),
        atom_kind_of("norm2"@) == Some(AtomKind::Norm2),
        atom_kind_of("normInf"@) == Some(AtomKind::NormInf),
        atom_kind_of("abs"@) == Some(AtomKind::Abs),
        atom_kind_of("pos"@) == Some(AtomKind::Pos),
        atom_kind_of("neg"@) == Some(AtomKind::NegPart),
        atom_kind_of("negPart"@) == Some(AtomKind::NegPart),
        atom_kind_of("maximum"@) == Some(AtomKind::Maximum),
        atom_kind_of("sum_squares"@) == Some(AtomKind::SumSquares),
        atom_kind_of("sumSquares"@) == Some(AtomKind::SumSquares),
        atom_kind_of("quad_form"@) == Some(AtomKind::QuadForm),
        atom_kind_of("quadForm"@) == Some(AtomKind::QuadForm),
        atom_kind_of("exp"@) == Some(AtomKind::Exp),
        atom_kind_of("log"@) == Some(AtomKind::Log),
        atom_kind_of("entropy"@) == Some(AtomKind::Entropy),
        atom_kind_of("sqrt"@) == Some(AtomKind::Sqrt),
        atom_kind_of("minimum"@) == Some(AtomKind::Minimum),
        atom_kind_of("power"@) == Some(AtomKind::Power),
{
    reveal_strlit("sum");
    reveal_strlit("reshape");
    reveal_strlit("transpose");
    reveal_strlit("trace");
    reveal_strlit("diag");
    reveal_strlit("vstack");
    reveal_strlit("hstack");
    reveal_strlit("norm1");
    reveal_strlit("norm2");
    reveal_strlit("normInf");
    reveal_strlit("abs");
    reveal_strlit("pos");
    reveal_strlit("neg");
    reveal_strlit("negPart");
    reveal_strlit("maximum");
    reveal_strlit("sum_squares");
    reveal_strlit("sumSquares");
    reveal_strlit("quad_form");
    reveal_strlit("quadForm");
    reveal_strlit("exp");
    reveal_strlit("log");
    reveal_strlit("entropy");
    reveal_strlit("sqrt");
    reveal_strlit("minimum");
    reveal_strlit("power");
    assert("sum"@.len() == 3 && "sum"@[0] == 's');
    assert("reshape"@.len() == 7 && "reshape"@[0] == 'r');
    assert("transpose"@.len() == 9 && "transpose"@[0] == 't');
    assert("trace"@.len() == 5 && "trace"@[0] == 't');
    assert("diag"@.len() == 4 && "diag"@[0] == 'd');
    assert("vstack"@.len() == 6 && "vstack"@[0] == 'v');
    assert("hstack"@.len() == 6 && "hstack"@[0] == 'h');
    assert("norm1"@.len() == 5 && "norm1"@[0] == 'n');
    assert("norm2"@.len() == 5 && "norm2"@[0] == 'n');
    assert("normInf"@.len() == 7 && "normInf"@[0] == 'n');
    assert("abs"@.len() == 3 && "abs"@[0] == 'a');
    assert("pos"@.len() == 3 && "pos"@[0] == 'p');
    assert("neg"@.len() == 3 && "neg"@[0] == 'n');
    assert("negPart"@.len() == 7 && "negPart"@[0] == 'n');
    assert("maximum"@.len() == 7 && "maximum"@[0] == 'm');
    assert("sum_squares"@.len() == 11 && "sum_squares"@[0] == 's');
    assert("sumSquares"@.len() == 10 && "sumSquares"@[0] == 's');
    assert("quad_form"@.len() == 9 && "quad_form"@[0] == 'q');
    assert("quadForm"@.len() == 8 && "quadForm"@[0] == 'q');
    assert("exp"@.len() == 3 && "exp"@[0] == 'e');
    assert("log"@.len() == 3 && "log"@[0] == 'l');
    assert("entropy"@.len() == 7 && "entropy"@[0] == 'e');
    assert("sqrt"@.len() == 4 && "sqrt"@[0] == 's');
    assert("minimum"@.len() == 7 && "minimum"@[0] == 'm');
    assert("power"@.len() == 5 && "power"@[0] == 'p');
    assert("norm1"@[4] != "norm2"@[4]);
    assert("normInf"@[1] != "negPart"@[1]);
    assert("maximum"@[1] != "minimum"@[1]);
}

/// A name is recognized exactly when it is one of the listed names.
pub proof fn lemma_recognized_names(name: Seq<char>)
    ensures
        recognized(name) <==> (name == "sum"@ || name == "reshape"@ || name == "transpose"@ || name
            == "trace"@ || name == "diag"@ || name == "vstack"@ || name == "hstack"@ || name
            == "norm1"@ || name == "norm2"@ || name == "normInf"@ || name == "abs"@ || name
            == "pos"@ || name == "neg"@ || name == "negPart"@ || name == "maximum"@ || name
            == "sum_squares"@ || name == "sumSquares"@ || name == "quad_form"@ || name
            == "quadForm"@ || name == "exp"@ || name == "log"@ || name == "entropy"@ || name
            == "sqrt"@ || name == "minimum"@ || name == "power"@),
{
}

} // verus!
