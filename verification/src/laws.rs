//! Laws of the semantics, each proved of every tree or operand it speaks of.
//! The evaluator returns exactly the outcome of its tree, so what is proved
//! here of outcomes holds of every result it returns.

use vstd::prelude::*;
use crate::ast::{ArithExpr, BinArithOp, BinLogicOp, BoolExpr, EvalError, Expr, Value};
use crate::semantics::{fits_i64, trunc_div};

verus! {

/// A binary arithmetic node over two literals.
pub open spec fn arith_of_literals(a: i64, b: i64, op: BinArithOp) -> ArithExpr {
    ArithExpr::BinArithExpr {
        left: Box::new(ArithExpr::IntLit(a)),
        right: Box::new(ArithExpr::IntLit(b)),
        op,
    }
}

/// A binary logic node over two literals.
pub open spec fn logic_of_literals(l: bool, r: bool, op: BinLogicOp) -> BoolExpr {
    BoolExpr::BinBoolExpr {
        left: Box::new(BoolExpr::BoolLit(l)),
        right: Box::new(BoolExpr::BoolLit(r)),
        op,
    }
}

/// An integer literal evaluates to itself, tagged as an integer.
pub proof fn lemma_int_literal(n: i64)
    ensures
        ArithExpr::IntLit(n).outcome() == Ok::<i64, EvalError>(n),
        Expr::ArithExpr(ArithExpr::IntLit(n)).outcome() == Ok::<Value, EvalError>(
            Value::IntValue(n),
        ),
{
}

/// A boolean literal evaluates to itself, tagged as a boolean.
pub proof fn lemma_bool_literal(b: bool)
    ensures
        BoolExpr::BoolLit(b).outcome() == Ok::<bool, EvalError>(b),
        Expr::BoolExpr(BoolExpr::BoolLit(b)).outcome() == Ok::<Value, EvalError>(
            Value::BoolValue(b),
        ),
{
}

/// Truncating division rounds toward zero: the remainder it leaves is
/// smaller in magnitude than the divisor and never has the sign opposite
/// to the dividend's.
pub proof fn lemma_trunc_div_rounds_toward_zero(a: int, b: int)
    requires
        b != 0,
    ensures
        ({
            let rem = a - trunc_div(a, b) * b;
            &&& -vstd::math::abs(b) < rem < vstd::math::abs(b)
            &&& a >= 0 ==> rem >= 0
            &&& a <= 0 ==> rem <= 0
        }),
{
    let ma: int = if a < 0 { -a } else { a };
    let mb: int = if b < 0 { -b } else { b };
    vstd::arithmetic::div_mod::lemma_fundamental_div_mod(ma, mb);
    vstd::arithmetic::div_mod::lemma_mod_bound(ma, mb);
    let q = ma / mb;
    let r = ma % mb;
    assert(ma == mb * q + r);
    assert(trunc_div(a, b) == if (a < 0) == (b < 0) { q } else { -q });
    assert(a - trunc_div(a, b) * b == if a < 0 { -r } else { r }) by (nonlinear_arith)
        requires
            ma == mb * q + r,
            ma == if a < 0 { -a } else { a },
            mb == if b < 0 { -b } else { b },
            trunc_div(a, b) == if (a < 0) == (b < 0) { q } else { -q },
    ;
}

/// On two literals each arithmetic operator gives the exact integer result
/// where it fits in 64 bits and fails with an overflow where it does not;
/// a division by zero fails as such, whatever the dividend.
pub proof fn lemma_arith_on_literals(a: i64, b: i64)
    ensures
        arith_of_literals(a, b, BinArithOp::AddOp).outcome() == if fits_i64(a + b) {
            Ok::<i64, EvalError>((a + b) as i64)
        } else {
            Err(EvalError::ArithmeticOverflow)
        },
        arith_of_literals(a, b, BinArithOp::SubOp).outcome() == if fits_i64(a - b) {
            Ok::<i64, EvalError>((a - b) as i64)
        } else {
            Err(EvalError::ArithmeticOverflow)
        },
        arith_of_literals(a, b, BinArithOp::MulOp).outcome() == if fits_i64(a * b) {
            Ok::<i64, EvalError>((a * b) as i64)
        } else {
            Err(EvalError::ArithmeticOverflow)
        },
        arith_of_literals(a, b, BinArithOp::IntDivOp).outcome() == if b == 0 {
            Err::<i64, EvalError>(EvalError::DivisionByZero)
        } else if a == i64::MIN && b == -1 {
            Err(EvalError::ArithmeticOverflow)
        } else {
            Ok(trunc_div(a as int, b as int) as i64)
        },
{
    reveal_with_fuel(ArithExpr::outcome, 2);
    if b != 0 {
        lemma_trunc_div_magnitude(a as int, b as int);
    }
}

/// The quotient of a truncating division is no larger in magnitude than
/// the dividend, and smaller unless the dividend is zero or the divisor is
/// one or minus one.
pub proof fn lemma_trunc_div_magnitude(a: int, b: int)
    requires
        b != 0,
    ensures
        vstd::math::abs(trunc_div(a, b)) <= vstd::math::abs(a),
        a != 0 && b != 1 && b != -1 ==> vstd::math::abs(trunc_div(a, b)) < vstd::math::abs(a),
{
    let ma: int = if a < 0 { -a } else { a };
    let mb: int = if b < 0 { -b } else { b };
    vstd::arithmetic::div_mod::lemma_div_nonincreasing(ma, mb);
    vstd::arithmetic::div_mod::lemma_div_pos_is_pos(ma, mb);
    if ma > 0 && mb > 1 {
        vstd::arithmetic::div_mod::lemma_div_decreases(ma, mb);
    }
}

/// A division whose right operand evaluates to zero fails for every left
/// operand: with the failure of the left operand where that one fails
/// itself, and with a division by zero otherwise.
pub proof fn lemma_division_by_zero(left: ArithExpr, right: ArithExpr)
    requires
        right.outcome() == Ok::<i64, EvalError>(0),
    ensures
        (ArithExpr::BinArithExpr {
            left: Box::new(left),
            right: Box::new(right),
            op: BinArithOp::IntDivOp,
        }).outcome() == match left.outcome() {
            Ok(_) => Err::<i64, EvalError>(EvalError::DivisionByZero),
            Err(e) => Err(e),
        },
{
}

/// The truth tables of the four logical operators, over both values of
/// each operand.
pub proof fn lemma_logic_truth_tables(l: bool, r: bool)
    ensures
        logic_of_literals(l, r, BinLogicOp::AndOp).outcome() == Ok::<bool, EvalError>(l && r),
        logic_of_literals(l, r, BinLogicOp::OrOp).outcome() == Ok::<bool, EvalError>(l || r),
        logic_of_literals(l, r, BinLogicOp::BoolEqOp).outcome() == Ok::<bool, EvalError>(l == r),
        logic_of_literals(l, r, BinLogicOp::BoolNeqOp).outcome() == Ok::<bool, EvalError>(l != r),
{
    reveal_with_fuel(BoolExpr::outcome, 2);
}

/// A negation gives the opposite of what its operand gives, and fails
/// exactly as its operand fails.
pub proof fn lemma_not_inverts(operand: BoolExpr)
    ensures
        BoolExpr::NotExpr(Box::new(operand)).outcome() == match operand.outcome() {
            Ok(b) => Ok::<bool, EvalError>(!b),
            Err(e) => Err(e),
        },
{
}

/// A boolean node adds no failure of its own: it succeeds exactly where
/// all its operands do.
pub proof fn lemma_boolean_nodes_never_fail(e: BoolExpr)
    ensures
        e.outcome() is Ok <==> match e {
            BoolExpr::BoolLit(_) => true,
            BoolExpr::NotExpr(operand) => operand.outcome() is Ok,
            BoolExpr::BinBoolExpr { left, right, .. } => left.outcome() is Ok
                && right.outcome() is Ok,
            BoolExpr::ArithCmpExpr { left, right, .. } => left.outcome() is Ok
                && right.outcome() is Ok,
        },
{
}

/// An arithmetic tree has a value exactly where it is defined, and the
/// value is then the exact one: no result is ever a wrapped or otherwise
/// altered integer.
pub proof fn lemma_arith_outcome_is_exact(e: ArithExpr)
    ensures
        e.outcome() is Ok <==> e.defined(),
        e.defined() ==> fits_i64(e.exact_value()) && e.outcome() == Ok::<i64, EvalError>(
            e.exact_value() as i64,
        ),
    decreases e,
{
    match e {
        ArithExpr::IntLit(_) => {},
        ArithExpr::BinArithExpr { left, right, op } => {
            lemma_arith_outcome_is_exact(*left);
            lemma_arith_outcome_is_exact(*right);
        },
    }
}

/// A boolean tree has a value exactly where it is defined, and the value
/// is then its truth value over the exact integers.
pub proof fn lemma_bool_outcome_is_exact(e: BoolExpr)
    ensures
        e.outcome() is Ok <==> e.defined(),
        e.defined() ==> e.outcome() == Ok::<bool, EvalError>(e.truth()),
    decreases e,
{
    match e {
        BoolExpr::BoolLit(_) => {},
        BoolExpr::NotExpr(operand) => {
            lemma_bool_outcome_is_exact(*operand);
        },
        BoolExpr::BinBoolExpr { left, right, .. } => {
            lemma_bool_outcome_is_exact(*left);
            lemma_bool_outcome_is_exact(*right);
        },
        BoolExpr::ArithCmpExpr { left, right, .. } => {
            lemma_arith_outcome_is_exact(*left);
            lemma_arith_outcome_is_exact(*right);
        },
    }
}

/// The outcome depends on the tree alone: equal trees have equal outcomes,
/// so evaluating a tree again gives the same result.
pub proof fn lemma_same_tree_same_outcome(first: Expr, second: Expr)
    requires
        first == second,
    ensures
        first.outcome() == second.outcome(),
{
}

} // verus!
