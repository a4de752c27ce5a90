//! The evaluator: one entry point per sort of tree, each proved to return
//! the tree's outcome.
//!
//! The entry points hand the tree to a walk that enters no node twice and,
//! where it succeeds, every node once. Each walk returns, beside the
//! outcome, a ghost count of the nodes it entered; the count exists only in
//! proofs and costs nothing at run time.

use vstd::prelude::*;
use crate::ast::{ArithCmpOp, ArithExpr, BinArithOp, BinLogicOp, BoolExpr, EvalError, Expr, Value};
use crate::laws::{lemma_arith_outcome_is_exact, lemma_bool_outcome_is_exact};

verus! {

/// Evaluates a tree of either sort.
///
/// Returns the value of the tree, tagged with its sort, or the first
/// failure met among its arithmetic operators.
pub fn eval(expr: Expr) -> (res: Result<Value, EvalError>)
    ensures
        res == expr.outcome(),
        res is Ok <==> expr.defined(),
{
    match expr {
        Expr::ArithExpr(e) => match eval_arith_expr(e) {
            Ok(n) => Ok(Value::IntValue(n)),
            Err(err) => Err(err),
        },
        Expr::BoolExpr(e) => match eval_bool_expr(e) {
            Ok(b) => Ok(Value::BoolValue(b)),
            Err(err) => Err(err),
        },
    }
}

/// Evaluates an arithmetic tree.
///
/// Returns the integer that the tree stands for. Fails with
/// `DivisionByZero` where a divisor evaluates to zero and with
/// `ArithmeticOverflow` where an exact result leaves the 64-bit range; of
/// several failures in one tree the first in evaluation order is returned.
pub fn eval_arith_expr(arith_expr: ArithExpr) -> (res: Result<i64, EvalError>)
    ensures
        res == arith_expr.outcome(),
        res is Ok <==> arith_expr.defined(),
        res matches Ok(v) ==> v == arith_expr.exact_value(),
{
    proof {
        lemma_arith_outcome_is_exact(arith_expr);
    }
    walk_arith(arith_expr).0
}

/// Evaluates a boolean tree.
///
/// Returns the boolean that the tree stands for, or the first failure met
/// in the arithmetic trees under its comparisons. Both operands of a binary
/// operator are evaluated whatever the left one gave.
pub fn eval_bool_expr(bool_expr: BoolExpr) -> (res: Result<bool, EvalError>)
    ensures
        res == bool_expr.outcome(),
        res is Ok <==> bool_expr.defined(),
        res matches Ok(b) ==> b == bool_expr.truth(),
{
    proof {
        lemma_bool_outcome_is_exact(bool_expr);
    }
    walk_bool(bool_expr).0
}

/// Walks an arithmetic tree, operands before operator and left before
/// right, and stops at the first failure.
///
/// The ghost count is the number of nodes entered: one for this node and
/// what the walks of its operands report. It never exceeds the size of the
/// tree, and equals it where the walk succeeds.
fn walk_arith(e: ArithExpr) -> (out: (Result<i64, EvalError>, Ghost<nat>))
    ensures
        out.0 == e.outcome(),
        out.1@ <= e.node_count(),
        out.0 is Ok ==> out.1@ == e.node_count(),
    decreases e,
{
    match e {
        ArithExpr::IntLit(n) => (Ok(n), Ghost(1)),
        ArithExpr::BinArithExpr { left, right, op } => {
            let (l_res, Ghost(l_entered)) = walk_arith(*left);
            let l = match l_res {
                Ok(l) => l,
                Err(err) => return (Err(err), Ghost(1 + l_entered)),
            };
            let (r_res, Ghost(r_entered)) = walk_arith(*right);
            let r = match r_res {
                Ok(r) => r,
                Err(err) => return (Err(err), Ghost(1 + l_entered + r_entered)),
            };
            (apply_arith(op, l, r), Ghost(1 + l_entered + r_entered))
        },
    }
}

/// Walks a boolean tree in the same order, into the arithmetic trees under
/// its comparisons too, and stops at the first failure.
///
/// The ghost count is the number of nodes entered, of both sorts.
fn walk_bool(e: BoolExpr) -> (out: (Result<bool, EvalError>, Ghost<nat>))
    ensures
        out.0 == e.outcome(),
        out.1@ <= e.node_count(),
        out.0 is Ok ==> out.1@ == e.node_count(),
    decreases e,
{
    match e {
        BoolExpr::BoolLit(b) => (Ok(b), Ghost(1)),
        BoolExpr::NotExpr(operand) => {
            let (res, Ghost(entered)) = walk_bool(*operand);
            match res {
                Ok(b) => (Ok(!b), Ghost(1 + entered)),
                Err(err) => (Err(err), Ghost(1 + entered)),
            }
        },
        BoolExpr::BinBoolExpr { left, right, op } => {
            let (l_res, Ghost(l_entered)) = walk_bool(*left);
            let l = match l_res {
                Ok(l) => l,
                Err(err) => return (Err(err), Ghost(1 + l_entered)),
            };
            let (r_res, Ghost(r_entered)) = walk_bool(*right);
            let r = match r_res {
                Ok(r) => r,
                Err(err) => return (Err(err), Ghost(1 + l_entered + r_entered)),
            };
            (Ok(apply_logic(op, l, r)), Ghost(1 + l_entered + r_entered))
        },
        BoolExpr::ArithCmpExpr { left, right, op } => {
            let (l_res, Ghost(l_entered)) = walk_arith(*left);
            let l = match l_res {
                Ok(l) => l,
                Err(err) => return (Err(err), Ghost(1 + l_entered)),
            };
            let (r_res, Ghost(r_entered)) = walk_arith(*right);
            let r = match r_res {
                Ok(r) => r,
                Err(err) => return (Err(err), Ghost(1 + l_entered + r_entered)),
            };
            (Ok(apply_comparison(op, l, r)), Ghost(1 + l_entered + r_entered))
        },
    }
}

/// Applies an arithmetic operator to two evaluated operands, with every
/// result checked against the 64-bit range.
fn apply_arith(op: BinArithOp, l: i64, r: i64) -> (res: Result<i64, EvalError>)
    ensures
        res == op.apply(l, r),
{
    let checked = match op {
        BinArithOp::AddOp => l.checked_add(r),
        BinArithOp::SubOp => l.checked_sub(r),
        BinArithOp::MulOp => l.checked_mul(r),
        BinArithOp::IntDivOp => {
            if r == 0 {
                return Err(EvalError::DivisionByZero);
            }
            l.checked_div(r)
        },
    };
    match checked {
        Some(v) => Ok(v),
        None => Err(EvalError::ArithmeticOverflow),
    }
}

/// Applies a comparison to two evaluated operands.
fn apply_comparison(op: ArithCmpOp, l: i64, r: i64) -> (res: bool)
    ensures
        res == op.holds(l as int, r as int),
{
    match op {
        ArithCmpOp::LtOp => l < r,
        ArithCmpOp::LteOp => l <= r,
        ArithCmpOp::GtOp => l > r,
        ArithCmpOp::GteOp => l >= r,
        ArithCmpOp::ArithEqOp => l == r,
        ArithCmpOp::ArithNeqOp => l != r,
    }
}

/// Applies a logical operator to two evaluated operands.
fn apply_logic(op: BinLogicOp, l: bool, r: bool) -> (res: bool)
    ensures
        res == op.apply(l, r),
{
    match op {
        BinLogicOp::AndOp => l && r,
        BinLogicOp::OrOp => l || r,
        BinLogicOp::BoolEqOp => l == r,
        BinLogicOp::BoolNeqOp => l != r,
    }
}

} // verus!
