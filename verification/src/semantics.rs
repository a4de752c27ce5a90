//! What a tree means: the value it stands for, or the failure that stops
//! its evaluation, as mathematical functions of the tree.
//!
//! `outcome` is what the evaluator returns. Operands are taken from left to
//! right and the first failure met is the outcome of the whole tree. No
//! operator skips an operand: `false && e` fails where `e` fails. An
//! operator whose exact result leaves the 64-bit range fails with
//! [`EvalError::ArithmeticOverflow`]; nothing wraps.
//!
//! `exact_value` and `truth` read the same tree over the unbounded
//! integers, and `defined` says where that reading can be carried out in
//! 64 bits. The laws tie the two together: a tree has a value exactly where
//! it is defined, and the value is then the exact one.

use vstd::prelude::*;
use crate::ast::{ArithCmpOp, ArithExpr, BinArithOp, BinLogicOp, BoolExpr, EvalError, Expr, Value};

verus! {

/// The quotient of `a` by `b` rounded toward zero: the quotient of the two
/// magnitudes, negated where the signs differ.
pub open spec fn trunc_div(a: int, b: int) -> int
    recommends
        b != 0,
{
    if a >= 0 && b > 0 {
        a / b
    } else if a < 0 && b < 0 {
        (-a) / (-b)
    } else if a < 0 {
        -((-a) / b)
    } else {
        -(a / (-b))
    }
}

/// Whether `v` can be held in an `i64`.
pub open spec fn fits_i64(v: int) -> bool {
    i64::MIN <= v <= i64::MAX
}

impl BinArithOp {
    /// The exact result of the operator over the integers.
    pub open spec fn exact(self, l: int, r: int) -> int
        recommends
            self is IntDivOp ==> r != 0,
    {
        match self {
            BinArithOp::AddOp => l + r,
            BinArithOp::SubOp => l - r,
            BinArithOp::MulOp => l * r,
            BinArithOp::IntDivOp => trunc_div(l, r),
        }
    }

    /// The operator on two 64-bit operands: a division by zero fails, an
    /// exact result outside the 64-bit range fails, anything else is the
    /// exact result.
    pub open spec fn apply(self, l: i64, r: i64) -> Result<i64, EvalError> {
        if self is IntDivOp && r == 0 {
            Err(EvalError::DivisionByZero)
        } else if fits_i64(self.exact(l as int, r as int)) {
            Ok(self.exact(l as int, r as int) as i64)
        } else {
            Err(EvalError::ArithmeticOverflow)
        }
    }
}

impl ArithCmpOp {
    /// Whether the comparison holds of `l` and `r`.
    pub open spec fn holds(self, l: int, r: int) -> bool {
        match self {
            ArithCmpOp::LtOp => l < r,
            ArithCmpOp::LteOp => l <= r,
            ArithCmpOp::GtOp => l > r,
            ArithCmpOp::GteOp => l >= r,
            ArithCmpOp::ArithEqOp => l == r,
            ArithCmpOp::ArithNeqOp => l != r,
        }
    }
}

impl BinLogicOp {
    /// The truth table of the operator.
    pub open spec fn apply(self, l: bool, r: bool) -> bool {
        match self {
            BinLogicOp::AndOp => l && r,
            BinLogicOp::OrOp => l || r,
            BinLogicOp::BoolEqOp => l == r,
            BinLogicOp::BoolNeqOp => l != r,
        }
    }
}

impl ArithExpr {
    /// The integer that the tree stands for, or the first failure among its
    /// operators, operands taken before their operator and left before
    /// right.
    pub open spec fn outcome(self) -> Result<i64, EvalError>
        decreases self,
    {
        match self {
            ArithExpr::IntLit(n) => Ok(n),
            ArithExpr::BinArithExpr { left, right, op } => match left.outcome() {
                Err(e) => Err(e),
                Ok(l) => match right.outcome() {
                    Err(e) => Err(e),
                    Ok(r) => op.apply(l, r),
                },
            },
        }
    }

    /// The value of the tree over the unbounded integers, every operator
    /// taken exactly. Where a divisor is zero the value is left open.
    pub open spec fn exact_value(self) -> int
        decreases self,
    {
        match self {
            ArithExpr::IntLit(n) => n as int,
            ArithExpr::BinArithExpr { left, right, op } => op.exact(
                left.exact_value(),
                right.exact_value(),
            ),
        }
    }

    /// Whether the tree can be evaluated in 64 bits: no divisor in it is
    /// zero and the exact value of every subtree fits.
    pub open spec fn defined(self) -> bool
        decreases self,
    {
        match self {
            ArithExpr::IntLit(_) => true,
            ArithExpr::BinArithExpr { left, right, op } => {
                &&& left.defined()
                &&& right.defined()
                &&& op is IntDivOp ==> right.exact_value() != 0
                &&& fits_i64(self.exact_value())
            },
        }
    }
}

impl BoolExpr {
    /// The boolean that the tree stands for, or the first failure among the
    /// arithmetic operators under it. A boolean operator never fails by
    /// itself, and none shields an operand from being evaluated.
    pub open spec fn outcome(self) -> Result<bool, EvalError>
        decreases self,
    {
        match self {
            BoolExpr::BoolLit(b) => Ok(b),
            BoolExpr::NotExpr(operand) => match operand.outcome() {
                Err(e) => Err(e),
                Ok(b) => Ok(!b),
            },
            BoolExpr::BinBoolExpr { left, right, op } => match left.outcome() {
                Err(e) => Err(e),
                Ok(l) => match right.outcome() {
                    Err(e) => Err(e),
                    Ok(r) => Ok(op.apply(l, r)),
                },
            },
            BoolExpr::ArithCmpExpr { left, right, op } => match left.outcome() {
                Err(e) => Err(e),
                Ok(l) => match right.outcome() {
                    Err(e) => Err(e),
                    Ok(r) => Ok(op.holds(l as int, r as int)),
                },
            },
        }
    }

    /// The truth value of the tree, its comparisons taken between exact
    /// values.
    pub open spec fn truth(self) -> bool
        decreases self,
    {
        match self {
            BoolExpr::BoolLit(b) => b,
            BoolExpr::NotExpr(operand) => !operand.truth(),
            BoolExpr::BinBoolExpr { left, right, op } => op.apply(left.truth(), right.truth()),
            BoolExpr::ArithCmpExpr { left, right, op } => op.holds(
                left.exact_value(),
                right.exact_value(),
            ),
        }
    }

    /// Whether every arithmetic tree under the comparisons of the tree is
    /// defined.
    pub open spec fn defined(self) -> bool
        decreases self,
    {
        match self {
            BoolExpr::BoolLit(_) => true,
            BoolExpr::NotExpr(operand) => operand.defined(),
            BoolExpr::BinBoolExpr { left, right, .. } => left.defined() && right.defined(),
            BoolExpr::ArithCmpExpr { left, right, .. } => left.defined() && right.defined(),
        }
    }
}

impl Expr {
    /// The outcome of the tree under the tag, tagged with its sort.
    pub open spec fn outcome(self) -> Result<Value, EvalError> {
        match self {
            Expr::ArithExpr(e) => match e.outcome() {
                Err(err) => Err(err),
                Ok(n) => Ok(Value::IntValue(n)),
            },
            Expr::BoolExpr(e) => match e.outcome() {
                Err(err) => Err(err),
                Ok(b) => Ok(Value::BoolValue(b)),
            },
        }
    }

    /// Whether the tree under the tag is defined.
    pub open spec fn defined(self) -> bool {
        match self {
            Expr::ArithExpr(e) => e.defined(),
            Expr::BoolExpr(e) => e.defined(),
        }
    }
}

} // verus!
