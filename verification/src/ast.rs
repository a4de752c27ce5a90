//! The expression trees, the values they evaluate to, and the ways an
//! evaluation can fail.

use vstd::prelude::*;

verus! {

/// An operator that joins two integers into an integer.
#[derive(Clone, Copy, Debug, PartialEq, Eq, Structural)]
pub enum BinArithOp {
    AddOp,
    SubOp,
    MulOp,
    /// Division that drops the fractional part of the quotient.
    IntDivOp,
}

/// An operator that compares two integers.
#[derive(Clone, Copy, Debug, PartialEq, Eq, Structural)]
pub enum ArithCmpOp {
    LtOp,
    LteOp,
    GtOp,
    GteOp,
    ArithEqOp,
    ArithNeqOp,
}

/// An operator that joins two booleans into a boolean.
#[derive(Clone, Copy, Debug, PartialEq, Eq, Structural)]
pub enum BinLogicOp {
    AndOp,
    OrOp,
    BoolEqOp,
    /// Exclusive or.
    BoolNeqOp,
}

/// A tree that evaluates to a 64-bit signed integer.
#[derive(Debug, PartialEq, Eq)]
pub enum ArithExpr {
    BinArithExpr { left: Box<ArithExpr>, right: Box<ArithExpr>, op: BinArithOp },
    IntLit(i64),
}

/// A tree that evaluates to a boolean. Its comparison nodes hold arithmetic
/// trees; no arithmetic tree holds a boolean one.
#[derive(Debug, PartialEq, Eq)]
#[allow(inconsistent_fields)]
pub enum BoolExpr {
    ArithCmpExpr { left: Box<ArithExpr>, right: Box<ArithExpr>, op: ArithCmpOp },
    BinBoolExpr { left: Box<BoolExpr>, right: Box<BoolExpr>, op: BinLogicOp },
    NotExpr(Box<BoolExpr>),
    BoolLit(bool),
}

/// A tree of either sort.
#[derive(Debug, PartialEq, Eq)]
pub enum Expr {
    ArithExpr(ArithExpr),
    BoolExpr(BoolExpr),
}

/// What a tree evaluates to, tagged with its sort.
#[derive(Clone, Copy, Debug, PartialEq, Eq, Structural)]
pub enum Value {
    BoolValue(bool),
    IntValue(i64),
}

/// Why an evaluation produced no value.
#[derive(Clone, Copy, Debug, PartialEq, Eq, Structural)]
pub enum EvalError {
    /// The right operand of a division evaluated to zero.
    DivisionByZero,
    /// The exact result of an operator does not fit in 64 bits.
    ArithmeticOverflow,
}

impl ArithExpr {
    /// The number of nodes of the tree, leaves included.
    pub open spec fn node_count(self) -> nat
        decreases self,
    {
        match self {
            ArithExpr::IntLit(_) => 1,
            ArithExpr::BinArithExpr { left, right, .. } => 1 + left.node_count()
                + right.node_count(),
        }
    }
}

impl BoolExpr {
    /// The number of nodes of the tree, those of the arithmetic trees under
    /// its comparisons included.
    pub open spec fn node_count(self) -> nat
        decreases self,
    {
        match self {
            BoolExpr::BoolLit(_) => 1,
            BoolExpr::NotExpr(operand) => 1 + operand.node_count(),
            BoolExpr::BinBoolExpr { left, right, .. } => 1 + left.node_count()
                + right.node_count(),
            BoolExpr::ArithCmpExpr { left, right, .. } => 1 + left.node_count()
                + right.node_count(),
        }
    }
}

} // verus!
