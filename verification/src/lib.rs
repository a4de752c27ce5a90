//! A tree-walking evaluator for a two-sorted expression language:
//! arithmetic over 64-bit signed integers, and boolean expressions that may
//! compare arithmetic ones.

pub mod ast;
pub mod semantics;
pub mod eval;
pub mod laws;

pub use ast::{ArithCmpOp, ArithExpr, BinArithOp, BinLogicOp, BoolExpr, EvalError, Expr, Value};
pub use eval::{eval, eval_arith_expr, eval_bool_expr};
