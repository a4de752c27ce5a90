//! What holds of every tree, tried on samples: literals, operator tables,
//! agreement with the machine's checked arithmetic, repeated evaluation,
//! and trees that are deep or wide.

use expr_eval::ArithCmpOp::{ArithEqOp, ArithNeqOp, GtOp, GteOp, LtOp, LteOp};
use expr_eval::ArithExpr::{BinArithExpr, IntLit};
use expr_eval::BinArithOp::{AddOp, IntDivOp, MulOp, SubOp};
use expr_eval::BinLogicOp::{AndOp, BoolEqOp, BoolNeqOp, OrOp};
use expr_eval::BoolExpr::{ArithCmpExpr, BinBoolExpr, BoolLit, NotExpr};
use expr_eval::EvalError::{ArithmeticOverflow, DivisionByZero};
use expr_eval::Value::{BoolValue, IntValue};
use expr_eval::{eval, eval_arith_expr, eval_bool_expr};
use expr_eval::{ArithCmpOp, ArithExpr, BinArithOp, BinLogicOp, BoolExpr, EvalError, Expr};

const SAMPLES: [i64; 15] = [
    i64::MIN,
    i64::MIN + 1,
    -(1 << 32),
    -1_000_003,
    -7,
    -2,
    -1,
    0,
    1,
    2,
    7,
    1_000_003,
    1 << 32,
    i64::MAX - 1,
    i64::MAX,
];

fn on_literals(a: i64, b: i64, op: BinArithOp) -> ArithExpr {
    BinArithExpr { left: Box::new(IntLit(a)), right: Box::new(IntLit(b)), op }
}

fn compare(a: i64, b: i64, op: ArithCmpOp) -> BoolExpr {
    ArithCmpExpr { left: Box::new(IntLit(a)), right: Box::new(IntLit(b)), op }
}

fn logic(l: bool, r: bool, op: BinLogicOp) -> BoolExpr {
    BinBoolExpr { left: Box::new(BoolLit(l)), right: Box::new(BoolLit(r)), op }
}

fn or_overflow(checked: Option<i64>) -> Result<i64, EvalError> {
    match checked {
        Some(v) => Ok(v),
        None => Err(ArithmeticOverflow),
    }
}

/// `((1 + 1) + 1) + ..`, with `additions` operators, nested to the left.
fn left_chain(additions: u32) -> ArithExpr {
    let mut tree = IntLit(1);
    for _ in 0..additions {
        tree = BinArithExpr { left: Box::new(tree), right: Box::new(IntLit(1)), op: AddOp };
    }
    tree
}

/// `1 + (1 + (1 + ..))`, with `additions` operators, nested to the right.
fn right_chain(additions: u32) -> ArithExpr {
    let mut tree = IntLit(1);
    for _ in 0..additions {
        tree = BinArithExpr { left: Box::new(IntLit(1)), right: Box::new(tree), op: AddOp };
    }
    tree
}

/// A full binary tree of additions with `2^levels` leaves, each of them 1.
fn full_tree(levels: u32) -> ArithExpr {
    if levels == 0 {
        IntLit(1)
    } else {
        BinArithExpr {
            left: Box::new(full_tree(levels - 1)),
            right: Box::new(full_tree(levels - 1)),
            op: AddOp,
        }
    }
}

/// `(7 - 10) * 4 <= 100 / -8`, which is `-12 <= -12`, under a negation.
fn mixed_tree() -> Expr {
    let left = BinArithExpr {
        left: Box::new(on_literals(7, 10, SubOp)),
        right: Box::new(IntLit(4)),
        op: MulOp,
    };
    let right = on_literals(100, -8, IntDivOp);
    let holds = ArithCmpExpr { left: Box::new(left), right: Box::new(right), op: LteOp };
    Expr::BoolExpr(NotExpr(Box::new(holds)))
}

#[test]
fn integer_literal_evaluates_to_itself() {
    for n in SAMPLES {
        assert_eq!(eval(Expr::ArithExpr(IntLit(n))), Ok(IntValue(n)));
        assert_eq!(eval_arith_expr(IntLit(n)), Ok(n));
    }
}

#[test]
fn boolean_literal_evaluates_to_itself() {
    for b in [false, true] {
        assert_eq!(eval(Expr::BoolExpr(BoolLit(b))), Ok(BoolValue(b)));
        assert_eq!(eval_bool_expr(BoolLit(b)), Ok(b));
    }
}

#[test]
fn addition_agrees_with_checked_addition() {
    for a in SAMPLES {
        for b in SAMPLES {
            assert_eq!(eval_arith_expr(on_literals(a, b, AddOp)), or_overflow(a.checked_add(b)));
        }
    }
}

#[test]
fn subtraction_agrees_with_checked_subtraction() {
    for a in SAMPLES {
        for b in SAMPLES {
            assert_eq!(eval_arith_expr(on_literals(a, b, SubOp)), or_overflow(a.checked_sub(b)));
        }
    }
}

#[test]
fn multiplication_agrees_with_checked_multiplication() {
    for a in SAMPLES {
        for b in SAMPLES {
            assert_eq!(eval_arith_expr(on_literals(a, b, MulOp)), or_overflow(a.checked_mul(b)));
        }
    }
}

#[test]
fn division_agrees_with_checked_division() {
    for a in SAMPLES {
        for b in SAMPLES {
            let expected = if b == 0 { Err(DivisionByZero) } else { or_overflow(a.checked_div(b)) };
            assert_eq!(eval_arith_expr(on_literals(a, b, IntDivOp)), expected);
        }
    }
}

#[test]
fn arithmetic_on_small_operands_is_exact() {
    assert_eq!(eval_arith_expr(on_literals(5, 5, AddOp)), Ok(10));
    assert_eq!(eval_arith_expr(on_literals(5, 5, SubOp)), Ok(0));
    assert_eq!(eval_arith_expr(on_literals(5, 5, MulOp)), Ok(25));
    assert_eq!(eval_arith_expr(on_literals(5, 5, IntDivOp)), Ok(1));
    assert_eq!(eval_arith_expr(on_literals(-3, 4, AddOp)), Ok(1));
    assert_eq!(eval_arith_expr(on_literals(-3, 4, SubOp)), Ok(-7));
    assert_eq!(eval_arith_expr(on_literals(-3, 4, MulOp)), Ok(-12));
    assert_eq!(eval_arith_expr(on_literals(-3, 4, IntDivOp)), Ok(0));
}

#[test]
fn comparisons_agree_with_integer_order() {
    for a in SAMPLES {
        for b in SAMPLES {
            assert_eq!(eval_bool_expr(compare(a, b, LtOp)), Ok(a < b));
            assert_eq!(eval_bool_expr(compare(a, b, LteOp)), Ok(a <= b));
            assert_eq!(eval_bool_expr(compare(a, b, GtOp)), Ok(a > b));
            assert_eq!(eval_bool_expr(compare(a, b, GteOp)), Ok(a >= b));
            assert_eq!(eval_bool_expr(compare(a, b, ArithEqOp)), Ok(a == b));
            assert_eq!(eval_bool_expr(compare(a, b, ArithNeqOp)), Ok(a != b));
        }
    }
}

#[test]
fn conjunction_truth_table() {
    assert_eq!(eval_bool_expr(logic(false, false, AndOp)), Ok(false));
    assert_eq!(eval_bool_expr(logic(false, true, AndOp)), Ok(false));
    assert_eq!(eval_bool_expr(logic(true, false, AndOp)), Ok(false));
    assert_eq!(eval_bool_expr(logic(true, true, AndOp)), Ok(true));
}

#[test]
fn disjunction_truth_table() {
    assert_eq!(eval_bool_expr(logic(false, false, OrOp)), Ok(false));
    assert_eq!(eval_bool_expr(logic(false, true, OrOp)), Ok(true));
    assert_eq!(eval_bool_expr(logic(true, false, OrOp)), Ok(true));
    assert_eq!(eval_bool_expr(logic(true, true, OrOp)), Ok(true));
}

#[test]
fn boolean_equality_truth_table() {
    assert_eq!(eval_bool_expr(logic(false, false, BoolEqOp)), Ok(true));
    assert_eq!(eval_bool_expr(logic(false, true, BoolEqOp)), Ok(false));
    assert_eq!(eval_bool_expr(logic(true, false, BoolEqOp)), Ok(false));
    assert_eq!(eval_bool_expr(logic(true, true, BoolEqOp)), Ok(true));
}

#[test]
fn exclusive_or_truth_table() {
    assert_eq!(eval_bool_expr(logic(false, false, BoolNeqOp)), Ok(false));
    assert_eq!(eval_bool_expr(logic(false, true, BoolNeqOp)), Ok(true));
    assert_eq!(eval_bool_expr(logic(true, false, BoolNeqOp)), Ok(true));
    assert_eq!(eval_bool_expr(logic(true, true, BoolNeqOp)), Ok(false));
}

#[test]
fn negation_inverts_its_operand() {
    assert_eq!(eval_bool_expr(NotExpr(Box::new(BoolLit(true)))), Ok(false));
    assert_eq!(eval_bool_expr(NotExpr(Box::new(BoolLit(false)))), Ok(true));
    let twice = NotExpr(Box::new(NotExpr(Box::new(BoolLit(true)))));
    assert_eq!(eval_bool_expr(twice), Ok(true));
    let of_comparison = NotExpr(Box::new(compare(1, 2, LtOp)));
    assert_eq!(eval_bool_expr(of_comparison), Ok(false));
}

#[test]
fn mixed_tree_evaluates_across_sorts() {
    assert_eq!(eval(mixed_tree()), Ok(BoolValue(false)));
}

#[test]
fn evaluating_the_same_tree_again_gives_the_same_result() {
    assert_eq!(mixed_tree(), mixed_tree());
    let first = eval(mixed_tree());
    let second = eval(mixed_tree());
    assert_eq!(first, second);
    for a in SAMPLES {
        for op in [AddOp, SubOp, MulOp, IntDivOp] {
            let first = eval_arith_expr(on_literals(a, 0, op));
            let second = eval_arith_expr(on_literals(a, 0, op));
            assert_eq!(first, second);
        }
    }
}

#[test]
fn deep_left_chain_is_walked_to_its_end() {
    assert_eq!(eval_arith_expr(left_chain(2_000)), Ok(2_001));
}

#[test]
fn deep_right_chain_is_walked_to_its_end() {
    assert_eq!(eval_arith_expr(right_chain(2_000)), Ok(2_001));
}

#[test]
fn every_leaf_of_a_full_tree_is_counted_once() {
    assert_eq!(eval_arith_expr(full_tree(0)), Ok(1));
    assert_eq!(eval_arith_expr(full_tree(1)), Ok(2));
    assert_eq!(eval_arith_expr(full_tree(12)), Ok(4096));
}

#[test]
fn operator_and_operand_types_are_comparable() {
    assert_eq!(AddOp, AddOp);
    assert_ne!(AddOp, SubOp);
    assert_ne!(LtOp, LteOp);
    assert_ne!(AndOp, OrOp);
    assert_ne!(DivisionByZero, ArithmeticOverflow);
    assert_ne!(IntValue(1), BoolValue(true));
    assert_ne!(on_literals(1, 2, AddOp), on_literals(2, 1, AddOp));
}

/// The operator over 128-bit integers, where no result of two 64-bit
/// operands can overflow, cut back to the 64-bit range.
fn wide(op: BinArithOp, l: i64, r: i64) -> Result<i64, EvalError> {
    let (l, r) = (i128::from(l), i128::from(r));
    let exact = match op {
        AddOp => l + r,
        SubOp => l - r,
        MulOp => l * r,
        IntDivOp => {
            if r == 0 {
                return Err(DivisionByZero);
            }
            l / r
        }
    };
    i64::try_from(exact).map_err(|_| ArithmeticOverflow)
}

#[test]
fn nested_arithmetic_agrees_with_wide_arithmetic() {
    for a in SAMPLES {
        for b in SAMPLES {
            for c in SAMPLES {
                for inner in [AddOp, SubOp, MulOp, IntDivOp] {
                    for outer in [AddOp, SubOp, MulOp, IntDivOp] {
                        let tree = BinArithExpr {
                            left: Box::new(on_literals(a, b, inner)),
                            right: Box::new(IntLit(c)),
                            op: outer,
                        };
                        let expected = wide(inner, a, b).and_then(|ab| wide(outer, ab, c));
                        assert_eq!(eval_arith_expr(tree), expected);
                    }
                }
            }
        }
    }
}
