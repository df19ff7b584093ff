use expr_eval::eval;
use expr_eval::eval_arith_expr;
use expr_eval::eval_bool_expr;
use expr_eval::ArithCmpOp;
use expr_eval::ArithExpr;
use expr_eval::BinArithOp;
use expr_eval::BinLogicOp;
use expr_eval::BoolExpr;
use expr_eval::EvalError;
use expr_eval::Expr;
use expr_eval::Value;

fn lit(n: i64) -> ArithExpr {
    ArithExpr::IntLit(n)
}

fn bin(left: ArithExpr, right: ArithExpr, op: BinArithOp) -> ArithExpr {
    ArithExpr::BinArithExpr { left: Box::new(left), right: Box::new(right), op }
}

fn cmp(left: ArithExpr, right: ArithExpr, op: ArithCmpOp) -> BoolExpr {
    BoolExpr::ArithCmpExpr { left: Box::new(left), right: Box::new(right), op }
}

fn logic(left: BoolExpr, right: BoolExpr, op: BinLogicOp) -> BoolExpr {
    BoolExpr::BinBoolExpr { left: Box::new(left), right: Box::new(right), op }
}

/// An arithmetic subtree whose evaluation fails: 1 / 0.
fn one_div_zero() -> ArithExpr {
    bin(lit(1), lit(0), BinArithOp::IntDivOp)
}

#[test]
fn test_div_by_zero() {
    let expr = Expr::ArithExpr(one_div_zero());
    assert_eq!(eval(expr), Err(EvalError::DivisionByZero));
}

#[test]
fn test_div_by_zero_any_left_operand() {
    for left in [i64::MIN, -5, 0, 7, i64::MAX] {
        let expr = Expr::ArithExpr(bin(lit(left), lit(0), BinArithOp::IntDivOp));
        assert_eq!(eval(expr), Err(EvalError::DivisionByZero));
    }
}

#[test]
fn test_div_by_zero_nested() {
    // The failure aborts the whole evaluation, from any depth.
    let expr = Expr::ArithExpr(bin(lit(3), one_div_zero(), BinArithOp::AddOp));
    assert_eq!(eval(expr), Err(EvalError::DivisionByZero));
}

#[test]
fn test_div_by_zero_through_eval_arith_expr() {
    assert_eq!(eval_arith_expr(one_div_zero()), Err(EvalError::DivisionByZero));
}

#[test]
fn test_and_does_not_short_circuit() {
    // A short-circuiting And would return false without touching the right
    // operand; the failure in it must surface instead.
    let failing = cmp(one_div_zero(), lit(0), ArithCmpOp::LtOp);
    let expr = Expr::BoolExpr(logic(BoolExpr::BoolLit(false), failing, BinLogicOp::AndOp));
    assert_eq!(eval(expr), Err(EvalError::DivisionByZero));
}

#[test]
fn test_or_does_not_short_circuit() {
    // A short-circuiting Or would return true without touching the right
    // operand; the failure in it must surface instead.
    let failing = cmp(one_div_zero(), lit(0), ArithCmpOp::LtOp);
    let expr = Expr::BoolExpr(logic(BoolExpr::BoolLit(true), failing, BinLogicOp::OrOp));
    assert_eq!(eval(expr), Err(EvalError::DivisionByZero));
}

#[test]
fn test_failure_propagates_through_not() {
    let failing = cmp(lit(1), one_div_zero(), ArithCmpOp::GtOp);
    let expr = Expr::BoolExpr(BoolExpr::NotExpr(Box::new(failing)));
    assert_eq!(eval(expr), Err(EvalError::DivisionByZero));
}

#[test]
fn test_evaluating_equal_trees_twice_gives_equal_results() {
    let build = || {
        Expr::BoolExpr(cmp(
            bin(lit(24), lit(8), BinArithOp::AddOp),
            bin(lit(64), lit(2), BinArithOp::IntDivOp),
            ArithCmpOp::ArithEqOp,
        ))
    };
    let first = eval(build());
    let second = eval(build());
    assert_eq!(first, Ok(Value::BoolValue(true)));
    assert_eq!(first, second);
}

#[test]
fn test_deep_left_add_chain() {
    // A left-deep chain of a few thousand Add nodes still evaluates to the
    // exact sum.
    let n: i64 = 3000;
    let mut expr = lit(1);
    for _ in 1..n {
        expr = bin(expr, lit(1), BinArithOp::AddOp);
    }
    assert_eq!(eval(Expr::ArithExpr(expr)), Ok(Value::IntValue(n)));
}

#[test]
fn test_add_wraps_around() {
    let expr = bin(lit(i64::MAX), lit(1), BinArithOp::AddOp);
    assert_eq!(eval_arith_expr(expr), Ok(i64::MIN));
}

#[test]
fn test_sub_wraps_around() {
    let expr = bin(lit(i64::MIN), lit(1), BinArithOp::SubOp);
    assert_eq!(eval_arith_expr(expr), Ok(i64::MAX));
}

#[test]
fn test_mul_wraps_around() {
    let expr = bin(lit(i64::MAX), lit(2), BinArithOp::MulOp);
    assert_eq!(eval_arith_expr(expr), Ok(-2));
}

#[test]
fn test_div_min_by_minus_one_wraps() {
    let expr = bin(lit(i64::MIN), lit(-1), BinArithOp::IntDivOp);
    assert_eq!(eval_arith_expr(expr), Ok(i64::MIN));
}

#[test]
fn test_div_truncates_toward_zero() {
    assert_eq!(eval_arith_expr(bin(lit(-7), lit(2), BinArithOp::IntDivOp)), Ok(-3));
    assert_eq!(eval_arith_expr(bin(lit(7), lit(-2), BinArithOp::IntDivOp)), Ok(-3));
    assert_eq!(eval_arith_expr(bin(lit(-7), lit(-2), BinArithOp::IntDivOp)), Ok(3));
    assert_eq!(eval_arith_expr(bin(lit(7), lit(2), BinArithOp::IntDivOp)), Ok(3));
}

#[test]
fn test_comparisons_false_cases() {
    assert_eq!(eval_bool_expr(cmp(lit(64), lit(32), ArithCmpOp::LtOp)), Ok(false));
    assert_eq!(eval_bool_expr(cmp(lit(64), lit(32), ArithCmpOp::LteOp)), Ok(false));
    assert_eq!(eval_bool_expr(cmp(lit(32), lit(64), ArithCmpOp::GtOp)), Ok(false));
    assert_eq!(eval_bool_expr(cmp(lit(32), lit(64), ArithCmpOp::GteOp)), Ok(false));
    assert_eq!(eval_bool_expr(cmp(lit(32), lit(64), ArithCmpOp::ArithEqOp)), Ok(false));
    assert_eq!(eval_bool_expr(cmp(lit(32), lit(32), ArithCmpOp::ArithNeqOp)), Ok(false));
}

#[test]
fn test_comparisons_are_signed() {
    assert_eq!(eval_bool_expr(cmp(lit(-1), lit(0), ArithCmpOp::LtOp)), Ok(true));
    assert_eq!(eval_bool_expr(cmp(lit(i64::MIN), lit(i64::MAX), ArithCmpOp::LtOp)), Ok(true));
}

#[test]
fn test_connectives_false_cases() {
    let t = || BoolExpr::BoolLit(true);
    let f = || BoolExpr::BoolLit(false);
    assert_eq!(eval_bool_expr(logic(t(), f(), BinLogicOp::AndOp)), Ok(false));
    assert_eq!(eval_bool_expr(logic(f(), f(), BinLogicOp::OrOp)), Ok(false));
    assert_eq!(eval_bool_expr(logic(t(), f(), BinLogicOp::BoolEqOp)), Ok(false));
    assert_eq!(eval_bool_expr(logic(t(), t(), BinLogicOp::BoolNeqOp)), Ok(false));
}

#[test]
fn test_not_true_is_false() {
    let expr = BoolExpr::NotExpr(Box::new(BoolExpr::BoolLit(true)));
    assert_eq!(eval_bool_expr(expr), Ok(false));
}

#[test]
fn test_mixed_sorts_nested() {
    // (24 + 8) == (64 / 2), both sides computed before comparing.
    let expr = Expr::BoolExpr(cmp(
        bin(lit(24), lit(8), BinArithOp::AddOp),
        bin(lit(64), lit(2), BinArithOp::IntDivOp),
        ArithCmpOp::ArithEqOp,
    ));
    assert_eq!(eval(expr), Ok(Value::BoolValue(true)));
}

#[test]
fn test_literal_round_trip() {
    for n in [i64::MIN, -1, 0, 1, i64::MAX] {
        assert_eq!(eval(Expr::ArithExpr(lit(n))), Ok(Value::IntValue(n)));
    }
    for b in [false, true] {
        assert_eq!(eval(Expr::BoolExpr(BoolExpr::BoolLit(b))), Ok(Value::BoolValue(b)));
    }
}
