//! The evaluator: a single recursive bottom-up pass over the tree. It holds
//! no state, mutates nothing, and its result is pinned to the spec-level
//! semantics: the value of the tree when the tree is clean, and
//! `DivisionByZero` exactly when some integer division in it has a right
//! operand that evaluates to zero.

use vstd::prelude::*;

use crate::ast::ArithCmpOp;
use crate::ast::ArithExpr;
use crate::ast::BinArithOp;
use crate::ast::BinLogicOp;
use crate::ast::BoolExpr;
use crate::ast::EvalError;
use crate::ast::Expr;
use crate::ast::Value;
use crate::semantics::arith_ok;
use crate::semantics::arith_value;
use crate::semantics::bool_ok;
use crate::semantics::bool_value;
use crate::semantics::expr_ok;
use crate::semantics::expr_value;
use crate::semantics::lemma_trunc_div_in_range;
use crate::semantics::wrap_div;

verus! {

/// Evaluates a full expression to its tagged value, or reports the division
/// by zero that stopped it. The tag of the value follows the sort of the
/// tree, so a caller never needs to infer it.
pub fn eval(expr: Expr) -> (r: Result<Value, EvalError>)
    ensures
        r == (if expr_ok(expr) {
            Ok::<Value, EvalError>(expr_value(expr))
        } else {
            Err::<Value, EvalError>(EvalError::DivisionByZero)
        }),
{
    match expr {
        Expr::ArithExpr(e) => Ok(Value::IntValue(eval_arith_expr(e)?)),
        Expr::BoolExpr(e) => Ok(Value::BoolValue(eval_bool_expr(e)?)),
    }
}

/// Evaluates an arithmetic tree to its 64-bit integer, wrapping on overflow,
/// or reports the division by zero that stopped it. Operands are reduced
/// left before right.
pub fn eval_arith_expr(arith_expr: ArithExpr) -> (r: Result<i64, EvalError>)
    ensures
        r == (if arith_ok(arith_expr) {
            Ok::<i64, EvalError>(arith_value(arith_expr))
        } else {
            Err::<i64, EvalError>(EvalError::DivisionByZero)
        }),
    decreases arith_expr,
{
    match arith_expr {
        ArithExpr::IntLit(num) => Ok(num),
        ArithExpr::BinArithExpr { left, right, op } => {
            let lv = eval_arith_expr(*left)?;
            let rv = eval_arith_expr(*right)?;
            match op {
                BinArithOp::AddOp => Ok(lv.wrapping_add(rv)),
                BinArithOp::SubOp => Ok(lv.wrapping_sub(rv)),
                BinArithOp::MulOp => Ok(lv.wrapping_mul(rv)),
                BinArithOp::IntDivOp => {
                    if rv == 0 {
                        Err(EvalError::DivisionByZero)
                    } else {
                        Ok(div_wrapped(lv, rv))
                    }
                },
            }
        },
    }
}

/// Evaluates a boolean tree to its boolean, or reports the division by zero
/// that stopped it. Both operands of every binary connective are reduced —
/// `And` and `Or` do not short-circuit — so a failure in either operand
/// surfaces even when the other already determines the result.
pub fn eval_bool_expr(bool_expr: BoolExpr) -> (r: Result<bool, EvalError>)
    ensures
        r == (if bool_ok(bool_expr) {
            Ok::<bool, EvalError>(bool_value(bool_expr))
        } else {
            Err::<bool, EvalError>(EvalError::DivisionByZero)
        }),
    decreases bool_expr,
{
    match bool_expr {
        BoolExpr::BoolLit(b) => Ok(b),
        BoolExpr::NotExpr(inner) => Ok(!eval_bool_expr(*inner)?),
        BoolExpr::BinBoolExpr { left, right, op } => {
            let lv = eval_bool_expr(*left)?;
            let rv = eval_bool_expr(*right)?;
            match op {
                BinLogicOp::AndOp => Ok(lv && rv),
                BinLogicOp::OrOp => Ok(lv || rv),
                BinLogicOp::BoolEqOp => Ok(lv == rv),
                BinLogicOp::BoolNeqOp => Ok(lv != rv),
            }
        },
        BoolExpr::ArithCmpExpr { left, right, op } => {
            let lv = eval_arith_expr(*left)?;
            let rv = eval_arith_expr(*right)?;
            match op {
                ArithCmpOp::LtOp => Ok(lv < rv),
                ArithCmpOp::LteOp => Ok(lv <= rv),
                ArithCmpOp::GtOp => Ok(lv > rv),
                ArithCmpOp::GteOp => Ok(lv >= rv),
                ArithCmpOp::ArithEqOp => Ok(lv == rv),
                ArithCmpOp::ArithNeqOp => Ok(lv != rv),
            }
        },
    }
}

/// Truncating 64-bit division of a nonzero divisor, wrapping the one
/// overflowing case, `i64::MIN / -1`, back to `i64::MIN`.
fn div_wrapped(a: i64, b: i64) -> (r: i64)
    requires
        b != 0,
    ensures
        r == wrap_div(a, b),
{
    proof {
        if !(a == i64::MIN && b == -1) {
            lemma_trunc_div_in_range(a, b);
        }
    }
    match a.checked_div(b) {
        Some(q) => q,
        None => i64::MIN,
    }
}

} // verus!
