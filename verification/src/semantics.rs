//! The mathematical meaning of expression trees: what each operator computes,
//! which trees evaluate cleanly, and what value a clean evaluation yields.
//!
//! The arithmetic policy is two's-complement wraparound throughout: `Add`,
//! `Sub` and `Mul` wrap modulo 2^64, and the one overflowing division,
//! `i64::MIN / -1`, wraps back to `i64::MIN`. Division is truncating (the
//! quotient is rounded toward zero). Division by zero has no value: a tree
//! that reaches one is exactly a tree that is not `ok`.

use vstd::arithmetic::div_mod::lemma_div_basics;
use vstd::arithmetic::div_mod::lemma_div_is_ordered_by_denominator;
use vstd::arithmetic::div_mod::lemma_div_nonincreasing;
use vstd::arithmetic::div_mod::lemma_div_pos_is_pos;
use vstd::prelude::*;

use crate::ast::ArithCmpOp;
use crate::ast::ArithExpr;
use crate::ast::BinArithOp;
use crate::ast::BinLogicOp;
use crate::ast::BoolExpr;
use crate::ast::Expr;
use crate::ast::Value;

verus! {

/// 64-bit signed addition, wrapping modulo 2^64.
pub open spec fn wrap_add(a: i64, b: i64) -> i64 {
    if a + b > i64::MAX {
        (a + b - 0x1_0000_0000_0000_0000) as i64
    } else if a + b < i64::MIN {
        (a + b + 0x1_0000_0000_0000_0000) as i64
    } else {
        (a + b) as i64
    }
}

/// 64-bit signed subtraction, wrapping modulo 2^64.
pub open spec fn wrap_sub(a: i64, b: i64) -> i64 {
    if a - b > i64::MAX {
        (a - b - 0x1_0000_0000_0000_0000) as i64
    } else if a - b < i64::MIN {
        (a - b + 0x1_0000_0000_0000_0000) as i64
    } else {
        (a - b) as i64
    }
}

/// 64-bit signed multiplication, wrapping modulo 2^64.
pub open spec fn wrap_mul(a: i64, b: i64) -> i64 {
    if (a * b) % 0x1_0000_0000_0000_0000 > i64::MAX {
        ((a * b) % 0x1_0000_0000_0000_0000 - 0x1_0000_0000_0000_0000) as i64
    } else {
        ((a * b) % 0x1_0000_0000_0000_0000) as i64
    }
}

/// The quotient of truncating division on unbounded integers: the exact
/// quotient rounded toward zero, as native signed division computes it.
pub open spec fn trunc_div(a: int, b: int) -> int
    recommends
        b != 0,
{
    if a >= 0 && b > 0 {
        a / b
    } else if a <= 0 && b < 0 {
        (a * -1) / (b * -1)
    } else if a < 0 {
        ((a * -1) / b) * -1
    } else {
        (a / (b * -1)) * -1
    }
}

/// 64-bit truncating division. The one overflowing case, `i64::MIN / -1`,
/// wraps back to `i64::MIN`; every other quotient already fits.
pub open spec fn wrap_div(a: i64, b: i64) -> i64
    recommends
        b != 0,
{
    if a == i64::MIN && b == -1 {
        i64::MIN
    } else {
        trunc_div(a as int, b as int) as i64
    }
}

/// What one arithmetic operator computes on two already-evaluated operands.
pub open spec fn apply_arith_op(op: BinArithOp, a: i64, b: i64) -> i64
    recommends
        op is IntDivOp ==> b != 0,
{
    match op {
        BinArithOp::AddOp => wrap_add(a, b),
        BinArithOp::SubOp => wrap_sub(a, b),
        BinArithOp::MulOp => wrap_mul(a, b),
        BinArithOp::IntDivOp => wrap_div(a, b),
    }
}

/// What one comparison operator decides, under standard signed ordering.
pub open spec fn apply_cmp_op(op: ArithCmpOp, a: i64, b: i64) -> bool {
    match op {
        ArithCmpOp::LtOp => a < b,
        ArithCmpOp::LteOp => a <= b,
        ArithCmpOp::GtOp => a > b,
        ArithCmpOp::GteOp => a >= b,
        ArithCmpOp::ArithEqOp => a == b,
        ArithCmpOp::ArithNeqOp => a != b,
    }
}

/// What one boolean connective computes on two already-evaluated operands.
pub open spec fn apply_logic_op(op: BinLogicOp, a: bool, b: bool) -> bool {
    match op {
        BinLogicOp::AndOp => a && b,
        BinLogicOp::OrOp => a || b,
        BinLogicOp::BoolEqOp => a == b,
        BinLogicOp::BoolNeqOp => a != b,
    }
}

/// Whether an arithmetic tree evaluates cleanly: no integer division in it
/// has a right operand that evaluates to zero.
pub open spec fn arith_ok(e: ArithExpr) -> bool
    decreases e,
{
    match e {
        ArithExpr::IntLit(_) => true,
        ArithExpr::BinArithExpr { left, right, op } => arith_ok(*left) && arith_ok(*right) && (op
            is IntDivOp ==> arith_value(*right) != 0),
    }
}

/// The integer an arithmetic tree evaluates to, meaningful when the tree
/// is `arith_ok`.
pub open spec fn arith_value(e: ArithExpr) -> i64
    recommends
        arith_ok(e),
    decreases e,
{
    match e {
        ArithExpr::IntLit(n) => n,
        ArithExpr::BinArithExpr { left, right, op } => apply_arith_op(
            op,
            arith_value(*left),
            arith_value(*right),
        ),
    }
}

/// Whether a boolean tree evaluates cleanly. Both operands of every binary
/// connective count, whatever the connective: nothing short-circuits.
pub open spec fn bool_ok(e: BoolExpr) -> bool
    decreases e,
{
    match e {
        BoolExpr::BoolLit(_) => true,
        BoolExpr::NotExpr(inner) => bool_ok(*inner),
        BoolExpr::BinBoolExpr { left, right, .. } => bool_ok(*left) && bool_ok(*right),
        BoolExpr::ArithCmpExpr { left, right, .. } => arith_ok(*left) && arith_ok(*right),
    }
}

/// The boolean a boolean tree evaluates to, meaningful when the tree is
/// `bool_ok`.
pub open spec fn bool_value(e: BoolExpr) -> bool
    recommends
        bool_ok(e),
    decreases e,
{
    match e {
        BoolExpr::BoolLit(b) => b,
        BoolExpr::NotExpr(inner) => !bool_value(*inner),
        BoolExpr::BinBoolExpr { left, right, op } => apply_logic_op(
            op,
            bool_value(*left),
            bool_value(*right),
        ),
        BoolExpr::ArithCmpExpr { left, right, op } => apply_cmp_op(
            op,
            arith_value(*left),
            arith_value(*right),
        ),
    }
}

/// Whether a full expression evaluates cleanly.
pub open spec fn expr_ok(e: Expr) -> bool {
    match e {
        Expr::ArithExpr(a) => arith_ok(a),
        Expr::BoolExpr(b) => bool_ok(b),
    }
}

/// The tagged value a full expression evaluates to, meaningful when the
/// expression is `expr_ok`. The tag follows the sort of the tree.
pub open spec fn expr_value(e: Expr) -> Value
    recommends
        expr_ok(e),
{
    match e {
        Expr::ArithExpr(a) => Value::IntValue(arith_value(a)),
        Expr::BoolExpr(b) => Value::BoolValue(bool_value(b)),
    }
}

/// Except for `i64::MIN / -1`, the truncating quotient of two 64-bit
/// integers fits in 64 bits: its magnitude never exceeds the dividend's.
pub proof fn lemma_trunc_div_in_range(a: i64, b: i64)
    requires
        b != 0,
        !(a == i64::MIN && b == -1),
    ensures
        i64::MIN <= trunc_div(a as int, b as int) <= i64::MAX,
{
    let x = a as int;
    let d = b as int;
    if x >= 0 && d > 0 {
        lemma_div_pos_is_pos(x, d);
        lemma_div_nonincreasing(x, d);
    } else if x <= 0 && d < 0 {
        lemma_div_pos_is_pos(x * -1, d * -1);
        lemma_div_nonincreasing(x * -1, d * -1);
        if d * -1 >= 2 {
            lemma_div_is_ordered_by_denominator(x * -1, 2, d * -1);
        } else {
            // d == -1, so a != i64::MIN and the quotient is -a itself
            lemma_div_basics(x * -1);
        }
    } else if x < 0 {
        lemma_div_pos_is_pos(x * -1, d);
        lemma_div_nonincreasing(x * -1, d);
    } else {
        lemma_div_pos_is_pos(x, d * -1);
        lemma_div_nonincreasing(x, d * -1);
    }
}

} // verus!
