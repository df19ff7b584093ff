//! Laws of the evaluator, stated over the spec-level semantics that the
//! evaluator's own contracts are pinned to.

use vstd::prelude::*;

use crate::ast::ArithExpr;
use crate::ast::BinArithOp;
use crate::ast::BoolExpr;
use crate::ast::Expr;
use crate::ast::Value;
use crate::semantics::apply_logic_op;
use crate::semantics::arith_ok;
use crate::semantics::arith_value;
use crate::semantics::bool_ok;
use crate::semantics::bool_value;
use crate::semantics::expr_ok;
use crate::semantics::expr_value;

verus! {

/// Law: an integer literal evaluates cleanly, to exactly itself.
pub proof fn lemma_int_literal(n: i64)
    ensures
        expr_ok(Expr::ArithExpr(ArithExpr::IntLit(n))),
        expr_value(Expr::ArithExpr(ArithExpr::IntLit(n))) == Value::IntValue(n),
{
}

/// Law: a boolean literal evaluates cleanly, to exactly itself.
pub proof fn lemma_bool_literal(b: bool)
    ensures
        expr_ok(Expr::BoolExpr(BoolExpr::BoolLit(b))),
        expr_value(Expr::BoolExpr(BoolExpr::BoolLit(b))) == Value::BoolValue(b),
{
}

/// Law: evaluation is deterministic. The outcome — both whether a tree
/// evaluates cleanly and what value it yields — is a function of the tree
/// alone, so evaluating the same immutable tree twice, or any two equal
/// trees, yields identical results.
pub proof fn lemma_eval_deterministic(e1: Expr, e2: Expr)
    requires
        e1 == e2,
    ensures
        expr_ok(e1) == expr_ok(e2),
        expr_value(e1) == expr_value(e2),
{
}

/// Law: no binary boolean connective short-circuits. A binary boolean node
/// evaluates cleanly exactly when both of its operands do — whatever the
/// connective, and even when one operand's value would already determine
/// the result — so a division by zero in either operand always surfaces.
/// When both operands are clean, the node's value is the connective applied
/// to both operand values.
pub proof fn lemma_no_short_circuit(e: BoolExpr)
    ensures
        e matches BoolExpr::BinBoolExpr { left, right, op } ==> (bool_ok(e) <==> bool_ok(*left)
            && bool_ok(*right)),
        e matches BoolExpr::BinBoolExpr { left, right, op } ==> (bool_ok(e) ==> bool_value(e)
            == apply_logic_op(op, bool_value(*left), bool_value(*right))),
{
}

/// Law: an integer division whose right operand evaluates to zero never
/// evaluates cleanly, whatever its left operand — the failure is reported,
/// never coerced to a value.
pub proof fn lemma_division_by_zero_fails(e: ArithExpr)
    ensures
        e matches ArithExpr::BinArithExpr { left, right, op: BinArithOp::IntDivOp } ==> (
        arith_value(*right) == 0 ==> !arith_ok(e)),
{
}

/// A left-deep chain of `n` additions: `IntLit(1)` when `n` is zero, else
/// an `Add` node whose left child is a chain of `n - 1` additions and whose
/// right child is `IntLit(1)`.
pub open spec fn is_ones_add_chain(e: ArithExpr, n: nat) -> bool
    decreases n,
{
    if n == 0 {
        e == ArithExpr::IntLit(1)
    } else {
        &&& e matches ArithExpr::BinArithExpr { left, right, op: BinArithOp::AddOp }
        &&& is_ones_add_chain(*left, (n - 1) as nat)
        &&& *right == ArithExpr::IntLit(1)
    }
}

/// Law: a left-deep chain of `n` additions of ones evaluates cleanly to
/// exactly `n + 1`, for every depth whose sum still fits in 64 bits — the
/// nesting depth itself never disturbs the result.
pub proof fn lemma_ones_add_chain_value(e: ArithExpr, n: nat)
    requires
        is_ones_add_chain(e, n),
        n + 1 <= i64::MAX,
    ensures
        arith_ok(e),
        arith_value(e) == n + 1,
    decreases n,
{
    if n > 0 {
        if let ArithExpr::BinArithExpr { left, right, .. } = e {
            lemma_ones_add_chain_value(*left, (n - 1) as nat);
            assert(arith_value(*right) == 1);
        }
    }
}

} // verus!
