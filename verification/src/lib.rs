//! An in-memory expression tree for a tiny two-sorted language — integer
//! arithmetic and boolean logic — and a pure recursive evaluator that reduces
//! any tree to a single tagged scalar. The tree's own structure keeps the two
//! sorts apart, so no type error can arise at evaluation time; the one
//! failure an evaluation can meet is division by zero, which aborts it and is
//! reported to the caller. Arithmetic wraps in two's complement, as
//! documented in `semantics`.

mod ast;
mod eval;
mod laws;
mod semantics;

pub use ast::ArithCmpOp;
pub use ast::ArithExpr;
pub use ast::BinArithOp;
pub use ast::BinLogicOp;
pub use ast::BoolExpr;
pub use ast::EvalError;
pub use ast::Expr;
pub use ast::Value;
pub use eval::eval;
pub use eval::eval_arith_expr;
pub use eval::eval_bool_expr;
pub use laws::is_ones_add_chain;
pub use laws::lemma_bool_literal;
pub use laws::lemma_division_by_zero_fails;
pub use laws::lemma_eval_deterministic;
pub use laws::lemma_int_literal;
pub use laws::lemma_no_short_circuit;
pub use laws::lemma_ones_add_chain_value;
pub use semantics::apply_arith_op;
pub use semantics::apply_cmp_op;
pub use semantics::apply_logic_op;
pub use semantics::arith_ok;
pub use semantics::arith_value;
pub use semantics::bool_ok;
pub use semantics::bool_value;
pub use semantics::expr_ok;
pub use semantics::expr_value;
pub use semantics::trunc_div;
pub use semantics::wrap_add;
pub use semantics::wrap_div;
pub use semantics::wrap_mul;
pub use semantics::wrap_sub;
