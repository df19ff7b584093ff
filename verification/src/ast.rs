//! The expression tree: two disjoint sorts (integer arithmetic and boolean
//! logic), combined in a single discriminated root type. Every internal node
//! owns its children outright, so a tree has no sharing and no cycles.

use vstd::prelude::*;

verus! {

/// The root type: exactly one sort is active.
pub enum Expr {
    ArithExpr(ArithExpr),
    BoolExpr(BoolExpr),
}

/// An arithmetic expression, producing a 64-bit signed integer.
pub enum ArithExpr {
    BinArithExpr { left: Box<ArithExpr>, right: Box<ArithExpr>, op: BinArithOp },
    IntLit(i64),
}

/// A boolean expression, producing a boolean. `ArithCmpExpr` is the single
/// point where an arithmetic subtree yields into a boolean result.
pub enum BoolExpr {
    ArithCmpExpr { left: Box<ArithExpr>, right: Box<ArithExpr>, op: ArithCmpOp },
    BinBoolExpr { left: Box<BoolExpr>, right: Box<BoolExpr>, op: BinLogicOp },
    NotExpr(Box<BoolExpr>),
    BoolLit(bool),
}

/// The binary arithmetic operators.
pub enum BinArithOp {
    AddOp,
    SubOp,
    MulOp,
    IntDivOp,
}

/// The comparison operators on integers, under standard signed ordering.
pub enum ArithCmpOp {
    LtOp,
    LteOp,
    GtOp,
    GteOp,
    ArithEqOp,
    ArithNeqOp,
}

/// The binary boolean connectives. None of them short-circuits: both
/// operands are always evaluated.
pub enum BinLogicOp {
    AndOp,
    OrOp,
    BoolEqOp,
    BoolNeqOp,
}

/// The result of evaluating an expression, tagged by the sort that produced it.
#[derive(Debug, PartialEq)]
pub enum Value {
    BoolValue(bool),
    IntValue(i64),
}

/// The one failure an evaluation can meet: the right operand of an integer
/// division evaluated to zero. It aborts the whole evaluation; no partial
/// value is returned.
#[derive(Debug, PartialEq)]
pub enum EvalError {
    DivisionByZero,
}

} // verus!
