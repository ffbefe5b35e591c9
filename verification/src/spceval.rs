//! The operators and functions of the expression evaluator, on the integer
//! half of its numbers.

use vstd::prelude::*;

pub mod functions;
pub mod oper_order;
pub mod operators;

verus! {

/// The kinds of failure of parsing or evaluating an expression.
#[derive(Debug, PartialEq, Eq, Structural, Copy, Clone)]
pub enum ExprErrorKind {
    EmptyExpr,
    FailedEvaluation,
    InvalidExpr,
    InvalidParamCount,
    MismatchParenthesis,
    MissingFunction,
    MissingOperand,
    MissingOperatorOrFunction,
    MissingParenthesis,
}

/// An error at a position of an expression, with its kind and a message.
#[derive(Debug)]
pub struct ExprError {
    pub idx_expr: usize,
    pub kind: ExprErrorKind,
    pub message: String,
}

impl ExprError {
    pub fn new(idx_expr: usize, kind: ExprErrorKind, message: String) -> (r: Self)
        ensures
            r.idx_expr == idx_expr,
            r.kind == kind,
            r.message@ == message@,
    {
        ExprError { idx_expr, kind, message }
    }

    /// The position in the expression at which the error occurred.
    pub fn index(&self) -> (r: usize)
        ensures
            r == self.idx_expr,
    {
        self.idx_expr
    }

    /// The kind of the error.
    pub fn kind(&self) -> (r: ExprErrorKind)
        ensures
            r == self.kind,
    {
        self.kind
    }
}

} // verus!
