//! The error taxonomy of the evaluator. Every failure of a sub-evaluation or
//! of the environment is propagated unchanged; there is no local recovery.

use vstd::prelude::*;

use crate::value::Kind;

verus! {

/// Everything that can go wrong while evaluating an expression.
#[derive(Clone, Debug, PartialEq)]
#[allow(inconsistent_fields)]
pub enum ErrorKind {
    /// A point requiring a specific kind saw another one.
    UnexpectedType { expected: Kind, actual: Kind },
    /// A length or index query on a kind without a length or index notion.
    IndexUnindexable(Kind),
    /// Re-parsing a string as an expression failed; wraps the parser's message.
    SyntaxError(String),
    /// A variable lookup found no slot of that name.
    UnknownVariable(String),
    /// A function call named no known function.
    UnknownFunction(String),
    /// A function was called with the wrong number of arguments.
    ArityMismatch { expected: usize, actual: usize },
    /// A list or string index outside the valid range.
    IndexOutOfBounds(i64),
    /// Division or modulus by zero.
    DivideByZero,
    /// An arithmetic result does not fit the integer kind.
    IntegerOverflow,
    /// A shift by a negative amount or by one past the integer's width.
    InvalidShift(i64),
    /// Nested re-entrant evaluation exceeded the depth budget.
    DepthLimitExceeded,
}

/// The mathematical model of an error: strings become character sequences.
#[allow(inconsistent_fields)]
pub enum ErrorView {
    UnexpectedType { expected: Kind, actual: Kind },
    IndexUnindexable(Kind),
    SyntaxError(Seq<char>),
    UnknownVariable(Seq<char>),
    UnknownFunction(Seq<char>),
    ArityMismatch { expected: nat, actual: nat },
    IndexOutOfBounds(i64),
    DivideByZero,
    IntegerOverflow,
    InvalidShift(i64),
    DepthLimitExceeded,
}

impl View for ErrorKind {
    type V = ErrorView;

    open spec fn view(&self) -> ErrorView {
        match *self {
            ErrorKind::UnexpectedType { expected, actual } => ErrorView::UnexpectedType {
                expected,
                actual,
            },
            ErrorKind::IndexUnindexable(k) => ErrorView::IndexUnindexable(k),
            ErrorKind::SyntaxError(ref m) => ErrorView::SyntaxError(m@),
            ErrorKind::UnknownVariable(ref n) => ErrorView::UnknownVariable(n@),
            ErrorKind::UnknownFunction(ref n) => ErrorView::UnknownFunction(n@),
            ErrorKind::ArityMismatch { expected, actual } => ErrorView::ArityMismatch {
                expected: expected as nat,
                actual: actual as nat,
            },
            ErrorKind::IndexOutOfBounds(i) => ErrorView::IndexOutOfBounds(i),
            ErrorKind::DivideByZero => ErrorView::DivideByZero,
            ErrorKind::IntegerOverflow => ErrorView::IntegerOverflow,
            ErrorKind::InvalidShift(s) => ErrorView::InvalidShift(s),
            ErrorKind::DepthLimitExceeded => ErrorView::DepthLimitExceeded,
        }
    }
}

} // verus!
