//! The expression-evaluation engine of a small interpreted language: it turns
//! an abstract syntax tree node into a runtime value against a mutable
//! environment. Every public operation carries a contract stated over a
//! mathematical model of values, errors and the environment, and the whole
//! evaluation is pinned down by the specification-level interpreter
//! [`expression::eval_spec`].

pub mod errors;
pub mod expression;
pub mod grammar;
pub mod laws;
pub mod state;
pub mod value;

pub use errors::ErrorKind;
pub use expression::{Expression, EVAL_DEPTH_LIMIT};
pub use state::{FunctionDef, State};
pub use value::{Kind, Operator, Value};
