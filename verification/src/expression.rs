//! The expression evaluator: a recursive reduction of AST nodes to runtime
//! values against an environment, with strict left-to-right evaluation of
//! binary operands (no short-circuit, even for the boolean operators) and
//! fail-fast error propagation.
//!
//! The whole evaluation is pinned down by [`eval_spec`], a specification-level
//! interpreter over the models: it gives the result and the function calls
//! appended to the environment's log, for every expression, environment and
//! re-entry budget. Every executable entry point is proved to agree with it.

use vstd::prelude::*;

use crate::errors::{ErrorKind, ErrorView};
use crate::grammar;
use crate::state::{
    list_index_spec, list_length_spec, lookup, values_view, CallView, EnvView, State,
};
use crate::value::{apply_not, apply_op, kind_of, Kind, Operator, Value, ValueView};

verus! {

/// How many re-entrant `Eval` steps one evaluation may take. Only a string
/// evaluated as fresh code consumes budget; ordinary recursion into
/// sub-expressions is bounded by the tree itself and costs nothing.
pub const EVAL_DEPTH_LIMIT: u64 = 64;

/// An immutable AST node. A tree is built once by a parser and never mutated
/// during evaluation; it owns its sub-expressions exclusively.
#[derive(Debug, PartialEq)]
pub enum Expression {
    /// A reference to an environment slot.
    Variable(String),
    /// Two owned sub-expressions around an operator tag.
    OpExp(Box<Expression>, Operator, Box<Expression>),
    /// An embedded runtime value.
    Value(Value),
    /// Indexing into a named list-or-string variable.
    ListIndex(String, Box<Expression>),
    /// A length query on a named list-or-string variable.
    ListLength(String),
    /// Boolean negation.
    Not(Box<Expression>),
    /// The sub-expression must yield a string, which is re-parsed as a fresh
    /// expression and evaluated against the same environment.
    Eval(Box<Expression>),
    /// Invocation of a named function with unevaluated argument expressions.
    FunctionCall(String, Vec<Expression>),
}

/// What evaluating `e` against `env` yields, with `fuel` re-entry budget: the
/// result, and the calls the evaluation appends to the environment's log.
pub open spec fn eval_spec(e: Expression, env: EnvView, fuel: nat) -> (Result<
    ValueView,
    ErrorView,
>, Seq<CallView>)
    decreases fuel, e, 0int,
{
    match e {
        Expression::Variable(name) => (
            match lookup(env.vars, name@) {
                Some(v) => Ok(v),
                None => Err(ErrorView::UnknownVariable(name@)),
            },
            Seq::empty(),
        ),
        Expression::OpExp(l, op, r) => {
            let (lr, c1) = eval_spec(*l, env, fuel);
            match lr {
                Err(e1) => (Err(e1), c1),
                Ok(lv) => {
                    let (rr, c2) = eval_spec(*r, env, fuel);
                    match rr {
                        Err(e2) => (Err(e2), c1 + c2),
                        Ok(rv) => (apply_op(op, lv, rv), c1 + c2),
                    }
                },
            }
        },
        Expression::Value(v) => (Ok(v@), Seq::empty()),
        Expression::ListIndex(name, ie) => {
            let (ir, c) = eval_spec(*ie, env, fuel);
            match ir {
                Err(e1) => (Err(e1), c),
                Ok(iv) => match iv {
                    ValueView::Int(ix) => (list_index_spec(env.vars, name@, ix), c),
                    _ => (
                        Err(ErrorView::UnexpectedType { expected: Kind::Int, actual: kind_of(iv) }),
                        c,
                    ),
                },
            }
        },
        Expression::ListLength(name) => (list_length_spec(env.vars, name@), Seq::empty()),
        Expression::Not(ie) => {
            let (ir, c) = eval_spec(*ie, env, fuel);
            match ir {
                Err(e1) => (Err(e1), c),
                Ok(v) => (apply_not(v), c),
            }
        },
        Expression::Eval(ie) => {
            let (ir, c) = eval_spec(*ie, env, fuel);
            match ir {
                Err(e1) => (Err(e1), c),
                Ok(v) => match v {
                    ValueView::Str(src) => match grammar::parse_spec(src) {
                        None => (Err(ErrorView::SyntaxError(grammar::syntax_error_note())), c),
                        Some(tree) => if fuel == 0 {
                            (Err(ErrorView::DepthLimitExceeded), c)
                        } else {
                            let (r2, c2) = eval_spec(tree, env, (fuel - 1) as nat);
                            (r2, c + c2)
                        },
                    },
                    _ => (
                        Err(ErrorView::UnexpectedType { expected: Kind::Str, actual: kind_of(v) }),
                        c,
                    ),
                },
            }
        },
        Expression::FunctionCall(name, args) => call_spec(name@, args, env, fuel),
    }
}

/// What invoking function `name` yields: the stored stub's value once the
/// argument expressions have been evaluated strictly left to right, plus one
/// record in the call log; an unknown name or a wrong argument count fails
/// before any argument is evaluated.
pub open spec fn call_spec(name: Seq<char>, args: Vec<Expression>, env: EnvView, fuel: nat) -> (
    Result<ValueView, ErrorView>,
    Seq<CallView>,
)
    decreases fuel, args, args@.len() + 1,
{
    match lookup(env.funs, name) {
        None => (Err(ErrorView::UnknownFunction(name)), Seq::empty()),
        Some(f) => if args@.len() != f.arity {
            (
                Err(ErrorView::ArityMismatch { expected: f.arity, actual: args@.len() }),
                Seq::empty(),
            )
        } else {
            let (ar, calls) = eval_args_spec(args, 0, env, fuel);
            match ar {
                Err(e) => (Err(e), calls),
                Ok(vals) => (Ok(f.result), calls.push(CallView { name, args: vals })),
            }
        },
    }
}

/// Evaluate the argument expressions from position `i` on, left to right,
/// stopping at the first failure.
pub open spec fn eval_args_spec(args: Vec<Expression>, i: int, env: EnvView, fuel: nat) -> (Result<
    Seq<ValueView>,
    ErrorView,
>, Seq<CallView>)
    decreases fuel, args, args@.len() - i,
{
    if i < 0 || i >= args@.len() {
        (Ok(Seq::empty()), Seq::empty())
    } else {
        let (r0, c0) = eval_spec(args[i], env, fuel);
        match r0 {
            Err(e) => (Err(e), c0),
            Ok(v) => {
                let (rr, cr) = eval_args_spec(args, i + 1, env, fuel);
                match rr {
                    Err(e) => (Err(e), c0 + cr),
                    Ok(vs) => (Ok(seq![v] + vs), c0 + cr),
                }
            },
        }
    }
}

impl From<Value> for Expression {
    /// A runtime value embeds directly as a literal expression.
    fn from(v: Value) -> (e: Expression) {
        Expression::Value(v)
    }
}

impl vstd::std_specs::convert::FromSpecImpl<Value> for Expression {
    open spec fn obeys_from_spec() -> bool {
        true
    }

    open spec fn from_spec(v: Value) -> Expression {
        Expression::Value(v)
    }
}

impl Expression {
    /// Evaluate this expression against `state` with the default re-entry
    /// budget. The environment's variables and functions are read, never
    /// changed; triggered function calls land in the call log.
    pub fn evaluate(&self, state: &mut State) -> (r: Result<Value, ErrorKind>)
        ensures
            final(state)@.env == old(state)@.env,
            ({
                let (res, calls) = eval_spec(*self, old(state)@.env, EVAL_DEPTH_LIMIT as nat);
                final(state)@.calls == old(state)@.calls + calls && (match (r, res) {
                    (Ok(v), Ok(vv)) => v@ == vv,
                    (Err(e), Err(ev)) => e@ == ev,
                    _ => false,
                })
            }),
    {
        self.evaluate_depth(state, EVAL_DEPTH_LIMIT)
    }

    /// Evaluate with an explicit re-entry budget: each `Eval` of a string as
    /// fresh code consumes one unit, and a budget of zero refuses re-entry.
    pub fn evaluate_depth(&self, state: &mut State, fuel: u64) -> (r: Result<Value, ErrorKind>)
        ensures
            final(state)@.env == old(state)@.env,
            ({
                let (res, calls) = eval_spec(*self, old(state)@.env, fuel as nat);
                final(state)@.calls == old(state)@.calls + calls && (match (r, res) {
                    (Ok(v), Ok(vv)) => v@ == vv,
                    (Err(e), Err(ev)) => e@ == ev,
                    _ => false,
                })
            }),
        decreases fuel, *self, 0int,
    {
        let ghost env = old(state)@.env;
        let ghost calls0 = old(state)@.calls;
        proof {
            assert(calls0 + Seq::<CallView>::empty() =~= calls0);
        }
        match self {
            Expression::Variable(name) => match state.get(name.as_str()) {
                Ok(v) => Ok(v.duplicate()),
                Err(e) => Err(e),
            },
            Expression::OpExp(left, op, right) => {
                let ghost (lres, c1) = eval_spec(**left, env, fuel as nat);
                let lv = match left.evaluate_depth(state, fuel) {
                    Ok(v) => v,
                    Err(e) => {
                        return Err(e);
                    },
                };
                let ghost (rres, c2) = eval_spec(**right, env, fuel as nat);
                let rv = match right.evaluate_depth(state, fuel) {
                    Ok(v) => v,
                    Err(e) => {
                        proof {
                            assert(calls0 + (c1 + c2) =~= (calls0 + c1) + c2);
                        }
                        return Err(e);
                    },
                };
                proof {
                    assert(calls0 + (c1 + c2) =~= (calls0 + c1) + c2);
                }
                match op {
                    Operator::Add => lv.add(&rv),
                    Operator::Subtract => lv.subtract(&rv),
                    Operator::Multiply => lv.multiply(&rv),
                    Operator::Divide => lv.divide(&rv),
                    Operator::Equality => Ok(lv.equals(&rv)),
                    Operator::LessThan => lv.less_than(&rv),
                    Operator::GreaterThan => lv.greater_than(&rv),
                    Operator::LessThanEqual => lv.less_than_equal(&rv),
                    Operator::GreaterThanEqual => lv.greater_than_equal(&rv),
                    Operator::ShiftLeft => lv.shift_left(&rv),
                    Operator::ShiftRight => lv.shift_right(&rv),
                    Operator::And => lv.and(&rv),
                    Operator::Or => lv.or(&rv),
                    Operator::Modulus => lv.modulus(&rv),
                }
            },
            Expression::Value(v) => Ok(v.duplicate()),
            Expression::ListIndex(name, ie) => {
                let idx = match ie.evaluate_depth(state, fuel) {
                    Ok(v) => v,
                    Err(e) => {
                        return Err(e);
                    },
                };
                match idx {
                    Value::Int(ix) => state.list_index(name.as_str(), ix),
                    Value::Bool(_) => Err(
                        ErrorKind::UnexpectedType { expected: Kind::Int, actual: Kind::Bool },
                    ),
                    Value::Str(_) => Err(
                        ErrorKind::UnexpectedType { expected: Kind::Int, actual: Kind::Str },
                    ),
                    Value::List(_) => Err(
                        ErrorKind::UnexpectedType { expected: Kind::Int, actual: Kind::List },
                    ),
                }
            },
            Expression::ListLength(name) => {
                let stored = match state.get(name.as_str()) {
                    Ok(v) => v,
                    Err(e) => {
                        return Err(e);
                    },
                };
                match stored {
                    Value::List(items) => if (items.len() as u64) <= (i64::MAX as u64) {
                        Ok(Value::Int(items.len() as i64))
                    } else {
                        Err(ErrorKind::IntegerOverflow)
                    },
                    Value::Str(st) => {
                        let n = st.as_str().unicode_len();
                        if (n as u64) <= (i64::MAX as u64) {
                            Ok(Value::Int(n as i64))
                        } else {
                            Err(ErrorKind::IntegerOverflow)
                        }
                    },
                    Value::Int(_) => Err(ErrorKind::IndexUnindexable(Kind::Int)),
                    Value::Bool(_) => Err(ErrorKind::IndexUnindexable(Kind::Bool)),
                }
            },
            Expression::Not(ie) => {
                let v = match ie.evaluate_depth(state, fuel) {
                    Ok(v) => v,
                    Err(e) => {
                        return Err(e);
                    },
                };
                v.not()
            },
            Expression::Eval(ie) => {
                let ghost (ires, c1) = eval_spec(**ie, env, fuel as nat);
                let v = match ie.evaluate_depth(state, fuel) {
                    Ok(v) => v,
                    Err(e) => {
                        return Err(e);
                    },
                };
                let src = match v {
                    Value::Str(src) => src,
                    Value::Int(_) => {
                        return Err(
                            ErrorKind::UnexpectedType { expected: Kind::Str, actual: Kind::Int },
                        );
                    },
                    Value::Bool(_) => {
                        return Err(
                            ErrorKind::UnexpectedType { expected: Kind::Str, actual: Kind::Bool },
                        );
                    },
                    Value::List(_) => {
                        return Err(
                            ErrorKind::UnexpectedType { expected: Kind::Str, actual: Kind::List },
                        );
                    },
                };
                match grammar::expression(src.as_str()) {
                    Err(m) => Err(ErrorKind::SyntaxError(m)),
                    Ok(tree) => {
                        if fuel == 0 {
                            return Err(ErrorKind::DepthLimitExceeded);
                        }
                        let ghost (r2, c2) = eval_spec(tree, env, (fuel - 1) as nat);
                        let out = tree.evaluate_depth(state, fuel - 1);
                        proof {
                            assert(calls0 + (c1 + c2) =~= (calls0 + c1) + c2);
                        }
                        out
                    },
                }
            },
            Expression::FunctionCall(name, fargs) => state.call_function(
                name.as_str(),
                fargs,
                fuel,
            ),
        }
    }

    /// Evaluate and insist on a boolean, reporting the kind actually seen.
    pub fn try_bool(&self, state: &mut State) -> (r: Result<bool, ErrorKind>)
        ensures
            final(state)@.env == old(state)@.env,
            ({
                let (res, calls) = eval_spec(*self, old(state)@.env, EVAL_DEPTH_LIMIT as nat);
                final(state)@.calls == old(state)@.calls + calls && (match res {
                    Ok(ValueView::Bool(b)) => r == Ok::<bool, ErrorKind>(b),
                    Ok(v) => r matches Err(e) && e@ == ErrorView::UnexpectedType {
                        expected: Kind::Bool,
                        actual: kind_of(v),
                    },
                    Err(ev) => r matches Err(e) && e@ == ev,
                })
            }),
    {
        let v = match self.evaluate(state) {
            Ok(v) => v,
            Err(e) => {
                return Err(e);
            },
        };
        match v {
            Value::Bool(b) => Ok(b),
            Value::Int(_) => Err(
                ErrorKind::UnexpectedType { expected: Kind::Bool, actual: Kind::Int },
            ),
            Value::Str(_) => Err(
                ErrorKind::UnexpectedType { expected: Kind::Bool, actual: Kind::Str },
            ),
            Value::List(_) => Err(
                ErrorKind::UnexpectedType { expected: Kind::Bool, actual: Kind::List },
            ),
        }
    }

    /// Evaluate and insist on an integer, reporting the kind actually seen.
    pub fn try_int(&self, state: &mut State) -> (r: Result<i64, ErrorKind>)
        ensures
            final(state)@.env == old(state)@.env,
            ({
                let (res, calls) = eval_spec(*self, old(state)@.env, EVAL_DEPTH_LIMIT as nat);
                final(state)@.calls == old(state)@.calls + calls && (match res {
                    Ok(ValueView::Int(n)) => r == Ok::<i64, ErrorKind>(n),
                    Ok(v) => r matches Err(e) && e@ == ErrorView::UnexpectedType {
                        expected: Kind::Int,
                        actual: kind_of(v),
                    },
                    Err(ev) => r matches Err(e) && e@ == ev,
                })
            }),
    {
        let v = match self.evaluate(state) {
            Ok(v) => v,
            Err(e) => {
                return Err(e);
            },
        };
        match v {
            Value::Int(n) => Ok(n),
            Value::Bool(_) => Err(
                ErrorKind::UnexpectedType { expected: Kind::Int, actual: Kind::Bool },
            ),
            Value::Str(_) => Err(
                ErrorKind::UnexpectedType { expected: Kind::Int, actual: Kind::Str },
            ),
            Value::List(_) => Err(
                ErrorKind::UnexpectedType { expected: Kind::Int, actual: Kind::List },
            ),
        }
    }

    /// A literal expression around a runtime value.
    pub fn new(value: Value) -> (e: Expression)
        ensures
            e == Expression::Value(value),
    {
        Expression::Value(value)
    }

    /// A reference to the environment slot called `name`.
    pub fn variable(name: &str) -> (e: Expression)
        ensures
            e matches Expression::Variable(n) && n@ == name@,
    {
        Expression::Variable(name.to_owned())
    }

    /// A length query on the variable called `name`.
    pub fn list_length(name: &str) -> (e: Expression)
        ensures
            e matches Expression::ListLength(n) && n@ == name@,
    {
        Expression::ListLength(name.to_owned())
    }

    /// A binary operation on two sub-expressions.
    pub fn operator(left: Expression, op: Operator, right: Expression) -> (e: Expression)
        ensures
            e == Expression::OpExp(Box::new(left), op, Box::new(right)),
    {
        Expression::OpExp(Box::new(left), op, Box::new(right))
    }

    /// Boolean negation of a sub-expression.
    pub fn not(expr: Expression) -> (e: Expression)
        ensures
            e == Expression::Not(Box::new(expr)),
    {
        Expression::Not(Box::new(expr))
    }

    /// Re-entrant evaluation of a sub-expression that must yield a string.
    pub fn eval(expr: Expression) -> (e: Expression)
        ensures
            e == Expression::Eval(Box::new(expr)),
    {
        Expression::Eval(Box::new(expr))
    }

    /// Indexing into the variable called `name`.
    pub fn list_index(name: &str, index: Expression) -> (e: Expression)
        ensures
            e matches Expression::ListIndex(n, ix) && n@ == name@ && *ix == index,
    {
        Expression::ListIndex(name.to_owned(), Box::new(index))
    }

    /// A literal expression around a runtime value.
    pub fn value(val: Value) -> (e: Expression)
        ensures
            e == Expression::Value(val),
    {
        Expression::Value(val)
    }
}

/// Evaluate the argument expressions from position `i` on, strictly left to
/// right, collecting the values or stopping at the first failure.
fn eval_args(state: &mut State, args: &Vec<Expression>, i: usize, fuel: u64) -> (r: Result<
    Vec<Value>,
    ErrorKind,
>)
    requires
        i <= args.len(),
    ensures
        final(state)@.env == old(state)@.env,
        ({
            let (res, calls) = eval_args_spec(*args, i as int, old(state)@.env, fuel as nat);
            final(state)@.calls == old(state)@.calls + calls && (match (r, res) {
                (Ok(vs), Ok(vv)) => values_view(vs@) == vv,
                (Err(e), Err(ev)) => e@ == ev,
                _ => false,
            })
        }),
    decreases fuel, *args, args@.len() - i,
{
    let ghost env = old(state)@.env;
    let ghost calls0 = old(state)@.calls;
    if i == args.len() {
        proof {
            assert(calls0 + Seq::<CallView>::empty() =~= calls0);
            assert(values_view(Seq::<Value>::empty()) =~= Seq::<ValueView>::empty());
        }
        return Ok(Vec::new());
    }
    proof {
        assert(decreases_to!(*args => args[i as int]));
    }
    let ghost (r0, c0) = eval_spec(args@[i as int], env, fuel as nat);
    let v = match (&args[i]).evaluate_depth(state, fuel) {
        Ok(v) => v,
        Err(e) => {
            return Err(e);
        },
    };
    let ghost (rr, cr) = eval_args_spec(*args, i + 1, env, fuel as nat);
    let mut rest = match eval_args(state, args, i + 1, fuel) {
        Ok(vs) => vs,
        Err(e) => {
            proof {
                assert(calls0 + (c0 + cr) =~= (calls0 + c0) + cr);
            }
            return Err(e);
        },
    };
    proof {
        assert(calls0 + (c0 + cr) =~= (calls0 + c0) + cr);
    }
    let ghost old_rest = rest@;
    rest.insert(0, v);
    proof {
        assert(values_view(rest@) =~= seq![v@] + values_view(old_rest));
    }
    Ok(rest)
}

impl State {
    /// Invoke the stored function called `name`: check that it exists and
    /// that the argument count matches its arity, evaluate the argument
    /// expressions strictly left to right, record the invocation in the call
    /// log, and yield the stub's value.
    pub fn call_function(&mut self, name: &str, args: &Vec<Expression>, fuel: u64) -> (r: Result<
        Value,
        ErrorKind,
    >)
        ensures
            final(self)@.env == old(self)@.env,
            ({
                let (res, calls) = call_spec(name@, *args, old(self)@.env, fuel as nat);
                final(self)@.calls == old(self)@.calls + calls && (match (r, res) {
                    (Ok(v), Ok(vv)) => v@ == vv,
                    (Err(e), Err(ev)) => e@ == ev,
                    _ => false,
                })
            }),
        decreases fuel, *args, args@.len() + 1,
    {
        let ghost calls0 = old(self)@.calls;
        proof {
            assert(calls0 + Seq::<CallView>::empty() =~= calls0);
        }
        let result = match self.get_function(name) {
            None => {
                return Err(ErrorKind::UnknownFunction(name.to_owned()));
            },
            Some(def) => {
                if args.len() != def.arity {
                    return Err(
                        ErrorKind::ArityMismatch { expected: def.arity, actual: args.len() },
                    );
                }
                def.result.duplicate()
            },
        };
        let ghost (ar, argcalls) = eval_args_spec(*args, 0, old(self)@.env, fuel as nat);
        let vals = match eval_args(self, args, 0, fuel) {
            Ok(vs) => vs,
            Err(e) => {
                return Err(e);
            },
        };
        let ghost rec = CallView { name: name@, args: values_view(vals@) };
        self.record_call(name, vals);
        proof {
            assert(calls0 + argcalls.push(rec) =~= (calls0 + argcalls).push(rec));
        }
        Ok(result)
    }
}

} // verus!
