//! The evaluator's general guarantees, each stated over the
//! specification-level interpreter and proved once for all inputs.

use vstd::prelude::*;

use crate::errors::ErrorView;
use crate::expression::{eval_spec, Expression};
use crate::state::{lookup, CallView, EnvView};
use crate::value::{apply_not, apply_op, kind_of, Kind, Operator, Value, ValueView};

verus! {

/// A literal evaluates to a value structurally equal to the embedded one,
/// consults no environment and triggers no call: any two environments and
/// any two budgets see the one same outcome.
pub proof fn lemma_literal_is_itself(
    v: Value,
    env1: EnvView,
    fuel1: nat,
    env2: EnvView,
    fuel2: nat,
)
    ensures
        eval_spec(Expression::Value(v), env1, fuel1) == (
            Result::<ValueView, ErrorView>::Ok(v@),
            Seq::<CallView>::empty(),
        ),
        eval_spec(Expression::Value(v), env1, fuel1) == eval_spec(Expression::Value(v), env2, fuel2),
{
}

/// Every binary operator except `Equality` fails on operands of two
/// different kinds: nothing is ever coerced.
pub proof fn lemma_kind_mismatch_is_error(op: Operator, l: ValueView, r: ValueView)
    requires
        op != Operator::Equality,
        kind_of(l) != kind_of(r),
    ensures
        apply_op(op, l, r) is Err,
{
}

/// The same guarantee at the evaluation level, for literal operands.
pub proof fn lemma_kind_mismatch_literals(
    l: Value,
    op: Operator,
    r: Value,
    env: EnvView,
    fuel: nat,
)
    requires
        op != Operator::Equality,
        kind_of(l@) != kind_of(r@),
    ensures
        eval_spec(
            Expression::OpExp(Box::new(Expression::Value(l)), op, Box::new(Expression::Value(r))),
            env,
            fuel,
        ).0 is Err,
{
    assert(eval_spec(Expression::Value(l), env, fuel) == (
        Result::<ValueView, ErrorView>::Ok(l@),
        Seq::<CallView>::empty(),
    ));
    assert(eval_spec(Expression::Value(r), env, fuel) == (
        Result::<ValueView, ErrorView>::Ok(r@),
        Seq::<CallView>::empty(),
    ));
    lemma_kind_mismatch_is_error(op, l@, r@);
}

/// `Equality` is total: it yields a boolean on every pair of models.
pub proof fn lemma_equality_total(l: ValueView, r: ValueView)
    ensures
        apply_op(Operator::Equality, l, r) == Result::<ValueView, ErrorView>::Ok(
            ValueView::Bool(l == r),
        ),
{
}

/// Operands of two different kinds always compare unequal.
pub proof fn lemma_equality_kind_mismatch(l: ValueView, r: ValueView)
    requires
        kind_of(l) != kind_of(r),
    ensures
        apply_op(Operator::Equality, l, r) == Result::<ValueView, ErrorView>::Ok(
            ValueView::Bool(false),
        ),
{
}

/// Comparing any literal with itself yields `true`: equality is reflexive.
pub proof fn lemma_equality_reflexive(v: Value, env: EnvView, fuel: nat)
    ensures
        eval_spec(
            Expression::OpExp(
                Box::new(Expression::Value(v)),
                Operator::Equality,
                Box::new(Expression::Value(v)),
            ),
            env,
            fuel,
        ) == (Result::<ValueView, ErrorView>::Ok(ValueView::Bool(true)), Seq::<CallView>::empty()),
{
    assert(eval_spec(Expression::Value(v), env, fuel) == (
        Result::<ValueView, ErrorView>::Ok(v@),
        Seq::<CallView>::empty(),
    ));
    assert(Seq::<CallView>::empty() + Seq::<CallView>::empty() =~= Seq::<CallView>::empty());
}

/// Comparing literals of two different kinds yields `false`, never an error.
pub proof fn lemma_equality_literals_kind_mismatch(l: Value, r: Value, env: EnvView, fuel: nat)
    requires
        kind_of(l@) != kind_of(r@),
    ensures
        eval_spec(
            Expression::OpExp(
                Box::new(Expression::Value(l)),
                Operator::Equality,
                Box::new(Expression::Value(r)),
            ),
            env,
            fuel,
        ) == (Result::<ValueView, ErrorView>::Ok(ValueView::Bool(false)), Seq::<CallView>::empty()),
{
    assert(eval_spec(Expression::Value(l), env, fuel) == (
        Result::<ValueView, ErrorView>::Ok(l@),
        Seq::<CallView>::empty(),
    ));
    assert(eval_spec(Expression::Value(r), env, fuel) == (
        Result::<ValueView, ErrorView>::Ok(r@),
        Seq::<CallView>::empty(),
    ));
    assert(Seq::<CallView>::empty() + Seq::<CallView>::empty() =~= Seq::<CallView>::empty());
}

/// Double negation hands back exactly the boolean outcome, result and call
/// log alike: `Not` is an involution on booleans.
pub proof fn lemma_not_involution(e: Expression, env: EnvView, fuel: nat)
    requires
        eval_spec(e, env, fuel).0 matches Ok(v) && v is Bool,
    ensures
        eval_spec(Expression::Not(Box::new(Expression::Not(Box::new(e)))), env, fuel) == eval_spec(
            e,
            env,
            fuel,
        ),
{
    let (r0, c0) = eval_spec(e, env, fuel);
    let v = r0->Ok_0;
    let inner = Expression::Not(Box::new(e));
    assert(eval_spec(inner, env, fuel) == (apply_not(v), c0));
    assert(eval_spec(Expression::Not(Box::new(inner)), env, fuel) == (
        apply_not(apply_not(v)->Ok_0),
        c0,
    ));
}

/// Negating anything but a boolean fails, naming the kind actually seen.
pub proof fn lemma_not_non_bool(e: Expression, env: EnvView, fuel: nat)
    requires
        eval_spec(e, env, fuel).0 matches Ok(v) && !(v is Bool),
    ensures
        eval_spec(Expression::Not(Box::new(e)), env, fuel) == (
            Result::<ValueView, ErrorView>::Err(
                ErrorView::UnexpectedType {
                    expected: Kind::Bool,
                    actual: kind_of(eval_spec(e, env, fuel).0->Ok_0),
                },
            ),
            eval_spec(e, env, fuel).1,
        ),
{
}

/// A binary operation evaluates both operands, left then right, whatever the
/// operator: `And` and `Or` do not short-circuit. The calls both operands
/// trigger land in the log even when the operator itself then fails.
pub proof fn lemma_both_operands_evaluated(
    l: Expression,
    op: Operator,
    r: Expression,
    env: EnvView,
    fuel: nat,
)
    requires
        eval_spec(l, env, fuel).0 is Ok,
        eval_spec(r, env, fuel).0 is Ok,
    ensures
        eval_spec(Expression::OpExp(Box::new(l), op, Box::new(r)), env, fuel).1 == eval_spec(
            l,
            env,
            fuel,
        ).1 + eval_spec(r, env, fuel).1,
{
}

/// An undefined variable propagates the environment's own "unknown variable"
/// error, unchanged and unreclassified.
pub proof fn lemma_unknown_variable(name: String, env: EnvView, fuel: nat)
    requires
        lookup(env.vars, name@) is None,
    ensures
        eval_spec(Expression::Variable(name), env, fuel) == (
            Result::<ValueView, ErrorView>::Err(ErrorView::UnknownVariable(name@)),
            Seq::<CallView>::empty(),
        ),
{
}

} // verus!
