use expreval::errors::ErrorKind;
use expreval::expression::Expression;
use expreval::state::{FunctionDef, State};
use expreval::value::{Kind, Operator, Value};

fn lit(n: i64) -> Expression {
    Expression::Value(Value::Int(n))
}

fn op(left: Expression, o: Operator, right: Expression) -> Expression {
    Expression::operator(left, o, right)
}

#[test]
fn literal_int_evaluates_to_itself() {
    let mut state = State::new();
    let r = Expression::Value(Value::Int(42)).evaluate(&mut state);
    assert_eq!(r, Ok(Value::Int(42)));
}

#[test]
fn literal_string_evaluates_to_itself() {
    let mut state = State::new();
    let r = Expression::Value(Value::Str(String::from("hi"))).evaluate(&mut state);
    assert_eq!(r, Ok(Value::Str(String::from("hi"))));
}

#[test]
fn literal_list_evaluates_to_itself() {
    let mut state = State::new();
    let list = Value::List(vec![Value::Int(1), Value::Bool(false), Value::Str(String::from("x"))]);
    let again = Value::List(vec![Value::Int(1), Value::Bool(false), Value::Str(String::from("x"))]);
    let r = Expression::Value(list).evaluate(&mut state);
    assert_eq!(r, Ok(again));
}

#[test]
fn literal_leaves_state_alone() {
    let mut state = State::new();
    let _ = Expression::Value(Value::Int(1)).evaluate(&mut state);
    assert!(state.call_log().is_empty());
}

#[test]
fn addition_of_integers() {
    let mut state = State::new();
    let r = op(lit(40), Operator::Add, lit(2)).evaluate(&mut state);
    assert_eq!(r, Ok(Value::Int(42)));
}

#[test]
fn arithmetic_exact_values() {
    let mut state = State::new();
    let cases: Vec<(Expression, i64)> = vec![
        (op(lit(7), Operator::Subtract, lit(10)), -3),
        (op(lit(6), Operator::Multiply, lit(-7)), -42),
        (op(lit(-7), Operator::Divide, lit(2)), -3),
        (op(lit(7), Operator::Divide, lit(-2)), -3),
        (op(lit(-7), Operator::Modulus, lit(2)), -1),
        (op(lit(7), Operator::Modulus, lit(-2)), 1),
        (op(lit(5), Operator::ShiftLeft, lit(2)), 20),
        (op(lit(20), Operator::ShiftRight, lit(2)), 5),
        (op(lit(-8), Operator::ShiftRight, lit(1)), -4),
    ];
    for (e, expected) in cases {
        assert_eq!(e.evaluate(&mut state), Ok(Value::Int(expected)));
    }
}

#[test]
fn comparisons_exact_values() {
    let mut state = State::new();
    let cases: Vec<(Expression, bool)> = vec![
        (op(lit(1), Operator::LessThan, lit(2)), true),
        (op(lit(2), Operator::LessThan, lit(2)), false),
        (op(lit(3), Operator::GreaterThan, lit(2)), true),
        (op(lit(2), Operator::LessThanEqual, lit(2)), true),
        (op(lit(2), Operator::GreaterThanEqual, lit(3)), false),
    ];
    for (e, expected) in cases {
        assert_eq!(e.evaluate(&mut state), Ok(Value::Bool(expected)));
    }
}

#[test]
fn boolean_operators_do_not_coerce() {
    let mut state = State::new();
    let t = Expression::Value(Value::Bool(true));
    let f = Expression::Value(Value::Bool(false));
    assert_eq!(
        op(t, Operator::And, f).evaluate(&mut state),
        Ok(Value::Bool(false))
    );
    let r = op(lit(1), Operator::And, Expression::Value(Value::Bool(true))).evaluate(&mut state);
    assert_eq!(
        r,
        Err(ErrorKind::UnexpectedType { expected: Kind::Bool, actual: Kind::Int })
    );
}

#[test]
fn kind_mismatch_yields_error_not_coercion() {
    let mut state = State::new();
    let list = Expression::Value(Value::List(vec![Value::Int(1)]));
    let r = op(lit(1), Operator::Add, list).evaluate(&mut state);
    assert_eq!(
        r,
        Err(ErrorKind::UnexpectedType { expected: Kind::Int, actual: Kind::List })
    );
    let s = Expression::Value(Value::Str(String::from("a")));
    let r2 = op(s, Operator::Multiply, lit(3)).evaluate(&mut state);
    assert_eq!(
        r2,
        Err(ErrorKind::UnexpectedType { expected: Kind::Int, actual: Kind::Str })
    );
}

#[test]
fn equality_is_reflexive_for_every_kind() {
    let mut state = State::new();
    let values = vec![
        Value::Int(-3),
        Value::Bool(true),
        Value::Str(String::from("abc")),
        Value::List(vec![Value::Int(1), Value::List(vec![Value::Bool(false)])]),
    ];
    for v in values {
        let w = match &v {
            Value::Int(n) => Value::Int(*n),
            _ => v.duplicate(),
        };
        let e = op(Expression::Value(v), Operator::Equality, Expression::Value(w));
        assert_eq!(e.evaluate(&mut state), Ok(Value::Bool(true)));
    }
}

#[test]
fn equality_is_false_across_kinds() {
    let mut state = State::new();
    let e = op(lit(1), Operator::Equality, Expression::Value(Value::Bool(true)));
    assert_eq!(e.evaluate(&mut state), Ok(Value::Bool(false)));
    let e2 = op(
        Expression::Value(Value::Str(String::from("1"))),
        Operator::Equality,
        lit(1),
    );
    assert_eq!(e2.evaluate(&mut state), Ok(Value::Bool(false)));
}

#[test]
fn equality_distinguishes_contents() {
    let mut state = State::new();
    let a = Expression::Value(Value::List(vec![Value::Int(1), Value::Int(2)]));
    let b = Expression::Value(Value::List(vec![Value::Int(1), Value::Int(3)]));
    assert_eq!(
        op(a, Operator::Equality, b).evaluate(&mut state),
        Ok(Value::Bool(false))
    );
}

#[test]
fn not_is_an_involution_on_booleans() {
    let mut state = State::new();
    let e = Expression::not(Expression::not(Expression::Value(Value::Bool(true))));
    assert_eq!(e.evaluate(&mut state), Ok(Value::Bool(true)));
}

#[test]
fn not_rejects_non_booleans() {
    let mut state = State::new();
    let e = Expression::not(lit(5));
    assert_eq!(
        e.evaluate(&mut state),
        Err(ErrorKind::UnexpectedType { expected: Kind::Bool, actual: Kind::Int })
    );
}

#[test]
fn list_length_of_three_element_list() {
    let mut state = State::new();
    state.set_var(
        "xs",
        Value::List(vec![Value::Int(1), Value::Int(2), Value::Int(3)]),
    );
    let r = Expression::list_length("xs").evaluate(&mut state);
    assert_eq!(r, Ok(Value::Int(3)));
}

#[test]
fn list_length_of_four_character_string() {
    let mut state = State::new();
    state.set_var("s", Value::Str(String::from("four")));
    let r = Expression::list_length("s").evaluate(&mut state);
    assert_eq!(r, Ok(Value::Int(4)));
}

#[test]
fn list_length_of_integer_is_unindexable() {
    let mut state = State::new();
    state.set_var("n", Value::Int(9));
    let r = Expression::list_length("n").evaluate(&mut state);
    assert_eq!(r, Err(ErrorKind::IndexUnindexable(Kind::Int)));
}

#[test]
fn list_index_reads_elements() {
    let mut state = State::new();
    state.set_var(
        "xs",
        Value::List(vec![Value::Int(10), Value::Int(20), Value::Int(30)]),
    );
    let r = Expression::list_index("xs", lit(1)).evaluate(&mut state);
    assert_eq!(r, Ok(Value::Int(20)));
}

#[test]
fn string_index_yields_one_character_string() {
    let mut state = State::new();
    state.set_var("s", Value::Str(String::from("abcd")));
    let r = Expression::list_index("s", lit(2)).evaluate(&mut state);
    assert_eq!(r, Ok(Value::Str(String::from("c"))));
}

#[test]
fn list_index_out_of_bounds() {
    let mut state = State::new();
    state.set_var("xs", Value::List(vec![Value::Int(1)]));
    let r = Expression::list_index("xs", lit(5)).evaluate(&mut state);
    assert_eq!(r, Err(ErrorKind::IndexOutOfBounds(5)));
    let r2 = Expression::list_index("xs", lit(-1)).evaluate(&mut state);
    assert_eq!(r2, Err(ErrorKind::IndexOutOfBounds(-1)));
}

#[test]
fn list_index_on_boolean_is_unindexable() {
    let mut state = State::new();
    state.set_var("b", Value::Bool(true));
    let r = Expression::list_index("b", lit(0)).evaluate(&mut state);
    assert_eq!(r, Err(ErrorKind::IndexUnindexable(Kind::Bool)));
}

#[test]
fn list_index_requires_integer_index() {
    let mut state = State::new();
    state.set_var("xs", Value::List(vec![Value::Int(1)]));
    let idx = Expression::Value(Value::Bool(true));
    let r = Expression::list_index("xs", idx).evaluate(&mut state);
    assert_eq!(
        r,
        Err(ErrorKind::UnexpectedType { expected: Kind::Int, actual: Kind::Bool })
    );
}

#[test]
fn variable_lookup_reads_the_newest_binding() {
    let mut state = State::new();
    state.set_var("x", Value::Int(1));
    state.set_var("x", Value::Int(2));
    let r = Expression::variable("x").evaluate(&mut state);
    assert_eq!(r, Ok(Value::Int(2)));
}

#[test]
fn unknown_variable_error_is_propagated_unchanged() {
    let mut state = State::new();
    let r = Expression::variable("missing").evaluate(&mut state);
    assert_eq!(r, Err(ErrorKind::UnknownVariable(String::from("missing"))));
}

#[test]
fn divide_by_zero_is_reported() {
    let mut state = State::new();
    assert_eq!(
        op(lit(5), Operator::Divide, lit(0)).evaluate(&mut state),
        Err(ErrorKind::DivideByZero)
    );
    assert_eq!(
        op(lit(5), Operator::Modulus, lit(0)).evaluate(&mut state),
        Err(ErrorKind::DivideByZero)
    );
}

#[test]
fn overflow_is_reported() {
    let mut state = State::new();
    assert_eq!(
        op(lit(i64::MAX), Operator::Add, lit(1)).evaluate(&mut state),
        Err(ErrorKind::IntegerOverflow)
    );
    assert_eq!(
        op(lit(i64::MIN), Operator::Divide, lit(-1)).evaluate(&mut state),
        Err(ErrorKind::IntegerOverflow)
    );
    assert_eq!(
        op(lit(i64::MIN), Operator::Modulus, lit(-1)).evaluate(&mut state),
        Err(ErrorKind::IntegerOverflow)
    );
}

#[test]
fn bad_shift_amounts_are_reported() {
    let mut state = State::new();
    assert_eq!(
        op(lit(1), Operator::ShiftLeft, lit(64)).evaluate(&mut state),
        Err(ErrorKind::InvalidShift(64))
    );
    assert_eq!(
        op(lit(1), Operator::ShiftRight, lit(-1)).evaluate(&mut state),
        Err(ErrorKind::InvalidShift(-1))
    );
}

#[test]
fn try_int_on_integer_returns_it() {
    let mut state = State::new();
    assert_eq!(lit(7).try_int(&mut state), Ok(7));
}

#[test]
fn try_int_on_boolean_reports_the_kind() {
    let mut state = State::new();
    let e = Expression::Value(Value::Bool(true));
    assert_eq!(
        e.try_int(&mut state),
        Err(ErrorKind::UnexpectedType { expected: Kind::Int, actual: Kind::Bool })
    );
}

#[test]
fn try_bool_on_boolean_returns_it() {
    let mut state = State::new();
    let e = Expression::Value(Value::Bool(false));
    assert_eq!(e.try_bool(&mut state), Ok(false));
}

#[test]
fn try_bool_on_string_reports_the_kind() {
    let mut state = State::new();
    let e = Expression::Value(Value::Str(String::from("t")));
    assert_eq!(
        e.try_bool(&mut state),
        Err(ErrorKind::UnexpectedType { expected: Kind::Bool, actual: Kind::Str })
    );
}

#[test]
fn function_call_yields_the_stub_value_and_is_logged() {
    let mut state = State::new();
    state.define_function("f", FunctionDef { arity: 0, result: Value::Int(5) });
    let e = Expression::FunctionCall(String::from("f"), vec![]);
    assert_eq!(e.evaluate(&mut state), Ok(Value::Int(5)));
    let log = state.call_log();
    assert_eq!(log.len(), 1);
    assert_eq!(log[0].0, String::from("f"));
    assert!(log[0].1.is_empty());
}

#[test]
fn function_arguments_are_evaluated_and_recorded() {
    let mut state = State::new();
    state.set_var("x", Value::Int(4));
    state.define_function("f", FunctionDef { arity: 2, result: Value::Bool(true) });
    let e = Expression::FunctionCall(
        String::from("f"),
        vec![op(lit(1), Operator::Add, lit(2)), Expression::variable("x")],
    );
    assert_eq!(e.evaluate(&mut state), Ok(Value::Bool(true)));
    let log = state.call_log();
    assert_eq!(log.len(), 1);
    assert_eq!(log[0].1, vec![Value::Int(3), Value::Int(4)]);
}

#[test]
fn unknown_function_is_reported() {
    let mut state = State::new();
    let e = Expression::FunctionCall(String::from("g"), vec![]);
    assert_eq!(
        e.evaluate(&mut state),
        Err(ErrorKind::UnknownFunction(String::from("g")))
    );
}

#[test]
fn arity_mismatch_is_reported() {
    let mut state = State::new();
    state.define_function("f", FunctionDef { arity: 1, result: Value::Int(0) });
    let e = Expression::FunctionCall(String::from("f"), vec![]);
    assert_eq!(
        e.evaluate(&mut state),
        Err(ErrorKind::ArityMismatch { expected: 1, actual: 0 })
    );
}

#[test]
fn both_operands_run_even_when_or_could_short_circuit() {
    let mut state = State::new();
    state.define_function("f", FunctionDef { arity: 0, result: Value::Bool(true) });
    state.define_function("g", FunctionDef { arity: 0, result: Value::Bool(false) });
    let e = op(
        Expression::FunctionCall(String::from("f"), vec![]),
        Operator::Or,
        Expression::FunctionCall(String::from("g"), vec![]),
    );
    assert_eq!(e.evaluate(&mut state), Ok(Value::Bool(true)));
    let log = state.call_log();
    assert_eq!(log.len(), 2);
    assert_eq!(log[0].0, String::from("f"));
    assert_eq!(log[1].0, String::from("g"));
}

#[test]
fn both_operands_run_even_when_the_operator_fails() {
    let mut state = State::new();
    state.define_function("f", FunctionDef { arity: 0, result: Value::Int(1) });
    state.define_function("g", FunctionDef { arity: 0, result: Value::Bool(true) });
    let e = op(
        Expression::FunctionCall(String::from("f"), vec![]),
        Operator::Add,
        Expression::FunctionCall(String::from("g"), vec![]),
    );
    assert_eq!(
        e.evaluate(&mut state),
        Err(ErrorKind::UnexpectedType { expected: Kind::Int, actual: Kind::Bool })
    );
    assert_eq!(state.call_log().len(), 2);
}

#[test]
fn eval_of_a_sum_string() {
    let mut state = State::new();
    let e = Expression::eval(Expression::Value(Value::Str(String::from("1 + 2"))));
    assert_eq!(e.evaluate(&mut state), Ok(Value::Int(3)));
}

#[test]
fn eval_of_a_non_string_reports_the_kind() {
    let mut state = State::new();
    let e = Expression::eval(lit(5));
    assert_eq!(
        e.evaluate(&mut state),
        Err(ErrorKind::UnexpectedType { expected: Kind::Str, actual: Kind::Int })
    );
}

#[test]
fn eval_of_a_malformed_string_is_a_syntax_error() {
    let mut state = State::new();
    let e = Expression::eval(Expression::Value(Value::Str(String::from("1 +"))));
    match e.evaluate(&mut state) {
        Err(ErrorKind::SyntaxError(_)) => {},
        other => panic!("expected a syntax error, got {:?}", other),
    }
}

#[test]
fn eval_sees_the_same_environment() {
    let mut state = State::new();
    state.set_var("s", Value::Str(String::from("2 * 21")));
    let e = Expression::eval(Expression::variable("s"));
    assert_eq!(e.evaluate(&mut state), Ok(Value::Int(42)));
}

#[test]
fn re_entry_budget_of_zero_refuses_eval() {
    let mut state = State::new();
    let e = Expression::eval(Expression::Value(Value::Str(String::from("1"))));
    assert_eq!(
        e.evaluate_depth(&mut state, 0),
        Err(ErrorKind::DepthLimitExceeded)
    );
}

#[test]
fn builders_build_the_variants() {
    let n = Expression::new(Value::Int(1));
    assert_eq!(n, Expression::Value(Value::Int(1)));
    let v = Expression::value(Value::Bool(true));
    assert_eq!(v, Expression::Value(Value::Bool(true)));
    let x = Expression::variable("x");
    assert_eq!(x, Expression::Variable(String::from("x")));
    let l = Expression::list_length("xs");
    assert_eq!(l, Expression::ListLength(String::from("xs")));
    let o = Expression::operator(
        Expression::new(Value::Int(1)),
        Operator::Add,
        Expression::new(Value::Int(2)),
    );
    assert_eq!(
        o,
        Expression::OpExp(
            Box::new(Expression::Value(Value::Int(1))),
            Operator::Add,
            Box::new(Expression::Value(Value::Int(2))),
        )
    );
    let ix = Expression::list_index("xs", Expression::new(Value::Int(0)));
    assert_eq!(
        ix,
        Expression::ListIndex(
            String::from("xs"),
            Box::new(Expression::Value(Value::Int(0))),
        )
    );
    let ne = Expression::not(Expression::new(Value::Bool(false)));
    assert_eq!(
        ne,
        Expression::Not(Box::new(Expression::Value(Value::Bool(false))))
    );
    let fr = Expression::from(Value::Int(9));
    assert_eq!(fr, Expression::Value(Value::Int(9)));
    let ev = Expression::eval(Expression::new(Value::Str(String::from("1"))));
    assert_eq!(
        ev,
        Expression::Eval(Box::new(Expression::Value(Value::Str(String::from("1")))))
    );
}
