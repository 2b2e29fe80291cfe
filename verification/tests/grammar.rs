use expreval::errors::ErrorKind;
use expreval::expression::Expression;
use expreval::grammar;
use expreval::state::State;
use expreval::value::{Operator, Value};

#[test]
fn a_bare_integer_parses() {
    let e = grammar::expression("42").unwrap();
    assert_eq!(e, Expression::Value(Value::Int(42)));
}

#[test]
fn boolean_words_parse() {
    assert_eq!(
        grammar::expression("true").unwrap(),
        Expression::Value(Value::Bool(true))
    );
    assert_eq!(
        grammar::expression("false").unwrap(),
        Expression::Value(Value::Bool(false))
    );
}

#[test]
fn a_sum_parses_into_a_binary_operation() {
    let e = grammar::expression("1 + 2").unwrap();
    assert_eq!(
        e,
        Expression::OpExp(
            Box::new(Expression::Value(Value::Int(1))),
            Operator::Add,
            Box::new(Expression::Value(Value::Int(2))),
        )
    );
}

#[test]
fn chains_associate_to_the_left() {
    let e = grammar::expression("1 + 2 * 3").unwrap();
    let one_plus_two = Expression::OpExp(
        Box::new(Expression::Value(Value::Int(1))),
        Operator::Add,
        Box::new(Expression::Value(Value::Int(2))),
    );
    assert_eq!(
        e,
        Expression::OpExp(
            Box::new(one_plus_two),
            Operator::Multiply,
            Box::new(Expression::Value(Value::Int(3))),
        )
    );
}

#[test]
fn every_operator_token_is_recognised() {
    let mut state = State::new();
    let cases: Vec<(&str, Value)> = vec![
        ("7 - 2", Value::Int(5)),
        ("7 * 2", Value::Int(14)),
        ("7 / 2", Value::Int(3)),
        ("7 % 2", Value::Int(1)),
        ("7 == 7", Value::Bool(true)),
        ("3 < 2", Value::Bool(false)),
        ("3 > 2", Value::Bool(true)),
        ("2 <= 2", Value::Bool(true)),
        ("1 >= 2", Value::Bool(false)),
        ("3 << 2", Value::Int(12)),
        ("12 >> 2", Value::Int(3)),
        ("true && false", Value::Bool(false)),
        ("true || false", Value::Bool(true)),
    ];
    for (src, expected) in cases {
        let e = grammar::expression(src).unwrap();
        assert_eq!(e.evaluate(&mut state), Ok(expected), "source: {}", src);
    }
}

#[test]
fn eighteen_digits_parse_and_nineteen_do_not() {
    let e = grammar::expression("999999999999999999").unwrap();
    assert_eq!(e, Expression::Value(Value::Int(999_999_999_999_999_999)));
    assert!(grammar::expression("9999999999999999999").is_err());
}

#[test]
fn malformed_text_is_rejected() {
    for src in ["", " ", "1 +", "+ 1", "1 ? 2", "1  + 2", "1 + 2 ", "tru", "1a", "one"] {
        assert!(grammar::expression(src).is_err(), "source: {:?}", src);
    }
}

#[test]
fn the_syntax_error_wraps_the_parser_diagnostic() {
    let mut state = State::new();
    let m = match grammar::expression("1 +") {
        Err(m) => m,
        Ok(_) => panic!("expected a parse failure"),
    };
    let e = Expression::eval(Expression::Value(Value::Str(String::from("1 +"))));
    assert_eq!(e.evaluate(&mut state), Err(ErrorKind::SyntaxError(m)));
}
