use expreval::errors::ErrorKind;
use expreval::value::{val_eq, Kind, Value};

#[test]
fn get_type_names_every_kind() {
    assert_eq!(Value::Int(0).get_type(), Kind::Int);
    assert_eq!(Value::Bool(true).get_type(), Kind::Bool);
    assert_eq!(Value::Str(String::new()).get_type(), Kind::Str);
    assert_eq!(Value::List(vec![]).get_type(), Kind::List);
}

#[test]
fn duplicate_is_structurally_equal() {
    let v = Value::List(vec![
        Value::Int(1),
        Value::Str(String::from("two")),
        Value::List(vec![Value::Bool(true)]),
    ]);
    let w = v.duplicate();
    assert_eq!(v, w);
    assert!(val_eq(&v, &w));
}

#[test]
fn deep_equality_sees_nested_differences() {
    let v = Value::List(vec![Value::List(vec![Value::Int(1)])]);
    let w = Value::List(vec![Value::List(vec![Value::Int(2)])]);
    assert!(!val_eq(&v, &w));
}

#[test]
fn equals_is_total_over_kind_pairs() {
    let samples = [
        Value::Int(1),
        Value::Bool(true),
        Value::Str(String::from("1")),
        Value::List(vec![Value::Int(1)]),
    ];
    for a in &samples {
        for b in &samples {
            let same = a.equals(b);
            assert_eq!(same, Value::Bool(val_eq(a, b)));
        }
    }
}

#[test]
fn operator_methods_report_mismatches() {
    let one = Value::Int(1);
    let yes = Value::Bool(true);
    assert_eq!(
        one.and(&yes),
        Err(ErrorKind::UnexpectedType { expected: Kind::Bool, actual: Kind::Int })
    );
    assert_eq!(
        yes.add(&one),
        Err(ErrorKind::UnexpectedType { expected: Kind::Int, actual: Kind::Bool })
    );
    assert_eq!(
        yes.not(),
        Ok(Value::Bool(false))
    );
    assert_eq!(
        one.not(),
        Err(ErrorKind::UnexpectedType { expected: Kind::Bool, actual: Kind::Int })
    );
}

#[test]
fn shift_methods_match_two_complement_arithmetic() {
    let a = Value::Int(-1);
    let by = Value::Int(1);
    assert_eq!(a.shift_left(&by), Ok(Value::Int(-2)));
    assert_eq!(a.shift_right(&by), Ok(Value::Int(-1)));
}
