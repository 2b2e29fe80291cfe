//! Runtime values: a closed set of kinds (integer, boolean, string, list),
//! each carrying a queryable kind tag, with one method per binary operator.

use vstd::prelude::*;

use crate::errors::{ErrorKind, ErrorView};

verus! {

/// The kind tag of a runtime value.
#[derive(Clone, Copy, Debug, PartialEq, Eq, Structural)]
pub enum Kind {
    Int,
    Bool,
    Str,
    List,
}

/// A runtime value. Lists and strings are the only variable-size kinds.
#[derive(Debug, PartialEq)]
pub enum Value {
    Int(i64),
    Bool(bool),
    Str(String),
    List(Vec<Value>),
}

/// The mathematical model of a `Value`: strings become character sequences
/// and lists become sequences of models.
pub enum ValueView {
    Int(i64),
    Bool(bool),
    Str(Seq<char>),
    List(Seq<ValueView>),
}

/// The model of a runtime value.
pub open spec fn value_view(v: Value) -> ValueView
    decreases v,
{
    match v {
        Value::Int(i) => ValueView::Int(i),
        Value::Bool(b) => ValueView::Bool(b),
        Value::Str(s) => ValueView::Str(s@),
        Value::List(l) => ValueView::List(
            Seq::new(
                l@.len(),
                |i: int| if 0 <= i < l@.len() { value_view(l@[i]) } else { ValueView::Bool(false) },
            ),
        ),
    }
}

impl View for Value {
    type V = ValueView;

    open spec fn view(&self) -> ValueView {
        value_view(*self)
    }
}

/// The closed set of binary operators. Each maps to exactly one `Value`
/// method; the mapping is total, though most actions fail on some kind pairs.
#[derive(Clone, Copy, Debug, PartialEq, Eq, Structural)]
pub enum Operator {
    Add,
    Subtract,
    Multiply,
    Divide,
    Equality,
    LessThan,
    GreaterThan,
    LessThanEqual,
    GreaterThanEqual,
    ShiftLeft,
    ShiftRight,
    And,
    Or,
    Modulus,
}

/// The kind tag of a modelled value.
pub open spec fn kind_of(v: ValueView) -> Kind {
    match v {
        ValueView::Int(_) => Kind::Int,
        ValueView::Bool(_) => Kind::Bool,
        ValueView::Str(_) => Kind::Str,
        ValueView::List(_) => Kind::List,
    }
}

impl Value {
    /// The kind tag of this value.
    pub fn get_type(&self) -> (k: Kind)
        ensures
            k == kind_of(self@),
    {
        match self {
            Value::Int(_) => Kind::Int,
            Value::Bool(_) => Kind::Bool,
            Value::Str(_) => Kind::Str,
            Value::List(_) => Kind::List,
        }
    }

    /// A structurally equal copy of this value.
    #[verifier::loop_isolation(false)]
    pub fn duplicate(&self) -> (r: Value)
        ensures
            r@ == self@,
        decreases *self,
    {
        match self {
            Value::Int(i) => Value::Int(*i),
            Value::Bool(b) => Value::Bool(*b),
            Value::Str(s) => Value::Str(s.clone()),
            Value::List(l) => {
                let mut out: Vec<Value> = Vec::new();
                let mut i: usize = 0;
                while i < l.len()
                    invariant
                        i <= l.len(),
                        out@.len() == i as nat,
                        forall|k: int| 0 <= k < i ==> out@[k]@ == l@[k]@,
                    decreases l.len() - i,
                {
                    proof {
                        assert(*self == Value::List(*l));
                        assert(decreases_to!(Value::List(*l) => *l));
                        assert(decreases_to!(*l => l[i as int]));
                    }
                    let c = l[i].duplicate();
                    out.push(c);
                    i = i + 1;
                }
                proof {
                    assert(value_view(Value::List(out)) matches ValueView::List(s1));
                    let s1 = value_view(Value::List(out))->List_0;
                    let s2 = self@->List_0;
                    assert(s1 =~= s2);
                }
                Value::List(out)
            },
        }
    }
}

/// Structural equality on values: `true` exactly when the models are equal.
#[verifier::loop_isolation(false)]
pub fn val_eq(a: &Value, b: &Value) -> (r: bool)
    ensures
        r == (a@ == b@),
    decreases *a,
{
    match a {
        Value::Int(x) => match b {
            Value::Int(y) => *x == *y,
            Value::Bool(_) => false,
            Value::Str(_) => false,
            Value::List(_) => false,
        },
        Value::Bool(x) => match b {
            Value::Bool(y) => *x == *y,
            Value::Int(_) => false,
            Value::Str(_) => false,
            Value::List(_) => false,
        },
        Value::Str(x) => match b {
            Value::Str(y) => *x == *y,
            Value::Int(_) => false,
            Value::Bool(_) => false,
            Value::List(_) => false,
        },
        Value::List(x) => match b {
            Value::List(y) => {
                let ghost sa = a@->List_0;
                let ghost sb = b@->List_0;
                if x.len() != y.len() {
                    assert(sa.len() != sb.len());
                    return false;
                }
                let mut i: usize = 0;
                while i < x.len()
                    invariant
                        i <= x.len(),
                        x@.len() == y@.len(),
                        a@ == ValueView::List(sa),
                        b@ == ValueView::List(sb),
                        sa.len() == x@.len(),
                        sb.len() == y@.len(),
                        forall|k: int| 0 <= k < sa.len() ==> sa[k] == x@[k]@,
                        forall|k: int| 0 <= k < sb.len() ==> sb[k] == y@[k]@,
                        forall|k: int| 0 <= k < i ==> sa[k] == sb[k],
                    decreases x.len() - i,
                {
                    proof {
                        assert(*a == Value::List(*x));
                        assert(decreases_to!(Value::List(*x) => *x));
                        assert(decreases_to!(*x => x[i as int]));
                    }
                    if !val_eq(&x[i], &y[i]) {
                        assert(sa[i as int] != sb[i as int]);
                        return false;
                    }
                    i = i + 1;
                }
                assert(sa =~= sb);
                true
            },
            Value::Int(_) => false,
            Value::Bool(_) => false,
            Value::Str(_) => false,
        },
    }
}

/// The model of an evaluator result.
pub open spec fn result_view(r: Result<Value, ErrorKind>) -> Result<ValueView, ErrorView> {
    match r {
        Ok(v) => Ok(v@),
        Err(e) => Err(e@),
    }
}

/// Both operands must be integers; otherwise the offending kind is reported.
pub open spec fn int_bin_operands(l: ValueView, r: ValueView) -> Result<(i64, i64), ErrorView> {
    match l {
        ValueView::Int(a) => match r {
            ValueView::Int(b) => Ok((a, b)),
            _ => Err(ErrorView::UnexpectedType { expected: Kind::Int, actual: kind_of(r) }),
        },
        _ => Err(ErrorView::UnexpectedType { expected: Kind::Int, actual: kind_of(l) }),
    }
}

/// Both operands must be booleans; otherwise the offending kind is reported.
pub open spec fn bool_bin_operands(l: ValueView, r: ValueView) -> Result<(bool, bool), ErrorView> {
    match l {
        ValueView::Bool(a) => match r {
            ValueView::Bool(b) => Ok((a, b)),
            _ => Err(ErrorView::UnexpectedType { expected: Kind::Bool, actual: kind_of(r) }),
        },
        _ => Err(ErrorView::UnexpectedType { expected: Kind::Bool, actual: kind_of(l) }),
    }
}

/// Division with truncation toward zero, as the integer kind performs it.
pub open spec fn div_trunc(x: int, d: int) -> int {
    if x == 0 {
        0
    } else if x > 0 && d > 0 {
        x / d
    } else if x < 0 && d < 0 {
        (x * -1) / (d * -1)
    } else if x < 0 {
        ((x * -1) / d) * -1
    } else {
        (x / (d * -1)) * -1
    }
}

/// The remainder matching truncating division: same sign as the dividend.
pub open spec fn rem_trunc(x: int, d: int) -> int {
    if x == 0 {
        0
    } else if x > 0 && d > 0 {
        x % d
    } else if x < 0 && d < 0 {
        ((x * -1) % (d * -1)) * -1
    } else if x < 0 {
        ((x * -1) % d) * -1
    } else {
        x % (d * -1)
    }
}

/// An integer result, or an overflow error when it does not fit the kind.
pub open spec fn int_result(n: int) -> Result<ValueView, ErrorView> {
    if i64::MIN <= n <= i64::MAX {
        Ok(ValueView::Int(n as i64))
    } else {
        Err(ErrorView::IntegerOverflow)
    }
}

/// What one application of a binary operator returns: `Equality` is total,
/// every other operator demands matching integer or boolean operands and can
/// report a domain error (division by zero, overflow, a bad shift amount).
pub open spec fn apply_op(op: Operator, l: ValueView, r: ValueView) -> Result<
    ValueView,
    ErrorView,
> {
    match op {
        Operator::Equality => Ok(ValueView::Bool(l == r)),
        Operator::Add => match int_bin_operands(l, r) {
            Ok((a, b)) => int_result(a + b),
            Err(e) => Err(e),
        },
        Operator::Subtract => match int_bin_operands(l, r) {
            Ok((a, b)) => int_result(a - b),
            Err(e) => Err(e),
        },
        Operator::Multiply => match int_bin_operands(l, r) {
            Ok((a, b)) => int_result(a * b),
            Err(e) => Err(e),
        },
        Operator::Divide => match int_bin_operands(l, r) {
            Ok((a, b)) => if b == 0 {
                Err(ErrorView::DivideByZero)
            } else {
                int_result(div_trunc(a as int, b as int))
            },
            Err(e) => Err(e),
        },
        Operator::Modulus => match int_bin_operands(l, r) {
            Ok((a, b)) => if b == 0 {
                Err(ErrorView::DivideByZero)
            } else if a == i64::MIN && b == -1 {
                Err(ErrorView::IntegerOverflow)
            } else {
                Ok(ValueView::Int(rem_trunc(a as int, b as int) as i64))
            },
            Err(e) => Err(e),
        },
        Operator::LessThan => match int_bin_operands(l, r) {
            Ok((a, b)) => Ok(ValueView::Bool(a < b)),
            Err(e) => Err(e),
        },
        Operator::GreaterThan => match int_bin_operands(l, r) {
            Ok((a, b)) => Ok(ValueView::Bool(a > b)),
            Err(e) => Err(e),
        },
        Operator::LessThanEqual => match int_bin_operands(l, r) {
            Ok((a, b)) => Ok(ValueView::Bool(a <= b)),
            Err(e) => Err(e),
        },
        Operator::GreaterThanEqual => match int_bin_operands(l, r) {
            Ok((a, b)) => Ok(ValueView::Bool(a >= b)),
            Err(e) => Err(e),
        },
        Operator::ShiftLeft => match int_bin_operands(l, r) {
            Ok((a, b)) => if 0 <= b < 64 {
                Ok(ValueView::Int(a << b))
            } else {
                Err(ErrorView::InvalidShift(b))
            },
            Err(e) => Err(e),
        },
        Operator::ShiftRight => match int_bin_operands(l, r) {
            Ok((a, b)) => if 0 <= b < 64 {
                Ok(ValueView::Int(a >> b))
            } else {
                Err(ErrorView::InvalidShift(b))
            },
            Err(e) => Err(e),
        },
        Operator::And => match bool_bin_operands(l, r) {
            Ok((a, b)) => Ok(ValueView::Bool(a && b)),
            Err(e) => Err(e),
        },
        Operator::Or => match bool_bin_operands(l, r) {
            Ok((a, b)) => Ok(ValueView::Bool(a || b)),
            Err(e) => Err(e),
        },
    }
}

/// What boolean negation returns: defined on booleans only.
pub open spec fn apply_not(v: ValueView) -> Result<ValueView, ErrorView> {
    match v {
        ValueView::Bool(b) => Ok(ValueView::Bool(!b)),
        _ => Err(ErrorView::UnexpectedType { expected: Kind::Bool, actual: kind_of(v) }),
    }
}

impl Value {
    /// Extract two integer operands, or report the first non-integer kind.
    fn int_operands(&self, other: &Value) -> (r: Result<(i64, i64), ErrorKind>)
        ensures
            match (r, int_bin_operands(self@, other@)) {
                (Ok(p), Ok(q)) => p == q,
                (Err(e), Err(ev)) => e@ == ev,
                _ => false,
            },
    {
        let a: i64 = match self {
            Value::Int(a) => *a,
            Value::Bool(_) => {
                return Err(
                    ErrorKind::UnexpectedType { expected: Kind::Int, actual: Kind::Bool },
                );
            },
            Value::Str(_) => {
                return Err(ErrorKind::UnexpectedType { expected: Kind::Int, actual: Kind::Str });
            },
            Value::List(_) => {
                return Err(ErrorKind::UnexpectedType { expected: Kind::Int, actual: Kind::List });
            },
        };
        let b: i64 = match other {
            Value::Int(b) => *b,
            Value::Bool(_) => {
                return Err(
                    ErrorKind::UnexpectedType { expected: Kind::Int, actual: Kind::Bool },
                );
            },
            Value::Str(_) => {
                return Err(ErrorKind::UnexpectedType { expected: Kind::Int, actual: Kind::Str });
            },
            Value::List(_) => {
                return Err(ErrorKind::UnexpectedType { expected: Kind::Int, actual: Kind::List });
            },
        };
        Ok((a, b))
    }

    /// Extract two boolean operands, or report the first non-boolean kind.
    fn bool_operands(&self, other: &Value) -> (r: Result<(bool, bool), ErrorKind>)
        ensures
            match (r, bool_bin_operands(self@, other@)) {
                (Ok(p), Ok(q)) => p == q,
                (Err(e), Err(ev)) => e@ == ev,
                _ => false,
            },
    {
        let a: bool = match self {
            Value::Bool(a) => *a,
            Value::Int(_) => {
                return Err(ErrorKind::UnexpectedType { expected: Kind::Bool, actual: Kind::Int });
            },
            Value::Str(_) => {
                return Err(ErrorKind::UnexpectedType { expected: Kind::Bool, actual: Kind::Str });
            },
            Value::List(_) => {
                return Err(
                    ErrorKind::UnexpectedType { expected: Kind::Bool, actual: Kind::List },
                );
            },
        };
        let b: bool = match other {
            Value::Bool(b) => *b,
            Value::Int(_) => {
                return Err(ErrorKind::UnexpectedType { expected: Kind::Bool, actual: Kind::Int });
            },
            Value::Str(_) => {
                return Err(ErrorKind::UnexpectedType { expected: Kind::Bool, actual: Kind::Str });
            },
            Value::List(_) => {
                return Err(
                    ErrorKind::UnexpectedType { expected: Kind::Bool, actual: Kind::List },
                );
            },
        };
        Ok((a, b))
    }

    /// Addition on integers, reporting overflow.
    pub fn add(&self, other: &Value) -> (r: Result<Value, ErrorKind>)
        ensures
            result_view(r) == apply_op(Operator::Add, self@, other@),
    {
        match self.int_operands(other) {
            Err(e) => Err(e),
            Ok((a, b)) => match a.checked_add(b) {
                Some(c) => Ok(Value::Int(c)),
                None => Err(ErrorKind::IntegerOverflow),
            },
        }
    }

    /// Subtraction on integers, reporting overflow.
    pub fn subtract(&self, other: &Value) -> (r: Result<Value, ErrorKind>)
        ensures
            result_view(r) == apply_op(Operator::Subtract, self@, other@),
    {
        match self.int_operands(other) {
            Err(e) => Err(e),
            Ok((a, b)) => match a.checked_sub(b) {
                Some(c) => Ok(Value::Int(c)),
                None => Err(ErrorKind::IntegerOverflow),
            },
        }
    }

    /// Multiplication on integers, reporting overflow.
    pub fn multiply(&self, other: &Value) -> (r: Result<Value, ErrorKind>)
        ensures
            result_view(r) == apply_op(Operator::Multiply, self@, other@),
    {
        match self.int_operands(other) {
            Err(e) => Err(e),
            Ok((a, b)) => match a.checked_mul(b) {
                Some(c) => Ok(Value::Int(c)),
                None => Err(ErrorKind::IntegerOverflow),
            },
        }
    }

    /// Division on integers, truncating toward zero; zero divisors and the
    /// one overflowing quotient are reported.
    pub fn divide(&self, other: &Value) -> (r: Result<Value, ErrorKind>)
        ensures
            result_view(r) == apply_op(Operator::Divide, self@, other@),
    {
        match self.int_operands(other) {
            Err(e) => Err(e),
            Ok((a, b)) => if b == 0 {
                Err(ErrorKind::DivideByZero)
            } else {
                match a.checked_div(b) {
                    Some(q) => Ok(Value::Int(q)),
                    None => Err(ErrorKind::IntegerOverflow),
                }
            },
        }
    }

    /// Remainder of truncating division; zero divisors are reported.
    pub fn modulus(&self, other: &Value) -> (r: Result<Value, ErrorKind>)
        ensures
            result_view(r) == apply_op(Operator::Modulus, self@, other@),
    {
        match self.int_operands(other) {
            Err(e) => Err(e),
            Ok((a, b)) => if b == 0 {
                Err(ErrorKind::DivideByZero)
            } else {
                match a.checked_rem(b) {
                    Some(q) => Ok(Value::Int(q)),
                    None => Err(ErrorKind::IntegerOverflow),
                }
            },
        }
    }

    /// Structural equality as a value: total over every pair of kinds.
    pub fn equals(&self, other: &Value) -> (r: Value)
        ensures
            r@ == ValueView::Bool(self@ == other@),
            apply_op(Operator::Equality, self@, other@) == Ok::<ValueView, ErrorView>(r@),
    {
        Value::Bool(val_eq(self, other))
    }

    /// Strict order on integers.
    pub fn less_than(&self, other: &Value) -> (r: Result<Value, ErrorKind>)
        ensures
            result_view(r) == apply_op(Operator::LessThan, self@, other@),
    {
        match self.int_operands(other) {
            Err(e) => Err(e),
            Ok((a, b)) => Ok(Value::Bool(a < b)),
        }
    }

    /// Strict reverse order on integers.
    pub fn greater_than(&self, other: &Value) -> (r: Result<Value, ErrorKind>)
        ensures
            result_view(r) == apply_op(Operator::GreaterThan, self@, other@),
    {
        match self.int_operands(other) {
            Err(e) => Err(e),
            Ok((a, b)) => Ok(Value::Bool(a > b)),
        }
    }

    /// Order on integers.
    pub fn less_than_equal(&self, other: &Value) -> (r: Result<Value, ErrorKind>)
        ensures
            result_view(r) == apply_op(Operator::LessThanEqual, self@, other@),
    {
        match self.int_operands(other) {
            Err(e) => Err(e),
            Ok((a, b)) => Ok(Value::Bool(a <= b)),
        }
    }

    /// Reverse order on integers.
    pub fn greater_than_equal(&self, other: &Value) -> (r: Result<Value, ErrorKind>)
        ensures
            result_view(r) == apply_op(Operator::GreaterThanEqual, self@, other@),
    {
        match self.int_operands(other) {
            Err(e) => Err(e),
            Ok((a, b)) => Ok(Value::Bool(a >= b)),
        }
    }

    /// Left shift on integers; amounts outside the kind's width are reported.
    pub fn shift_left(&self, other: &Value) -> (r: Result<Value, ErrorKind>)
        ensures
            result_view(r) == apply_op(Operator::ShiftLeft, self@, other@),
    {
        match self.int_operands(other) {
            Err(e) => Err(e),
            Ok((a, b)) => if 0 <= b && b < 64 {
                Ok(Value::Int(a << b))
            } else {
                Err(ErrorKind::InvalidShift(b))
            },
        }
    }

    /// Arithmetic right shift on integers; bad amounts are reported.
    pub fn shift_right(&self, other: &Value) -> (r: Result<Value, ErrorKind>)
        ensures
            result_view(r) == apply_op(Operator::ShiftRight, self@, other@),
    {
        match self.int_operands(other) {
            Err(e) => Err(e),
            Ok((a, b)) => if 0 <= b && b < 64 {
                Ok(Value::Int(a >> b))
            } else {
                Err(ErrorKind::InvalidShift(b))
            },
        }
    }

    /// Conjunction on booleans. Both operands are already evaluated by the
    /// time this runs, so there is nothing to short-circuit.
    pub fn and(&self, other: &Value) -> (r: Result<Value, ErrorKind>)
        ensures
            result_view(r) == apply_op(Operator::And, self@, other@),
    {
        match self.bool_operands(other) {
            Err(e) => Err(e),
            Ok((a, b)) => Ok(Value::Bool(a && b)),
        }
    }

    /// Disjunction on booleans; both operands are already evaluated.
    pub fn or(&self, other: &Value) -> (r: Result<Value, ErrorKind>)
        ensures
            result_view(r) == apply_op(Operator::Or, self@, other@),
    {
        match self.bool_operands(other) {
            Err(e) => Err(e),
            Ok((a, b)) => Ok(Value::Bool(a || b)),
        }
    }

    /// Boolean negation; every other kind is reported.
    pub fn not(&self) -> (r: Result<Value, ErrorKind>)
        ensures
            result_view(r) == apply_not(self@),
    {
        match self {
            Value::Bool(b) => Ok(Value::Bool(!*b)),
            Value::Int(_) => Err(
                ErrorKind::UnexpectedType { expected: Kind::Bool, actual: Kind::Int },
            ),
            Value::Str(_) => Err(
                ErrorKind::UnexpectedType { expected: Kind::Bool, actual: Kind::Str },
            ),
            Value::List(_) => Err(
                ErrorKind::UnexpectedType { expected: Kind::Bool, actual: Kind::List },
            ),
        }
    }
}

} // verus!
