//! The grammar behind re-entrant evaluation: source text handed to `Eval` is
//! parsed here into a fresh expression tree.
//!
//! The accepted form is an atom followed by any number of operator-atom
//! pairs, with single spaces between tokens. An atom is an unsigned decimal
//! integer (at most eighteen digits) or one of `true` and `false`; operator
//! chains associate to the left with no precedence.

use vstd::prelude::*;

use crate::expression::Expression;
use crate::value::{Operator, Value};

verus! {

/// A decimal digit.
pub open spec fn is_digit(c: char) -> bool {
    48 <= c as u32 <= 57
}

/// The numeric value of a decimal digit.
pub open spec fn digit_val(c: char) -> int {
    c as u32 - 48
}

/// The first position at or after `i` holding a space, or the input's length.
pub open spec fn next_space(s: Seq<char>, i: int) -> int
    decreases s.len() - i,
{
    if 0 <= i < s.len() {
        if s[i] == ' ' {
            i
        } else {
            next_space(s, i + 1)
        }
    } else {
        s.len() as int
    }
}

pub proof fn lemma_next_space(s: Seq<char>, i: int)
    requires
        0 <= i <= s.len(),
    ensures
        i <= next_space(s, i) <= s.len(),
    decreases s.len() - i,
{
    if i < s.len() && s[i] != ' ' {
        lemma_next_space(s, i + 1);
    }
}

/// Every position in `[i, j)` holds a digit.
pub open spec fn all_digits(s: Seq<char>, i: int, j: int) -> bool {
    forall|k: int| i <= k < j ==> is_digit(#[trigger] s[k])
}

/// The number the digits at `[i, j)` denote.
pub open spec fn digits_val(s: Seq<char>, i: int, j: int) -> int
    decreases j - i,
{
    if i >= j {
        0
    } else {
        digits_val(s, i, j - 1) * 10 + digit_val(s[j - 1])
    }
}

/// Powers of ten.
pub open spec fn pow10(n: nat) -> int
    decreases n,
{
    if n == 0 {
        1
    } else {
        10 * pow10((n - 1) as nat)
    }
}

pub proof fn lemma_pow10_mono(a: nat, b: nat)
    requires
        a <= b,
    ensures
        1 <= pow10(a) <= pow10(b),
    decreases b,
{
    if a == b {
        lemma_pow10_pos(a);
    } else {
        lemma_pow10_mono(a, (b - 1) as nat);
    }
}

pub proof fn lemma_pow10_pos(n: nat)
    ensures
        pow10(n) >= 1,
    decreases n,
{
    if n > 0 {
        lemma_pow10_pos((n - 1) as nat);
    }
}

/// What the token at `[i, j)` denotes as an atom, if anything: one of the
/// boolean words, or an unsigned integer of at most eighteen digits (the
/// longest run that can never overflow the integer kind).
pub open spec fn atom_spec(s: Seq<char>, i: int, j: int) -> Option<Value> {
    if j - i == 4 && s[i] == 't' && s[i + 1] == 'r' && s[i + 2] == 'u' && s[i + 3] == 'e' {
        Some(Value::Bool(true))
    } else if j - i == 5 && s[i] == 'f' && s[i + 1] == 'a' && s[i + 2] == 'l' && s[i + 3] == 's'
        && s[i + 4] == 'e' {
        Some(Value::Bool(false))
    } else if i < j && j - i <= 18 && all_digits(s, i, j) {
        Some(Value::Int(digits_val(s, i, j) as i64))
    } else {
        None
    }
}

/// Which operator the token at `[i, j)` names, if any.
pub open spec fn op_spec(s: Seq<char>, i: int, j: int) -> Option<Operator> {
    if j - i == 1 {
        if s[i] == '+' {
            Some(Operator::Add)
        } else if s[i] == '-' {
            Some(Operator::Subtract)
        } else if s[i] == '*' {
            Some(Operator::Multiply)
        } else if s[i] == '/' {
            Some(Operator::Divide)
        } else if s[i] == '%' {
            Some(Operator::Modulus)
        } else if s[i] == '<' {
            Some(Operator::LessThan)
        } else if s[i] == '>' {
            Some(Operator::GreaterThan)
        } else {
            None
        }
    } else if j - i == 2 {
        if s[i] == '=' && s[i + 1] == '=' {
            Some(Operator::Equality)
        } else if s[i] == '<' && s[i + 1] == '=' {
            Some(Operator::LessThanEqual)
        } else if s[i] == '>' && s[i + 1] == '=' {
            Some(Operator::GreaterThanEqual)
        } else if s[i] == '<' && s[i + 1] == '<' {
            Some(Operator::ShiftLeft)
        } else if s[i] == '>' && s[i + 1] == '>' {
            Some(Operator::ShiftRight)
        } else if s[i] == '&' && s[i + 1] == '&' {
            Some(Operator::And)
        } else if s[i] == '|' && s[i + 1] == '|' {
            Some(Operator::Or)
        } else {
            None
        }
    } else {
        None
    }
}

/// Continue a parse: `acc` holds everything before position `i`, which is
/// either the input's end or a space introducing an operator-atom pair.
pub open spec fn parse_rest(s: Seq<char>, i: int, acc: Expression) -> Option<Expression>
    decreases s.len() - i,
{
    if i >= s.len() {
        Some(acc)
    } else {
        let j = next_space(s, i + 1);
        match op_spec(s, i + 1, j) {
            None => None,
            Some(op) => if j >= s.len() {
                None
            } else {
                let k = next_space(s, j + 1);
                match atom_spec(s, j + 1, k) {
                    None => None,
                    Some(v) => if i < k <= s.len() {
                        parse_rest(
                            s,
                            k,
                            Expression::OpExp(Box::new(acc), op, Box::new(Expression::Value(v))),
                        )
                    } else {
                        None
                    },
                }
            },
        }
    }
}

/// What parsing the whole input yields, if anything.
pub open spec fn parse_spec(s: Seq<char>) -> Option<Expression> {
    let j = next_space(s, 0);
    match atom_spec(s, 0, j) {
        None => None,
        Some(v) => parse_rest(s, j, Expression::Value(v)),
    }
}

/// The diagnostic reported for text the grammar rejects.
pub open spec fn syntax_error_note() -> Seq<char> {
    "expected an atom followed by operator-atom pairs"@
}

fn syntax_error_message() -> (m: String)
    ensures
        m@ == syntax_error_note(),
{
    "expected an atom followed by operator-atom pairs".to_owned()
}

/// Find the first space at or after `i`.
#[verifier::loop_isolation(false)]
fn find_space(s: &str, i: usize) -> (j: usize)
    requires
        i <= s@.len(),
    ensures
        j == next_space(s@, i as int),
        i <= j <= s@.len(),
{
    proof {
        lemma_next_space(s@, i as int);
    }
    let n = s.unicode_len();
    let mut j: usize = i;
    while j < n
        invariant
            i <= j <= n,
            n == s@.len(),
            next_space(s@, i as int) == next_space(s@, j as int),
        decreases n - j,
    {
        if s.get_char(j) == ' ' {
            return j;
        }
        j = j + 1;
    }
    j
}

/// Recognise the token at `[i, j)` as an atom.
#[verifier::loop_isolation(false)]
fn parse_atom(s: &str, i: usize, j: usize) -> (r: Option<Value>)
    requires
        i <= j <= s@.len(),
    ensures
        r == atom_spec(s@, i as int, j as int),
{
    let len = j - i;
    if len == 4 && s.get_char(i) == 't' && s.get_char(i + 1) == 'r' && s.get_char(i + 2) == 'u'
        && s.get_char(i + 3) == 'e' {
        return Some(Value::Bool(true));
    }
    if len == 5 && s.get_char(i) == 'f' && s.get_char(i + 1) == 'a' && s.get_char(i + 2) == 'l'
        && s.get_char(i + 3) == 's' && s.get_char(i + 4) == 'e' {
        return Some(Value::Bool(false));
    }
    if len == 0 || len > 18 {
        return None;
    }
    let mut k: usize = i;
    let mut val: i64 = 0;
    proof {
        lemma_pow10_mono(0, 18);
    }
    while k < j
        invariant
            i <= k <= j,
            j - i <= 18,
            all_digits(s@, i as int, k as int),
            val == digits_val(s@, i as int, k as int),
            0 <= val < pow10((k - i) as nat),
        decreases j - k,
    {
        let c = s.get_char(k);
        let cu = c as u32;
        if cu < 48 || cu > 57 {
            assert(!is_digit(s@[k as int]));
            return None;
        }
        proof {
            lemma_pow10_mono((k + 1 - i) as nat, 18);
            assert(pow10(18) == 1000000000000000000) by {
                reveal_with_fuel(pow10, 19);
            }
            assert(pow10((k + 1 - i) as nat) == 10 * pow10((k - i) as nat));
        }
        let d = (cu - 48) as i64;
        val = val * 10 + d;
        k = k + 1;
    }
    proof {
        lemma_pow10_mono((j - i) as nat, 18);
        assert(pow10(18) == 1000000000000000000) by {
            reveal_with_fuel(pow10, 19);
        }
    }
    Some(Value::Int(val))
}

/// Recognise the token at `[i, j)` as an operator.
fn parse_op(s: &str, i: usize, j: usize) -> (r: Option<Operator>)
    requires
        i <= j <= s@.len(),
    ensures
        r == op_spec(s@, i as int, j as int),
{
    if j - i == 1 {
        let c = s.get_char(i);
        if c == '+' {
            Some(Operator::Add)
        } else if c == '-' {
            Some(Operator::Subtract)
        } else if c == '*' {
            Some(Operator::Multiply)
        } else if c == '/' {
            Some(Operator::Divide)
        } else if c == '%' {
            Some(Operator::Modulus)
        } else if c == '<' {
            Some(Operator::LessThan)
        } else if c == '>' {
            Some(Operator::GreaterThan)
        } else {
            None
        }
    } else if j - i == 2 {
        let c0 = s.get_char(i);
        let c1 = s.get_char(i + 1);
        if c0 == '=' && c1 == '=' {
            Some(Operator::Equality)
        } else if c0 == '<' && c1 == '=' {
            Some(Operator::LessThanEqual)
        } else if c0 == '>' && c1 == '=' {
            Some(Operator::GreaterThanEqual)
        } else if c0 == '<' && c1 == '<' {
            Some(Operator::ShiftLeft)
        } else if c0 == '>' && c1 == '>' {
            Some(Operator::ShiftRight)
        } else if c0 == '&' && c1 == '&' {
            Some(Operator::And)
        } else if c0 == '|' && c1 == '|' {
            Some(Operator::Or)
        } else {
            None
        }
    } else {
        None
    }
}

/// Parse source text into a fresh expression tree, or report why it is not a
/// sentence of the grammar.
#[verifier::loop_isolation(false)]
pub fn expression(s: &str) -> (r: Result<Expression, String>)
    ensures
        match r {
            Ok(e) => parse_spec(s@) == Some(e),
            Err(m) => parse_spec(s@) is None && m@ == syntax_error_note(),
        },
{
    let n = s.unicode_len();
    let i0 = find_space(s, 0);
    let first = match parse_atom(s, 0, i0) {
        Some(v) => v,
        None => {
            return Err(syntax_error_message());
        },
    };
    let mut acc = Expression::Value(first);
    let mut i = i0;
    while i < n
        invariant
            i <= n,
            n == s@.len(),
            parse_spec(s@) == parse_rest(s@, i as int, acc),
        decreases n - i,
    {
        let j = find_space(s, i + 1);
        let op = match parse_op(s, i + 1, j) {
            Some(op) => op,
            None => {
                return Err(syntax_error_message());
            },
        };
        if j >= n {
            return Err(syntax_error_message());
        }
        let k = find_space(s, j + 1);
        let v = match parse_atom(s, j + 1, k) {
            Some(v) => v,
            None => {
                return Err(syntax_error_message());
            },
        };
        acc = Expression::OpExp(Box::new(acc), op, Box::new(Expression::Value(v)));
        i = k;
    }
    Ok(acc)
}

} // verus!
