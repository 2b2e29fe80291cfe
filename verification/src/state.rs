//! The environment an expression is evaluated against: variable slots,
//! function stubs, and a log of the function calls the evaluation triggered.
//!
//! Real function bodies belong to the statement interpreter above this core.
//! Here a stored function carries its declared arity and the value it yields;
//! every invocation is recorded in the call log, which is what makes the
//! evaluator's side effects observable and provable.

use vstd::prelude::*;

use crate::errors::{ErrorKind, ErrorView};
use crate::value::{kind_of, Kind, Value, ValueView};

verus! {

/// A function stub stored in the environment: its declared arity and the
/// value an invocation yields.
#[derive(Debug)]
pub struct FunctionDef {
    pub arity: usize,
    pub result: Value,
}

/// The model of a stored function.
pub struct FunctionView {
    pub arity: nat,
    pub result: ValueView,
}

impl View for FunctionDef {
    type V = FunctionView;

    open spec fn view(&self) -> FunctionView {
        FunctionView { arity: self.arity as nat, result: self.result@ }
    }
}

/// One recorded invocation: the function's name and its evaluated arguments.
pub struct CallView {
    pub name: Seq<char>,
    pub args: Seq<ValueView>,
}

/// The part of the environment an evaluation reads: variables and functions.
pub struct EnvView {
    pub vars: Seq<(Seq<char>, ValueView)>,
    pub funs: Seq<(Seq<char>, FunctionView)>,
}

/// The full model of the environment, call log included.
pub struct StateView {
    pub env: EnvView,
    pub calls: Seq<CallView>,
}

/// Lookup in an association sequence: the newest binding of a name wins.
pub open spec fn lookup<T>(entries: Seq<(Seq<char>, T)>, name: Seq<char>) -> Option<T>
    decreases entries.len(),
{
    if entries.len() == 0 {
        None
    } else if entries.last().0 == name {
        Some(entries.last().1)
    } else {
        lookup(entries.drop_last(), name)
    }
}

/// What resolving `name[index]` returns: an element of a stored list, a
/// one-character string of a stored string, and an error for anything else.
pub open spec fn list_index_spec(
    vars: Seq<(Seq<char>, ValueView)>,
    name: Seq<char>,
    index: i64,
) -> Result<ValueView, ErrorView> {
    match lookup(vars, name) {
        None => Err(ErrorView::UnknownVariable(name)),
        Some(v) => match v {
            ValueView::List(items) => if 0 <= index < items.len() {
                Ok(items[index as int])
            } else {
                Err(ErrorView::IndexOutOfBounds(index))
            },
            ValueView::Str(chars) => if 0 <= index < chars.len() {
                Ok(ValueView::Str(seq![chars[index as int]]))
            } else {
                Err(ErrorView::IndexOutOfBounds(index))
            },
            _ => Err(ErrorView::IndexUnindexable(kind_of(v))),
        },
    }
}

/// What a length query on variable `name` returns: the element count of a
/// list, the character count of a string, an error for every other kind.
pub open spec fn list_length_spec(vars: Seq<(Seq<char>, ValueView)>, name: Seq<char>) -> Result<
    ValueView,
    ErrorView,
> {
    match lookup(vars, name) {
        None => Err(ErrorView::UnknownVariable(name)),
        Some(v) => match v {
            ValueView::List(items) => if items.len() <= i64::MAX {
                Ok(ValueView::Int(items.len() as i64))
            } else {
                Err(ErrorView::IntegerOverflow)
            },
            ValueView::Str(chars) => if chars.len() <= i64::MAX {
                Ok(ValueView::Int(chars.len() as i64))
            } else {
                Err(ErrorView::IntegerOverflow)
            },
            _ => Err(ErrorView::IndexUnindexable(kind_of(v))),
        },
    }
}

/// Character-for-character string equality.
#[verifier::loop_isolation(false)]
fn str_eq(a: &str, b: &str) -> (r: bool)
    ensures
        r == (a@ == b@),
{
    let n = a.unicode_len();
    if n != b.unicode_len() {
        assert(a@.len() != b@.len());
        return false;
    }
    let mut i: usize = 0;
    while i < n
        invariant
            i <= n,
            n == a@.len(),
            n == b@.len(),
            forall|k: int| 0 <= k < i ==> a@[k] == b@[k],
        decreases n - i,
    {
        if a.get_char(i) != b.get_char(i) {
            assert(a@[i as int] != b@[i as int]);
            return false;
        }
        i = i + 1;
    }
    assert(a@ =~= b@);
    true
}

/// The model of a sequence of runtime values.
pub open spec fn values_view(vs: Seq<Value>) -> Seq<ValueView> {
    Seq::new(vs.len(), |i: int| vs[i]@)
}

/// The model of the variable slots.
pub open spec fn vars_view(vs: Seq<(String, Value)>) -> Seq<(Seq<char>, ValueView)> {
    Seq::new(vs.len(), |i: int| (vs[i].0@, vs[i].1@))
}

/// The model of the function table.
pub open spec fn funs_view(fs: Seq<(String, FunctionDef)>) -> Seq<(Seq<char>, FunctionView)> {
    Seq::new(fs.len(), |i: int| (fs[i].0@, fs[i].1@))
}

/// The model of the call log.
pub open spec fn calls_view(cs: Seq<(String, Vec<Value>)>) -> Seq<CallView> {
    Seq::new(cs.len(), |i: int| CallView { name: cs[i].0@, args: values_view(cs[i].1@) })
}

/// The mutable environment. Variables and functions are association lists;
/// the newest binding of a name wins.
#[derive(Debug)]
pub struct State {
    vars: Vec<(String, Value)>,
    funs: Vec<(String, FunctionDef)>,
    calls: Vec<(String, Vec<Value>)>,
}

impl View for State {
    type V = StateView;

    closed spec fn view(&self) -> StateView {
        StateView {
            env: EnvView { vars: vars_view(self.vars@), funs: funs_view(self.funs@) },
            calls: calls_view(self.calls@),
        }
    }
}

impl State {
    /// A fresh environment with no variables, no functions, no recorded calls.
    pub fn new() -> (s: State)
        ensures
            s@.env.vars == Seq::<(Seq<char>, ValueView)>::empty(),
            s@.env.funs == Seq::<(Seq<char>, FunctionView)>::empty(),
            s@.calls == Seq::<CallView>::empty(),
    {
        let s = State { vars: Vec::new(), funs: Vec::new(), calls: Vec::new() };
        proof {
            assert(s@.env.vars =~= Seq::<(Seq<char>, ValueView)>::empty());
            assert(s@.env.funs =~= Seq::<(Seq<char>, FunctionView)>::empty());
            assert(s@.calls =~= Seq::<CallView>::empty());
        }
        s
    }

    /// Bind `name` to `value`. A later binding shadows an earlier one.
    pub fn set_var(&mut self, name: &str, value: Value)
        ensures
            final(self)@.env.vars == old(self)@.env.vars.push((name@, value@)),
            final(self)@.env.funs == old(self)@.env.funs,
            final(self)@.calls == old(self)@.calls,
    {
        self.vars.push((name.to_owned(), value));
        proof {
            assert(self@.env.vars =~= old(self)@.env.vars.push((name@, value@)));
            assert(self@.env.funs =~= old(self)@.env.funs);
            assert(self@.calls =~= old(self)@.calls);
        }
    }

    /// Store a function stub under `name`. A later definition shadows an
    /// earlier one.
    pub fn define_function(&mut self, name: &str, def: FunctionDef)
        ensures
            final(self)@.env.funs == old(self)@.env.funs.push((name@, def@)),
            final(self)@.env.vars == old(self)@.env.vars,
            final(self)@.calls == old(self)@.calls,
    {
        self.funs.push((name.to_owned(), def));
        proof {
            assert(self@.env.funs =~= old(self)@.env.funs.push((name@, def@)));
            assert(self@.env.vars =~= old(self)@.env.vars);
            assert(self@.calls =~= old(self)@.calls);
        }
    }

    /// Look a variable up, newest binding first; a missing name is the
    /// environment's own "unknown variable" error.
    #[verifier::loop_isolation(false)]
    pub fn get(&self, name: &str) -> (r: Result<&Value, ErrorKind>)
        ensures
            match r {
                Ok(v) => lookup(self@.env.vars, name@) == Some(v@),
                Err(e) => lookup(self@.env.vars, name@) is None && e@ == ErrorView::UnknownVariable(
                    name@,
                ),
            },
    {
        let ghost vv = self@.env.vars;
        let mut j: usize = self.vars.len();
        proof {
            assert(vv.take(j as int) =~= vv);
        }
        while j > 0
            invariant
                j <= self.vars.len(),
                lookup(vv, name@) == lookup(vv.take(j as int), name@),
            decreases j,
        {
            let entry = &self.vars[j - 1];
            proof {
                assert(vv.take(j as int).last() == vv[j - 1]);
                assert(vv[j - 1] == (entry.0@, entry.1@));
            }
            if str_eq(entry.0.as_str(), name) {
                return Ok(&entry.1);
            }
            proof {
                assert(vv.take(j as int).drop_last() =~= vv.take(j - 1));
            }
            j = j - 1;
        }
        proof {
            assert(vv.take(0) =~= Seq::<(Seq<char>, ValueView)>::empty());
        }
        Err(ErrorKind::UnknownVariable(name.to_owned()))
    }

    /// Look a function stub up, newest definition first.
    #[verifier::loop_isolation(false)]
    pub fn get_function(&self, name: &str) -> (r: Option<&FunctionDef>)
        ensures
            match r {
                Some(f) => lookup(self@.env.funs, name@) == Some(f@),
                None => lookup(self@.env.funs, name@) is None,
            },
    {
        let ghost fv = self@.env.funs;
        let mut j: usize = self.funs.len();
        proof {
            assert(fv.take(j as int) =~= fv);
        }
        while j > 0
            invariant
                j <= self.funs.len(),
                lookup(fv, name@) == lookup(fv.take(j as int), name@),
            decreases j,
        {
            let entry = &self.funs[j - 1];
            proof {
                assert(fv.take(j as int).last() == fv[j - 1]);
                assert(fv[j - 1] == (entry.0@, entry.1@));
            }
            if str_eq(entry.0.as_str(), name) {
                return Some(&entry.1);
            }
            proof {
                assert(fv.take(j as int).drop_last() =~= fv.take(j - 1));
            }
            j = j - 1;
        }
        proof {
            assert(fv.take(0) =~= Seq::<(Seq<char>, FunctionView)>::empty());
        }
        None
    }

    /// Resolve `name[index]`: an owned copy of a list element, or a
    /// one-character string of a stored string. Bounds checking and the
    /// rejection of unindexable kinds live here.
    pub fn list_index(&self, name: &str, index: i64) -> (r: Result<Value, ErrorKind>)
        ensures
            match (r, list_index_spec(self@.env.vars, name@, index)) {
                (Ok(v), Ok(vv)) => v@ == vv,
                (Err(e), Err(ev)) => e@ == ev,
                _ => false,
            },
    {
        let stored = match self.get(name) {
            Ok(v) => v,
            Err(e) => {
                return Err(e);
            },
        };
        match stored {
            Value::List(items) => {
                if 0 <= index && (index as u64) < (items.len() as u64) {
                    Ok(items[index as usize].duplicate())
                } else {
                    Err(ErrorKind::IndexOutOfBounds(index))
                }
            },
            Value::Str(s) => {
                let n = s.as_str().unicode_len();
                if 0 <= index && (index as u64) < (n as u64) {
                    let i = index as usize;
                    let piece = s.as_str().substring_char(i, i + 1).to_owned();
                    proof {
                        assert(piece@ =~= seq![s@[index as int]]);
                    }
                    Ok(Value::Str(piece))
                } else {
                    Err(ErrorKind::IndexOutOfBounds(index))
                }
            },
            Value::Int(_) => Err(ErrorKind::IndexUnindexable(Kind::Int)),
            Value::Bool(_) => Err(ErrorKind::IndexUnindexable(Kind::Bool)),
        }
    }

    /// Record one function invocation in the call log.
    pub fn record_call(&mut self, name: &str, args: Vec<Value>)
        ensures
            final(self)@.calls == old(self)@.calls.push(
                CallView { name: name@, args: values_view(args@) },
            ),
            final(self)@.env.vars == old(self)@.env.vars,
            final(self)@.env.funs == old(self)@.env.funs,
    {
        let ghost expected = CallView { name: name@, args: values_view(args@) };
        self.calls.push((name.to_owned(), args));
        proof {
            assert(self@.calls =~= old(self)@.calls.push(expected));
            assert(self@.env.vars =~= old(self)@.env.vars);
            assert(self@.env.funs =~= old(self)@.env.funs);
        }
    }

    /// The calls recorded so far, oldest first.
    pub fn call_log(&self) -> (r: &Vec<(String, Vec<Value>)>)
        ensures
            calls_view(r@) == self@.calls,
    {
        &self.calls
    }
}

} // verus!
