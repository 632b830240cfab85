//! Values and pure expressions.
//!
//! Every payload that crosses an instruction boundary is carried as a
//! [`Value`]: a closed, dynamically tagged container. A continuation is only
//! ever applied to a value of the tag it expects; a tag mismatch is an
//! internal-invariant violation of the construction layer, never a declared
//! failure (see [`crate::interpreter`]).
//!
//! [`Expr`] is the pure-function layer: a first-order description of a
//! computation over values, with `Var` indices naming the values bound by the
//! enclosing continuations, innermost first. Expressions stand where the
//! combinators need a caller-supplied pure function — the body of a deferred
//! effect, the function given to `map`, or a branch of `fold`.

use vstd::prelude::*;

verus! {

use vstd::wrapping::u64_specs;

/// A dynamically tagged value: the erased payload passed between stages of a
/// staged computation.
#[derive(Debug)]
pub enum Value {
    /// The unit value, produced by effects run only for their side impact.
    Unit,
    /// An unsigned machine integer.
    Num(u64),
    /// A boolean.
    Flag(bool),
    /// A text value.
    Text(String),
}

impl Value {
    /// An explicit deep copy whose result is known to equal the original.
    pub fn duplicate(&self) -> (r: Value)
        ensures
            r == *self,
    {
        match self {
            Value::Unit => Value::Unit,
            Value::Num(n) => Value::Num(*n),
            Value::Flag(b) => Value::Flag(*b),
            Value::Text(s) => Value::Text(s.clone()),
        }
    }
}

impl PartialEq for Value {
    fn eq(&self, other: &Value) -> (r: bool) {
        match (self, other) {
            (Value::Unit, Value::Unit) => true,
            (Value::Num(a), Value::Num(b)) => *a == *b,
            (Value::Flag(a), Value::Flag(b)) => *a == *b,
            (Value::Text(a), Value::Text(b)) => *a == *b,
            _ => false,
        }
    }
}

impl vstd::std_specs::cmp::PartialEqSpecImpl for Value {
    open spec fn obeys_eq_spec() -> bool {
        true
    }

    open spec fn eq_spec(&self, other: &Value) -> bool {
        match (self, other) {
            (Value::Unit, Value::Unit) => true,
            (Value::Num(a), Value::Num(b)) => a == b,
            (Value::Flag(a), Value::Flag(b)) => a == b,
            (Value::Text(a), Value::Text(b)) => a@ == b@,
            _ => false,
        }
    }
}

/// A pure expression over values. `Var(i)` names the `i`-th innermost value
/// bound by the continuations enclosing the expression; `Var(0)` is the value
/// the nearest continuation was applied to.
#[derive(Debug)]
pub enum Expr {
    /// A constant.
    Lit(Value),
    /// A bound value, innermost first.
    Var(usize),
    /// Wrapping addition of two numbers.
    Add(Box<Expr>, Box<Expr>),
    /// Wrapping multiplication of two numbers.
    Mul(Box<Expr>, Box<Expr>),
    /// Strict `>` comparison of two numbers.
    Gt(Box<Expr>, Box<Expr>),
    /// Evaluate the inner expression and drop its result, yielding `Unit`.
    Discard(Box<Expr>),
}

/// What an expression evaluates to under the given bound values, with
/// `Var(0)` naming the last element of `bs`. `None` is a tag mismatch or an
/// unbound variable: an internal-invariant violation of the construction
/// layer.
pub open spec fn expr_val(e: Expr, bs: Seq<Value>) -> Option<Value>
    decreases e,
{
    match e {
        Expr::Lit(v) => Some(v),
        Expr::Var(i) => if i < bs.len() {
            Some(bs[bs.len() - 1 - i])
        } else {
            None
        },
        Expr::Add(a, b) => match (expr_val(*a, bs), expr_val(*b, bs)) {
            (Some(Value::Num(x)), Some(Value::Num(y))) => Some(
                Value::Num(u64_specs::wrapping_add(x, y)),
            ),
            _ => None,
        },
        Expr::Mul(a, b) => match (expr_val(*a, bs), expr_val(*b, bs)) {
            (Some(Value::Num(x)), Some(Value::Num(y))) => Some(
                Value::Num(u64_specs::wrapping_mul(x, y)),
            ),
            _ => None,
        },
        Expr::Gt(a, b) => match (expr_val(*a, bs), expr_val(*b, bs)) {
            (Some(Value::Num(x)), Some(Value::Num(y))) => Some(Value::Flag(x > y)),
            _ => None,
        },
        Expr::Discard(a) => match expr_val(*a, bs) {
            Some(_) => Some(Value::Unit),
            None => None,
        },
    }
}

/// Evaluate a pure expression under the given bound values.
pub fn eval_expr(e: &Expr, bs: &Vec<Value>) -> (r: Option<Value>)
    ensures
        r == expr_val(*e, bs@),
    decreases *e,
{
    match e {
        Expr::Lit(v) => Some(v.duplicate()),
        Expr::Var(i) => if *i < bs.len() {
            Some(bs[bs.len() - 1 - *i].duplicate())
        } else {
            None
        },
        Expr::Add(a, b) => match (eval_expr(a, bs), eval_expr(b, bs)) {
            (Some(Value::Num(x)), Some(Value::Num(y))) => Some(Value::Num(x.wrapping_add(y))),
            _ => None,
        },
        Expr::Mul(a, b) => match (eval_expr(a, bs), eval_expr(b, bs)) {
            (Some(Value::Num(x)), Some(Value::Num(y))) => Some(Value::Num(x.wrapping_mul(y))),
            _ => None,
        },
        Expr::Gt(a, b) => match (eval_expr(a, bs), eval_expr(b, bs)) {
            (Some(Value::Num(x)), Some(Value::Num(y))) => Some(Value::Flag(x > y)),
            _ => None,
        },
        Expr::Discard(a) => match eval_expr(a, bs) {
            Some(_) => Some(Value::Unit),
            None => None,
        },
    }
}

/// Copy a vector of values, element by element.
pub(crate) fn clone_values(v: &Vec<Value>) -> (r: Vec<Value>)
    ensures
        r@ == v@,
{
    let mut r: Vec<Value> = Vec::new();
    let mut i: usize = 0;
    while i < v.len()
        invariant
            i <= v.len(),
            r@ == v@.subrange(0, i as int),
        decreases v.len() - i,
    {
        r.push(v[i].duplicate());
        i = i + 1;
        assert(r@ =~= v@.subrange(0, i as int));
    }
    assert(r@ =~= v@);
    r
}

} // verus!
