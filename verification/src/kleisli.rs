//! Continuations as first-order data.
//!
//! A continuation is a function from a produced value to the next
//! instruction. Here it is represented by [`Kleisli`]: a [`Code`] template
//! together with the values captured so far. Applying the continuation to a
//! value pushes that value onto the captured bindings and instantiates the
//! template into an instruction tree (see [`crate::interpreter`]); `Var(i)`
//! in the template's expressions names the bindings, innermost first.
//!
//! [`KleisliOrFold`] is what the interpreter's continuation stack holds: a
//! plain continuation, applied only to success values, or a fold — an ordered
//! pair of a success continuation and a failure continuation.

use vstd::prelude::*;

verus! {

use crate::value::Expr;
use crate::value::Value;

/// A continuation template: the description of the instruction tree that a
/// continuation builds from the value it is applied to.
#[derive(Debug)]
pub enum Code {
    /// Succeed with the value of the expression, evaluated at application
    /// time.
    Ret(Expr),
    /// Fail with the value of the expression, evaluated at application time.
    Raise(Expr),
    /// A deferred effect: the expression is packed into a thunk and evaluated
    /// only when the interpreter reaches it.
    Run(Expr),
    /// Run the first template's tree, then feed its success value to the
    /// second template; the second template's `Var(0)` names that value.
    Then(Box<Code>, Box<Code>),
    /// Run the inner template's tree, then route its success value to the
    /// first expression and its failure value to the second; each branch's
    /// `Var(0)` names the routed value, and either way the branch's value
    /// becomes a success.
    Catch(Box<Code>, Expr, Expr),
    /// Consume the most recently supplied environment value and succeed with
    /// it.
    Ask,
    /// Supply the expression's value as an environment value, then run the
    /// inner template's tree.
    Local(Expr, Box<Code>),
}

/// A continuation: a code template closed over the values captured so far.
/// Applying it to a value `v` instantiates `code` with `v` pushed onto
/// `env`, so that `Var(0)` in the template names `v`.
#[derive(Debug)]
pub struct Kleisli {
    /// The template instantiated on application.
    pub code: Code,
    /// The values captured by the enclosing continuations, innermost last.
    pub env: Vec<Value>,
}

impl Kleisli {
    /// A continuation that has captured nothing yet.
    pub fn new(code: Code) -> (r: Kleisli)
        ensures
            r.code == code,
            r.env@ == Seq::<Value>::empty(),
    {
        Kleisli { code, env: Vec::new() }
    }
}

/// A deferred, side-effect-style computation: an expression closed over the
/// values captured where it was written, evaluated exactly once, when the
/// interpreter reaches it.
#[derive(Debug)]
pub struct Thunk {
    /// The deferred expression.
    pub expr: Expr,
    /// The values captured by the enclosing continuations, innermost last.
    pub env: Vec<Value>,
}

/// What the interpreter's continuation stack holds: a plain continuation,
/// applied only to success values, or an ordered pair of a success
/// continuation and a failure continuation.
#[derive(Debug)]
pub enum KleisliOrFold {
    /// A plain continuation; a failure passes it by unchanged.
    Kleisli(Kleisli),
    /// A fold: the success branch first, the failure branch second. A failure
    /// that unwinds to it is caught by the failure branch.
    Fold(Kleisli, Kleisli),
}

impl KleisliOrFold {
    /// The continuation that receives a success value: the plain continuation
    /// itself, or a fold's success branch.
    pub open spec fn spec_k(self) -> Kleisli {
        match self {
            KleisliOrFold::Kleisli(k) => k,
            KleisliOrFold::Fold(success, _failure) => success,
        }
    }

    /// Choose the continuation that receives a success value.
    pub fn k(self) -> (r: Kleisli)
        ensures
            r == self.spec_k(),
    {
        match self {
            KleisliOrFold::Kleisli(k) => k,
            KleisliOrFold::Fold(success, _failure) => success,
        }
    }
}

/// The size of a template: an upper bound, used for termination, on the size
/// of the instruction tree its instantiation builds.
pub open spec fn code_weight(c: Code) -> nat
    decreases c,
{
    match c {
        Code::Ret(_) => 1,
        Code::Raise(_) => 1,
        Code::Run(_) => 1,
        Code::Then(c1, c2) => 2 + code_weight(*c1) + code_weight(*c2),
        Code::Catch(c1, _, _) => 5 + code_weight(*c1),
        Code::Ask => 3,
        Code::Local(_, c1) => 1 + code_weight(*c1),
    }
}

/// The size of a continuation: one more than its template's, for the
/// instruction node that carries it.
pub open spec fn kleisli_weight(k: Kleisli) -> nat {
    1 + code_weight(k.code)
}

/// The size of a continuation-stack entry.
pub open spec fn branch_weight(kf: KleisliOrFold) -> nat {
    match kf {
        KleisliOrFold::Kleisli(k) => kleisli_weight(k),
        KleisliOrFold::Fold(success, failure) => kleisli_weight(success) + kleisli_weight(failure),
    }
}

} // verus!
