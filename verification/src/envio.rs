//! The combinator API.
//!
//! [`EnvIO`] wraps an instruction tree that can be executed as it stands;
//! [`REnvIO`] is the distinct environment-required composition: a
//! description that still awaits an environment value, which only
//! [`REnvIO::provide`] discharges — there is no way to execute an `REnvIO`
//! directly, so a required environment can never be left unsupplied.
//!
//! Construction never fails and performs no work: each combinator builds one
//! instruction node, stated exactly in its contract. Failure is only ever an
//! execution-time outcome, produced by [`fail`] and observed through
//! [`run_result`].

use vstd::prelude::*;

verus! {

use crate::interpreter::interpret;
use crate::interpreter::outcome_of;
use crate::interpreter::Instr;
use crate::interpreter::Outcome;
use crate::kleisli::Code;
use crate::kleisli::Kleisli;
use crate::kleisli::KleisliOrFold;
use crate::kleisli::Thunk;
use crate::value::Expr;
use crate::value::Value;

/// A computation description with no outstanding environment requirement:
/// the only kind that may be executed directly.
#[derive(Debug)]
pub struct EnvIO {
    instr: Instr,
}

impl View for EnvIO {
    type V = Instr;

    closed spec fn view(&self) -> Instr {
        self.instr
    }
}

/// A computation description that still requires an environment value. It
/// offers the same sequencing, mapping and folding operations as [`EnvIO`],
/// each keeping the requirement, and [`REnvIO::provide`] discharges the
/// requirement into an ordinary [`EnvIO`]; nothing executes an `REnvIO`.
#[derive(Debug)]
pub struct REnvIO {
    envio: EnvIO,
}

impl View for REnvIO {
    type V = Instr;

    closed spec fn view(&self) -> Instr {
        self.envio.instr
    }
}

impl EnvIO {
    /// Sequence this description with a continuation: run `self`, then feed
    /// its success value to `k`. A failure in `self` bypasses `k` entirely.
    pub fn and_then(self, k: Kleisli) -> (r: EnvIO)
        ensures
            r@ == Instr::AndThen(Box::new(self@), KleisliOrFold::Kleisli(k)),
    {
        EnvIO { instr: Instr::AndThen(Box::new(self.instr), KleisliOrFold::Kleisli(k)) }
    }

    /// Sequencing specialised to a pure function: the continuation re-wraps
    /// `f`'s value as a new success, with `Var(0)` in `f` naming the
    /// produced value.
    pub fn map(self, f: Expr) -> (r: EnvIO)
        ensures
            r@ matches Instr::AndThen(inner, KleisliOrFold::Kleisli(k)) && *inner == self@
                && k.code == Code::Ret(f) && k.env@ == Seq::<Value>::empty(),
    {
        EnvIO {
            instr: Instr::AndThen(
                Box::new(self.instr),
                KleisliOrFold::Kleisli(Kleisli::new(Code::Ret(f))),
            ),
        }
    }

    /// Total recovery: whichever outcome `self` produces, the matching
    /// branch — `Var(0)` naming the routed value — yields the value of a
    /// guaranteed success. The resulting description cannot fail
    /// ([`crate::laws::lemma_fold_total`]).
    pub fn fold(self, success: Expr, failure: Expr) -> (r: EnvIO)
        ensures
            r@ matches Instr::Fold(inner, KleisliOrFold::Fold(sk, fk)) && *inner == self@
                && sk.code == Code::Ret(success) && sk.env@ == Seq::<Value>::empty()
                && fk.code == Code::Ret(failure) && fk.env@ == Seq::<Value>::empty(),
    {
        EnvIO {
            instr: Instr::Fold(
                Box::new(self.instr),
                KleisliOrFold::Fold(
                    Kleisli::new(Code::Ret(success)),
                    Kleisli::new(Code::Ret(failure)),
                ),
            ),
        }
    }

    /// Sequence this description with a continuation whose tree still
    /// requires an environment value: the requirement carries over to the
    /// whole composition.
    pub fn and_then_req(self, k: Kleisli) -> (r: REnvIO)
        ensures
            r@ == Instr::AndThen(Box::new(self@), KleisliOrFold::Kleisli(k)),
    {
        REnvIO {
            envio: EnvIO {
                instr: Instr::AndThen(Box::new(self.instr), KleisliOrFold::Kleisli(k)),
            },
        }
    }
}

impl REnvIO {
    /// Sequence an environment-requiring description with a continuation,
    /// keeping the requirement.
    pub fn and_then(self, k: Kleisli) -> (r: REnvIO)
        ensures
            r@ == Instr::AndThen(Box::new(self@), KleisliOrFold::Kleisli(k)),
    {
        REnvIO { envio: self.envio.and_then(k) }
    }

    /// Map a pure function over an environment-requiring description,
    /// keeping the requirement.
    pub fn map(self, f: Expr) -> (r: REnvIO)
        ensures
            r@ matches Instr::AndThen(inner, KleisliOrFold::Kleisli(k)) && *inner == self@
                && k.code == Code::Ret(f) && k.env@ == Seq::<Value>::empty(),
    {
        REnvIO { envio: self.envio.map(f) }
    }

    /// Total recovery on an environment-requiring description, keeping the
    /// requirement.
    pub fn fold(self, success: Expr, failure: Expr) -> (r: REnvIO)
        ensures
            r@ matches Instr::Fold(inner, KleisliOrFold::Fold(sk, fk)) && *inner == self@
                && sk.code == Code::Ret(success) && sk.env@ == Seq::<Value>::empty()
                && fk.code == Code::Ret(failure) && fk.env@ == Seq::<Value>::empty(),
    {
        REnvIO { envio: self.envio.fold(success, failure) }
    }

    /// Discharge the environment requirement: supply the value that the
    /// nested `Read`s will consume, yielding an ordinary description.
    pub fn provide(self, r: Value) -> (out: EnvIO)
        ensures
            out@ == Instr::Provide(r, Box::new(self@)),
    {
        EnvIO { instr: Instr::Provide(r, Box::new(self.envio.instr)) }
    }
}

/// The description that consumes the most recently supplied environment
/// value and succeeds with it — the primitive every environment-requiring
/// computation starts from.
pub fn environment() -> (r: REnvIO)
    ensures
        r@ matches Instr::Read(KleisliOrFold::Kleisli(k)) && k.code == Code::Ret(Expr::Var(0))
            && k.env@ == Seq::<Value>::empty(),
{
    REnvIO {
        envio: EnvIO {
            instr: Instr::Read(KleisliOrFold::Kleisli(Kleisli::new(Code::Ret(Expr::Var(0))))),
        },
    }
}

/// Wrap a deferred computation. It is not evaluated here: only when the
/// interpreter reaches it, and at most once per interpretation.
pub fn effect(eff: Expr) -> (r: EnvIO)
    ensures
        r@ matches Instr::Effect(t) && t.expr == eff && t.env@ == Seq::<Value>::empty(),
{
    EnvIO { instr: Instr::Effect(Thunk { expr: eff, env: Vec::new() }) }
}

/// The description that always yields `a`, with no work performed.
pub fn succeed(a: Value) -> (r: EnvIO)
    ensures
        r@ == Instr::Succeed(a),
{
    EnvIO { instr: Instr::Succeed(a) }
}

/// The description that always terminates with the declared failure `e`.
pub fn fail(e: Value) -> (r: EnvIO)
    ensures
        r@ == Instr::Fail(e),
{
    EnvIO { instr: Instr::Fail(e) }
}

/// Execute a description and discard its outcome, success or failure alike.
pub fn run(envio: EnvIO)
    requires
        outcome_of(envio@) is Some,
{
    let _ = interpret(envio.instr);
}

/// Execute a description and return its outcome explicitly: the success
/// value, or the declared failure value.
pub fn run_result(envio: EnvIO) -> (r: Result<Value, Value>)
    requires
        outcome_of(envio@) is Some,
    ensures
        match r {
            Ok(v) => outcome_of(envio@) == Some(Outcome::Success(v)),
            Err(x) => outcome_of(envio@) == Some(Outcome::Failure(x)),
        },
{
    interpret(envio.instr)
}

} // verus!
