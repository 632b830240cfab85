//! The algebraic laws of the combinators, stated over the denotational
//! semantics and proved once and for all.
//!
//! Observational identity of two descriptions means equal evaluation under
//! every environment stack. The laws are stated on the instruction shapes
//! that the combinators in [`crate::envio`] are specified to build, so they
//! apply to every description those combinators construct.

use vstd::prelude::*;

verus! {

use crate::interpreter::eval_code;
use crate::interpreter::eval_instr;
use crate::interpreter::Evaluation;
use crate::interpreter::Instr;
use crate::interpreter::Outcome;
use crate::kleisli::Code;
use crate::kleisli::Kleisli;
use crate::kleisli::KleisliOrFold;
use crate::value::expr_val;
use crate::value::Expr;
use crate::value::Value;

/// Left identity: sequencing the pure success of `x` with a continuation is
/// observationally identical to applying the continuation to `x` directly.
pub proof fn lemma_left_identity(x: Value, k: Kleisli, envs: Seq<Value>)
    ensures
        eval_instr(
            Instr::AndThen(Box::new(Instr::Succeed(x)), KleisliOrFold::Kleisli(k)),
            envs,
        ) == eval_code(k.code, k.env@.push(x), envs),
{
    reveal_with_fuel(eval_instr, 2);
}

/// Right identity: sequencing a description with the succeed continuation —
/// the one that re-wraps its value unchanged — is observationally identical
/// to the description itself.
pub proof fn lemma_right_identity(m: Instr, k: Kleisli, envs: Seq<Value>)
    requires
        k.code == Code::Ret(Expr::Var(0)),
    ensures
        eval_instr(Instr::AndThen(Box::new(m), KleisliOrFold::Kleisli(k)), envs) == eval_instr(
            m,
            envs,
        ),
{
    reveal_with_fuel(eval_instr, 2);
    match eval_instr(m, envs) {
        Evaluation::Done(Outcome::Success(v), envs1) => {
            let bs = k.env@.push(v);
            assert(bs[bs.len() - 1] == v);
        },
        Evaluation::Done(Outcome::Failure(x), envs1) => {},
        Evaluation::Fault => {},
    }
}

/// Short-circuit: a declared failure sequenced with any continuation has
/// the failure itself as its terminal outcome — whatever the continuation
/// is, it contributes nothing to the result, so it is never invoked.
pub proof fn lemma_short_circuit(e: Value, k: Kleisli, envs: Seq<Value>)
    ensures
        eval_instr(
            Instr::AndThen(Box::new(Instr::Fail(e)), KleisliOrFold::Kleisli(k)),
            envs,
        ) == Evaluation::Done(Outcome::Failure(e), envs),
{
    reveal_with_fuel(eval_instr, 2);
}

/// Nearest-fold capture: when a sequenced step fails inside a fold, the
/// fold's failure branch receives exactly that failure value, and the
/// outcome does not mention the success branch — it is never invoked.
pub proof fn lemma_nearest_fold_capture(
    a: Instr,
    kb: Kleisli,
    sk: Kleisli,
    fk: Kleisli,
    v: Value,
    err: Value,
    envs: Seq<Value>,
    envs1: Seq<Value>,
    envs2: Seq<Value>,
)
    requires
        eval_instr(a, envs) == Evaluation::Done(Outcome::Success(v), envs1),
        eval_code(kb.code, kb.env@.push(v), envs1) == Evaluation::Done(
            Outcome::Failure(err),
            envs2,
        ),
    ensures
        eval_instr(
            Instr::Fold(
                Box::new(Instr::AndThen(Box::new(a), KleisliOrFold::Kleisli(kb))),
                KleisliOrFold::Fold(sk, fk),
            ),
            envs,
        ) == eval_code(fk.code, fk.env@.push(err), envs2),
{
    reveal_with_fuel(eval_instr, 3);
}

/// Total recovery: a fold converts either outcome of its inner description
/// into a success, so the folded description never yields a failing
/// outcome — the failure type after a fold is uninhabited.
pub proof fn lemma_fold_total(
    m: Instr,
    sk: Kleisli,
    fk: Kleisli,
    se: Expr,
    fe: Expr,
    envs: Seq<Value>,
)
    requires
        sk.code == Code::Ret(se),
        fk.code == Code::Ret(fe),
    ensures
        !(eval_instr(Instr::Fold(Box::new(m), KleisliOrFold::Fold(sk, fk)), envs)
            matches Evaluation::Done(Outcome::Failure(x), e1)),
{
    reveal_with_fuel(eval_instr, 2);
}

/// Fold locality: with nested folds, only the innermost fold enclosing a
/// failing step handles it. The inner fold leaves no failure for the outer
/// one, so the outcome never depends on the outer fold's failure branch.
pub proof fn lemma_fold_locality(
    m: Instr,
    sk: Kleisli,
    fk: Kleisli,
    se: Expr,
    fe: Expr,
    sk2: Kleisli,
    fk2: Kleisli,
    fk2_alt: Kleisli,
    envs: Seq<Value>,
)
    requires
        sk.code == Code::Ret(se),
        fk.code == Code::Ret(fe),
    ensures
        eval_instr(
            Instr::Fold(
                Box::new(Instr::Fold(Box::new(m), KleisliOrFold::Fold(sk, fk))),
                KleisliOrFold::Fold(sk2, fk2),
            ),
            envs,
        ) == eval_instr(
            Instr::Fold(
                Box::new(Instr::Fold(Box::new(m), KleisliOrFold::Fold(sk, fk))),
                KleisliOrFold::Fold(sk2, fk2_alt),
            ),
            envs,
        ),
{
    reveal_with_fuel(eval_instr, 2);
    lemma_fold_total(m, sk, fk, se, fe, envs);
}

/// Environment round trip: providing `r` to the bare environment
/// description yields `r` itself, unchanged, as the success value.
pub proof fn lemma_environment_round_trip(r: Value, k: Kleisli, envs: Seq<Value>)
    requires
        k.code == Code::Ret(Expr::Var(0)),
    ensures
        eval_instr(
            Instr::Provide(r, Box::new(Instr::Read(KleisliOrFold::Kleisli(k)))),
            envs,
        ) == Evaluation::Done(Outcome::Success(r), envs),
{
    reveal_with_fuel(eval_instr, 2);
    let es = envs.push(r);
    assert(es.last() == r);
    assert(es.drop_last() =~= envs);
    let bs = k.env@.push(r);
    assert(bs[bs.len() - 1] == r);
}

/// Providing `r` to the environment description mapped through a pure
/// function yields exactly that function's value at `r`.
pub proof fn lemma_environment_map(r: Value, f: Expr, k: Kleisli, mk: Kleisli, envs: Seq<Value>)
    requires
        k.code == Code::Ret(Expr::Var(0)),
        mk.code == Code::Ret(f),
    ensures
        eval_instr(
            Instr::Provide(
                r,
                Box::new(
                    Instr::AndThen(
                        Box::new(Instr::Read(KleisliOrFold::Kleisli(k))),
                        KleisliOrFold::Kleisli(mk),
                    ),
                ),
            ),
            envs,
        ) == (match expr_val(f, mk.env@.push(r)) {
            Some(w) => Evaluation::Done(Outcome::Success(w), envs),
            None => Evaluation::Fault,
        }),
{
    reveal_with_fuel(eval_instr, 3);
    let es = envs.push(r);
    assert(es.last() == r);
    assert(es.drop_last() =~= envs);
    let bs = k.env@.push(r);
    assert(bs[bs.len() - 1] == r);
}

} // verus!
