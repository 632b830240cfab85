//! The instruction tree and its interpreter.
//!
//! [`Instr`] is the immutable description of a staged computation. Its
//! meaning is given by the specification function [`eval_instr`]: a terminal
//! outcome — success or declared failure — together with the environment
//! values left unconsumed, or [`Evaluation::Fault`] for an
//! internal-invariant violation (an expression applied to a value of the
//! wrong tag, or a `Read` reached with an empty environment stack). A fault
//! marks a bug in the construction layer and is excluded from execution by
//! precondition; it is never a recoverable condition.
//!
//! [`interpret`] drives an instruction tree to its outcome with a
//! trampolined loop over an explicit continuation stack and an explicit
//! environment stack — never by call-stack recursion, so execution depth
//! does not grow with the length of a sequencing chain. It is proved to
//! return exactly what [`eval_instr`] says.

use vstd::prelude::*;

verus! {

use crate::kleisli::branch_weight;
use crate::kleisli::code_weight;
use crate::kleisli::kleisli_weight;
use crate::kleisli::Code;
use crate::kleisli::Kleisli;
use crate::kleisli::KleisliOrFold;
use crate::kleisli::Thunk;
use crate::value::clone_values;
use crate::value::eval_expr;
use crate::value::expr_val;
use crate::value::Expr;
use crate::value::Value;

/// One node of the immutable description of a staged computation.
#[derive(Debug)]
pub enum Instr {
    /// Yield the value, with no work performed.
    Succeed(Value),
    /// Terminate with the declared failure value.
    Fail(Value),
    /// A deferred computation, evaluated only when the interpreter reaches
    /// it.
    Effect(Thunk),
    /// Run the inner instruction, then feed its success value to the
    /// continuation; a failure in the inner instruction bypasses a plain
    /// continuation entirely.
    AndThen(Box<Instr>, KleisliOrFold),
    /// Run the inner instruction, then route its success value to the fold's
    /// success branch and its failure value to the failure branch.
    Fold(Box<Instr>, KleisliOrFold),
    /// Consume the most recently supplied environment value and feed it to
    /// the continuation.
    Read(KleisliOrFold),
    /// Supply an environment value for the nested instruction's `Read`s,
    /// then run it.
    Provide(Value, Box<Instr>),
}

/// The size of an instruction tree, counting instruction nodes and the
/// continuations they carry. Applying a continuation builds a tree no larger
/// than the continuation's own weight, so this measure shrinks as the
/// interpreter consumes the tree.
pub open spec fn instr_weight(i: Instr) -> nat
    decreases i,
{
    match i {
        Instr::Succeed(_) => 1,
        Instr::Fail(_) => 1,
        Instr::Effect(_) => 1,
        Instr::AndThen(inner, kf) => 1 + instr_weight(*inner) + branch_weight(kf),
        Instr::Fold(inner, kf) => 1 + instr_weight(*inner) + branch_weight(kf),
        Instr::Read(kf) => 1 + branch_weight(kf),
        Instr::Provide(_, next) => 1 + instr_weight(*next),
    }
}

/// A terminal outcome of one interpretation: the success value, or the
/// declared failure value.
pub enum Outcome {
    /// The computation produced this value.
    Success(Value),
    /// The computation terminated with this declared failure.
    Failure(Value),
}

/// What evaluating an instruction yields: a terminal outcome together with
/// the environment values left unconsumed, or a fault — an
/// internal-invariant violation of the construction layer.
pub enum Evaluation {
    /// An erased-value tag mismatch, or a `Read` with no environment value
    /// on the stack.
    Fault,
    /// A terminal outcome, and the environment stack as the evaluation left
    /// it.
    Done(Outcome, Seq<Value>),
}

/// The meaning of an instruction tree, given the environment values supplied
/// so far (innermost last). This is the reference semantics: the interpreter
/// is proved to agree with it, and the combinator laws are stated over it.
pub open spec fn eval_instr(i: Instr, envs: Seq<Value>) -> Evaluation
    decreases instr_weight(i),
{
    match i {
        Instr::Succeed(v) => Evaluation::Done(Outcome::Success(v), envs),
        Instr::Fail(x) => Evaluation::Done(Outcome::Failure(x), envs),
        Instr::Effect(t) => match expr_val(t.expr, t.env@) {
            Some(v) => Evaluation::Done(Outcome::Success(v), envs),
            None => Evaluation::Fault,
        },
        Instr::AndThen(inner, kf) => match eval_instr(*inner, envs) {
            Evaluation::Fault => Evaluation::Fault,
            Evaluation::Done(Outcome::Success(v), envs1) => match kf {
                KleisliOrFold::Kleisli(k) => eval_code(k.code, k.env@.push(v), envs1),
                KleisliOrFold::Fold(sk, _) => eval_code(sk.code, sk.env@.push(v), envs1),
            },
            Evaluation::Done(Outcome::Failure(x), envs1) => match kf {
                KleisliOrFold::Kleisli(_) => Evaluation::Done(Outcome::Failure(x), envs1),
                KleisliOrFold::Fold(_, fk) => eval_code(fk.code, fk.env@.push(x), envs1),
            },
        },
        Instr::Fold(inner, kf) => match eval_instr(*inner, envs) {
            Evaluation::Fault => Evaluation::Fault,
            Evaluation::Done(Outcome::Success(v), envs1) => match kf {
                KleisliOrFold::Kleisli(k) => eval_code(k.code, k.env@.push(v), envs1),
                KleisliOrFold::Fold(sk, _) => eval_code(sk.code, sk.env@.push(v), envs1),
            },
            Evaluation::Done(Outcome::Failure(x), envs1) => match kf {
                KleisliOrFold::Kleisli(_) => Evaluation::Done(Outcome::Failure(x), envs1),
                KleisliOrFold::Fold(_, fk) => eval_code(fk.code, fk.env@.push(x), envs1),
            },
        },
        Instr::Read(kf) => if envs.len() == 0 {
            Evaluation::Fault
        } else {
            match kf {
                KleisliOrFold::Kleisli(k) => eval_code(
                    k.code,
                    k.env@.push(envs.last()),
                    envs.drop_last(),
                ),
                KleisliOrFold::Fold(sk, _) => eval_code(
                    sk.code,
                    sk.env@.push(envs.last()),
                    envs.drop_last(),
                ),
            }
        },
        Instr::Provide(v, next) => eval_instr(*next, envs.push(v)),
    }
}

/// The meaning of a continuation template under the given bound values
/// (innermost last) and environment values. Applying a continuation to `v`
/// means evaluating its template with `v` pushed onto its captured bindings.
pub open spec fn eval_code(c: Code, bs: Seq<Value>, envs: Seq<Value>) -> Evaluation
    decreases code_weight(c),
{
    match c {
        Code::Ret(e) => match expr_val(e, bs) {
            Some(v) => Evaluation::Done(Outcome::Success(v), envs),
            None => Evaluation::Fault,
        },
        Code::Raise(e) => match expr_val(e, bs) {
            Some(x) => Evaluation::Done(Outcome::Failure(x), envs),
            None => Evaluation::Fault,
        },
        Code::Run(e) => match expr_val(e, bs) {
            Some(v) => Evaluation::Done(Outcome::Success(v), envs),
            None => Evaluation::Fault,
        },
        Code::Then(c1, c2) => match eval_code(*c1, bs, envs) {
            Evaluation::Fault => Evaluation::Fault,
            Evaluation::Done(Outcome::Success(v), envs1) => eval_code(*c2, bs.push(v), envs1),
            Evaluation::Done(Outcome::Failure(x), envs1) => Evaluation::Done(
                Outcome::Failure(x),
                envs1,
            ),
        },
        Code::Catch(c1, se, fe) => match eval_code(*c1, bs, envs) {
            Evaluation::Fault => Evaluation::Fault,
            Evaluation::Done(Outcome::Success(v), envs1) => match expr_val(se, bs.push(v)) {
                Some(w) => Evaluation::Done(Outcome::Success(w), envs1),
                None => Evaluation::Fault,
            },
            Evaluation::Done(Outcome::Failure(x), envs1) => match expr_val(fe, bs.push(x)) {
                Some(w) => Evaluation::Done(Outcome::Success(w), envs1),
                None => Evaluation::Fault,
            },
        },
        Code::Ask => if envs.len() == 0 {
            Evaluation::Fault
        } else {
            Evaluation::Done(Outcome::Success(envs.last()), envs.drop_last())
        },
        Code::Local(e, c1) => match expr_val(e, bs) {
            Some(v) => eval_code(*c1, bs, envs.push(v)),
            None => Evaluation::Fault,
        },
    }
}

/// The outcome an instruction tree runs to when executed on its own, with no
/// environment values supplied beforehand — or `None` if its evaluation
/// faults.
pub open spec fn outcome_of(i: Instr) -> Option<Outcome> {
    match eval_instr(i, Seq::<Value>::empty()) {
        Evaluation::Done(o, _) => Some(o),
        Evaluation::Fault => None,
    }
}

/// The combined size of the continuations on the stack.
pub open spec fn stack_weight(stack: Seq<KleisliOrFold>) -> nat
    decreases stack.len(),
{
    if stack.len() == 0 {
        0
    } else {
        stack_weight(stack.drop_last()) + branch_weight(stack.last())
    }
}

/// Feed an evaluation result through the pending continuations on the
/// stack, top (last) first: a plain continuation receives a success value
/// and passes a failure by; a fold receives either; a fault propagates.
pub open spec fn eval_under(r: Evaluation, stack: Seq<KleisliOrFold>) -> Evaluation
    decreases stack.len(),
{
    if stack.len() == 0 {
        r
    } else {
        let top = stack.last();
        let rest = stack.drop_last();
        match r {
            Evaluation::Fault => Evaluation::Fault,
            Evaluation::Done(Outcome::Success(v), envs) => eval_under(
                eval_code(top.spec_k().code, top.spec_k().env@.push(v), envs),
                rest,
            ),
            Evaluation::Done(Outcome::Failure(x), envs) => match top {
                KleisliOrFold::Kleisli(_) => eval_under(
                    Evaluation::Done(Outcome::Failure(x), envs),
                    rest,
                ),
                KleisliOrFold::Fold(_, fk) => eval_under(
                    eval_code(fk.code, fk.env@.push(x), envs),
                    rest,
                ),
            },
        }
    }
}

/// Build the instruction tree a continuation template describes, under the
/// given bound values. `None` is a tag mismatch in an eagerly evaluated
/// expression: the template's meaning is a fault.
pub(crate) fn instantiate(code: Code, env: Vec<Value>) -> (r: Option<Instr>)
    ensures
        match r {
            Some(i) => instr_weight(i) == code_weight(code) && forall|envs: Seq<Value>|
                #[trigger] eval_instr(i, envs) == eval_code(code, env@, envs),
            None => forall|envs: Seq<Value>| #[trigger] eval_code(code, env@, envs)
                == Evaluation::Fault,
        },
    decreases code,
{
    match code {
        Code::Ret(e) => match eval_expr(&e, &env) {
            Some(v) => Some(Instr::Succeed(v)),
            None => None,
        },
        Code::Raise(e) => match eval_expr(&e, &env) {
            Some(x) => Some(Instr::Fail(x)),
            None => None,
        },
        Code::Run(e) => Some(Instr::Effect(Thunk { expr: e, env })),
        Code::Then(c1, c2) => {
            let inner_env = clone_values(&env);
            match instantiate(*c1, inner_env) {
                Some(i1) => {
                    let r = Instr::AndThen(
                        Box::new(i1),
                        KleisliOrFold::Kleisli(Kleisli { code: *c2, env }),
                    );
                    proof {
                        assert forall|envs: Seq<Value>|
                            #[trigger] eval_instr(r, envs) == eval_code(code, env@, envs) by {
                            assert(eval_instr(i1, envs) == eval_code(*c1, env@, envs));
                        }
                    }
                    Some(r)
                },
                None => {
                    proof {
                        assert forall|envs: Seq<Value>|
                            #[trigger] eval_code(code, env@, envs) == Evaluation::Fault by {
                            assert(eval_code(*c1, env@, envs) == Evaluation::Fault);
                        }
                    }
                    None
                },
            }
        },
        Code::Catch(c1, se, fe) => {
            let inner_env = clone_values(&env);
            let success_env = clone_values(&env);
            match instantiate(*c1, inner_env) {
                Some(i1) => {
                    let r = Instr::Fold(
                        Box::new(i1),
                        KleisliOrFold::Fold(
                            Kleisli { code: Code::Ret(se), env: success_env },
                            Kleisli { code: Code::Ret(fe), env },
                        ),
                    );
                    proof {
                        assert forall|envs: Seq<Value>|
                            #[trigger] eval_instr(r, envs) == eval_code(code, env@, envs) by {
                            assert(eval_instr(i1, envs) == eval_code(*c1, env@, envs));
                        }
                    }
                    Some(r)
                },
                None => {
                    proof {
                        assert forall|envs: Seq<Value>|
                            #[trigger] eval_code(code, env@, envs) == Evaluation::Fault by {
                            assert(eval_code(*c1, env@, envs) == Evaluation::Fault);
                        }
                    }
                    None
                },
            }
        },
        Code::Ask => {
            let r = Instr::Read(
                KleisliOrFold::Kleisli(Kleisli { code: Code::Ret(Expr::Var(0)), env }),
            );
            proof {
                assert forall|envs: Seq<Value>|
                    #[trigger] eval_instr(r, envs) == eval_code(code, env@, envs) by {
                    if envs.len() > 0 {
                        let bs = env@.push(envs.last());
                        assert(bs[bs.len() - 1] == envs.last());
                    }
                }
            }
            Some(r)
        },
        Code::Local(e, c1) => match eval_expr(&e, &env) {
            Some(v) => match instantiate(*c1, env) {
                Some(i1) => {
                    let r = Instr::Provide(v, Box::new(i1));
                    proof {
                        assert forall|envs: Seq<Value>|
                            #[trigger] eval_instr(r, envs) == eval_code(code, env@, envs) by {
                            assert(eval_instr(i1, envs.push(v)) == eval_code(*c1, env@, envs.push(v)));
                        }
                    }
                    Some(r)
                },
                None => {
                    proof {
                        assert forall|envs: Seq<Value>|
                            #[trigger] eval_code(code, env@, envs) == Evaluation::Fault by {
                            assert(eval_code(*c1, env@, envs.push(v)) == Evaluation::Fault);
                        }
                    }
                    None
                },
            },
            None => None,
        },
    }
}

/// Apply a continuation to a value: push the value onto the captured
/// bindings and instantiate the template.
pub(crate) fn apply(k: Kleisli, v: Value) -> (r: Option<Instr>)
    ensures
        match r {
            Some(i) => instr_weight(i) == code_weight(k.code) && forall|envs: Seq<Value>|
                #[trigger] eval_instr(i, envs) == eval_code(k.code, k.env@.push(v), envs),
            None => forall|envs: Seq<Value>| #[trigger] eval_code(k.code, k.env@.push(v), envs)
                == Evaluation::Fault,
        },
{
    let Kleisli { code, mut env } = k;
    env.push(v);
    instantiate(code, env)
}

/// Pushing a continuation adds exactly its weight to the stack's.
proof fn lemma_stack_weight_push(stack: Seq<KleisliOrFold>, kf: KleisliOrFold)
    ensures
        stack_weight(stack.push(kf)) == stack_weight(stack) + branch_weight(kf),
{
    assert(stack.push(kf).drop_last() =~= stack);
}

/// One step of `eval_under`: feeding a result through a stack with `kf` on
/// top first hands the result to `kf`, then continues under the rest.
proof fn lemma_eval_under_push(r: Evaluation, stack: Seq<KleisliOrFold>, kf: KleisliOrFold)
    ensures
        eval_under(r, stack.push(kf)) == (match r {
            Evaluation::Fault => Evaluation::Fault,
            Evaluation::Done(Outcome::Success(v), envs) => eval_under(
                eval_code(kf.spec_k().code, kf.spec_k().env@.push(v), envs),
                stack,
            ),
            Evaluation::Done(Outcome::Failure(x), envs) => match kf {
                KleisliOrFold::Kleisli(_) => eval_under(r, stack),
                KleisliOrFold::Fold(_, fk) => eval_under(
                    eval_code(fk.code, fk.env@.push(x), envs),
                    stack,
                ),
            },
        }),
{
    assert(stack.push(kf).drop_last() =~= stack);
}

/// Where a failure stands once the stack has been unwound: with an empty
/// stack it is the terminal outcome; otherwise the new top continuation — a
/// promoted failure branch — receives the failure value, and evaluation
/// continues under the rest of the stack.
pub open spec fn resume_failure(stack: Seq<KleisliOrFold>, x: Value, envs: Seq<Value>) -> Evaluation {
    if stack.len() == 0 {
        Evaluation::Done(Outcome::Failure(x), envs)
    } else {
        eval_under(
            eval_code(stack.last().spec_k().code, stack.last().spec_k().env@.push(x), envs),
            stack.drop_last(),
        )
    }
}

/// Pop and discard plain continuations until a fold's failure branch is
/// found — promote it to a plain continuation and stop — or until the stack
/// is exhausted. This reproduces short-circuit failure propagation purely by
/// data inspection, with no non-local jump.
#[verifier::loop_isolation(false)]
fn unwind_stack(stack: &mut Vec<KleisliOrFold>)
    ensures
        stack_weight(final(stack)@) <= stack_weight(old(stack)@),
        forall|x: Value, envs: Seq<Value>|
            #[trigger] eval_under(Evaluation::Done(Outcome::Failure(x), envs), old(stack)@)
                == resume_failure(final(stack)@, x, envs),
{
    let ghost orig = stack@;
    loop
        invariant
            stack_weight(stack@) <= stack_weight(orig),
            forall|x: Value, envs: Seq<Value>|
                #[trigger] eval_under(Evaluation::Done(Outcome::Failure(x), envs), orig)
                    == eval_under(Evaluation::Done(Outcome::Failure(x), envs), stack@),
        decreases stack@.len(),
    {
        let ghost pre = stack@;
        match stack.pop() {
            Some(kleisli_or_fold) => match kleisli_or_fold {
                KleisliOrFold::Fold(_success, failure) => {
                    let ghost mid = stack@;
                    let ghost fk = failure;
                    stack.push(KleisliOrFold::Kleisli(failure));
                    proof {
                        assert(pre.drop_last() =~= mid);
                        assert(stack_weight(pre) == stack_weight(mid) + branch_weight(pre.last()));
                        lemma_stack_weight_push(mid, KleisliOrFold::Kleisli(fk));
                        assert(stack@ == mid.push(KleisliOrFold::Kleisli(fk)));
                        assert(stack@.drop_last() =~= mid);
                        assert(stack_weight(stack@) <= stack_weight(pre));
                        assert forall|x: Value, envs: Seq<Value>|
                            #[trigger] eval_under(
                                Evaluation::Done(Outcome::Failure(x), envs),
                                orig,
                            ) == resume_failure(stack@, x, envs) by {
                            assert(eval_under(Evaluation::Done(Outcome::Failure(x), envs), orig)
                                == eval_under(Evaluation::Done(Outcome::Failure(x), envs), pre));
                            assert(eval_under(Evaluation::Done(Outcome::Failure(x), envs), pre)
                                == eval_under(eval_code(fk.code, fk.env@.push(x), envs), mid));
                            assert(resume_failure(stack@, x, envs) == eval_under(
                                eval_code(fk.code, fk.env@.push(x), envs),
                                mid,
                            ));
                        }
                    }
                    return;
                },
                KleisliOrFold::Kleisli(_k) => {
                    proof {
                        assert(pre.drop_last() =~= stack@);
                        assert(stack_weight(pre) == stack_weight(stack@)
                            + branch_weight(pre.last()));
                        assert forall|x: Value, envs: Seq<Value>|
                            #[trigger] eval_under(
                                Evaluation::Done(Outcome::Failure(x), envs),
                                orig,
                            ) == eval_under(Evaluation::Done(Outcome::Failure(x), envs), stack@) by {
                            assert(eval_under(Evaluation::Done(Outcome::Failure(x), envs), orig)
                                == eval_under(Evaluation::Done(Outcome::Failure(x), envs), pre));
                        }
                    }
                },
            },
            None => {
                proof {
                    assert forall|x: Value, envs: Seq<Value>|
                        #[trigger] eval_under(Evaluation::Done(Outcome::Failure(x), envs), orig)
                            == resume_failure(stack@, x, envs) by {
                        assert(eval_under(Evaluation::Done(Outcome::Failure(x), envs), orig)
                            == eval_under(Evaluation::Done(Outcome::Failure(x), envs), stack@));
                        assert(resume_failure(stack@, x, envs) == Evaluation::Done(
                            Outcome::Failure(x),
                            envs,
                        ));
                    }
                }
                return;
            },
        }
    }
}

/// Apply the success-receiving continuation of a stack entry to a value.
/// The caller knows the overall evaluation — this application fed through
/// the remaining stack — does not fault, so the instantiation cannot fault
/// either.
fn apply_checked(
    kf: KleisliOrFold,
    v: Value,
    Ghost(envs0): Ghost<Seq<Value>>,
    Ghost(rest): Ghost<Seq<KleisliOrFold>>,
    Ghost(goal): Ghost<Evaluation>,
) -> (i: Instr)
    requires
        eval_under(eval_code(kf.spec_k().code, kf.spec_k().env@.push(v), envs0), rest) == goal,
        goal is Done,
    ensures
        eval_under(eval_instr(i, envs0), rest) == goal,
        instr_weight(i) < branch_weight(kf),
{
    let ghost kfg = kf;
    let k = kf.k();
    let ghost kk = k;
    match apply(k, v) {
        Some(i) => {
            proof {
                assert(eval_instr(i, envs0) == eval_code(kk.code, kk.env@.push(v), envs0));
                assert(kleisli_weight(kk) <= branch_weight(kfg));
            }
            i
        },
        None => {
            proof {
                assert(eval_code(kk.code, kk.env@.push(v), envs0) == Evaluation::Fault);
                assert(eval_under(Evaluation::Fault, rest) == Evaluation::Fault);
                assert(false);
            }
            unreached()
        },
    }
}

/// Drive an instruction tree to its terminal outcome.
///
/// A single trampolined loop holds the current instruction, an explicit
/// continuation stack, and an explicit environment stack; each step consumes
/// one instruction node by ownership transfer, so the loop terminates and
/// its call depth never grows with the length of a sequencing chain. The
/// result is exactly the outcome the denotational semantics assigns to the
/// tree; faulting trees are excluded by precondition, so no internal
/// invariant can be violated at run time.
pub fn interpret(instr: Instr) -> (r: Result<Value, Value>)
    requires
        outcome_of(instr) is Some,
    ensures
        match r {
            Ok(v) => outcome_of(instr) == Some(Outcome::Success(v)),
            Err(x) => outcome_of(instr) == Some(Outcome::Failure(x)),
        },
{
    let ghost goal = eval_instr(instr, Seq::<Value>::empty());
    let mut cur = instr;
    let mut stack: Vec<KleisliOrFold> = Vec::new();
    let mut envs: Vec<Value> = Vec::new();
    loop
        invariant
            goal == eval_instr(instr, Seq::<Value>::empty()),
            goal is Done,
            eval_under(eval_instr(cur, envs@), stack@) == goal,
        decreases instr_weight(cur) + stack_weight(stack@),
    {
        let ghost prev = cur;
        let ghost prev_envs = envs@;
        let ghost prev_stack = stack@;
        match cur {
            Instr::AndThen(inner, kf) => match *inner {
                Instr::Effect(t) => {
                    let v = match eval_expr(&t.expr, &t.env) {
                        Some(v) => v,
                        None => {
                            proof {
                                reveal_with_fuel(eval_instr, 2);
                                assert(eval_instr(prev, prev_envs) == Evaluation::Fault);
                                assert(eval_under(Evaluation::Fault, prev_stack)
                                    == Evaluation::Fault);
                                assert(false);
                            }
                            unreached()
                        },
                    };
                    proof {
                        reveal_with_fuel(eval_instr, 2);
                        assert(eval_instr(prev, prev_envs) == eval_code(
                            kf.spec_k().code,
                            kf.spec_k().env@.push(v),
                            prev_envs,
                        ));
                    }
                    cur = apply_checked(kf, v, Ghost(prev_envs), Ghost(prev_stack), Ghost(goal));
                },
                Instr::Succeed(v) => {
                    proof {
                        reveal_with_fuel(eval_instr, 2);
                        assert(eval_instr(prev, prev_envs) == eval_code(
                            kf.spec_k().code,
                            kf.spec_k().env@.push(v),
                            prev_envs,
                        ));
                    }
                    cur = apply_checked(kf, v, Ghost(prev_envs), Ghost(prev_stack), Ghost(goal));
                },
                inner_instr => {
                    proof {
                        lemma_eval_under_push(eval_instr(inner_instr, prev_envs), prev_stack, kf);
                        lemma_stack_weight_push(prev_stack, kf);
                    }
                    stack.push(kf);
                    cur = inner_instr;
                },
            },
            Instr::Effect(t) => {
                let v = match eval_expr(&t.expr, &t.env) {
                    Some(v) => v,
                    None => {
                        proof {
                            assert(eval_instr(prev, prev_envs) == Evaluation::Fault);
                            assert(eval_under(Evaluation::Fault, prev_stack) == Evaluation::Fault);
                            assert(false);
                        }
                        unreached()
                    },
                };
                match stack.pop() {
                    Some(kf) => {
                        proof {
                            assert(prev_stack.last() == kf);
                            assert(stack@ == prev_stack.drop_last());
                            assert(stack_weight(prev_stack) == stack_weight(stack@)
                                + branch_weight(kf));
                            assert(eval_under(eval_instr(prev, prev_envs), prev_stack)
                                == eval_under(
                                eval_code(kf.spec_k().code, kf.spec_k().env@.push(v), prev_envs),
                                stack@,
                            ));
                        }
                        cur = apply_checked(kf, v, Ghost(prev_envs), Ghost(stack@), Ghost(goal));
                    },
                    None => {
                        proof {
                            assert(goal == Evaluation::Done(Outcome::Success(v), prev_envs));
                        }
                        return Ok(v);
                    },
                }
            },
            Instr::Succeed(v) => {
                match stack.pop() {
                    Some(kf) => {
                        proof {
                            assert(prev_stack.last() == kf);
                            assert(stack@ == prev_stack.drop_last());
                            assert(stack_weight(prev_stack) == stack_weight(stack@)
                                + branch_weight(kf));
                            assert(eval_under(eval_instr(prev, prev_envs), prev_stack)
                                == eval_under(
                                eval_code(kf.spec_k().code, kf.spec_k().env@.push(v), prev_envs),
                                stack@,
                            ));
                        }
                        cur = apply_checked(kf, v, Ghost(prev_envs), Ghost(stack@), Ghost(goal));
                    },
                    None => {
                        proof {
                            assert(goal == Evaluation::Done(Outcome::Success(v), prev_envs));
                        }
                        return Ok(v);
                    },
                }
            },
            Instr::Fold(inner, kf) => {
                let inner_instr = *inner;
                proof {
                    lemma_eval_under_push(eval_instr(inner_instr, prev_envs), prev_stack, kf);
                    lemma_stack_weight_push(prev_stack, kf);
                }
                stack.push(kf);
                cur = inner_instr;
            },
            Instr::Fail(x) => {
                unwind_stack(&mut stack);
                let ghost unwound = stack@;
                proof {
                    assert(eval_under(
                        Evaluation::Done(Outcome::Failure(x), prev_envs),
                        prev_stack,
                    ) == resume_failure(unwound, x, prev_envs));
                }
                match stack.pop() {
                    Some(kf) => {
                        proof {
                            assert(unwound.last() == kf);
                            assert(stack@ == unwound.drop_last());
                            assert(stack_weight(unwound) == stack_weight(stack@)
                                + branch_weight(kf));
                            assert(resume_failure(unwound, x, prev_envs) == eval_under(
                                eval_code(kf.spec_k().code, kf.spec_k().env@.push(x), prev_envs),
                                stack@,
                            ));
                        }
                        cur = apply_checked(kf, x, Ghost(prev_envs), Ghost(stack@), Ghost(goal));
                    },
                    None => {
                        proof {
                            assert(goal == Evaluation::Done(Outcome::Failure(x), prev_envs));
                        }
                        return Err(x);
                    },
                }
            },
            Instr::Read(kf) => {
                let v = match envs.pop() {
                    Some(v) => v,
                    None => {
                        proof {
                            assert(eval_instr(prev, prev_envs) == Evaluation::Fault);
                            assert(eval_under(Evaluation::Fault, prev_stack) == Evaluation::Fault);
                            assert(false);
                        }
                        unreached()
                    },
                };
                proof {
                    assert(v == prev_envs.last());
                    assert(envs@ == prev_envs.drop_last());
                    assert(eval_instr(prev, prev_envs) == eval_code(
                        kf.spec_k().code,
                        kf.spec_k().env@.push(v),
                        envs@,
                    ));
                }
                cur = apply_checked(kf, v, Ghost(envs@), Ghost(prev_stack), Ghost(goal));
            },
            Instr::Provide(v, next) => {
                envs.push(v);
                cur = *next;
            },
        }
    }
}

} // verus!
