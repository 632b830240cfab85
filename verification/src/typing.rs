//! The construction-time type discipline, and its soundness.
//!
//! Combinator construction is meant to pair every continuation with values
//! of exactly the tag it expects, and every `Read` with exactly one
//! enclosing `Provide` of the matching type, in strict nesting order. This
//! module writes that discipline down as a typing judgment over instruction
//! trees — [`instr_ty`] — and proves it sound: evaluating a well-typed tree
//! on a well-typed environment stack never faults
//! ([`lemma_instr_ty_sound`]). A computation typed with no failure type
//! cannot fail at all: [`Ty::Nothing`] is inhabited by no value, so a fold —
//! which the judgment types as never raising — is statically guaranteed to
//! succeed.
//!
//! The judgment threads the environment type stack through the tree exactly
//! as evaluation threads the value stack. Where a failure could leave the
//! environment stack in an ambiguous state — a fold whose inner tree both
//! fails and touches the environment — the judgment rejects the tree rather
//! than guess.

use vstd::prelude::*;

verus! {

use crate::interpreter::eval_code;
use crate::interpreter::eval_instr;
use crate::interpreter::instr_weight;
use crate::interpreter::outcome_of;
use crate::interpreter::Evaluation;
use crate::interpreter::Instr;
use crate::interpreter::Outcome;
use crate::kleisli::code_weight;
use crate::kleisli::Code;
use crate::kleisli::KleisliOrFold;
use crate::value::expr_val;
use crate::value::Expr;
use crate::value::Value;

/// The tag a value can have, plus [`Ty::Nothing`]: the uninhabited type of
/// computations that never produce a value — the success type of `fail`,
/// and the failure type of a computation that cannot fail.
pub enum Ty {
    /// The type of `Value::Unit`.
    Unit,
    /// The type of `Value::Num`.
    Num,
    /// The type of `Value::Flag`.
    Flag,
    /// The type of `Value::Text`.
    Text,
    /// The type with no values at all.
    Nothing,
}

/// The tag of a value.
pub open spec fn ty_of(v: Value) -> Ty {
    match v {
        Value::Unit => Ty::Unit,
        Value::Num(_) => Ty::Num,
        Value::Flag(_) => Ty::Flag,
        Value::Text(_) => Ty::Text,
    }
}

/// Whether a value carries the given tag. No value has type
/// [`Ty::Nothing`].
pub open spec fn has_ty(v: Value, t: Ty) -> bool {
    ty_of(v) == t
}

/// The tags of a sequence of values, position by position.
pub open spec fn tys_of(vs: Seq<Value>) -> Seq<Ty> {
    vs.map_values(|v: Value| ty_of(v))
}

/// Whether a stack of values carries exactly the given stack of tags.
pub open spec fn stack_typed(vs: Seq<Value>, g: Seq<Ty>) -> bool {
    vs.len() == g.len() && forall|i: int| 0 <= i < vs.len() ==> has_ty(#[trigger] vs[i], g[i])
}

/// The type of a pure expression under a context of bound-value types,
/// innermost last. `None` rejects an unbound variable or an operator
/// applied to the wrong tags — exactly the expressions whose evaluation
/// faults.
pub open spec fn expr_ty(e: Expr, ctx: Seq<Ty>) -> Option<Ty>
    decreases e,
{
    match e {
        Expr::Lit(v) => Some(ty_of(v)),
        Expr::Var(i) => if i < ctx.len() {
            Some(ctx[ctx.len() - 1 - i])
        } else {
            None
        },
        Expr::Add(a, b) => match (expr_ty(*a, ctx), expr_ty(*b, ctx)) {
            (Some(Ty::Num), Some(Ty::Num)) => Some(Ty::Num),
            _ => None,
        },
        Expr::Mul(a, b) => match (expr_ty(*a, ctx), expr_ty(*b, ctx)) {
            (Some(Ty::Num), Some(Ty::Num)) => Some(Ty::Num),
            _ => None,
        },
        Expr::Gt(a, b) => match (expr_ty(*a, ctx), expr_ty(*b, ctx)) {
            (Some(Ty::Num), Some(Ty::Num)) => Some(Ty::Flag),
            _ => None,
        },
        Expr::Discard(a) => match expr_ty(*a, ctx) {
            Some(_) => Some(Ty::Unit),
            None => None,
        },
    }
}

/// Whether a template leaves the environment stack alone: no `Ask`, no
/// `Local`.
pub open spec fn code_env_pure(c: Code) -> bool
    decreases c,
{
    match c {
        Code::Ret(_) => true,
        Code::Raise(_) => true,
        Code::Run(_) => true,
        Code::Then(c1, c2) => code_env_pure(*c1) && code_env_pure(*c2),
        Code::Catch(c1, _, _) => code_env_pure(*c1),
        Code::Ask => false,
        Code::Local(_, _) => false,
    }
}

/// Whether a stack entry's continuations leave the environment stack alone.
pub open spec fn branch_env_pure(kf: KleisliOrFold) -> bool {
    match kf {
        KleisliOrFold::Kleisli(k) => code_env_pure(k.code),
        KleisliOrFold::Fold(sk, fk) => code_env_pure(sk.code) && code_env_pure(fk.code),
    }
}

/// Whether an instruction tree leaves the environment stack alone: no
/// `Read`, no `Provide`, in the tree or in any continuation it carries.
pub open spec fn instr_env_pure(i: Instr) -> bool
    decreases i,
{
    match i {
        Instr::Succeed(_) => true,
        Instr::Fail(_) => true,
        Instr::Effect(_) => true,
        Instr::AndThen(inner, kf) => instr_env_pure(*inner) && branch_env_pure(kf),
        Instr::Fold(inner, kf) => instr_env_pure(*inner) && branch_env_pure(kf),
        Instr::Read(_) => false,
        Instr::Provide(_, _) => false,
    }
}

/// What the judgment assigns to a well-typed tree: the type of its success
/// value, the type of its declared failure — `None` when it cannot fail at
/// all — and the environment type stack its success path leaves behind.
pub struct Typing {
    /// The type of the success value.
    pub yields: Ty,
    /// The type of the declared failure, or `None` for a computation that
    /// cannot fail.
    pub raises: Option<Ty>,
    /// The environment type stack left on the success path.
    pub leaves: Seq<Ty>,
}

/// Combine the failure types of two stages of one computation: a stage that
/// cannot fail imposes nothing; two failing stages must declare the same
/// type. `None` rejects the combination.
pub open spec fn join_raises(a: Option<Ty>, b: Option<Ty>) -> Option<Option<Ty>> {
    match (a, b) {
        (Option::None, other) => Some(other),
        (other, Option::None) => Some(other),
        (Some(x), Some(y)) => if x == y {
            Some(Some(x))
        } else {
            None
        },
    }
}

/// The typing judgment for instruction trees, threading the environment
/// type stack `g` exactly as evaluation threads the environment values.
/// `None` rejects the tree.
pub open spec fn instr_ty(i: Instr, g: Seq<Ty>) -> Option<Typing>
    decreases instr_weight(i),
{
    match i {
        Instr::Succeed(v) => Some(Typing { yields: ty_of(v), raises: None, leaves: g }),
        Instr::Fail(x) => Some(Typing { yields: Ty::Nothing, raises: Some(ty_of(x)), leaves: g }),
        Instr::Effect(t) => match expr_ty(t.expr, tys_of(t.env@)) {
            Some(a) => Some(Typing { yields: a, raises: None, leaves: g }),
            None => None,
        },
        Instr::AndThen(inner, kf) => match instr_ty(*inner, g) {
            None => None,
            Some(t1) => match kf {
                KleisliOrFold::Kleisli(k) => match code_ty(
                    k.code,
                    tys_of(k.env@).push(t1.yields),
                    t1.leaves,
                ) {
                    None => None,
                    Some(t2) => match join_raises(t1.raises, t2.raises) {
                        Some(e) => Some(Typing { yields: t2.yields, raises: e, leaves: t2.leaves }),
                        None => None,
                    },
                },
                KleisliOrFold::Fold(sk, fk) => if (t1.raises is Some ==> instr_env_pure(*inner)
                    && t1.leaves == g) && code_env_pure(sk.code) && code_env_pure(fk.code) {
                    match (
                        code_ty(sk.code, tys_of(sk.env@).push(t1.yields), t1.leaves),
                        code_ty(
                            fk.code,
                            tys_of(fk.env@).push(
                                match t1.raises {
                                    Some(et) => et,
                                    None => Ty::Nothing,
                                },
                            ),
                            t1.leaves,
                        ),
                    ) {
                        (Some(t2), Some(t3)) => if t2.yields == t3.yields {
                            match join_raises(t2.raises, t3.raises) {
                                Some(e) => Some(
                                    Typing { yields: t2.yields, raises: e, leaves: t1.leaves },
                                ),
                                None => None,
                            }
                        } else {
                            None
                        },
                        _ => None,
                    }
                } else {
                    None
                },
            },
        },
        Instr::Fold(inner, kf) => match instr_ty(*inner, g) {
            None => None,
            Some(t1) => match kf {
                KleisliOrFold::Kleisli(k) => match code_ty(
                    k.code,
                    tys_of(k.env@).push(t1.yields),
                    t1.leaves,
                ) {
                    None => None,
                    Some(t2) => match join_raises(t1.raises, t2.raises) {
                        Some(e) => Some(Typing { yields: t2.yields, raises: e, leaves: t2.leaves }),
                        None => None,
                    },
                },
                KleisliOrFold::Fold(sk, fk) => if (t1.raises is Some ==> instr_env_pure(*inner)
                    && t1.leaves == g) && code_env_pure(sk.code) && code_env_pure(fk.code) {
                    match (
                        code_ty(sk.code, tys_of(sk.env@).push(t1.yields), t1.leaves),
                        code_ty(
                            fk.code,
                            tys_of(fk.env@).push(
                                match t1.raises {
                                    Some(et) => et,
                                    None => Ty::Nothing,
                                },
                            ),
                            t1.leaves,
                        ),
                    ) {
                        (Some(t2), Some(t3)) => if t2.yields == t3.yields {
                            match join_raises(t2.raises, t3.raises) {
                                Some(e) => Some(
                                    Typing { yields: t2.yields, raises: e, leaves: t1.leaves },
                                ),
                                None => None,
                            }
                        } else {
                            None
                        },
                        _ => None,
                    }
                } else {
                    None
                },
            },
        },
        Instr::Read(kf) => if g.len() == 0 {
            None
        } else {
            match kf {
                KleisliOrFold::Kleisli(k) => code_ty(
                    k.code,
                    tys_of(k.env@).push(g.last()),
                    g.drop_last(),
                ),
                KleisliOrFold::Fold(sk, _) => code_ty(
                    sk.code,
                    tys_of(sk.env@).push(g.last()),
                    g.drop_last(),
                ),
            }
        },
        Instr::Provide(v, next) => instr_ty(*next, g.push(ty_of(v))),
    }
}

/// The typing judgment for continuation templates, under a context of
/// bound-value types (innermost last) and an environment type stack.
pub open spec fn code_ty(c: Code, ctx: Seq<Ty>, g: Seq<Ty>) -> Option<Typing>
    decreases code_weight(c),
{
    match c {
        Code::Ret(e) => match expr_ty(e, ctx) {
            Some(a) => Some(Typing { yields: a, raises: None, leaves: g }),
            None => None,
        },
        Code::Raise(e) => match expr_ty(e, ctx) {
            Some(a) => Some(Typing { yields: Ty::Nothing, raises: Some(a), leaves: g }),
            None => None,
        },
        Code::Run(e) => match expr_ty(e, ctx) {
            Some(a) => Some(Typing { yields: a, raises: None, leaves: g }),
            None => None,
        },
        Code::Then(c1, c2) => match code_ty(*c1, ctx, g) {
            None => None,
            Some(t1) => match code_ty(*c2, ctx.push(t1.yields), t1.leaves) {
                None => None,
                Some(t2) => match join_raises(t1.raises, t2.raises) {
                    Some(e) => Some(Typing { yields: t2.yields, raises: e, leaves: t2.leaves }),
                    None => None,
                },
            },
        },
        Code::Catch(c1, se, fe) => match code_ty(*c1, ctx, g) {
            None => None,
            Some(t1) => if t1.raises is Some ==> code_env_pure(*c1) && t1.leaves == g {
                match (
                    expr_ty(se, ctx.push(t1.yields)),
                    expr_ty(
                        fe,
                        ctx.push(
                            match t1.raises {
                                Some(et) => et,
                                None => Ty::Nothing,
                            },
                        ),
                    ),
                ) {
                    (Some(a2), Some(a3)) => if a2 == a3 {
                        Some(Typing { yields: a2, raises: None, leaves: t1.leaves })
                    } else {
                        None
                    },
                    _ => None,
                }
            } else {
                None
            },
        },
        Code::Ask => if g.len() == 0 {
            None
        } else {
            Some(Typing { yields: g.last(), raises: None, leaves: g.drop_last() })
        },
        Code::Local(e, c1) => match expr_ty(e, ctx) {
            Some(te) => code_ty(*c1, ctx, g.push(te)),
            None => None,
        },
    }
}

/// Every value stack carries its own tags.
proof fn lemma_tys_of_typed(vs: Seq<Value>)
    ensures
        stack_typed(vs, tys_of(vs)),
{
    assert forall|i: int| 0 <= i < vs.len() implies has_ty(#[trigger] vs[i], tys_of(vs)[i]) by {
        assert(tys_of(vs)[i] == ty_of(vs[i]));
    }
}

/// Pushing a value of the pushed tag preserves stack typing.
proof fn lemma_stack_typed_push(vs: Seq<Value>, g: Seq<Ty>, v: Value, t: Ty)
    requires
        stack_typed(vs, g),
        has_ty(v, t),
    ensures
        stack_typed(vs.push(v), g.push(t)),
{
    assert forall|i: int| 0 <= i < vs.push(v).len() implies has_ty(
        #[trigger] vs.push(v)[i],
        g.push(t)[i],
    ) by {
        if i < vs.len() {
            assert(vs.push(v)[i] == vs[i]);
            assert(g.push(t)[i] == g[i]);
        }
    }
}

/// A typed, non-empty stack has a typed top and a typed remainder.
proof fn lemma_stack_typed_pop(vs: Seq<Value>, g: Seq<Ty>)
    requires
        stack_typed(vs, g),
        g.len() > 0,
    ensures
        has_ty(vs.last(), g.last()),
        stack_typed(vs.drop_last(), g.drop_last()),
{
}

/// Soundness of expression typing: a well-typed expression over a
/// well-typed stack of bound values evaluates without fault, to a value of
/// its type.
pub proof fn lemma_expr_ty_sound(e: Expr, ctx: Seq<Ty>, bs: Seq<Value>)
    requires
        expr_ty(e, ctx) is Some,
        stack_typed(bs, ctx),
    ensures
        expr_val(e, bs) is Some,
        has_ty(expr_val(e, bs)->0, expr_ty(e, ctx)->0),
    decreases e,
{
    match e {
        Expr::Lit(_) => {},
        Expr::Var(_) => {},
        Expr::Add(a, b) => {
            lemma_expr_ty_sound(*a, ctx, bs);
            lemma_expr_ty_sound(*b, ctx, bs);
        },
        Expr::Mul(a, b) => {
            lemma_expr_ty_sound(*a, ctx, bs);
            lemma_expr_ty_sound(*b, ctx, bs);
        },
        Expr::Gt(a, b) => {
            lemma_expr_ty_sound(*a, ctx, bs);
            lemma_expr_ty_sound(*b, ctx, bs);
        },
        Expr::Discard(a) => {
            lemma_expr_ty_sound(*a, ctx, bs);
        },
    }
}

/// Evaluating an environment-pure tree leaves the environment stack
/// exactly as it was, whatever the outcome.
proof fn lemma_env_pure_instr(i: Instr, envs: Seq<Value>)
    requires
        instr_env_pure(i),
    ensures
        eval_instr(i, envs) matches Evaluation::Done(o, envs1) ==> envs1 == envs,
    decreases instr_weight(i),
{
    match i {
        Instr::AndThen(inner, kf) => {
            lemma_env_pure_instr(*inner, envs);
            match eval_instr(*inner, envs) {
                Evaluation::Done(Outcome::Success(v), envs1) => match kf {
                    KleisliOrFold::Kleisli(k) => lemma_env_pure_code(k.code, k.env@.push(v), envs1),
                    KleisliOrFold::Fold(sk, _) => lemma_env_pure_code(
                        sk.code,
                        sk.env@.push(v),
                        envs1,
                    ),
                },
                Evaluation::Done(Outcome::Failure(x), envs1) => match kf {
                    KleisliOrFold::Kleisli(_) => {},
                    KleisliOrFold::Fold(_, fk) => lemma_env_pure_code(
                        fk.code,
                        fk.env@.push(x),
                        envs1,
                    ),
                },
                Evaluation::Fault => {},
            }
        },
        Instr::Fold(inner, kf) => {
            lemma_env_pure_instr(*inner, envs);
            match eval_instr(*inner, envs) {
                Evaluation::Done(Outcome::Success(v), envs1) => match kf {
                    KleisliOrFold::Kleisli(k) => lemma_env_pure_code(k.code, k.env@.push(v), envs1),
                    KleisliOrFold::Fold(sk, _) => lemma_env_pure_code(
                        sk.code,
                        sk.env@.push(v),
                        envs1,
                    ),
                },
                Evaluation::Done(Outcome::Failure(x), envs1) => match kf {
                    KleisliOrFold::Kleisli(_) => {},
                    KleisliOrFold::Fold(_, fk) => lemma_env_pure_code(
                        fk.code,
                        fk.env@.push(x),
                        envs1,
                    ),
                },
                Evaluation::Fault => {},
            }
        },
        _ => {},
    }
}

/// Evaluating an environment-pure template leaves the environment stack
/// exactly as it was, whatever the outcome.
proof fn lemma_env_pure_code(c: Code, bs: Seq<Value>, envs: Seq<Value>)
    requires
        code_env_pure(c),
    ensures
        eval_code(c, bs, envs) matches Evaluation::Done(o, envs1) ==> envs1 == envs,
    decreases code_weight(c),
{
    match c {
        Code::Then(c1, c2) => {
            lemma_env_pure_code(*c1, bs, envs);
            match eval_code(*c1, bs, envs) {
                Evaluation::Done(Outcome::Success(v), envs1) => lemma_env_pure_code(
                    *c2,
                    bs.push(v),
                    envs1,
                ),
                _ => {},
            }
        },
        Code::Catch(c1, _, _) => {
            lemma_env_pure_code(*c1, bs, envs);
        },
        _ => {},
    }
}

/// The judgment gives an environment-pure template the same environment
/// type stack back.
proof fn lemma_env_pure_code_ty(c: Code, ctx: Seq<Ty>, g: Seq<Ty>)
    requires
        code_env_pure(c),
        code_ty(c, ctx, g) is Some,
    ensures
        (code_ty(c, ctx, g)->0).leaves == g,
    decreases code_weight(c),
{
    match c {
        Code::Then(c1, c2) => {
            lemma_env_pure_code_ty(*c1, ctx, g);
            let t1 = code_ty(*c1, ctx, g)->0;
            lemma_env_pure_code_ty(*c2, ctx.push(t1.yields), t1.leaves);
        },
        Code::Catch(c1, _, _) => {
            lemma_env_pure_code_ty(*c1, ctx, g);
        },
        _ => {},
    }
}

/// Type soundness for instruction trees: evaluating a well-typed tree on a
/// well-typed environment stack never faults; a success value carries the
/// judged success type, with the environment stack as the judgment says;
/// and a failure value carries the judged failure type — so a tree typed
/// as non-failing cannot fail.
#[verifier::rlimit(100)]
#[verifier::spinoff_prover]
pub proof fn lemma_instr_ty_sound(i: Instr, g: Seq<Ty>, envs: Seq<Value>)
    requires
        instr_ty(i, g) is Some,
        stack_typed(envs, g),
    ensures
        ({
            let t = instr_ty(i, g)->0;
            match eval_instr(i, envs) {
                Evaluation::Fault => false,
                Evaluation::Done(Outcome::Success(v), envs1) => has_ty(v, t.yields)
                    && stack_typed(envs1, t.leaves),
                Evaluation::Done(Outcome::Failure(x), envs1) => t.raises is Some && has_ty(
                    x,
                    t.raises->0,
                ),
            }
        }),
    decreases instr_weight(i),
{
    match i {
        Instr::Succeed(_) => {},
        Instr::Fail(_) => {},
        Instr::Effect(t0) => {
            lemma_tys_of_typed(t0.env@);
            lemma_expr_ty_sound(t0.expr, tys_of(t0.env@), t0.env@);
        },
        Instr::AndThen(inner, kf) => {
            lemma_instr_ty_sound(*inner, g, envs);
            let t1 = instr_ty(*inner, g)->0;
            match eval_instr(*inner, envs) {
                Evaluation::Fault => {},
                Evaluation::Done(Outcome::Success(v), envs1) => match kf {
                    KleisliOrFold::Kleisli(k) => {
                        lemma_tys_of_typed(k.env@);
                        lemma_stack_typed_push(k.env@, tys_of(k.env@), v, t1.yields);
                        lemma_code_ty_sound(
                            k.code,
                            tys_of(k.env@).push(t1.yields),
                            k.env@.push(v),
                            t1.leaves,
                            envs1,
                        );
                    },
                    KleisliOrFold::Fold(sk, _) => {
                        lemma_tys_of_typed(sk.env@);
                        lemma_stack_typed_push(sk.env@, tys_of(sk.env@), v, t1.yields);
                        lemma_code_ty_sound(
                            sk.code,
                            tys_of(sk.env@).push(t1.yields),
                            sk.env@.push(v),
                            t1.leaves,
                            envs1,
                        );
                        lemma_env_pure_code_ty(
                            sk.code,
                            tys_of(sk.env@).push(t1.yields),
                            t1.leaves,
                        );
                    },
                },
                Evaluation::Done(Outcome::Failure(x), envs1) => match kf {
                    KleisliOrFold::Kleisli(_) => {},
                    KleisliOrFold::Fold(_, fk) => {
                        let et = t1.raises->0;
                        lemma_env_pure_instr(*inner, envs);
                        lemma_tys_of_typed(fk.env@);
                        lemma_stack_typed_push(fk.env@, tys_of(fk.env@), x, et);
                        lemma_code_ty_sound(
                            fk.code,
                            tys_of(fk.env@).push(et),
                            fk.env@.push(x),
                            t1.leaves,
                            envs1,
                        );
                        lemma_env_pure_code_ty(fk.code, tys_of(fk.env@).push(et), t1.leaves);
                    },
                },
            }
        },
        Instr::Fold(inner, kf) => {
            lemma_instr_ty_sound(*inner, g, envs);
            let t1 = instr_ty(*inner, g)->0;
            match eval_instr(*inner, envs) {
                Evaluation::Fault => {},
                Evaluation::Done(Outcome::Success(v), envs1) => match kf {
                    KleisliOrFold::Kleisli(k) => {
                        lemma_tys_of_typed(k.env@);
                        lemma_stack_typed_push(k.env@, tys_of(k.env@), v, t1.yields);
                        lemma_code_ty_sound(
                            k.code,
                            tys_of(k.env@).push(t1.yields),
                            k.env@.push(v),
                            t1.leaves,
                            envs1,
                        );
                    },
                    KleisliOrFold::Fold(sk, _) => {
                        lemma_tys_of_typed(sk.env@);
                        lemma_stack_typed_push(sk.env@, tys_of(sk.env@), v, t1.yields);
                        lemma_code_ty_sound(
                            sk.code,
                            tys_of(sk.env@).push(t1.yields),
                            sk.env@.push(v),
                            t1.leaves,
                            envs1,
                        );
                        lemma_env_pure_code_ty(
                            sk.code,
                            tys_of(sk.env@).push(t1.yields),
                            t1.leaves,
                        );
                    },
                },
                Evaluation::Done(Outcome::Failure(x), envs1) => match kf {
                    KleisliOrFold::Kleisli(_) => {},
                    KleisliOrFold::Fold(_, fk) => {
                        let et = t1.raises->0;
                        lemma_env_pure_instr(*inner, envs);
                        lemma_tys_of_typed(fk.env@);
                        lemma_stack_typed_push(fk.env@, tys_of(fk.env@), x, et);
                        lemma_code_ty_sound(
                            fk.code,
                            tys_of(fk.env@).push(et),
                            fk.env@.push(x),
                            t1.leaves,
                            envs1,
                        );
                        lemma_env_pure_code_ty(fk.code, tys_of(fk.env@).push(et), t1.leaves);
                    },
                },
            }
        },
        Instr::Read(kf) => {
            lemma_stack_typed_pop(envs, g);
            match kf {
                KleisliOrFold::Kleisli(k) => {
                    lemma_tys_of_typed(k.env@);
                    lemma_stack_typed_push(k.env@, tys_of(k.env@), envs.last(), g.last());
                    lemma_code_ty_sound(
                        k.code,
                        tys_of(k.env@).push(g.last()),
                        k.env@.push(envs.last()),
                        g.drop_last(),
                        envs.drop_last(),
                    );
                },
                KleisliOrFold::Fold(sk, _) => {
                    lemma_tys_of_typed(sk.env@);
                    lemma_stack_typed_push(sk.env@, tys_of(sk.env@), envs.last(), g.last());
                    lemma_code_ty_sound(
                        sk.code,
                        tys_of(sk.env@).push(g.last()),
                        sk.env@.push(envs.last()),
                        g.drop_last(),
                        envs.drop_last(),
                    );
                },
            }
        },
        Instr::Provide(v, next) => {
            lemma_stack_typed_push(envs, g, v, ty_of(v));
            lemma_instr_ty_sound(*next, g.push(ty_of(v)), envs.push(v));
        },
    }
}

/// Type soundness for continuation templates, under well-typed bound
/// values and a well-typed environment stack.
pub proof fn lemma_code_ty_sound(c: Code, ctx: Seq<Ty>, bs: Seq<Value>, g: Seq<Ty>, envs: Seq<Value>)
    requires
        code_ty(c, ctx, g) is Some,
        stack_typed(bs, ctx),
        stack_typed(envs, g),
    ensures
        ({
            let t = code_ty(c, ctx, g)->0;
            match eval_code(c, bs, envs) {
                Evaluation::Fault => false,
                Evaluation::Done(Outcome::Success(v), envs1) => has_ty(v, t.yields)
                    && stack_typed(envs1, t.leaves),
                Evaluation::Done(Outcome::Failure(x), envs1) => t.raises is Some && has_ty(
                    x,
                    t.raises->0,
                ),
            }
        }),
    decreases code_weight(c),
{
    match c {
        Code::Ret(e) => {
            lemma_expr_ty_sound(e, ctx, bs);
        },
        Code::Raise(e) => {
            lemma_expr_ty_sound(e, ctx, bs);
        },
        Code::Run(e) => {
            lemma_expr_ty_sound(e, ctx, bs);
        },
        Code::Then(c1, c2) => {
            lemma_code_ty_sound(*c1, ctx, bs, g, envs);
            let t1 = code_ty(*c1, ctx, g)->0;
            match eval_code(*c1, bs, envs) {
                Evaluation::Done(Outcome::Success(v), envs1) => {
                    lemma_stack_typed_push(bs, ctx, v, t1.yields);
                    lemma_code_ty_sound(*c2, ctx.push(t1.yields), bs.push(v), t1.leaves, envs1);
                },
                _ => {},
            }
        },
        Code::Catch(c1, se, fe) => {
            lemma_code_ty_sound(*c1, ctx, bs, g, envs);
            let t1 = code_ty(*c1, ctx, g)->0;
            match eval_code(*c1, bs, envs) {
                Evaluation::Done(Outcome::Success(v), envs1) => {
                    lemma_stack_typed_push(bs, ctx, v, t1.yields);
                    lemma_expr_ty_sound(se, ctx.push(t1.yields), bs.push(v));
                },
                Evaluation::Done(Outcome::Failure(x), envs1) => {
                    let et = t1.raises->0;
                    lemma_env_pure_code(*c1, bs, envs);
                    lemma_stack_typed_push(bs, ctx, x, et);
                    lemma_expr_ty_sound(fe, ctx.push(et), bs.push(x));
                },
                Evaluation::Fault => {},
            }
        },
        Code::Ask => {
            lemma_stack_typed_pop(envs, g);
        },
        Code::Local(e, c1) => {
            lemma_expr_ty_sound(e, ctx, bs);
            let te = expr_ty(e, ctx)->0;
            let v = expr_val(e, bs)->0;
            lemma_stack_typed_push(envs, g, v, te);
            lemma_code_ty_sound(*c1, ctx, bs, g.push(te), envs.push(v));
        },
    }
}

/// A tree the judgment accepts with no outstanding environment requirement
/// evaluates to a terminal outcome: it is safe to execute.
pub proof fn lemma_typed_outcome(i: Instr)
    requires
        instr_ty(i, Seq::<Ty>::empty()) is Some,
    ensures
        outcome_of(i) is Some,
{
    lemma_instr_ty_sound(i, Seq::<Ty>::empty(), Seq::<Value>::empty());
}

/// A tree the judgment types as never raising cannot fail: its failure
/// type is uninhabited, so no failing outcome could carry a value of it.
pub proof fn lemma_no_failure(i: Instr, g: Seq<Ty>, envs: Seq<Value>)
    requires
        instr_ty(i, g) is Some,
        (instr_ty(i, g)->0).raises is None,
        stack_typed(envs, g),
    ensures
        !(eval_instr(i, envs) matches Evaluation::Done(Outcome::Failure(x), e)),
{
    lemma_instr_ty_sound(i, g, envs);
}

} // verus!
