use envio::envio::{effect, environment, fail, run, run_result, succeed};
use envio::kleisli::{Code, Kleisli, KleisliOrFold};
use envio::value::{eval_expr, Expr, Value};

#[test]
fn scenario_effect_sum() {
    let i = succeed(Value::Num(3)).and_then(Kleisli::new(Code::Then(
        Box::new(Code::Ret(Expr::Lit(Value::Num(5)))),
        Box::new(Code::Run(Expr::Add(
            Box::new(Expr::Var(1)),
            Box::new(Expr::Var(0)),
        ))),
    )));
    assert_eq!(run_result(i), Ok(Value::Num(8)));
}

#[test]
fn scenario_failure_value() {
    let i = succeed(Value::Num(3)).and_then(Kleisli::new(Code::Raise(Expr::Lit(Value::Num(5)))));
    assert_eq!(run_result(i), Err(Value::Num(5)));
}

#[test]
fn scenario_failure_folded() {
    let i = succeed(Value::Num(3))
        .and_then(Kleisli::new(Code::Raise(Expr::Lit(Value::Num(5)))))
        .fold(
            Expr::Lit(Value::Text(String::from("success"))),
            Expr::Lit(Value::Text(String::from("fail"))),
        );
    assert_eq!(run_result(i), Ok(Value::Text(String::from("fail"))));
}

#[test]
fn depth_robustness() {
    let mut m = succeed(Value::Num(0));
    let mut i: usize = 0;
    while i < 100_000 {
        m = m.and_then(Kleisli::new(Code::Run(Expr::Add(
            Box::new(Expr::Var(0)),
            Box::new(Expr::Lit(Value::Num(1))),
        ))));
        i += 1;
    }
    assert_eq!(run_result(m), Ok(Value::Num(100_000)));
}

#[test]
fn left_identity_concrete() {
    let chained = succeed(Value::Num(7)).and_then(Kleisli::new(Code::Ret(Expr::Mul(
        Box::new(Expr::Var(0)),
        Box::new(Expr::Lit(Value::Num(2))),
    ))));
    let direct = succeed(Value::Num(14));
    assert_eq!(run_result(chained), run_result(direct));
}

#[test]
fn right_identity_concrete() {
    let m = effect(Expr::Lit(Value::Num(9)));
    let chained = m.and_then(Kleisli::new(Code::Ret(Expr::Var(0))));
    assert_eq!(run_result(chained), Ok(Value::Num(9)));
}

#[test]
fn short_circuit_skips_continuation() {
    // The continuation's template cannot even be instantiated (it adds two
    // booleans); the failure must pass it by without touching it.
    let i = fail(Value::Num(1)).and_then(Kleisli::new(Code::Ret(Expr::Add(
        Box::new(Expr::Lit(Value::Flag(true))),
        Box::new(Expr::Lit(Value::Flag(false))),
    ))));
    assert_eq!(run_result(i), Err(Value::Num(1)));
}

#[test]
fn fold_locality_nested() {
    let inner = succeed(Value::Num(1))
        .and_then(Kleisli::new(Code::Raise(Expr::Lit(Value::Num(2)))))
        .fold(
            Expr::Lit(Value::Text(String::from("inner success"))),
            Expr::Lit(Value::Text(String::from("inner failure"))),
        );
    // The outer fold's success branch passes the inner value through; its
    // failure branch must never run.
    let outer = inner.fold(
        Expr::Var(0),
        Expr::Lit(Value::Text(String::from("outer failure"))),
    );
    assert_eq!(
        run_result(outer),
        Ok(Value::Text(String::from("inner failure")))
    );
}

#[test]
fn environment_round_trip() {
    let next = environment().provide(Value::Text(String::from("ctx")));
    assert_eq!(run_result(next), Ok(Value::Text(String::from("ctx"))));
}

#[test]
fn nested_environments_are_lifo() {
    // An outer supply of 30 and a template-local supply of 5: the first
    // read takes the innermost value, the second the outer one.
    let i = succeed(Value::Num(3))
        .and_then_req(Kleisli::new(Code::Local(
            Expr::Lit(Value::Num(5)),
            Box::new(Code::Then(
                Box::new(Code::Ask),
                Box::new(Code::Then(
                    Box::new(Code::Ask),
                    Box::new(Code::Ret(Expr::Add(
                        Box::new(Expr::Mul(
                            Box::new(Expr::Var(1)),
                            Box::new(Expr::Lit(Value::Num(10))),
                        )),
                        Box::new(Expr::Var(0)),
                    ))),
                )),
            )),
        )))
        .provide(Value::Num(30));
    assert_eq!(run_result(i), Ok(Value::Num(80)));
}

#[test]
fn catch_inside_continuation() {
    let i = succeed(Value::Num(1)).and_then(Kleisli::new(Code::Catch(
        Box::new(Code::Raise(Expr::Var(0))),
        Expr::Lit(Value::Text(String::from("ok"))),
        Expr::Var(0),
    )));
    assert_eq!(run_result(i), Ok(Value::Num(1)));
}

#[test]
fn wrapping_arithmetic() {
    let i = succeed(Value::Num(u64::MAX)).map(Expr::Add(
        Box::new(Expr::Var(0)),
        Box::new(Expr::Lit(Value::Num(1))),
    ));
    assert_eq!(run_result(i), Ok(Value::Num(0)));
}

#[test]
fn run_discards_outcomes() {
    run(effect(Expr::Lit(Value::Unit)));
    run(fail(Value::Num(1)));
}

#[test]
fn expression_evaluation() {
    let bs: Vec<Value> = vec![Value::Num(4)];
    assert_eq!(eval_expr(&Expr::Var(0), &bs), Some(Value::Num(4)));
    assert_eq!(eval_expr(&Expr::Var(1), &bs), None);
    assert_eq!(
        eval_expr(
            &Expr::Gt(Box::new(Expr::Var(0)), Box::new(Expr::Lit(Value::Num(9)))),
            &bs
        ),
        Some(Value::Flag(false))
    );
    assert_eq!(
        eval_expr(
            &Expr::Add(
                Box::new(Expr::Lit(Value::Flag(true))),
                Box::new(Expr::Var(0))
            ),
            &bs
        ),
        None
    );
    assert_eq!(
        eval_expr(&Expr::Discard(Box::new(Expr::Var(0))), &bs),
        Some(Value::Unit)
    );
}

#[test]
fn fold_entry_selects_success_branch() {
    let kf = KleisliOrFold::Fold(
        Kleisli::new(Code::Ret(Expr::Lit(Value::Num(1)))),
        Kleisli::new(Code::Ret(Expr::Lit(Value::Num(2)))),
    );
    let k = kf.k();
    assert!(matches!(k.code, Code::Ret(Expr::Lit(Value::Num(1)))));
}
