use envio::envio::{environment, run_result, succeed};
use envio::kleisli::{Code, Kleisli};
use envio::value::{Expr, Value};

#[test]
fn test() {
    let i1 = succeed(Value::Num(3));
    let i2 = i1.and_then(Kleisli::new(Code::Then(
        Box::new(Code::Ret(Expr::Lit(Value::Num(5)))),
        Box::new(Code::Run(Expr::Discard(Box::new(Expr::Add(
            Box::new(Expr::Var(1)),
            Box::new(Expr::Var(0)),
        ))))),
    )));

    let result = match run_result(i2) {
        Ok(a) => a,
        Err(_) => unreachable!(),
    };
    assert_eq!(result, Value::Unit);
}

#[test]
fn test_fail() {
    let i1 = succeed(Value::Num(3));
    let i2 = i1.and_then(Kleisli::new(Code::Then(
        Box::new(Code::Raise(Expr::Lit(Value::Num(5)))),
        Box::new(Code::Run(Expr::Discard(Box::new(Expr::Lit(Value::Text(
            String::from("test"),
        )))))),
    )));

    let result = match run_result(i2) {
        Ok(_) => unreachable!(),
        Err(e) => e,
    };
    assert_eq!(result, Value::Num(5));
}

#[test]
fn test_fold() {
    let i1 = succeed(Value::Num(3));
    let i2 = i1.and_then(Kleisli::new(Code::Then(
        Box::new(Code::Raise(Expr::Lit(Value::Num(5)))),
        Box::new(Code::Run(Expr::Discard(Box::new(Expr::Lit(Value::Text(
            String::from("test"),
        )))))),
    )));

    let i3 = i2.fold(
        Expr::Lit(Value::Text(String::from("success"))),
        Expr::Lit(Value::Text(String::from("fail"))),
    );

    let result = match run_result(i3) {
        Ok(s) => s,
        Err(_) => unreachable!(),
    };
    assert_eq!(result, Value::Text(String::from("fail")));
}

#[test]
fn test_map() {
    let i1 = succeed(Value::Num(3));
    let i2 = i1.map(Expr::Gt(
        Box::new(Expr::Var(0)),
        Box::new(Expr::Lit(Value::Num(2))),
    ));
    let result = match run_result(i2) {
        Ok(b) => b,
        Err(_) => unreachable!(),
    };
    assert_eq!(result, Value::Flag(true));
}

#[test]
fn test_environment() {
    let envio = environment().map(Expr::Mul(
        Box::new(Expr::Var(0)),
        Box::new(Expr::Var(0)),
    ));
    let next = envio.provide(Value::Num(4));
    let result = match run_result(next) {
        Ok(int) => int,
        Err(_) => unreachable!(),
    };
    assert_eq!(result, Value::Num(16))
}

#[test]
fn test_environment_add_req() {
    let uio = succeed(Value::Num(2));
    let envio = uio.and_then_req(Kleisli::new(Code::Then(
        Box::new(Code::Ask),
        Box::new(Code::Ret(Expr::Mul(
            Box::new(Expr::Var(0)),
            Box::new(Expr::Var(1)),
        ))),
    )));

    let result = match run_result(envio.provide(Value::Num(4))) {
        Ok(int) => int,
        Err(_) => unreachable!(),
    };
    assert_eq!(result, Value::Num(8))
}
