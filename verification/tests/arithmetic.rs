use ic_repl::error::ErrorKind;
use ic_repl::eval::Step;
use ic_repl::exp::Exp;
use ic_repl::host::{Answer, Request};
use ic_repl::number::{ArithOp, OrderOp};
use ic_repl::principal::Principal;
use ic_repl::types::Helper;
use ic_repl::value::Value;

fn helper() -> Helper {
    Helper {
        env: Vec::new(),
        func_env: Vec::new(),
        canister_map: Vec::new(),
        agent_url: String::from("http://localhost:8000"),
        offline: false,
        default_effective_canister_id: Principal { bytes: vec![4] },
    }
}

fn number(s: &str) -> Exp {
    Exp::Number(s.to_string())
}

fn float(x: f64) -> Exp {
    Exp::Float64(x.to_bits())
}

fn apply(name: &str, args: Vec<Exp>) -> Exp {
    Exp::Apply(name.to_string(), args)
}

fn as_float(v: &Value) -> f64 {
    match v {
        Value::Float64(b) => f64::from_bits(*b),
        Value::Float32(b) => f32::from_bits(*b) as f64,
        Value::Number(s) | Value::Int(s) | Value::Nat(s) => s.replace('_', "").parse().unwrap(),
        Value::Nat8(n) => *n as f64,
        Value::Nat64(n) => *n as f64,
        Value::Int64(n) => *n as f64,
        other => panic!("not a number: {:?}", other),
    }
}

fn answer(request: &Request) -> Answer {
    match request {
        Request::FloatArith { op, lhs, rhs } => {
            let (a, b) = (as_float(lhs), as_float(rhs));
            let r = match op {
                ArithOp::Add => a + b,
                ArithOp::Sub => a - b,
                ArithOp::Mul => a * b,
                ArithOp::Div => a / b,
            };
            Answer::Value(Value::Float64(r.to_bits()))
        }
        Request::FloatOrder { op, lhs, rhs } => {
            let (a, b) = (as_float(lhs), as_float(rhs));
            let r = match op {
                OrderOp::Lt => a < b,
                OrderOp::Lte => a <= b,
                OrderOp::Gt => a > b,
                OrderOp::Gte => a >= b,
            };
            Answer::Value(Value::Bool(r))
        }
        other => panic!("unexpected request: {:?}", other),
    }
}

fn outcome(e: Exp) -> Result<Value, ic_repl::error::Error> {
    let h = helper();
    let mut answers = Vec::new();
    loop {
        match e.eval(&h, &answers) {
            Step::Done { result, .. } => return result,
            Step::Ask(request) => answers.push(answer(&request)),
        }
    }
}

fn value_of(e: Exp) -> Value {
    outcome(e).unwrap()
}

fn text(s: &str) -> Value {
    Value::Number(s.to_string())
}

#[test]
fn add_two_integers() {
    assert_eq!(value_of(apply("add", vec![number("1"), number("2")])), text("3"));
}

#[test]
fn add_a_float_and_an_integer() {
    let v = value_of(apply("add", vec![float(1.0), number("2")]));
    assert_eq!(v, Value::Float64(3.0f64.to_bits()));
}

#[test]
fn float_arithmetic_waits_for_the_host() {
    let e = apply("mul", vec![number("2"), float(1.5)]);
    match e.eval(&helper(), &Vec::new()) {
        Step::Ask(Request::FloatArith { op, lhs, rhs }) => {
            assert_eq!(op, ArithOp::Mul);
            assert_eq!(lhs, Value::Number("2".to_string()));
            assert_eq!(rhs, Value::Float64(1.5f64.to_bits()));
        }
        other => panic!("no request: {:?}", other),
    }
    assert_eq!(value_of(e), Value::Float64(3.0f64.to_bits()));
}

#[test]
fn float_arithmetic_takes_only_a_float_for_an_answer() {
    let e = apply("add", vec![float(1.0), number("2")]);
    let answers = vec![Answer::Value(Value::Number("3".to_string()))];
    match e.eval(&helper(), &answers) {
        Step::Done { result: Err(err), .. } => assert_eq!(err.kind, ErrorKind::Protocol),
        other => panic!("no error: {:?}", other),
    }
}

#[test]
fn subtract_below_zero() {
    assert_eq!(value_of(apply("sub", vec![number("1"), number("2")])), text("-1"));
}

#[test]
fn integers_are_not_bounded() {
    assert_eq!(
        value_of(apply(
            "mul",
            vec![number("340282366920938463463374607431768211456"), number("340282366920938463463374607431768211456")]
        )),
        text("115_792_089_237_316_195_423_570_985_008_687_907_853_269_984_665_640_564_039_457_584_007_913_129_639_936")
    );
}

#[test]
fn integer_results_are_grouped() {
    assert_eq!(value_of(apply("mul", vec![number("1000"), number("-1000")])), text("-1_000_000"));
    assert_eq!(value_of(apply("add", vec![number("999"), number("1")])), text("1_000"));
    assert_eq!(value_of(apply("sub", vec![number("0"), number("123")])), text("-123"));
    assert_eq!(value_of(apply("sub", vec![number("0"), number("1234")])), text("-1_234"));
    assert_eq!(value_of(apply("sub", vec![number("0"), number("12345")])), text("-12_345"));
}

#[test]
fn a_grouped_result_is_an_operand_again() {
    let sum = apply("add", vec![number("999"), number("1")]);
    assert_eq!(value_of(apply("add", vec![sum, number("1")])), text("1_001"));
}

#[test]
fn literals_may_have_a_sign_and_underscores() {
    assert_eq!(value_of(apply("add", vec![number("+1_0"), number("-0_5")])), text("5"));
    assert_eq!(value_of(apply("add", vec![number("-0"), number("007")])), text("7"));
}

#[test]
fn division_truncates_toward_zero() {
    assert_eq!(value_of(apply("div", vec![number("7"), number("2")])), text("3"));
    assert_eq!(value_of(apply("div", vec![number("-7"), number("2")])), text("-3"));
    assert_eq!(value_of(apply("div", vec![number("7"), number("-2")])), text("-3"));
    assert_eq!(value_of(apply("div", vec![number("-7"), number("-2")])), text("3"));
}

#[test]
fn division_by_zero_is_an_error() {
    let err = outcome(apply("div", vec![number("1"), number("0")])).unwrap_err();
    assert_eq!(err.kind, ErrorKind::Semantic);
    assert_eq!(err.message, "division by zero");
    let err = outcome(apply("div", vec![number("1"), number("-0_0")])).unwrap_err();
    assert_eq!(err.message, "division by zero");
}

#[test]
fn typed_integers_are_widened() {
    let e = Exp::Apply(
        "add".to_string(),
        vec![number("1"), Exp::Apply("sub".to_string(), vec![number("5"), number("2")])],
    );
    assert_eq!(value_of(e), text("4"));
    let h = Helper {
        env: vec![
            ic_repl::types::Binding { name: "a".to_string(), value: Value::Nat8(200) },
            ic_repl::types::Binding { name: "b".to_string(), value: Value::Int64(-3000) },
            ic_repl::types::Binding { name: "c".to_string(), value: Value::Nat64(u64::MAX) },
            ic_repl::types::Binding { name: "d".to_string(), value: Value::Int("12".to_string()) },
            ic_repl::types::Binding { name: "e".to_string(), value: Value::Nat("30".to_string()) },
        ],
        ..helper()
    };
    let var = |n: &str| Exp::Path(n.to_string(), Vec::new());
    let eval = |e: Exp| match e.eval(&h, &Vec::new()) {
        Step::Done { result: Ok(v), .. } => v,
        other => panic!("no value: {:?}", other),
    };
    assert_eq!(eval(apply("add", vec![var("a"), var("a")])), text("400"));
    assert_eq!(eval(apply("mul", vec![var("a"), var("b")])), text("-600_000"));
    assert_eq!(eval(apply("add", vec![var("c"), number("1")])), text("18_446_744_073_709_551_616"));
    assert_eq!(eval(apply("sub", vec![var("d"), var("e")])), text("-18"));
}

#[test]
fn order_of_integers() {
    let t = Value::Bool(true);
    let f = Value::Bool(false);
    assert_eq!(value_of(apply("lt", vec![number("1"), number("2")])), t);
    assert_eq!(value_of(apply("lt", vec![number("2"), number("2")])), f);
    assert_eq!(value_of(apply("lte", vec![number("2"), number("2")])), t);
    assert_eq!(value_of(apply("lte", vec![number("3"), number("2")])), f);
    assert_eq!(value_of(apply("gt", vec![number("-1"), number("-2")])), t);
    assert_eq!(value_of(apply("gt", vec![number("-2"), number("-2")])), f);
    assert_eq!(value_of(apply("gte", vec![number("-2"), number("-2")])), t);
    assert_eq!(value_of(apply("gte", vec![number("-3"), number("-2")])), f);
    assert_eq!(value_of(apply("lt", vec![number("1_000"), number("999")])), f);
}

#[test]
fn order_of_floats() {
    assert_eq!(value_of(apply("lt", vec![float(1.5), number("2")])), Value::Bool(true));
    assert_eq!(value_of(apply("gte", vec![number("1"), float(1.5)])), Value::Bool(false));
}

#[test]
fn arithmetic_takes_two_numbers() {
    for name in ["add", "sub", "mul", "div", "lt", "lte", "gt", "gte"] {
        let err = outcome(apply(name, vec![number("1")])).unwrap_err();
        assert_eq!(err.kind, ErrorKind::Arguments);
        assert_eq!(err.message, format!("{} expects two numbers", name));
        let err = outcome(apply(name, vec![number("1"), Exp::Text("2".to_string())])).unwrap_err();
        assert_eq!(err.message, format!("{} expects two numbers", name));
        let err = outcome(apply(name, vec![float(1.0), Exp::Bool(true)])).unwrap_err();
        assert_eq!(err.message, format!("{} expects two numbers", name));
        let err = outcome(apply(name, vec![number("1.5"), number("2")])).unwrap_err();
        assert_eq!(err.message, format!("{} expects two numbers", name));
        let err = outcome(apply(name, vec![number("_1"), number("2")])).unwrap_err();
        assert_eq!(err.message, format!("{} expects two numbers", name));
    }
}

#[test]
fn logic_on_booleans() {
    let b = |x: bool| Exp::Bool(x);
    assert_eq!(value_of(apply("and", vec![b(true), b(false)])), Value::Bool(false));
    assert_eq!(value_of(apply("and", vec![b(true), b(true)])), Value::Bool(true));
    assert_eq!(value_of(apply("or", vec![b(true), b(false)])), Value::Bool(true));
    assert_eq!(value_of(apply("or", vec![b(false), b(false)])), Value::Bool(false));
    assert_eq!(value_of(apply("not", vec![b(false)])), Value::Bool(true));
    assert_eq!(value_of(apply("not", vec![b(true)])), Value::Bool(false));
}

#[test]
fn logic_takes_booleans_only() {
    let err = outcome(apply("and", vec![Exp::Bool(true), number("1")])).unwrap_err();
    assert_eq!(err.message, "and expects bool values");
    let err = outcome(apply("or", vec![Exp::Bool(true)])).unwrap_err();
    assert_eq!(err.message, "or expects bool values");
    let err = outcome(apply("not", vec![Exp::Null])).unwrap_err();
    assert_eq!(err.message, "not expects a bool value");
    assert_eq!(err.kind, ErrorKind::Arguments);
}
