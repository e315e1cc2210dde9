use ic_repl::error::ErrorKind;
use ic_repl::eval::Step;
use ic_repl::exp::{Exp, Field, Selector};
use ic_repl::host::{Answer, Request};
use ic_repl::label::Label;
use ic_repl::principal::Principal;
use ic_repl::types::{Binding, CallMode, Helper, Method};
use ic_repl::value::{Value, ValueField};

fn plain_helper(env: Vec<Binding>) -> Helper {
    Helper {
        env,
        func_env: Vec::new(),
        canister_map: Vec::new(),
        agent_url: String::from("http://127.0.0.1:4943"),
        offline: false,
        default_effective_canister_id: Principal { bytes: vec![4] },
    }
}

fn done(e: &Exp, h: &Helper, answers: &Vec<Answer>) -> Result<Value, ic_repl::error::Error> {
    match e.eval(h, answers) {
        Step::Done { result, .. } => result,
        other => panic!("not done: {:?}", other),
    }
}

fn apply(name: &str, args: Vec<Exp>) -> Exp {
    Exp::Apply(name.to_string(), args)
}

fn raises() -> Exp {
    Exp::Path("missing".to_string(), vec![])
}

fn text(s: &str) -> Exp {
    Exp::Text(s.to_string())
}

#[test]
fn ite_takes_the_true_branch() {
    let e = apply("ite", vec![Exp::Bool(true), text("yes"), raises()]);
    assert_eq!(done(&e, &plain_helper(vec![]), &vec![]).unwrap(), Value::Text("yes".to_string()));
}

#[test]
fn ite_takes_the_false_branch() {
    let e = apply("ite", vec![Exp::Bool(false), raises(), text("no")]);
    assert_eq!(done(&e, &plain_helper(vec![]), &vec![]).unwrap(), Value::Text("no".to_string()));
}

#[test]
fn ite_does_not_ask_for_the_branch_it_leaves() {
    let asks = apply("file", vec![text("a.bin")]);
    let e = apply("ite", vec![Exp::Bool(true), Exp::Null, asks.clone()]);
    assert_eq!(done(&e, &plain_helper(vec![]), &vec![]).unwrap(), Value::Null);
    let e = apply("ite", vec![Exp::Bool(false), Exp::Null, asks]);
    match e.eval(&plain_helper(vec![]), &vec![]) {
        Step::Ask(Request::ReadFile { path }) => assert_eq!(path, "a.bin"),
        other => panic!("no request: {:?}", other),
    }
}

#[test]
fn ite_evaluates_its_condition() {
    let c = apply("lt", vec![Exp::Number("1".to_string()), Exp::Number("2".to_string())]);
    let e = apply("ite", vec![c, text("less"), text("more")]);
    assert_eq!(done(&e, &plain_helper(vec![]), &vec![]).unwrap(), Value::Text("less".to_string()));
    let e = apply("ite", vec![raises(), text("less"), text("more")]);
    let err = done(&e, &plain_helper(vec![]), &vec![]).unwrap_err();
    assert_eq!(err.message, "Undefined variable missing");
}

#[test]
fn ite_takes_a_boolean_and_two_branches() {
    let h = plain_helper(vec![]);
    let err = done(&apply("ite", vec![Exp::Bool(true), Exp::Null]), &h, &vec![]).unwrap_err();
    assert_eq!(err.kind, ErrorKind::Arguments);
    assert_eq!(err.message, "ite expects a bool, true branch and false branch");
    let err = done(&apply("ite", vec![raises(), raises(), raises(), raises()]), &h, &vec![])
        .unwrap_err();
    assert_eq!(err.message, "ite expects a bool, true branch and false branch");
    let err =
        done(&apply("ite", vec![Exp::Null, text("a"), text("b")]), &h, &vec![]).unwrap_err();
    assert_eq!(err.message, "ite expects the first argument to be a boolean expression");
}

#[test]
fn exist_tells_whether_an_expression_evaluates() {
    let h = plain_helper(vec![Binding { name: "x".to_string(), value: Value::Null }]);
    let e = apply("exist", vec![Exp::Path("x".to_string(), vec![])]);
    assert_eq!(done(&e, &h, &vec![]).unwrap(), Value::Bool(true));
    let e = apply("exist", vec![raises()]);
    assert_eq!(done(&e, &h, &vec![]).unwrap(), Value::Bool(false));
    let e = apply("exist", vec![Exp::Path("x".to_string(), vec![Selector::Index(0)])]);
    assert_eq!(done(&e, &h, &vec![]).unwrap(), Value::Bool(false));
}

#[test]
fn exist_swallows_the_failure_of_the_host() {
    let e = apply("exist", vec![apply("file", vec![text("a.bin")])]);
    let h = plain_helper(vec![]);
    match e.eval(&h, &vec![]) {
        Step::Ask(Request::ReadFile { .. }) => {}
        other => panic!("no request: {:?}", other),
    }
    assert_eq!(done(&e, &h, &vec![Answer::Bytes(vec![1])]).unwrap(), Value::Bool(true));
    assert_eq!(
        done(&e, &h, &vec![Answer::Failed("no such file".to_string())]).unwrap(),
        Value::Bool(false)
    );
}

#[test]
fn exist_takes_one_expression() {
    let h = plain_helper(vec![]);
    let err = done(&apply("exist", vec![]), &h, &vec![]).unwrap_err();
    assert_eq!(err.kind, ErrorKind::Arguments);
    assert_eq!(err.message, "exist expects an expression");
    let err = done(&apply("exist", vec![Exp::Null, Exp::Null]), &h, &vec![]).unwrap_err();
    assert_eq!(err.message, "exist expects an expression");
}

#[test]
fn fail_turns_an_error_into_its_message() {
    let h = plain_helper(vec![]);
    let e = Exp::Fail(Box::new(raises()));
    assert_eq!(done(&e, &h, &vec![]).unwrap(), Value::Text("Undefined variable missing".to_string()));
    let e = Exp::Fail(Box::new(Exp::Null));
    let err = done(&e, &h, &vec![]).unwrap_err();
    assert_eq!(err.kind, ErrorKind::Expectation);
    assert_eq!(err.message, "Expects an error state");
}

#[test]
fn fail_takes_the_message_of_the_outer_error() {
    let h = plain_helper(vec![]);
    let e = Exp::Fail(Box::new(Exp::AnnVal(Box::new(text("a")), "nat8".to_string())));
    let answers = vec![Answer::Failed("type mismatch".to_string())];
    assert_eq!(
        done(&e, &h, &answers).unwrap(),
        Value::Text("casting to type nat8 fails".to_string())
    );
}

#[test]
fn a_cast_asks_the_host() {
    let h = plain_helper(vec![]);
    let e = Exp::AnnVal(Box::new(Exp::Number("42".to_string())), "nat8".to_string());
    match e.eval(&h, &vec![]) {
        Step::Ask(Request::Cast { value, ty }) => {
            assert_eq!(value, Value::Number("42".to_string()));
            assert_eq!(ty, "nat8");
        }
        other => panic!("no request: {:?}", other),
    }
    assert_eq!(done(&e, &h, &vec![Answer::Value(Value::Nat8(42))]).unwrap(), Value::Nat8(42));
    let err = done(&e, &h, &vec![Answer::Failed("number too large".to_string())]).unwrap_err();
    assert_eq!(err.kind, ErrorKind::Semantic);
    assert_eq!(err.message, "casting to type nat8 fails");
    assert_eq!(err.cause, Some("number too large".to_string()));
    let err = done(&e, &h, &vec![Answer::Unit]).unwrap_err();
    assert_eq!(err.kind, ErrorKind::Protocol);
}

#[test]
fn literals_evaluate_to_themselves() {
    let h = plain_helper(vec![]);
    let p = Principal { bytes: vec![1, 2, 3] };
    let cases = vec![
        (Exp::Bool(true), Value::Bool(true)),
        (Exp::Null, Value::Null),
        (text("a"), Value::Text("a".to_string())),
        (Exp::Number("1_0".to_string()), Value::Number("1_0".to_string())),
        (Exp::Float64(7), Value::Float64(7)),
        (Exp::Blob(vec![1, 2]), Value::Blob(vec![1, 2])),
        (Exp::Principal(p.clone()), Value::Principal(p.clone())),
        (Exp::Service(p.clone()), Value::Service(p.clone())),
        (Exp::Func(p.clone(), "f".to_string()), Value::Func(p.clone(), "f".to_string())),
        (Exp::Opt(Box::new(Exp::Null)), Value::Opt(Box::new(Value::Null))),
        (
            Exp::Vec(vec![Exp::Bool(true), Exp::Null]),
            Value::Vec(vec![Value::Bool(true), Value::Null]),
        ),
        (
            Exp::Record(vec![
                Field { id: Label::Named("b".to_string()), val: Exp::Null },
                Field { id: Label::Id(3), val: Exp::Bool(false) },
            ]),
            Value::Record(vec![
                ValueField { id: Label::Id(3), val: Value::Bool(false) },
                ValueField { id: Label::Named("b".to_string()), val: Value::Null },
            ]),
        ),
        (
            Exp::Variant(Box::new(Field { id: Label::Unnamed(1), val: text("x") }), 2),
            Value::Variant(
                Box::new(ValueField { id: Label::Unnamed(1), val: Value::Text("x".to_string()) }),
                2,
            ),
        ),
    ];
    for (e, v) in cases {
        assert_eq!(done(&e, &h, &vec![]).unwrap(), v);
    }
}

#[test]
fn parts_are_evaluated_from_the_left() {
    let h = plain_helper(vec![]);
    let file = |name: &str| apply("file", vec![text(name)]);
    let e = Exp::Vec(vec![file("first"), file("second")]);
    match e.eval(&h, &vec![]) {
        Step::Ask(Request::ReadFile { path }) => assert_eq!(path, "first"),
        other => panic!("no request: {:?}", other),
    }
    match e.eval(&h, &vec![Answer::Bytes(vec![1])]) {
        Step::Ask(Request::ReadFile { path }) => assert_eq!(path, "second"),
        other => panic!("no request: {:?}", other),
    }
    assert_eq!(
        done(&e, &h, &vec![Answer::Bytes(vec![1]), Answer::Bytes(vec![2])]).unwrap(),
        Value::Vec(vec![Value::Blob(vec![1]), Value::Blob(vec![2])])
    );
    let err = done(&e, &h, &vec![Answer::Failed("gone".to_string())]).unwrap_err();
    assert_eq!(err.kind, ErrorKind::Transport);
    assert_eq!(err.message, "gone");
}

#[test]
fn a_variable_is_looked_up() {
    let mut h = plain_helper(vec![]);
    h.bind("x".to_string(), Value::Nat8(1));
    h.bind("y".to_string(), Value::Nat8(2));
    h.bind("x".to_string(), Value::Nat8(3));
    assert!(h.is_wf());
    assert_eq!(h.env.len(), 2);
    assert_eq!(done(&Exp::Path("x".to_string(), vec![]), &h, &vec![]).unwrap(), Value::Nat8(3));
    assert_eq!(done(&Exp::Path("y".to_string(), vec![]), &h, &vec![]).unwrap(), Value::Nat8(2));
    let err = done(&Exp::Path("z".to_string(), vec![]), &h, &vec![]).unwrap_err();
    assert_eq!(err.kind, ErrorKind::Resolution);
    assert_eq!(err.message, "Undefined variable z");
}

#[test]
fn an_environment_binds_no_variable_twice() {
    let mut h = plain_helper(vec![
        Binding { name: "x".to_string(), value: Value::Nat8(1) },
        Binding { name: "x".to_string(), value: Value::Nat8(3) },
    ]);
    assert!(!h.is_wf());
    h.env.pop();
    assert!(h.is_wf());
    let fresh = Helper::new("url".to_string(), true, Principal { bytes: vec![4] });
    assert!(fresh.is_wf());
    assert_eq!(fresh.agent_url, "url");
    assert!(fresh.offline);
    assert!(fresh.env.is_empty() && fresh.func_env.is_empty() && fresh.canister_map.is_empty());
}

#[test]
fn a_path_projects() {
    let inner = Value::Record(vec![
        ValueField { id: Label::Named("name".to_string()), val: Value::Text("n".to_string()) },
        ValueField { id: Label::Id(0), val: Value::Vec(vec![Value::Nat8(7), Value::Nat8(8)]) },
    ]);
    let v = Value::Variant(Box::new(ValueField { id: Label::Named("Ok".to_string()), val: inner }), 0);
    let h = plain_helper(vec![Binding { name: "_".to_string(), value: v }]);
    let path = |p: Vec<Selector>| done(&Exp::Path("_".to_string(), p), &h, &vec![]);
    let field = |s: &str| Selector::Field(s.to_string());
    assert_eq!(path(vec![field("Ok"), field("name")]).unwrap(), Value::Text("n".to_string()));
    assert_eq!(path(vec![field("Ok"), Selector::Index(0), Selector::Index(1)]).unwrap(), Value::Nat8(8));
    assert_eq!(path(vec![Selector::Index(17724), Selector::Index(1224700491)]).unwrap(), Value::Text("n".to_string()));
    let err = path(vec![field("Err")]).unwrap_err();
    assert_eq!(err.kind, ErrorKind::Resolution);
    assert_eq!(err.message, "field not found");
    let err = path(vec![field("Ok"), field("age")]).unwrap_err();
    assert_eq!(err.message, "field not found");
    let err = path(vec![field("Ok"), Selector::Index(0), Selector::Index(2)]).unwrap_err();
    assert_eq!(err.message, "index out of range");
    let err = path(vec![field("Ok"), field("name"), field("x")]).unwrap_err();
    assert_eq!(err.message, "value has no such projection");
    let err = path(vec![field("Ok"), Selector::Index(u64::MAX)]).unwrap_err();
    assert_eq!(err.message, "field not found");
    let err = path(vec![field("Ok"), field("name"), Selector::Index(u64::MAX)]).unwrap_err();
    assert_eq!(err.message, "value has no such projection");
}

#[test]
fn only_a_call_that_is_sent_is_a_call() {
    let call = |mode: CallMode| Exp::Call {
        method: Some(Method { canister: "aaaaa-aa".to_string(), method: "m".to_string() }),
        args: Some(vec![]),
        mode,
    };
    assert!(call(CallMode::Call).is_call());
    assert!(!call(CallMode::Encode).is_call());
    assert!(!call(CallMode::Proxy("w".to_string())).is_call());
    assert!(!Exp::ParCall { calls: vec![] }.is_call());
    assert!(!Exp::Null.is_call());
}

#[test]
fn replica_url_is_the_address_of_the_replica() {
    let h = plain_helper(vec![]);
    assert_eq!(
        done(&apply("replica_url", vec![]), &h, &vec![]).unwrap(),
        Value::Text("http://127.0.0.1:4943".to_string())
    );
    let err = done(&apply("replica_url", vec![Exp::Null]), &h, &vec![]).unwrap_err();
    assert_eq!(err.message, "replica_url expects no arguments");
}

#[test]
fn a_record_has_no_label_twice() {
    let h = plain_helper(vec![]);
    let e = Exp::Record(vec![
        Field { id: Label::Named("a".to_string()), val: Exp::Null },
        Field { id: Label::Id(97), val: Exp::Null },
    ]);
    let err = done(&e, &h, &vec![]).unwrap_err();
    assert_eq!(err.kind, ErrorKind::Semantic);
    assert_eq!(err.message, "label '97' hash collision with 'a'");
}

#[test]
fn the_fields_of_a_record_are_evaluated_in_the_order_they_are_written() {
    let h = plain_helper(vec![]);
    let file = |name: &str| apply("file", vec![text(name)]);
    let e = Exp::Record(vec![
        Field { id: Label::Id(2), val: file("second") },
        Field { id: Label::Id(1), val: file("first") },
    ]);
    match e.eval(&h, &vec![]) {
        Step::Ask(Request::ReadFile { path }) => assert_eq!(path, "second"),
        other => panic!("no request: {:?}", other),
    }
    assert_eq!(
        done(&e, &h, &vec![Answer::Bytes(vec![2]), Answer::Bytes(vec![1])]).unwrap(),
        Value::Record(vec![
            ValueField { id: Label::Id(1), val: Value::Blob(vec![1]) },
            ValueField { id: Label::Id(2), val: Value::Blob(vec![2]) },
        ])
    );
}
