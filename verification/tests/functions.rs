use ic_repl::error::ErrorKind;
use ic_repl::eval::{apply_func, Step};
use ic_repl::exp::Exp;
use ic_repl::host::{Answer, Halt, Request, Run};
use ic_repl::principal::Principal;
use ic_repl::types::{Binding, FuncDef, Helper};
use ic_repl::value::Value;

fn func_helper(offline: bool) -> Helper {
    let mut h = Helper::new(String::new(), offline, Principal { bytes: vec![4] });
    h.bind("global".to_string(), Value::Nat8(9));
    h.define("f".to_string(), vec!["x".to_string(), "y".to_string()]);
    h.define("g".to_string(), vec![]);
    h.define("f".to_string(), vec!["z".to_string()]);
    h.define("read_state".to_string(), vec!["p".to_string()]);
    h.define("ite".to_string(), vec![]);
    h
}

fn new_run() -> Run {
    Run { cursor: 0, cache: Vec::new(), messages: Vec::new() }
}

fn failure(r: Result<Value, Halt>) -> ic_repl::error::Error {
    match r {
        Err(Halt::Failed(e)) => e,
        other => panic!("no error: {:?}", other),
    }
}

#[test]
fn a_function_takes_as_many_arguments_as_it_has_parameters() {
    let h = func_helper(false);
    let err = failure(apply_func(&h, "f", vec![], &vec![], &mut new_run()));
    assert_eq!(err.kind, ErrorKind::Arguments);
    assert_eq!(err.message, "f expects 1 arguments, but 0 is provided");
    let err = failure(apply_func(
        &h,
        "f",
        vec![Value::Null, Value::Null],
        &vec![],
        &mut new_run(),
    ));
    assert_eq!(err.message, "f expects 1 arguments, but 2 is provided");
    let twelve: Vec<Value> = (0..12).map(|_| Value::Null).collect();
    let err = failure(apply_func(&h, "g", twelve, &vec![], &mut new_run()));
    assert_eq!(err.message, "g expects 0 arguments, but 12 is provided");
}

#[test]
fn many_arguments_are_counted_in_plain_decimal() {
    let h = func_helper(false);
    let many: Vec<Value> = (0..1234).map(|_| Value::Null).collect();
    let err = failure(apply_func(&h, "g", many, &vec![], &mut new_run()));
    assert_eq!(err.message, "g expects 0 arguments, but 1234 is provided");
}

#[test]
fn an_unknown_function_is_an_error() {
    let h = func_helper(false);
    let err = failure(apply_func(&h, "h", vec![], &vec![], &mut new_run()));
    assert_eq!(err.kind, ErrorKind::Resolution);
    assert_eq!(err.message, "Unknown function h");
}

#[test]
fn a_function_runs_in_a_scope_of_its_parameters() {
    let h = func_helper(false);
    let mut run = new_run();
    match apply_func(&h, "f", vec![Value::Nat8(1)], &vec![], &mut run) {
        Err(Halt::Pending(Request::RunFunction { name, scope })) => {
            assert_eq!(name, "f");
            assert_eq!(scope, vec![Binding { name: "z".to_string(), value: Value::Nat8(1) }]);
        }
        other => panic!("no request: {:?}", other),
    }
    assert_eq!(run.cursor, 0);
}

#[test]
fn a_function_hands_back_what_its_scope_binds_to_the_underscore() {
    let h = func_helper(false);
    let scope = vec![
        Binding { name: "z".to_string(), value: Value::Nat8(2) },
        Binding { name: "_".to_string(), value: Value::Nat8(3) },
    ];
    let mut run = new_run();
    let r = apply_func(&h, "f", vec![Value::Null], &vec![Answer::Scope(scope)], &mut run);
    assert_eq!(r, Ok(Value::Nat8(3)));
    assert_eq!(run.cursor, 1);
}

#[test]
fn a_scope_that_binds_a_variable_twice_is_no_answer() {
    let h = func_helper(false);
    let scope = vec![
        Binding { name: "_".to_string(), value: Value::Nat8(1) },
        Binding { name: "_".to_string(), value: Value::Nat8(3) },
    ];
    let err = failure(apply_func(&h, "f", vec![Value::Null], &vec![Answer::Scope(scope)], &mut new_run()));
    assert_eq!(err.kind, ErrorKind::Protocol);
}

#[test]
fn a_function_is_defined_once() {
    let h = func_helper(false);
    assert!(h.is_wf());
    assert_eq!(h.func_env.len(), 4);
    assert_eq!(
        h.func_env[0],
        FuncDef { name: "f".to_string(), params: vec!["z".to_string()] }
    );
    let mut twice = func_helper(false);
    twice.func_env.push(FuncDef { name: "g".to_string(), params: vec![] });
    assert!(!twice.is_wf());
}

#[test]
fn a_function_that_binds_nothing_to_the_underscore_hands_back_null() {
    let h = func_helper(false);
    let scope = vec![Binding { name: "z".to_string(), value: Value::Nat8(2) }];
    let r = apply_func(&h, "f", vec![Value::Null], &vec![Answer::Scope(scope)], &mut new_run());
    assert_eq!(r, Ok(Value::Null));
    let r = apply_func(&h, "g", vec![], &vec![Answer::Scope(vec![])], &mut new_run());
    assert_eq!(r, Ok(Value::Null));
}

#[test]
fn a_function_fails_where_its_body_fails() {
    let h = func_helper(false);
    let answers = vec![Answer::Failed("assertion failed".to_string())];
    let err = failure(apply_func(&h, "g", vec![], &answers, &mut new_run()));
    assert_eq!(err.kind, ErrorKind::Transport);
    assert_eq!(err.message, "assertion failed");
    let err = failure(apply_func(&h, "g", vec![], &vec![Answer::Unit], &mut new_run()));
    assert_eq!(err.kind, ErrorKind::Protocol);
}

#[test]
fn a_name_that_is_no_builtin_is_a_function() {
    let h = func_helper(false);
    let e = Exp::Apply(
        "f".to_string(),
        vec![Exp::Apply("add".to_string(), vec![Exp::Number("1".to_string()), Exp::Number("2".to_string())])],
    );
    match e.eval(&h, &vec![]) {
        Step::Ask(Request::RunFunction { name, scope }) => {
            assert_eq!(name, "f");
            assert_eq!(
                scope,
                vec![Binding { name: "z".to_string(), value: Value::Number("3".to_string()) }]
            );
        }
        other => panic!("no request: {:?}", other),
    }
    let scope = vec![Binding { name: "_".to_string(), value: Value::Text("done".to_string()) }];
    match e.eval(&h, &vec![Answer::Scope(scope)]) {
        Step::Done { result, .. } => assert_eq!(result, Ok(Value::Text("done".to_string()))),
        other => panic!("not done: {:?}", other),
    }
    let e = Exp::Apply("nothing".to_string(), vec![]);
    match e.eval(&h, &vec![]) {
        Step::Done { result: Err(err), .. } => assert_eq!(err.message, "Unknown function nothing"),
        other => panic!("no error: {:?}", other),
    }
}

#[test]
fn the_arguments_of_a_function_are_evaluated_first() {
    let h = func_helper(false);
    let e = Exp::Apply("nothing".to_string(), vec![Exp::Path("missing".to_string(), vec![])]);
    match e.eval(&h, &vec![]) {
        Step::Done { result: Err(err), .. } => assert_eq!(err.message, "Undefined variable missing"),
        other => panic!("no error: {:?}", other),
    }
}

#[test]
fn a_builtin_hides_a_function_of_its_name() {
    let h = func_helper(false);
    let e = Exp::Apply("ite".to_string(), vec![]);
    match e.eval(&h, &vec![]) {
        Step::Done { result: Err(err), .. } => {
            assert_eq!(err.message, "ite expects a bool, true branch and false branch")
        }
        other => panic!("no error: {:?}", other),
    }
}

#[test]
fn read_state_is_a_function_in_offline_mode() {
    let e = Exp::Apply("read_state".to_string(), vec![Exp::Text("time".to_string())]);
    match e.eval(&func_helper(false), &vec![]) {
        Step::Ask(Request::ReadState { effective, path }) => {
            assert_eq!(effective, None);
            assert_eq!(path, vec![Value::Text("time".to_string())]);
        }
        other => panic!("no request: {:?}", other),
    }
    match e.eval(&func_helper(true), &vec![]) {
        Step::Ask(Request::RunFunction { name, scope }) => {
            assert_eq!(name, "read_state");
            assert_eq!(
                scope,
                vec![Binding { name: "p".to_string(), value: Value::Text("time".to_string()) }]
            );
        }
        other => panic!("no request: {:?}", other),
    }
    let e = Exp::Apply("send".to_string(), vec![Exp::Blob(b"{}".to_vec())]);
    match e.eval(&func_helper(true), &vec![]) {
        Step::Done { result: Err(err), .. } => assert_eq!(err.message, "Unknown function send"),
        other => panic!("no error: {:?}", other),
    }
}
