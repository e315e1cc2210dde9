use ic_repl::error::ErrorKind;
use ic_repl::eval::Step;
use ic_repl::exp::{Exp, FuncCall};
use ic_repl::host::{Answer, CallSpec, Halt, Message, Outcome, Request, RequestStatus, Run, Types};
use ic_repl::label::Label;
use ic_repl::principal::Principal;
use ic_repl::resolve::str_to_principal;
use ic_repl::types::{
    Binding, CacheEntry, CallMode, CanisterInfo, FuncMode, Function, Helper, Method, MethodDecl,
    MethodInfo, Signature,
};
use ic_repl::value::{Value, ValueField};
use std::collections::BTreeMap;

const TARGET: &str = "rrkah-fqaaa-aaaaa-aaaaq-cai";

fn target() -> Principal {
    Principal { bytes: vec![0, 0, 0, 0, 0, 0, 0, 1, 1, 1] }
}

fn wallet() -> Principal {
    Principal { bytes: vec![0, 0, 0, 0, 0, 0, 0, 2, 1, 1] }
}

fn greet() -> Function {
    Function {
        modes: vec![FuncMode::Query],
        args: vec!["text".to_string()],
        rets: vec!["Greeting".to_string()],
    }
}

fn set() -> Function {
    Function { modes: vec![], args: vec!["nat".to_string()], rets: vec![] }
}

fn symbols(id: u16, name: &str) -> BTreeMap<u16, String> {
    [(id, name.to_string())].into_iter().collect()
}

fn interface(profiling: Option<BTreeMap<u16, String>>) -> CanisterInfo {
    CanisterInfo {
        env: "type Greeting = text;".to_string(),
        methods: vec![
            MethodDecl { name: "greet".to_string(), func: greet() },
            MethodDecl { name: "set".to_string(), func: set() },
        ],
        init: Some(vec!["nat".to_string()]),
        profiling,
    }
}

fn call_helper(offline: bool, known: bool) -> Helper {
    Helper {
        env: vec![
            Binding { name: "alias".to_string(), value: Value::Principal(target()) },
            Binding { name: "wallet".to_string(), value: Value::Principal(wallet()) },
            Binding { name: "module".to_string(), value: Value::Blob(module(true)) },
            Binding { name: "bare".to_string(), value: Value::Blob(module(false)) },
            Binding { name: "junk".to_string(), value: Value::Blob(vec![1, 2, 3]) },
        ],
        func_env: Vec::new(),
        canister_map: if known {
            vec![CacheEntry { canister: target(), info: interface(None) }]
        } else {
            Vec::new()
        },
        agent_url: String::new(),
        offline,
        default_effective_canister_id: Principal { bytes: vec![9] },
    }
}

fn section(name: &str, data: &[u8]) -> Vec<u8> {
    let mut body = vec![name.len() as u8];
    body.extend_from_slice(name.as_bytes());
    body.extend_from_slice(data);
    let mut out = vec![0, body.len() as u8];
    out.extend(body);
    out
}

/// A module without code, with its metadata sections.
fn module(with_args: bool) -> Vec<u8> {
    let mut m = vec![0, 97, 115, 109, 1, 0, 0, 0];
    m.extend(section("icp:public candid:service", b"service : { greet : (text) -> (text) query }"));
    if with_args {
        m.extend(section("icp:private candid:args", b"(nat)"));
    }
    m
}

fn new_run() -> Run {
    Run { cursor: 0, cache: Vec::new(), messages: Vec::new() }
}

fn method(canister: &str, name: &str) -> Method {
    Method { canister: canister.to_string(), method: name.to_string() }
}

fn call(canister: &str, name: &str, args: Vec<Exp>, mode: CallMode) -> Exp {
    Exp::Call { method: Some(method(canister, name)), args: Some(args), mode }
}

fn asked(e: &Exp, h: &Helper, answers: &Vec<Answer>) -> Request {
    match e.eval(h, answers) {
        Step::Ask(r) => r,
        other => panic!("no request: {:?}", other),
    }
}

fn done(e: &Exp, h: &Helper, answers: &Vec<Answer>) -> Result<Value, ic_repl::error::Error> {
    match e.eval(h, answers) {
        Step::Done { result, .. } => result,
        other => panic!("not done: {:?}", other),
    }
}

fn text(s: &str) -> Value {
    Value::Text(s.to_string())
}

#[test]
fn a_name_that_writes_an_address_is_that_address() {
    let h = call_helper(false, false);
    assert_eq!(str_to_principal(TARGET, &h).unwrap(), target());
    assert_eq!(str_to_principal("aaaaa-aa", &h).unwrap(), Principal { bytes: vec![] });
    assert_eq!(str_to_principal("2vxsx-fae", &h).unwrap(), Principal { bytes: vec![4] });
}

#[test]
fn a_name_of_a_variable_is_the_address_it_holds() {
    let h = call_helper(false, false);
    assert_eq!(str_to_principal("alias", &h).unwrap(), target());
    let err = str_to_principal("module", &h).unwrap_err();
    assert_eq!(err.kind, ErrorKind::Resolution);
    assert_eq!(err.message, "module is not a canister id");
    let err = str_to_principal("rrkah-fqaaa-aaaaa-aaaaq-caj", &h).unwrap_err();
    assert_eq!(err.message, "rrkah-fqaaa-aaaaa-aaaaq-caj is not a canister id");
}

#[test]
fn a_known_interface_gives_the_signature() {
    let h = call_helper(false, true);
    let mut run = Run { cursor: 0, cache: h.canister_map.clone(), messages: Vec::new() };
    let info = method("alias", "greet").get_info(&h, false, &vec![], &mut run).unwrap();
    assert_eq!(
        info,
        MethodInfo {
            canister_id: target(),
            signature: Some(Signature { env: "type Greeting = text;".to_string(), func: greet() }),
            profiling: None,
        }
    );
    assert_eq!(run.cursor, 0);
    let info = method(TARGET, "unknown").get_info(&h, false, &vec![], &mut run).unwrap();
    assert_eq!(info, MethodInfo { canister_id: target(), signature: None, profiling: None });
}

#[test]
fn an_unknown_interface_is_fetched_once() {
    let h = call_helper(false, false);
    let mut run = new_run();
    match method("alias", "set").get_info(&h, false, &vec![], &mut run) {
        Err(Halt::Pending(Request::FetchInterface { canister })) => assert_eq!(canister, target()),
        other => panic!("no request: {:?}", other),
    }
    let names = symbols(3, "set");
    let answers = vec![Answer::Interface(interface(Some(names.clone())))];
    let mut run = new_run();
    let info = method("alias", "set").get_info(&h, false, &answers, &mut run).unwrap();
    assert_eq!(info.signature, Some(Signature { env: "type Greeting = text;".to_string(), func: set() }));
    assert_eq!(info.profiling, Some(names.clone()));
    assert_eq!(run.cursor, 1);
    assert_eq!(run.cache, vec![CacheEntry { canister: target(), info: interface(Some(names)) }]);
    let info = method(TARGET, "greet").get_info(&h, false, &answers, &mut run).unwrap();
    assert_eq!(info.signature.unwrap().func, greet());
    assert_eq!(run.cursor, 1);
}

#[test]
fn without_an_interface_there_is_an_address_and_no_signature() {
    let h = call_helper(false, false);
    let answers = vec![Answer::Failed("no route to host".to_string())];
    let mut run = new_run();
    let info = method(TARGET, "greet").get_info(&h, false, &answers, &mut run).unwrap();
    assert_eq!(info, MethodInfo { canister_id: target(), signature: None, profiling: None });
    assert_eq!(run.cache, vec![]);
    match method("nobody", "greet").get_info(&h, false, &answers, &mut new_run()) {
        Err(Halt::Failed(err)) => assert_eq!(err.message, "nobody is not a canister id"),
        other => panic!("no error: {:?}", other),
    }
}

#[test]
fn the_constructor_of_a_deployed_canister() {
    let h = call_helper(false, true);
    let mut run = Run { cursor: 0, cache: h.canister_map.clone(), messages: Vec::new() };
    let info = method("alias", "__init_args").get_info(&h, true, &vec![], &mut run).unwrap();
    assert_eq!(
        info.signature,
        Some(Signature {
            env: "type Greeting = text;".to_string(),
            func: Function { modes: vec![], args: vec!["nat".to_string()], rets: vec![] },
        })
    );
    assert_eq!(info.canister_id, target());
}

#[test]
fn the_constructor_of_a_module() {
    let h = call_helper(false, false);
    let mut run = new_run();
    let info = method("module", "__init_args").get_info(&h, true, &vec![], &mut run).unwrap();
    assert_eq!(
        info,
        MethodInfo {
            canister_id: Principal { bytes: vec![4] },
            signature: Some(Signature {
                env: String::new(),
                func: Function { modes: vec![], args: vec!["nat".to_string()], rets: vec![] },
            }),
            profiling: None,
        }
    );
    assert_eq!(run.cursor, 0);
}

#[test]
fn the_constructor_of_a_module_with_type_definitions() {
    let mut h = call_helper(false, false);
    let mut m = vec![0, 97, 115, 109, 1, 0, 0, 0];
    m.extend(section(
        "icp:public candid:service",
        b"type C = record { o : principal }; service : (C) -> { get : () -> (C) query }",
    ));
    m.extend(section("icp:public candid:args", b"(text)"));
    h.env.push(Binding { name: "typed".to_string(), value: Value::Blob(m) });
    let info = method("typed", "__init_args").get_info(&h, true, &vec![], &mut new_run()).unwrap();
    let sig = info.signature.unwrap();
    assert_eq!(sig.func.args, vec!["C".to_string()]);
    assert_eq!(sig.env, "type C = record { o : principal };\n");
}

#[test]
fn constructor_metadata_that_does_not_parse_is_an_error() {
    let mut h = call_helper(false, false);
    let mut m = vec![0, 97, 115, 109, 1, 0, 0, 0];
    m.extend(section("icp:public candid:args", b"(nat"));
    h.env.push(Binding { name: "broken".to_string(), value: Value::Blob(m) });
    match method("broken", "__init_args").get_info(&h, true, &vec![], &mut new_run()) {
        Err(Halt::Failed(err)) => assert_eq!(err.kind, ErrorKind::Resolution),
        other => panic!("no error: {:?}", other),
    }
}

#[test]
fn a_module_without_constructor_metadata_has_no_signature() {
    let h = call_helper(false, false);
    let info = method("bare", "__init_args").get_info(&h, true, &vec![], &mut new_run()).unwrap();
    assert_eq!(
        info,
        MethodInfo { canister_id: Principal { bytes: vec![4] }, signature: None, profiling: None }
    );
}

#[test]
fn a_byte_string_that_is_no_module_is_an_error() {
    let h = call_helper(false, false);
    match method("junk", "__init_args").get_info(&h, true, &vec![], &mut new_run()) {
        Err(Halt::Failed(err)) => assert_eq!(err.kind, ErrorKind::Resolution),
        other => panic!("no error: {:?}", other),
    }
    // Only the constructor is resolved from a module, and only when encoding.
    match method("module", "__init_args").get_info(&h, false, &vec![], &mut new_run()) {
        Err(Halt::Failed(err)) => assert_eq!(err.message, "module is not a canister id"),
        other => panic!("no error: {:?}", other),
    }
    match method("module", "greet").get_info(&h, true, &vec![], &mut new_run()) {
        Err(Halt::Failed(err)) => assert_eq!(err.message, "module is not a canister id"),
        other => panic!("no error: {:?}", other),
    }
}

#[test]
fn encode_hands_back_the_encoded_arguments() {
    let h = call_helper(false, true);
    let e = call("alias", "greet", vec![Exp::Text("world".to_string())], CallMode::Encode);
    assert_eq!(
        asked(&e, &h, &vec![]),
        Request::Encode {
            args: vec![text("world")],
            types: Some(Types {
                env: "type Greeting = text;".to_string(),
                types: vec!["text".to_string()],
            }),
        }
    );
    assert_eq!(done(&e, &h, &vec![Answer::Bytes(vec![1, 2, 3])]), Ok(Value::Blob(vec![1, 2, 3])));
    let err = done(&e, &h, &vec![Answer::Failed("type mismatch".to_string())]).unwrap_err();
    assert_eq!(err.kind, ErrorKind::Transport);
    let e = call("alias", "unknown", vec![Exp::Text("world".to_string())], CallMode::Encode);
    assert_eq!(asked(&e, &h, &vec![]), Request::Encode { args: vec![text("world")], types: None });
    let e = Exp::Call { method: None, args: Some(vec![Exp::Null]), mode: CallMode::Encode };
    assert_eq!(asked(&e, &h, &vec![]), Request::Encode { args: vec![Value::Null], types: None });
}

#[test]
fn missing_arguments_take_a_signature() {
    let h = call_helper(false, true);
    let e = Exp::Call { method: Some(method("alias", "set")), args: None, mode: CallMode::Encode };
    assert_eq!(
        asked(&e, &h, &vec![]),
        Request::InputArgs {
            types: Types {
                env: "type Greeting = text;".to_string(),
                types: vec!["nat".to_string()],
            },
        }
    );
    let given = Answer::Values(vec![Value::Nat("5".to_string())]);
    match asked(&e, &h, &vec![given]) {
        Request::Encode { args, .. } => assert_eq!(args, vec![Value::Nat("5".to_string())]),
        other => panic!("no encoding: {:?}", other),
    }
    let err = done(&e, &h, &vec![Answer::Failed("Abort".to_string())]).unwrap_err();
    assert_eq!(err.message, "Abort");
    let e = Exp::Call { method: Some(method("alias", "unknown")), args: None, mode: CallMode::Call };
    let err = done(&e, &h, &vec![]).unwrap_err();
    assert_eq!(err.kind, ErrorKind::Resolution);
    assert_eq!(err.message, "cannot get method type, please provide arguments");
    let e = Exp::Call { method: None, args: None, mode: CallMode::Encode };
    let err = done(&e, &h, &vec![]).unwrap_err();
    assert_eq!(err.message, "cannot get method type, please provide arguments");
}

fn spec(name: &str, effective: Principal) -> CallSpec {
    CallSpec { canister: target(), effective, method: name.to_string(), args: vec![7] }
}

#[test]
fn a_query_is_sent_as_a_query() {
    let h = call_helper(false, true);
    let e = call("alias", "greet", vec![Exp::Text("world".to_string())], CallMode::Call);
    let mut answers = vec![Answer::Bytes(vec![7])];
    assert_eq!(
        asked(&e, &h, &answers),
        Request::Route { canister: target(), method: "greet".to_string(), args: vec![7] }
    );
    answers.push(Answer::Route(None));
    assert_eq!(
        asked(&e, &h, &answers),
        Request::Call { call: spec("greet", Principal { bytes: vec![9] }), query: true }
    );
    answers.push(Answer::Bytes(vec![8]));
    assert_eq!(
        asked(&e, &h, &answers),
        Request::Decode {
            bytes: vec![8],
            types: Some(Types {
                env: "type Greeting = text;".to_string(),
                types: vec!["Greeting".to_string()],
            }),
        }
    );
    answers.push(Answer::Values(vec![text("hello world")]));
    assert_eq!(done(&e, &h, &answers), Ok(text("hello world")));
}

#[test]
fn an_update_is_routed_and_sent_as_an_update() {
    let h = call_helper(false, true);
    let e = call(TARGET, "set", vec![Exp::Number("1".to_string())], CallMode::Call);
    let mut answers = vec![Answer::Bytes(vec![7]), Answer::Route(Some(wallet()))];
    assert_eq!(asked(&e, &h, &answers), Request::Call { call: spec("set", wallet()), query: false });
    answers.push(Answer::Bytes(vec![]));
    answers.push(Answer::Values(vec![]));
    assert_eq!(done(&e, &h, &answers), Ok(Value::Null));
}

#[test]
fn a_call_without_a_signature_is_an_update() {
    let h = call_helper(false, false);
    let e = call(TARGET, "set", vec![], CallMode::Call);
    let answers = vec![
        Answer::Failed("no interface".to_string()),
        Answer::Bytes(vec![7]),
        Answer::Route(None),
    ];
    assert_eq!(
        asked(&e, &h, &answers),
        Request::Call { call: spec("set", Principal { bytes: vec![9] }), query: false }
    );
    let mut answers = answers;
    answers.push(Answer::Bytes(vec![1]));
    assert_eq!(asked(&e, &h, &answers), Request::Decode { bytes: vec![1], types: None });
}

#[test]
fn several_results_are_a_tuple() {
    let h = call_helper(false, true);
    let e = call(TARGET, "set", vec![], CallMode::Call);
    let answers = vec![
        Answer::Bytes(vec![7]),
        Answer::Route(None),
        Answer::Bytes(vec![]),
        Answer::Values(vec![Value::Nat8(1), text("b"), Value::Null]),
    ];
    assert_eq!(
        done(&e, &h, &answers),
        Ok(Value::Record(vec![
            ValueField { id: Label::Id(0), val: Value::Nat8(1) },
            ValueField { id: Label::Id(1), val: text("b") },
            ValueField { id: Label::Id(2), val: Value::Null },
        ]))
    );
}

#[test]
fn a_failed_call_is_an_error() {
    let h = call_helper(false, true);
    let e = call(TARGET, "set", vec![], CallMode::Call);
    let answers = vec![
        Answer::Bytes(vec![7]),
        Answer::Route(None),
        Answer::Failed("canister trapped".to_string()),
    ];
    let err = done(&e, &h, &answers).unwrap_err();
    assert_eq!(err.kind, ErrorKind::Transport);
    assert_eq!(err.message, "canister trapped");
    let e = Exp::Call { method: None, args: Some(vec![]), mode: CallMode::Call };
    let err = done(&e, &h, &vec![Answer::Bytes(vec![7])]).unwrap_err();
    assert_eq!(err.message, "call expects a method");
}

#[test]
fn an_offline_query_is_signed_and_logged() {
    let h = call_helper(true, true);
    let e = call("alias", "greet", vec![Exp::Text("world".to_string())], CallMode::Call);
    let mut answers = vec![Answer::Bytes(vec![7]), Answer::Route(None)];
    assert_eq!(
        asked(&e, &h, &answers),
        Request::Sign { call: spec("greet", Principal { bytes: vec![9] }), query: true }
    );
    answers.push(Answer::Signed { request_id: vec![], content: vec![0x00, 0x0f, 0xa5, 0xff] });
    let message = Message {
        call_type: "query".to_string(),
        request_id: None,
        content: "000fa5ff".to_string(),
        request_status: None,
    };
    assert_eq!(asked(&e, &h, &answers), Request::Emit { message: message.clone() });
    answers.push(Answer::Unit);
    match e.eval(&h, &answers) {
        Step::Done { result, messages, .. } => {
            assert_eq!(result, Ok(Value::Null));
            assert_eq!(messages, vec![message]);
        }
        other => panic!("not done: {:?}", other),
    }
}

#[test]
fn an_offline_update_is_signed_with_its_status_request() {
    let h = call_helper(true, true);
    let e = call("alias", "set", vec![Exp::Number("1".to_string())], CallMode::Call);
    let mut answers = vec![Answer::Bytes(vec![7]), Answer::Route(Some(wallet()))];
    assert_eq!(asked(&e, &h, &answers), Request::Sign { call: spec("set", wallet()), query: false });
    answers.push(Answer::Signed { request_id: vec![0xde, 0xad], content: vec![0xbe, 0xef] });
    assert_eq!(
        asked(&e, &h, &answers),
        Request::SignStatus { effective: wallet(), request_id: vec![0xde, 0xad] }
    );
    answers.push(Answer::Signed { request_id: vec![0xde, 0xad], content: vec![0x01, 0x23] });
    let message = Message {
        call_type: "update".to_string(),
        request_id: Some("dead".to_string()),
        content: "beef".to_string(),
        request_status: Some(RequestStatus {
            canister_id: wallet(),
            request_id: "dead".to_string(),
            content: "0123".to_string(),
        }),
    };
    assert_eq!(asked(&e, &h, &answers), Request::Emit { message: message.clone() });
    answers.push(Answer::Unit);
    match e.eval(&h, &answers) {
        Step::Done { result, messages, .. } => {
            assert_eq!(result, Ok(Value::Null));
            assert_eq!(messages, vec![message]);
        }
        other => panic!("not done: {:?}", other),
    }
}

#[test]
fn a_message_is_logged_even_where_it_cannot_be_written() {
    let h = call_helper(true, true);
    let e = call("alias", "greet", vec![], CallMode::Call);
    let answers = vec![
        Answer::Bytes(vec![7]),
        Answer::Route(None),
        Answer::Signed { request_id: vec![], content: vec![1] },
        Answer::Failed("disk full".to_string()),
    ];
    match e.eval(&h, &answers) {
        Step::Done { result: Err(err), messages, .. } => {
            assert_eq!(err.message, "disk full");
            assert_eq!(messages.len(), 1);
        }
        other => panic!("no error: {:?}", other),
    }
}

#[test]
fn the_cost_of_an_update_to_an_instrumented_canister_is_measured() {
    let mut h = call_helper(false, false);
    let names = symbols(1, "set");
    h.canister_map = vec![CacheEntry { canister: target(), info: interface(Some(names)) }];
    let e = call("alias", "set", vec![Exp::Number("1".to_string())], CallMode::Call);
    let mut answers = vec![Answer::Bytes(vec![7])];
    assert_eq!(asked(&e, &h, &answers), Request::Cycles { canister: target() });
    answers.push(Answer::Value(Value::Int64(1000)));
    answers.push(Answer::Route(None));
    answers.push(Answer::Bytes(vec![]));
    answers.push(Answer::Values(vec![text("ok")]));
    assert_eq!(asked(&e, &h, &answers), Request::Cycles { canister: target() });
    answers.push(Answer::Value(Value::Int64(1234)));
    assert_eq!(
        done(&e, &h, &answers),
        Ok(Value::Record(vec![
            ValueField { id: Label::Id(0), val: text("ok") },
            ValueField {
                id: Label::Id(1),
                val: Value::Record(vec![ValueField {
                    id: Label::Named("__cost".to_string()),
                    val: Value::Int64(234),
                }]),
            },
        ]))
    );
    let last = answers.len() - 1;
    answers[last] = Answer::Value(Value::Int64(i64::MIN));
    let err = done(&e, &h, &answers).unwrap_err();
    assert_eq!(err.message, "cost is out of range");
    // A query is not measured, nor is a call in offline mode.
    let e = call("alias", "greet", vec![], CallMode::Call);
    match asked(&e, &h, &vec![Answer::Bytes(vec![7])]) {
        Request::Route { .. } => {}
        other => panic!("no routing: {:?}", other),
    }
    h.offline = true;
    let e = call("alias", "set", vec![], CallMode::Call);
    match asked(&e, &h, &vec![Answer::Bytes(vec![7])]) {
        Request::Route { .. } => {}
        other => panic!("no routing: {:?}", other),
    }
}

#[test]
fn a_call_through_a_relay_runs_a_script() {
    let mut h = call_helper(false, true);
    let relay_info = CanisterInfo { env: String::new(), methods: vec![], init: None, profiling: None };
    h.canister_map.push(CacheEntry { canister: wallet(), info: relay_info.clone() });
    let e = call("alias", "greet", vec![Exp::Text("w".to_string())], CallMode::Proxy("wallet".to_string()));
    let mut answers = vec![Answer::Bytes(vec![7])];
    let code = "\nlet _ = call \"ryjl3-tyaaa-aaaaa-aaaba-cai\".wallet_call(\n  record {\n    args = _msg;\n    cycles = 0;\n    method_name = \"greet\";\n    canister = principal \"rrkah-fqaaa-aaaaa-aaaaq-cai\";\n  }\n);\nlet _ = decode as \"rrkah-fqaaa-aaaaa-aaaaq-cai\".greet _.Ok.return;\n";
    assert_eq!(
        asked(&e, &h, &answers),
        Request::RunScript {
            code: code.to_string(),
            scope: vec![Binding { name: "_msg".to_string(), value: Value::Blob(vec![7]) }],
            relay: wallet(),
            interface: relay_info,
        }
    );
    answers.push(Answer::Scope(vec![
        Binding { name: "_msg".to_string(), value: Value::Blob(vec![7]) },
        Binding { name: "_".to_string(), value: text("hello w") },
    ]));
    assert_eq!(done(&e, &h, &answers), Ok(text("hello w")));
    let last = answers.len() - 1;
    answers[last] = Answer::Scope(vec![]);
    let err = done(&e, &h, &answers).unwrap_err();
    assert_eq!(err.message, "Undefined variable _");
}

#[test]
fn a_relay_has_to_be_known() {
    let h = call_helper(false, true);
    let e = call("alias", "greet", vec![], CallMode::Proxy("wallet".to_string()));
    let err = done(&e, &h, &vec![Answer::Bytes(vec![7])]).unwrap_err();
    assert_eq!(err.kind, ErrorKind::Resolution);
    assert_eq!(err.message, "ryjl3-tyaaa-aaaaa-aaaba-cai canister interface not found");
    let e = call("alias", "greet", vec![], CallMode::Proxy("nobody".to_string()));
    let err = done(&e, &h, &vec![Answer::Bytes(vec![7])]).unwrap_err();
    assert_eq!(err.message, "nobody is not a canister id");
}

#[test]
fn decode_takes_a_byte_string() {
    let h = call_helper(false, true);
    let decode = |blob: Exp, m: Option<Method>| Exp::Decode { method: m, blob: Box::new(blob) };
    let e = decode(Exp::Blob(vec![1, 2]), None);
    assert_eq!(asked(&e, &h, &vec![]), Request::Decode { bytes: vec![1, 2], types: None });
    assert_eq!(done(&e, &h, &vec![Answer::Values(vec![text("a")])]), Ok(text("a")));
    let e = decode(Exp::Blob(vec![1, 2]), Some(method("alias", "greet")));
    assert_eq!(
        asked(&e, &h, &vec![]),
        Request::Decode {
            bytes: vec![1, 2],
            types: Some(Types {
                env: "type Greeting = text;".to_string(),
                types: vec!["Greeting".to_string()],
            }),
        }
    );
    let as_vec = Exp::Path("v".to_string(), vec![]);
    let mut h2 = call_helper(false, true);
    h2.env.push(Binding { name: "v".to_string(), value: Value::Vec(vec![Value::Nat8(4), Value::Nat8(5)]) });
    assert_eq!(
        asked(&decode(as_vec.clone(), None), &h2, &vec![]),
        Request::Decode { bytes: vec![4, 5], types: None }
    );
    for bad in [
        Value::Vec(vec![]),
        Value::Vec(vec![Value::Nat8(4), Value::Nat16(5)]),
        Value::Text("ab".to_string()),
        Value::Null,
    ] {
        let mut h3 = call_helper(false, true);
        h3.env.push(Binding { name: "v".to_string(), value: bad });
        let err = done(&decode(as_vec.clone(), None), &h3, &vec![]).unwrap_err();
        assert_eq!(err.kind, ErrorKind::Semantic);
        assert_eq!(err.message, "not a blob");
    }
}

fn batch() -> Exp {
    Exp::ParCall {
        calls: vec![
            FuncCall { method: method("alias", "set"), args: vec![Exp::Number("1".to_string())] },
            FuncCall { method: method("alias", "greet"), args: vec![Exp::Text("w".to_string())] },
            FuncCall { method: method(TARGET, "unknown"), args: vec![] },
        ],
    }
}

fn prepared() -> Vec<Answer> {
    vec![
        Answer::Bytes(vec![1]),
        Answer::Route(None),
        Answer::Bytes(vec![2]),
        Answer::Route(Some(wallet())),
        Answer::Bytes(vec![3]),
        Answer::Route(None),
    ]
}

#[test]
fn a_batch_is_prepared_call_by_call_and_sent_at_once() {
    let h = call_helper(false, true);
    let e = batch();
    assert_eq!(
        asked(&e, &h, &vec![]),
        Request::Encode {
            args: vec![Value::Number("1".to_string())],
            types: Some(Types {
                env: "type Greeting = text;".to_string(),
                types: vec!["nat".to_string()],
            }),
        }
    );
    let default = Principal { bytes: vec![9] };
    let call = |name: &str, effective: &Principal, args: u8| CallSpec {
        canister: target(),
        effective: effective.clone(),
        method: name.to_string(),
        args: vec![args],
    };
    assert_eq!(
        asked(&e, &h, &prepared()),
        Request::Batch {
            calls: vec![
                call("set", &default, 1),
                call("greet", &wallet(), 2),
                call("unknown", &default, 3),
            ],
        }
    );
}

#[test]
fn the_results_of_a_batch_come_in_the_order_of_its_calls() {
    let h = call_helper(false, true);
    let e = batch();
    let mut answers = prepared();
    answers.push(Answer::Batch(vec![
        Outcome::Reply(vec![10]),
        Outcome::Reply(vec![20]),
        Outcome::Reply(vec![30]),
    ]));
    assert_eq!(
        asked(&e, &h, &answers),
        Request::Decode {
            bytes: vec![10],
            types: Some(Types { env: "type Greeting = text;".to_string(), types: vec![] }),
        }
    );
    answers.push(Answer::Values(vec![]));
    match asked(&e, &h, &answers) {
        Request::Decode { bytes, types: Some(types) } => {
            assert_eq!(bytes, vec![20]);
            assert_eq!(types.types, vec!["Greeting".to_string()]);
        }
        other => panic!("no decoding: {:?}", other),
    }
    answers.push(Answer::Values(vec![text("hello w")]));
    assert_eq!(asked(&e, &h, &answers), Request::Decode { bytes: vec![30], types: None });
    answers.push(Answer::Values(vec![Value::Nat8(1), Value::Nat8(2)]));
    assert_eq!(
        done(&e, &h, &answers),
        Ok(Value::Record(vec![
            ValueField { id: Label::Id(0), val: Value::Null },
            ValueField { id: Label::Id(1), val: text("hello w") },
            ValueField {
                id: Label::Id(2),
                val: Value::Record(vec![
                    ValueField { id: Label::Id(0), val: Value::Nat8(1) },
                    ValueField { id: Label::Id(1), val: Value::Nat8(2) },
                ]),
            },
        ]))
    );
}

#[test]
fn a_batch_fails_where_its_second_call_fails() {
    let h = call_helper(false, true);
    let e = batch();
    let mut answers = prepared();
    answers.push(Answer::Batch(vec![
        Outcome::Reply(vec![10]),
        Outcome::Failure("second call was rejected".to_string()),
        Outcome::Reply(vec![30]),
    ]));
    let err = done(&e, &h, &answers).unwrap_err();
    assert_eq!(err.kind, ErrorKind::Transport);
    assert_eq!(err.message, "second call was rejected");
}

#[test]
fn a_batch_fails_with_its_first_failure() {
    let h = call_helper(false, true);
    let e = batch();
    let mut answers = prepared();
    answers.push(Answer::Batch(vec![
        Outcome::Reply(vec![10]),
        Outcome::Failure("second".to_string()),
        Outcome::Failure("third".to_string()),
    ]));
    assert_eq!(done(&e, &h, &answers).unwrap_err().message, "second");
    let last = answers.len() - 1;
    answers[last] = Answer::Batch(vec![Outcome::Reply(vec![10])]);
    assert_eq!(done(&e, &h, &answers).unwrap_err().kind, ErrorKind::Protocol);
    answers[last] = Answer::Failed("no network".to_string());
    assert_eq!(done(&e, &h, &answers).unwrap_err().message, "no network");
}

#[test]
fn an_empty_batch_is_null() {
    let h = call_helper(false, true);
    let e = Exp::ParCall { calls: vec![] };
    assert_eq!(asked(&e, &h, &vec![]), Request::Batch { calls: vec![] });
    assert_eq!(done(&e, &h, &vec![Answer::Batch(vec![])]), Ok(Value::Null));
}

#[test]
fn a_batch_of_one_call_is_the_result_of_that_call() {
    let h = call_helper(false, true);
    let e = Exp::ParCall {
        calls: vec![FuncCall { method: method("alias", "greet"), args: vec![] }],
    };
    let answers = vec![
        Answer::Bytes(vec![1]),
        Answer::Route(None),
        Answer::Batch(vec![Outcome::Reply(vec![10])]),
        Answer::Values(vec![text("hi")]),
    ];
    assert_eq!(done(&e, &h, &answers), Ok(text("hi")));
}

#[test]
fn metadata_has_to_be_text() {
    let mut h = call_helper(false, false);
    let mut bad_args = vec![0, 97, 115, 109, 1, 0, 0, 0];
    bad_args.extend(section("icp:public candid:args", &[0xff, 0xfe]));
    let mut bad_service = vec![0, 97, 115, 109, 1, 0, 0, 0];
    bad_service.extend(section("icp:public candid:service", &[0xc0]));
    bad_service.extend(section("icp:public candid:args", b"()"));
    let mut no_service = vec![0, 97, 115, 109, 1, 0, 0, 0];
    no_service.extend(section("icp:public candid:args", b"()"));
    h.env.push(Binding { name: "bad_args".to_string(), value: Value::Blob(bad_args) });
    h.env.push(Binding { name: "bad_service".to_string(), value: Value::Blob(bad_service) });
    h.env.push(Binding { name: "no_service".to_string(), value: Value::Blob(no_service) });
    for name in ["bad_args", "bad_service"] {
        match method(name, "__init_args").get_info(&h, true, &vec![], &mut new_run()) {
            Err(Halt::Failed(err)) => {
                assert_eq!(err.kind, ErrorKind::Resolution);
                assert_eq!(err.message, "metadata is not valid utf-8");
            }
            other => panic!("no error: {:?}", other),
        }
    }
    let info = method("no_service", "__init_args").get_info(&h, true, &vec![], &mut new_run());
    assert_eq!(info.unwrap().signature.unwrap().func.args, Vec::<String>::new());
}

#[test]
fn encoding_the_constructor_arguments_of_a_module() {
    let h = call_helper(false, false);
    let e = call("module", "__init_args", vec![Exp::Number("5".to_string())], CallMode::Encode);
    assert_eq!(
        asked(&e, &h, &vec![]),
        Request::Encode {
            args: vec![Value::Number("5".to_string())],
            types: Some(Types { env: String::new(), types: vec!["nat".to_string()] }),
        }
    );
    let e = call("bare", "__init_args", vec![Exp::Number("5".to_string())], CallMode::Encode);
    assert_eq!(
        asked(&e, &h, &vec![]),
        Request::Encode { args: vec![Value::Number("5".to_string())], types: None }
    );
}

#[test]
fn an_evaluation_keeps_the_interfaces_it_has_fetched() {
    let h = call_helper(false, false);
    let e = call("alias", "greet", vec![], CallMode::Encode);
    let answers = vec![Answer::Interface(interface(None)), Answer::Bytes(vec![1])];
    match e.eval(&h, &answers) {
        Step::Done { result, cache, messages } => {
            assert_eq!(result, Ok(Value::Blob(vec![1])));
            assert_eq!(cache, vec![CacheEntry { canister: target(), info: interface(None) }]);
            assert_eq!(messages, vec![]);
        }
        other => panic!("not done: {:?}", other),
    }
}

#[test]
fn answers_that_are_not_asked_for_are_not_read() {
    let h = call_helper(false, true);
    let e = call("alias", "greet", vec![], CallMode::Encode);
    let answers = vec![Answer::Bytes(vec![1]), Answer::Failed("never read".to_string())];
    assert_eq!(done(&e, &h, &answers), Ok(Value::Blob(vec![1])));
}

#[test]
fn an_interface_that_declares_a_method_twice_is_no_answer() {
    let h = call_helper(false, false);
    let mut twice = interface(None);
    twice.methods.push(MethodDecl { name: "greet".to_string(), func: set() });
    assert!(!twice.is_wf());
    match method("alias", "set").get_info(&h, false, &vec![Answer::Interface(twice)], &mut new_run()) {
        Err(Halt::Failed(err)) => assert_eq!(err.kind, ErrorKind::Protocol),
        other => panic!("no error: {:?}", other),
    }
    assert!(interface(Some(symbols(1, "a"))).is_wf());
}

#[test]
fn an_environment_knows_one_interface_of_a_canister() {
    let mut h = call_helper(false, true);
    assert!(h.is_wf());
    let names = symbols(3, "set");
    h.learn(target(), interface(Some(names.clone())));
    h.learn(wallet(), interface(None));
    assert!(h.is_wf());
    assert_eq!(
        h.canister_map,
        vec![
            CacheEntry { canister: target(), info: interface(Some(names)) },
            CacheEntry { canister: wallet(), info: interface(None) },
        ]
    );
    h.canister_map.push(CacheEntry { canister: target(), info: interface(None) });
    assert!(!h.is_wf());
}
