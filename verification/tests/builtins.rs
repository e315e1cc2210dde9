use ic_repl::error::ErrorKind;
use ic_repl::eval::Step;
use ic_repl::exp::{Exp, Field};
use ic_repl::host::{perform, Answer, Request};
use ic_repl::label::Label;
use ic_repl::principal::Principal;
use ic_repl::types::{Binding, CacheEntry, CanisterInfo, Helper};
use std::collections::BTreeMap;
use ic_repl::value::Value;
use std::io::Read;

fn host_helper() -> Helper {
    Helper {
        env: vec![
            Binding { name: "x".to_string(), value: Value::Nat8(1) },
            Binding {
                name: "r".to_string(),
                value: Value::Vec(vec![Value::Text("a".to_string())]),
            },
        ],
        func_env: Vec::new(),
        canister_map: Vec::new(),
        agent_url: String::new(),
        offline: false,
        default_effective_canister_id: Principal { bytes: vec![4] },
    }
}

fn apply(name: &str, args: Vec<Exp>) -> Exp {
    Exp::Apply(name.to_string(), args)
}

fn text(s: &str) -> Exp {
    Exp::Text(s.to_string())
}

fn number(s: &str) -> Exp {
    Exp::Number(s.to_string())
}

fn field(name: &str, val: Exp) -> Field {
    Field { id: Label::Named(name.to_string()), val }
}

fn principal() -> Principal {
    Principal { bytes: vec![0, 0, 0, 0, 0, 0, 0, 1, 1, 1] }
}

fn request(e: &Exp, answers: Vec<Answer>) -> Request {
    match e.eval(&host_helper(), &answers) {
        Step::Ask(r) => r,
        other => panic!("no request: {:?}", other),
    }
}

fn result(e: &Exp, answers: Vec<Answer>) -> Result<Value, ic_repl::error::Error> {
    match e.eval(&host_helper(), &answers) {
        Step::Done { result, .. } => result,
        other => panic!("not done: {:?}", other),
    }
}

fn message(e: &Exp) -> String {
    let err = result(e, vec![]).unwrap_err();
    assert_eq!(err.kind, ErrorKind::Arguments);
    err.message
}

#[test]
fn file_reads_a_file() {
    let e = apply("file", vec![text("a.wasm")]);
    assert_eq!(request(&e, vec![]), Request::ReadFile { path: "a.wasm".to_string() });
    assert_eq!(result(&e, vec![Answer::Bytes(vec![0, 97])]), Ok(Value::Blob(vec![0, 97])));
    let err = result(&e, vec![Answer::Failed("Cannot read \"a.wasm\"".to_string())]).unwrap_err();
    assert_eq!(err.kind, ErrorKind::Transport);
    assert_eq!(err.message, "Cannot read \"a.wasm\"");
    assert_eq!(result(&e, vec![Answer::Unit]).unwrap_err().kind, ErrorKind::Protocol);
    assert_eq!(message(&apply("file", vec![])), "file expects file path");
    assert_eq!(message(&apply("file", vec![Exp::Null])), "file expects file path");
    assert_eq!(message(&apply("file", vec![text("a"), text("b")])), "file expects file path");
}

#[test]
fn gzip_compresses() {
    let e = apply("gzip", vec![Exp::Blob(b"hello hello hello".to_vec())]);
    let data = b"hello hello hello".to_vec();
    assert_eq!(
        ic_repl::host::stream_answer(Err("no memory".to_string()), &data),
        Answer::Failed("no memory".to_string())
    );
    assert_eq!(
        ic_repl::host::stream_answer(Ok(data.clone()), &data),
        Answer::Failed("the stream does not decode to the data".to_string())
    );
    assert_eq!(
        ic_repl::host::stream_answer(Ok(vec![]), &data),
        Answer::Failed("the stream does not decode to the data".to_string())
    );
    let r = request(&e, vec![]);
    assert_eq!(r, Request::Gzip { data: b"hello hello hello".to_vec() });
    let answer = perform(&r).unwrap();
    let bytes = match &answer {
        Answer::Bytes(b) => b.clone(),
        other => panic!("no bytes: {:?}", other),
    };
    assert_eq!(&bytes[..2], &[31, 139]);
    let mut decoder = libflate::gzip::Decoder::new(&bytes[..]).unwrap();
    let mut plain = Vec::new();
    decoder.read_to_end(&mut plain).unwrap();
    assert_eq!(plain, b"hello hello hello");
    assert_eq!(ic_repl::host::stream_answer(Ok(bytes.clone()), &data), Answer::Bytes(bytes.clone()));
    let other = b"hello".to_vec();
    assert_eq!(
        ic_repl::host::stream_answer(Ok(bytes.clone()), &other),
        Answer::Failed("the stream does not decode to the data".to_string())
    );
    assert_eq!(result(&e, vec![answer]), Ok(Value::Blob(bytes)));
    assert_eq!(message(&apply("gzip", vec![text("a")])), "gzip expects blob");
    let other = perform(&Request::Gzip { data: b"other".to_vec() }).unwrap();
    assert_eq!(result(&e, vec![other]).unwrap_err().kind, ErrorKind::Protocol);
    let plain = Answer::Bytes(b"hello hello hello".to_vec());
    assert_eq!(result(&e, vec![plain]).unwrap_err().kind, ErrorKind::Protocol);
    assert_eq!(result(&e, vec![Answer::Bytes(vec![31, 139])]).unwrap_err().kind, ErrorKind::Protocol);
    let err = result(&e, vec![Answer::Failed("out of memory".to_string())]).unwrap_err();
    assert_eq!(err.kind, ErrorKind::Transport);
}

#[test]
fn only_compression_is_performed_by_the_library() {
    assert_eq!(perform(&Request::ReadFile { path: "a".to_string() }), None);
    assert_eq!(perform(&Request::Subaccount { principal: principal() }), None);
    match perform(&Request::Gzip { data: vec![] }) {
        Some(Answer::Bytes(stream)) => {
            let mut decoder = libflate::gzip::Decoder::new(&stream[..]).unwrap();
            let mut plain = Vec::new();
            decoder.read_to_end(&mut plain).unwrap();
            assert_eq!(plain, Vec::<u8>::new());
        }
        other => panic!("no stream: {:?}", other),
    }
}

#[test]
fn output_appends_and_hands_back_the_text() {
    let e = apply("output", vec![text("log.txt"), text("line\n")]);
    assert_eq!(
        request(&e, vec![]),
        Request::Output { file: "log.txt".to_string(), content: "line\n".to_string() }
    );
    assert_eq!(result(&e, vec![Answer::Unit]), Ok(Value::Text("line\n".to_string())));
    assert_eq!(result(&e, vec![Answer::Bytes(vec![])]).unwrap_err().kind, ErrorKind::Protocol);
    assert_eq!(
        message(&apply("output", vec![text("log.txt")])),
        "wasm_profiling expects (file path, content)"
    );
}

#[test]
fn export_writes_variables() {
    let var = |n: &str| Exp::Path(n.to_string(), vec![]);
    let e = apply("export", vec![text("out.sh"), var("x"), var("r")]);
    assert_eq!(
        request(&e, vec![]),
        Request::Export {
            path: "out.sh".to_string(),
            bindings: vec![
                Binding { name: "x".to_string(), value: Value::Nat8(1) },
                Binding {
                    name: "r".to_string(),
                    value: Value::Vec(vec![Value::Text("a".to_string())])
                },
            ],
        }
    );
    assert_eq!(result(&e, vec![Answer::Unit]), Ok(Value::Null));
    assert_eq!(
        message(&apply("export", vec![text("out.sh")])),
        "export expects at least two arguments"
    );
    assert_eq!(message(&apply("export", vec![])), "export expects at least two arguments");
    assert_eq!(
        message(&apply("export", vec![Exp::Null, var("x")])),
        "export expects first argument to be a file path"
    );
    assert_eq!(
        message(&apply("export", vec![text("out.sh"), var("x"), text("y")])),
        "export expects variables"
    );
    let err = result(&apply("export", vec![text("out.sh"), var("nothing")]), vec![]).unwrap_err();
    assert_eq!(err.message, "Undefined variable nothing");
}

#[test]
fn export_writes_the_projection_under_the_name_of_the_variable() {
    let e = apply(
        "export",
        vec![text("out.sh"), Exp::Path("r".to_string(), vec![ic_repl::exp::Selector::Index(0)])],
    );
    assert_eq!(
        request(&e, vec![]),
        Request::Export {
            path: "out.sh".to_string(),
            bindings: vec![Binding { name: "r".to_string(), value: Value::Text("a".to_string()) }],
        }
    );
}

#[test]
fn exec_runs_a_command() {
    let e = apply("exec", vec![text("echo"), text("-n"), text("1")]);
    assert_eq!(
        request(&e, vec![]),
        Request::Exec {
            command: "echo".to_string(),
            args: vec!["-n".to_string(), "1".to_string()],
            cwd: None,
            silence: false,
        }
    );
    let line = Answer::Value(Value::Text("(1 : nat8)".to_string()));
    assert_eq!(request(&e, vec![line.clone()]), Request::Parse { text: "(1 : nat8)".to_string() });
    assert_eq!(
        result(&e, vec![line.clone(), Answer::Value(Value::Nat8(1))]),
        Ok(Value::Nat8(1))
    );
    assert_eq!(
        result(&e, vec![line.clone(), Answer::Failed("parse error".to_string())]),
        Ok(Value::Text("(1 : nat8)".to_string()))
    );
    let err = result(&e, vec![Answer::Failed("exec failed with status 1".to_string())]).unwrap_err();
    assert_eq!(err.kind, ErrorKind::Transport);
    assert_eq!(err.message, "exec failed with status 1");
    assert_eq!(result(&e, vec![Answer::Value(Value::Null)]).unwrap_err().kind, ErrorKind::Protocol);
}

#[test]
fn exec_takes_options_in_the_last_place() {
    let options =
        Exp::Record(vec![field("silence", Exp::Bool(true)), field("cwd", text("/tmp"))]);
    let e = apply("exec", vec![text("ls"), text("-l"), options.clone()]);
    assert_eq!(
        request(&e, vec![]),
        Request::Exec {
            command: "ls".to_string(),
            args: vec!["-l".to_string()],
            cwd: Some("/tmp".to_string()),
            silence: true,
        }
    );
    let e = apply("exec", vec![text("ls"), Exp::Record(vec![field("other", Exp::Null)])]);
    assert_eq!(
        request(&e, vec![]),
        Request::Exec { command: "ls".to_string(), args: vec![], cwd: None, silence: false }
    );
    let e = apply("exec", vec![text("ls")]);
    assert_eq!(
        request(&e, vec![]),
        Request::Exec { command: "ls".to_string(), args: vec![], cwd: None, silence: false }
    );
    assert_eq!(
        message(&apply("exec", vec![text("ls"), options, text("-l")])),
        "exec expects string arguments"
    );
    assert_eq!(
        message(&apply("exec", vec![text("ls"), Exp::Null])),
        "exec expects string arguments"
    );
    assert_eq!(
        message(&apply("exec", vec![text("ls"), Exp::Record(vec![field("cwd", Exp::Null)])])),
        "cwd expects a string"
    );
    assert_eq!(
        message(&apply(
            "exec",
            vec![text("ls"), Exp::Record(vec![field("silence", text("yes"))])]
        )),
        "silence expects a boolean"
    );
    assert_eq!(message(&apply("exec", vec![])), "exec expects (text command, ...text args)");
    assert_eq!(
        message(&apply("exec", vec![Exp::Null, text("a")])),
        "exec expects (text command, ...text args)"
    );
}

#[test]
fn accounts_are_derived_by_the_host() {
    let p = Exp::Principal(principal());
    let e = apply("account", vec![p.clone()]);
    assert_eq!(request(&e, vec![]), Request::Account { principal: principal(), subaccount: None });
    assert_eq!(result(&e, vec![Answer::Bytes(vec![7; 32])]), Ok(Value::Blob(vec![7; 32])));
    let e = apply("account", vec![p.clone(), Exp::Blob(vec![1; 32])]);
    assert_eq!(
        request(&e, vec![]),
        Request::Account { principal: principal(), subaccount: Some(vec![1; 32]) }
    );
    let e = apply("subaccount", vec![p.clone()]);
    assert_eq!(request(&e, vec![]), Request::Subaccount { principal: principal() });
    assert_eq!(message(&apply("account", vec![])), "account expects principal");
    assert_eq!(message(&apply("account", vec![text("a")])), "account expects principal");
    assert_eq!(message(&apply("account", vec![p.clone(), text("a")])), "account expects principal");
    assert_eq!(message(&apply("subaccount", vec![p.clone(), p])), "account expects principal");
}

#[test]
fn a_neuron_account_takes_a_nonce() {
    let p = Exp::Principal(principal());
    let e = apply("neuron_account", vec![p.clone(), number("42")]);
    assert_eq!(request(&e, vec![]), Request::NeuronAccount { principal: principal(), nonce: 42 });
    let e = apply("neuron_account", vec![p.clone(), number("+18446744073709551615")]);
    assert_eq!(
        request(&e, vec![]),
        Request::NeuronAccount { principal: principal(), nonce: u64::MAX }
    );
    let e = apply("neuron_account", vec![p.clone(), number("007")]);
    assert_eq!(request(&e, vec![]), Request::NeuronAccount { principal: principal(), nonce: 7 });
    for bad in ["18446744073709551616", "-1", "1_000", "", "+", "1.5", "١"] {
        let err = result(&apply("neuron_account", vec![p.clone(), number(bad)]), vec![]).unwrap_err();
        assert_eq!(err.kind, ErrorKind::Semantic);
        assert_eq!(err.message, "nonce is not a natural number below 2^64");
    }
    assert_eq!(
        message(&apply("neuron_account", vec![p.clone(), text("1")])),
        "neuron_account expects (principal, nonce)"
    );
    assert_eq!(
        message(&apply("neuron_account", vec![p])),
        "neuron_account expects (principal, nonce)"
    );
}

#[test]
fn read_state_takes_a_path() {
    let e = apply("read_state", vec![text("canister"), Exp::Principal(principal()), text("controllers")]);
    assert_eq!(
        request(&e, vec![]),
        Request::ReadState {
            effective: None,
            path: vec![
                Value::Text("canister".to_string()),
                Value::Principal(principal()),
                Value::Text("controllers".to_string()),
            ],
        }
    );
    let e = apply("read_state", vec![Exp::Principal(principal()), text("time")]);
    assert_eq!(
        request(&e, vec![]),
        Request::ReadState {
            effective: Some(principal()),
            path: vec![Value::Text("time".to_string())],
        }
    );
    assert_eq!(result(&e, vec![Answer::Value(Value::Nat64(5))]), Ok(Value::Nat64(5)));
    let usage = "read_state expects ([effective_id,] prefix, principal, path, ...)";
    assert_eq!(message(&apply("read_state", vec![])), usage);
    assert_eq!(message(&apply("read_state", vec![Exp::Principal(principal())])), usage);
    assert_eq!(message(&apply("read_state", vec![Exp::Null, text("time")])), usage);
}

#[test]
fn send_takes_a_message_or_a_list_of_messages() {
    let e = apply("send", vec![Exp::Blob(b" \n\t{\"a\": 1}".to_vec())]);
    assert_eq!(
        request(&e, vec![]),
        Request::Send { message: " \n\t{\"a\": 1}".to_string(), many: false }
    );
    assert_eq!(result(&e, vec![Answer::Values(vec![])]), Ok(Value::Null));
    assert_eq!(result(&e, vec![Answer::Values(vec![Value::Nat8(1)])]), Ok(Value::Nat8(1)));
    let e = apply("send", vec![Exp::Blob("\u{3000}\u{a0}[]".as_bytes().to_vec())]);
    assert_eq!(
        request(&e, vec![]),
        Request::Send { message: "\u{3000}\u{a0}[]".to_string(), many: true }
    );
    for bad in ["", "  ", "x{}", "\u{200b}{}", "\"{\""] {
        let err = result(&apply("send", vec![Exp::Blob(bad.as_bytes().to_vec())]), vec![]).unwrap_err();
        assert_eq!(err.kind, ErrorKind::Semantic);
        assert_eq!(err.message, "not a valid json message");
    }
    let err = result(&apply("send", vec![Exp::Blob(vec![0xff, b'{'])]), vec![]).unwrap_err();
    assert_eq!(err.message, "message is not valid utf-8");
    assert_eq!(message(&apply("send", vec![text("{}")])), "send expects a json blob");
}

#[test]
fn wasm_profiling_reads_its_configuration() {
    let e = apply("wasm_profiling", vec![text("a.wasm")]);
    assert_eq!(request(&e, vec![]), Request::ReadFile { path: "a.wasm".to_string() });
    let err = result(&e, vec![Answer::Failed("Cannot read \"a.wasm\"".to_string())]).unwrap_err();
    assert_eq!(err.kind, ErrorKind::Transport);
    assert_eq!(
        request(&e, vec![Answer::Bytes(vec![0, 97])]),
        Request::Instrument {
            module: vec![0, 97],
            trace_only_funcs: vec![],
            start_address: None,
            page_limit: None,
        }
    );
    assert_eq!(
        result(&e, vec![Answer::Bytes(vec![0, 97]), Answer::Bytes(vec![0])]),
        Ok(Value::Blob(vec![0]))
    );
    let err = result(&e, vec![Answer::Bytes(vec![0, 97]), Answer::Failed("func \"f\" not found".to_string())])
        .unwrap_err();
    assert_eq!(err.message, "func \"f\" not found");
    let config = Exp::Record(vec![
        field("page_limit", number("30")),
        field("trace_only_funcs", Exp::Vec(vec![text("f"), Exp::Null, text("g")])),
        field("start_page", number("16")),
    ]);
    let e = apply("wasm_profiling", vec![text("a.wasm"), config]);
    assert_eq!(
        request(&e, vec![Answer::Bytes(vec![0, 97])]),
        Request::Instrument {
            module: vec![0, 97],
            trace_only_funcs: vec!["f".to_string(), "g".to_string()],
            start_address: Some(16 * 65536),
            page_limit: Some(30),
        }
    );
    let config = Exp::Record(vec![field("page_limit", number("30"))]);
    let e = apply("wasm_profiling", vec![text("a.wasm"), config]);
    assert_eq!(
        request(&e, vec![Answer::Bytes(vec![0, 97])]),
        Request::Instrument {
            module: vec![0, 97],
            trace_only_funcs: vec![],
            start_address: None,
            page_limit: None,
        }
    );
    let config = Exp::Record(vec![field("start_page", number("4294967295"))]);
    let e = apply("wasm_profiling", vec![text("a.wasm"), config]);
    assert_eq!(
        request(&e, vec![Answer::Bytes(vec![0, 97])]),
        Request::Instrument {
            module: vec![0, 97],
            trace_only_funcs: vec![],
            start_address: Some(-65536),
            page_limit: None,
        }
    );
}

#[test]
fn wasm_profiling_rejects_a_bad_configuration() {
    let with = |fs: Vec<Field>| apply("wasm_profiling", vec![text("a.wasm"), Exp::Record(fs)]);
    let read = |e: &Exp| {
        assert_eq!(request(e, vec![]), Request::ReadFile { path: "a.wasm".to_string() });
        let err = result(e, vec![Answer::Bytes(vec![0, 97])]).unwrap_err();
        assert_eq!(err.kind, ErrorKind::Arguments);
        err.message
    };
    assert_eq!(
        read(&with(vec![field("start_page", text("1"))])),
        "start_page expects a number"
    );
    assert_eq!(
        read(&with(vec![field("start_page", number("4294967296"))])),
        "start_page expects a number"
    );
    assert_eq!(
        read(&with(vec![field("start_page", number("1")), field("page_limit", Exp::Null)])),
        "page_limit expects a number"
    );
    assert_eq!(
        read(&with(vec![field("trace_only_funcs", text("f"))])),
        "trace_only_funcs expects a vetor of function names"
    );
    let usage = "wasm_profiling expects file path and optionally record for config";
    assert_eq!(message(&apply("wasm_profiling", vec![])), usage);
    assert_eq!(message(&apply("wasm_profiling", vec![text("a"), text("b")])), usage);
    assert_eq!(message(&apply("wasm_profiling", vec![Exp::Null])), usage);
}

#[test]
fn stringify_joins_what_the_host_renders() {
    let e = apply("stringify", vec![text("a"), number("1"), Exp::Bool(true)]);
    assert_eq!(request(&e, vec![]), Request::Stringify { value: Value::Text("a".to_string()) });
    let a = Answer::Value(Value::Text("a".to_string()));
    let one = Answer::Value(Value::Text("1".to_string()));
    let t = Answer::Value(Value::Text("true".to_string()));
    assert_eq!(
        request(&e, vec![a.clone()]),
        Request::Stringify { value: Value::Number("1".to_string()) }
    );
    assert_eq!(
        result(&e, vec![a.clone(), one.clone(), t]),
        Ok(Value::Text("a1true".to_string()))
    );
    let err = result(&e, vec![a.clone(), Answer::Failed("no".to_string())]).unwrap_err();
    assert_eq!(err.message, "no");
    let err = result(&e, vec![a, one, Answer::Value(Value::Null)]).unwrap_err();
    assert_eq!(err.kind, ErrorKind::Protocol);
    assert_eq!(result(&apply("stringify", vec![]), vec![]), Ok(Value::Text(String::new())));
}

#[test]
fn flamegraph_takes_an_instrumented_canister() {
    let cid = Principal { bytes: vec![0, 0, 0, 0, 0, 0, 0, 1, 1, 1] };
    let e = apply(
        "flamegraph",
        vec![Exp::Principal(cid.clone()), text("title"), text("graph")],
    );
    assert_eq!(request(&e, vec![]), Request::FetchInterface { canister: cid.clone() });
    let info = |profiling| CanisterInfo {
        env: String::new(),
        methods: vec![],
        init: None,
        profiling,
    };
    let names: BTreeMap<u16, String> = [(1u16, "main".to_string())].into_iter().collect();
    let known = Answer::Interface(info(Some(names.clone())));
    assert_eq!(
        request(&e, vec![known.clone()]),
        Request::Flamegraph {
            canister: cid.clone(),
            names: names.clone(),
            title: "title".to_string(),
            file: "graph".to_string(),
        }
    );
    match e.eval(&host_helper(), &vec![known.clone(), Answer::Value(Value::Nat("12".to_string()))]) {
        Step::Done { result, cache, .. } => {
            assert_eq!(result, Ok(Value::Nat("12".to_string())));
            assert_eq!(cache, vec![CacheEntry { canister: cid.clone(), info: info(Some(names)) }]);
        }
        other => panic!("not done: {:?}", other),
    }
    let err = result(&e, vec![Answer::Interface(info(None))]).unwrap_err();
    assert_eq!(err.kind, ErrorKind::Resolution);
    assert_eq!(err.message, "rrkah-fqaaa-aaaaa-aaaaq-cai is not instrumented");
    let err = result(&e, vec![Answer::Failed("unreachable".to_string())]).unwrap_err();
    assert_eq!(err.message, "rrkah-fqaaa-aaaaa-aaaaq-cai is not instrumented");
    assert_eq!(
        message(&apply("flamegraph", vec![text("a"), text("b"), text("c")])),
        "flamegraph expects (canister id, title name, svg file name)"
    );
}

#[test]
fn an_address_without_a_textual_form_is_named_in_hexadecimal() {
    let cid = Principal { bytes: vec![0xab; 30] };
    let e = apply("flamegraph", vec![Exp::Principal(cid), text("title"), text("graph")]);
    let err = result(&e, vec![Answer::Failed("unreachable".to_string())]).unwrap_err();
    assert_eq!(err.message, format!("{} is not instrumented", "ab".repeat(30)));
}
