use ic_repl::error::ErrorKind;
use ic_repl::eval::Step;
use ic_repl::exp::{Exp, Field};
use ic_repl::host::{Answer, Request};
use ic_repl::label::Label;
use ic_repl::principal::Principal;
use ic_repl::types::{Binding, Helper};
use ic_repl::value::{Value, ValueField};

fn eq_helper(env: Vec<Binding>) -> Helper {
    Helper {
        env,
        func_env: Vec::new(),
        canister_map: Vec::new(),
        agent_url: String::new(),
        offline: false,
        default_effective_canister_id: Principal { bytes: vec![4] },
    }
}

fn compare(name: &str, a: Value, b: Value) -> Result<Value, ic_repl::error::Error> {
    let h = eq_helper(vec![
        Binding { name: "a".to_string(), value: a },
        Binding { name: "b".to_string(), value: b },
    ]);
    let e = Exp::Apply(
        name.to_string(),
        vec![Exp::Path("a".to_string(), vec![]), Exp::Path("b".to_string(), vec![])],
    );
    match e.eval(&h, &Vec::new()) {
        Step::Done { result, .. } => result,
        other => panic!("not done: {:?}", other),
    }
}

fn eq(a: Value, b: Value) -> bool {
    let n = compare("neq", a.clone(), b.clone()).unwrap();
    let e = compare("eq", a, b).unwrap();
    assert_ne!(n, e);
    e == Value::Bool(true)
}

fn text(s: &str) -> Value {
    Value::Text(s.to_string())
}

fn field(id: Label, val: Value) -> ValueField {
    ValueField { id, val }
}

#[test]
fn equal_values_are_equal() {
    assert!(eq(Value::Null, Value::Null));
    assert!(eq(Value::Bool(true), Value::Bool(true)));
    assert!(eq(text("a"), text("a")));
    assert!(eq(Value::Number("1".to_string()), Value::Number("1".to_string())));
    assert!(eq(Value::Blob(vec![1, 2]), Value::Blob(vec![1, 2])));
    assert!(eq(Value::Nat8(1), Value::Nat8(1)));
    assert!(eq(Value::Int64(-1), Value::Int64(-1)));
    assert!(eq(Value::Reserved, Value::Reserved));
    assert!(eq(Value::OptNone, Value::OptNone));
    assert!(eq(Value::Opt(Box::new(text("a"))), Value::Opt(Box::new(text("a")))));
    assert!(eq(
        Value::Principal(Principal { bytes: vec![1, 2] }),
        Value::Principal(Principal { bytes: vec![1, 2] })
    ));
    assert!(eq(
        Value::Func(Principal { bytes: vec![1] }, "f".to_string()),
        Value::Func(Principal { bytes: vec![1] }, "f".to_string())
    ));
    assert!(eq(Value::Vec(vec![text("a"), text("b")]), Value::Vec(vec![text("a"), text("b")])));
}

#[test]
fn unequal_values_of_one_tag_are_unequal() {
    assert!(!eq(Value::Bool(true), Value::Bool(false)));
    assert!(!eq(text("a"), text("b")));
    assert!(!eq(Value::Blob(vec![1, 2]), Value::Blob(vec![1, 3])));
    assert!(!eq(Value::Blob(vec![1, 2]), Value::Blob(vec![1])));
    assert!(!eq(Value::Nat8(1), Value::Nat8(2)));
    assert!(!eq(Value::Vec(vec![text("a")]), Value::Vec(vec![text("a"), text("b")])));
    assert!(!eq(Value::Opt(Box::new(text("a"))), Value::Opt(Box::new(text("b")))));
    assert!(!eq(
        Value::Principal(Principal { bytes: vec![1, 2] }),
        Value::Principal(Principal { bytes: vec![1] })
    ));
    assert!(!eq(
        Value::Func(Principal { bytes: vec![1] }, "f".to_string()),
        Value::Func(Principal { bytes: vec![1] }, "g".to_string())
    ));
}

#[test]
fn values_of_one_tag_and_different_kinds_are_unequal() {
    assert!(!eq(Value::Number("1".to_string()), Value::Int("1".to_string())));
    assert!(!eq(Value::Blob(vec![1]), Value::Vec(vec![Value::Nat8(1)])));
}

#[test]
fn integers_are_equal_by_their_value() {
    assert!(eq(Value::Int("05".to_string()), Value::Int("5".to_string())));
    assert!(eq(Value::Int("-0".to_string()), Value::Int("0".to_string())));
    assert!(eq(Value::Nat("1_000".to_string()), Value::Nat("1000".to_string())));
    assert!(!eq(Value::Int("5".to_string()), Value::Int("-5".to_string())));
    assert!(!eq(Value::Number("05".to_string()), Value::Number("5".to_string())));
}

#[test]
fn different_tags_do_not_compare() {
    for name in ["eq", "neq"] {
        let pairs = vec![
            (Value::Bool(true), Value::Null),
            (text("1"), Value::Number("1".to_string())),
            (Value::Nat8(1), Value::Nat16(1)),
            (Value::Int("1".to_string()), Value::Nat("1".to_string())),
            (Value::OptNone, Value::Opt(Box::new(Value::Null))),
            (Value::Vec(vec![]), Value::Vec(vec![Value::Null])),
            (Value::Vec(vec![]), Value::Blob(vec![])),
            (Value::Vec(vec![Value::Nat8(1)]), Value::Vec(vec![Value::Nat16(1)])),
            (
                Value::Record(vec![field(Label::Id(1), Value::Null)]),
                Value::Record(vec![field(Label::Id(2), Value::Null)]),
            ),
            (
                Value::Record(vec![field(Label::Id(1), Value::Null)]),
                Value::Record(vec![field(Label::Id(1), Value::Bool(true))]),
            ),
            (
                Value::Record(vec![field(Label::Id(1), Value::Null)]),
                Value::Record(vec![]),
            ),
            (
                Value::Variant(Box::new(field(Label::Id(1), Value::Null)), 0),
                Value::Variant(Box::new(field(Label::Id(2), Value::Null)), 0),
            ),
            (Value::Principal(Principal { bytes: vec![] }), Value::Service(Principal { bytes: vec![] })),
        ];
        for (a, b) in pairs {
            let err = compare(name, a.clone(), b.clone()).unwrap_err();
            assert_eq!(err.kind, ErrorKind::Semantic);
            assert_eq!(err.message, format!("{} expects two values of the same type", name));
            let err = compare(name, b, a).unwrap_err();
            assert_eq!(err.message, format!("{} expects two values of the same type", name));
        }
    }
}

#[test]
fn a_vector_counts_by_its_first_element() {
    // The tag of a vector is that of its first element, so these compare, and are unequal.
    assert!(!eq(
        Value::Vec(vec![Value::Nat8(1), text("a")]),
        Value::Vec(vec![Value::Nat8(1), Value::Nat8(2)])
    ));
    assert!(!eq(Value::Vec(vec![Value::Nat8(1)]), Value::Blob(vec![1])));
}

#[test]
fn labels_are_equal_by_their_id() {
    assert!(eq(
        Value::Record(vec![field(Label::Named("a".to_string()), text("x"))]),
        Value::Record(vec![field(Label::Id(97), text("x"))])
    ));
    assert!(eq(
        Value::Variant(Box::new(field(Label::Unnamed(98), text("x"))), 0),
        Value::Variant(Box::new(field(Label::Named("b".to_string()), text("x"))), 0)
    ));
}

#[test]
fn the_index_of_a_variant_does_not_count() {
    assert!(eq(
        Value::Variant(Box::new(field(Label::Id(1), Value::Null)), 0),
        Value::Variant(Box::new(field(Label::Id(1), Value::Null)), 3)
    ));
}

#[test]
fn equality_takes_two_values() {
    for name in ["eq", "neq"] {
        let e = Exp::Apply(name.to_string(), vec![Exp::Null]);
        match e.eval(&eq_helper(vec![]), &Vec::new()) {
            Step::Done { result: Err(err), .. } => {
                assert_eq!(err.kind, ErrorKind::Arguments);
                assert_eq!(err.message, format!("{} expects two values", name));
            }
            other => panic!("no error: {:?}", other),
        }
    }
}

#[test]
fn floats_are_compared_by_the_host() {
    let e = Exp::Apply(
        "neq".to_string(),
        vec![
            Exp::Record(vec![Field { id: Label::Id(1), val: Exp::Float64(0.0f64.to_bits()) }]),
            Exp::Record(vec![Field { id: Label::Id(1), val: Exp::Float64((-0.0f64).to_bits()) }]),
        ],
    );
    let h = eq_helper(vec![]);
    match e.eval(&h, &Vec::new()) {
        Step::Ask(Request::FloatEqual { lhs, rhs }) => {
            assert_eq!(
                lhs,
                Value::Record(vec![field(Label::Id(1), Value::Float64(0.0f64.to_bits()))])
            );
            assert_eq!(
                rhs,
                Value::Record(vec![field(Label::Id(1), Value::Float64((-0.0f64).to_bits()))])
            );
        }
        other => panic!("no request: {:?}", other),
    }
    match e.eval(&h, &vec![Answer::Value(Value::Bool(true))]) {
        Step::Done { result: Ok(v), .. } => assert_eq!(v, Value::Bool(false)),
        other => panic!("no value: {:?}", other),
    }
    match e.eval(&h, &vec![Answer::Value(Value::Null)]) {
        Step::Done { result: Err(err), .. } => assert_eq!(err.kind, ErrorKind::Protocol),
        other => panic!("no error: {:?}", other),
    }
}

#[test]
fn type_tags() {
    assert!(Value::Number("1".to_string()).same_tag(&Value::Int("2".to_string())));
    assert!(Value::Blob(vec![]).same_tag(&Value::Vec(vec![Value::Nat8(3)])));
    assert!(Value::Vec(vec![]).same_tag(&Value::Vec(vec![])));
    assert!(!Value::Vec(vec![]).same_tag(&Value::Blob(vec![])));
    assert!(!Value::OptNone.same_tag(&Value::Opt(Box::new(Value::Null))));
    assert!(!Value::Float32(0).same_tag(&Value::Float64(0)));
    assert!(Value::Float64(1).same_tag(&Value::Float64(2)));
    assert!(!Value::Null.same_tag(&Value::Reserved));
}

#[test]
fn floats_are_found_in_values() {
    assert!(Value::Float64(0).has_float());
    assert!(Value::Float32(0).has_float());
    assert!(Value::Opt(Box::new(Value::Float32(0))).has_float());
    assert!(Value::Vec(vec![Value::Null, Value::Float64(0)]).has_float());
    assert!(Value::Record(vec![field(Label::Id(0), Value::Vec(vec![Value::Float64(1)]))]).has_float());
    assert!(Value::Variant(Box::new(field(Label::Id(0), Value::Float64(1))), 0).has_float());
    assert!(!Value::Vec(vec![Value::Null, Value::Nat64(0)]).has_float());
    assert!(!Value::Number("1.5".to_string()).has_float());
}
