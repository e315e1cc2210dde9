use ic_repl::error::ErrorKind;
use ic_repl::eval::Step;
use ic_repl::exp::{Exp, Field};
use ic_repl::label::Label;
use ic_repl::principal::Principal;
use ic_repl::record::merge_records;
use ic_repl::types::Helper;
use ic_repl::value::{Value, ValueField};

fn record_helper() -> Helper {
    Helper {
        env: Vec::new(),
        func_env: Vec::new(),
        canister_map: Vec::new(),
        agent_url: String::new(),
        offline: false,
        default_effective_canister_id: Principal { bytes: vec![4] },
    }
}

fn named(name: &str, n: &str) -> Field {
    Field { id: Label::Named(name.to_string()), val: Exp::Number(n.to_string()) }
}

fn named_value(name: &str, n: &str) -> ValueField {
    ValueField { id: Label::Named(name.to_string()), val: Value::Number(n.to_string()) }
}

fn concat(a: Exp, b: Exp) -> Result<Value, ic_repl::error::Error> {
    let e = Exp::Apply("concat".to_string(), vec![a, b]);
    match e.eval(&record_helper(), &Vec::new()) {
        Step::Done { result, .. } => result,
        other => panic!("not done: {:?}", other),
    }
}

#[test]
fn concat_two_records() {
    let v = concat(Exp::Record(vec![named("a", "1")]), Exp::Record(vec![named("b", "2")])).unwrap();
    assert_eq!(v, Value::Record(vec![named_value("a", "1"), named_value("b", "2")]));
}

#[test]
fn concat_records_with_one_label_fails() {
    let err =
        concat(Exp::Record(vec![named("a", "1")]), Exp::Record(vec![named("a", "2")])).unwrap_err();
    assert_eq!(err.kind, ErrorKind::Semantic);
    assert_eq!(err.message, "label 'a' hash collision with 'a'");
}

#[test]
fn concat_orders_fields_by_label_id() {
    // The ids of the names: "b" is 98, "a" is 97, "name" is 1224700491.
    let a = vec![
        ValueField { id: Label::Named("name".to_string()), val: Value::Null },
        ValueField { id: Label::Id(5), val: Value::Bool(true) },
        ValueField { id: Label::Named("b".to_string()), val: Value::Null },
    ];
    let b = vec![
        ValueField { id: Label::Unnamed(97), val: Value::Bool(false) },
        ValueField { id: Label::Id(4_000_000_000), val: Value::Null },
        ValueField { id: Label::Id(0), val: Value::Null },
    ];
    let merged = merge_records(&a, &b).unwrap();
    let ids: Vec<u32> = match &merged {
        Value::Record(fs) => fs.iter().map(|f| f.id.id()).collect(),
        other => panic!("no record: {:?}", other),
    };
    assert_eq!(ids, vec![0, 5, 97, 98, 1224700491, 4_000_000_000]);
}

#[test]
fn a_name_collides_with_the_number_of_its_hash() {
    let a = vec![ValueField { id: Label::Named("a".to_string()), val: Value::Null }];
    let b = vec![ValueField { id: Label::Id(97), val: Value::Null }];
    let err = merge_records(&a, &b).unwrap_err();
    assert_eq!(err.message, "label '97' hash collision with 'a'");
    let err = merge_records(&b, &a).unwrap_err();
    assert_eq!(err.message, "label 'a' hash collision with '97'");
}

#[test]
fn a_number_in_a_collision_is_grouped() {
    let a = vec![ValueField { id: Label::Id(1_000_000), val: Value::Null }];
    let b = vec![ValueField { id: Label::Unnamed(1_000_000), val: Value::Null }];
    let err = merge_records(&a, &b).unwrap_err();
    assert_eq!(err.message, "label '1_000_000' hash collision with '1_000_000'");
}

#[test]
fn the_first_repeated_id_is_reported() {
    let a = vec![
        ValueField { id: Label::Id(9), val: Value::Null },
        ValueField { id: Label::Id(3), val: Value::Null },
    ];
    let b = vec![
        ValueField { id: Label::Id(9), val: Value::Null },
        ValueField { id: Label::Id(3), val: Value::Null },
    ];
    let err = merge_records(&a, &b).unwrap_err();
    assert_eq!(err.message, "label '3' hash collision with '3'");
}

#[test]
fn a_record_with_a_repeated_id_does_not_merge() {
    let a = vec![
        ValueField { id: Label::Id(1), val: Value::Null },
        ValueField { id: Label::Id(1), val: Value::Null },
    ];
    assert!(merge_records(&a, &Vec::new()).is_err());
}

#[test]
fn merging_with_the_empty_record_sorts() {
    let a = vec![
        ValueField { id: Label::Id(2), val: Value::Bool(true) },
        ValueField { id: Label::Id(1), val: Value::Bool(false) },
    ];
    let expected = Value::Record(vec![
        ValueField { id: Label::Id(1), val: Value::Bool(false) },
        ValueField { id: Label::Id(2), val: Value::Bool(true) },
    ]);
    assert_eq!(merge_records(&a, &Vec::new()).unwrap(), expected);
    assert_eq!(merge_records(&Vec::new(), &a).unwrap(), expected);
    assert_eq!(merge_records(&Vec::new(), &Vec::new()).unwrap(), Value::Record(Vec::new()));
}

#[test]
fn concat_vectors_blobs_and_texts() {
    let v = concat(
        Exp::Vec(vec![Exp::Bool(true)]),
        Exp::Vec(vec![Exp::Bool(false), Exp::Null]),
    )
    .unwrap();
    assert_eq!(v, Value::Vec(vec![Value::Bool(true), Value::Bool(false), Value::Null]));
    let v = concat(Exp::Blob(vec![1, 2]), Exp::Blob(vec![3])).unwrap();
    assert_eq!(v, Value::Blob(vec![1, 2, 3]));
    let v = concat(Exp::Text("ab".to_string()), Exp::Text("cd".to_string())).unwrap();
    assert_eq!(v, Value::Text("abcd".to_string()));
    let v = concat(Exp::Vec(vec![]), Exp::Vec(vec![])).unwrap();
    assert_eq!(v, Value::Vec(vec![]));
}

#[test]
fn concat_takes_two_of_a_kind() {
    let err = concat(Exp::Text("a".to_string()), Exp::Blob(vec![1])).unwrap_err();
    assert_eq!(err.kind, ErrorKind::Arguments);
    assert_eq!(err.message, "concat expects two vec, record or text");
    let err = concat(Exp::Null, Exp::Null).unwrap_err();
    assert_eq!(err.message, "concat expects two vec, record or text");
    let e = Exp::Apply("concat".to_string(), vec![Exp::Text("a".to_string())]);
    match e.eval(&record_helper(), &Vec::new()) {
        Step::Done { result: Err(err), .. } => {
            assert_eq!(err.message, "concat expects two vec, record or text")
        }
        other => panic!("no error: {:?}", other),
    }
}

#[test]
fn label_ids() {
    assert_eq!(Label::Id(7).id(), 7);
    assert_eq!(Label::Unnamed(8).id(), 8);
    assert_eq!(Label::Named(String::new()).id(), 0);
    assert_eq!(Label::Named("a".to_string()).id(), 97);
    assert_eq!(Label::Named("ab".to_string()).id(), 97 * 223 + 98);
    assert_eq!(Label::Named("name".to_string()).id(), 1224700491);
    assert_eq!(Label::id_of_name("Ok"), 17724);
    // The hash wraps in 32 bits.
    assert_eq!(Label::Named("canister_id".to_string()).id(), 1313628723);
}
