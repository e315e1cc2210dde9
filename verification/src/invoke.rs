//! Call and decode expressions, once their arguments are values.
use vstd::prelude::*;
use vstd::string::*;
use crate::builtin::fail;
use crate::call::{
    arg_types, arg_types_of, bytes_stage, call, call_spec, query_call, ret_types, ret_types_of,
    stage_bytes, stage_values, tuple_fields, values_stage,
};
use crate::effects::{principal_label, principal_name, reply, reply_value};
use crate::error::{plain_error, Error, ErrorKind, ErrorView};
use crate::host::{
    answers_view, ask, asked, protocol_error, protocol_failure, reached, result_view, stopped,
    transport_error, transport_failure, Answer, AnswerView, Halt, HaltView, Request, RequestView,
    Run, RunView, Stage,
};
use crate::label::{Label, LabelView};
use crate::principal::Principal;
use crate::resolve::{get_info_spec, resolve_address, str_to_principal};
use crate::text::{bytes_copy, text_copy, text_join};
use crate::types::{
    distinct_names, names_are_distinct,
    bindings_view, cache_find, cached, env_find, lookup, opt_signature_view, Binding, BindingView,
    CallMode, CallModeView, Helper, HelperView, Method, MethodInfo, MethodInfoView, MethodView,
    Signature, SignatureView,
};
use crate::value::{fields_view, values_view, FieldView, Value, ValueField, ValueView};

verus! {

pub open spec fn blob_error() -> ErrorView {
    plain_error(ErrorKind::Semantic, "not a blob"@)
}

/// The bytes of a value that is a byte string: a blob, or a vector that is not
/// empty and holds `nat8` values alone.
pub open spec fn blob_bytes(v: ValueView) -> Option<Seq<u8>> {
    match v {
        ValueView::Blob(b) => Some(b),
        ValueView::Vec(xs) => if xs.len() > 0 && forall|i: int|
            0 <= i < xs.len() ==> (#[trigger] xs[i]) is Nat8 {
            Some(Seq::new(xs.len(), |i: int| xs[i]->Nat8_0))
        } else {
            None
        },
        _ => None,
    }
}

/// The bytes of a value that is a byte string.
pub fn bytes_of(v: &Value) -> (r: Option<Vec<u8>>)
    ensures
        crate::host::opt_bytes_view(r) == blob_bytes(v@),
{
    match v {
        Value::Blob(b) => Some(bytes_copy(b)),
        Value::Vec(xs) => {
            proof {
                crate::value::lemma_vec_view(*xs);
            }
            if xs.len() == 0 {
                return None;
            }
            let ghost xv = crate::value::values_view(xs@);
            let mut r: Vec<u8> = Vec::new();
            let mut i: usize = 0;
            while i < xs.len()
                invariant
                    i <= xs.len(),
                    xv == crate::value::values_view(xs@),
                    v@ == ValueView::Vec(xv),
                    xv.len() > 0,
                    r@.len() == i,
                    forall|k: int| 0 <= k < i ==> (#[trigger] xv[k]) is Nat8 && r@[k] == xv[k]->Nat8_0,
                decreases xs.len() - i,
            {
                assert(xv[i as int] == xs@[i as int]@);
                match &xs[i] {
                    Value::Nat8(n) => {
                        r.push(*n);
                    },
                    _ => {
                        return None;
                    },
                }
                i += 1;
            }
            assert(r@ =~= Seq::new(xv.len(), |i: int| xv[i]->Nat8_0));
            Some(r)
        },
        _ => None,
    }
}

/// What is resolved of the method of an expression, where it names one.
pub open spec fn info_for(
    method: Option<MethodView>,
    h: HelperView,
    is_encode: bool,
    answers: Seq<AnswerView>,
    run: RunView,
) -> Stage<Option<MethodInfoView>> {
    match method {
        None => reached(None, run),
        Some(m) => {
            let info = get_info_spec(m, h, is_encode, answers, run);
            match info.result {
                Ok(i) => reached(Some(i), info.run),
                Err(x) => Stage { result: Err(x), run: info.run },
            }
        },
    }
}

pub open spec fn opt_info_view(i: Option<MethodInfo>) -> Option<MethodInfoView> {
    match i {
        Some(x) => Some(x@),
        None => None,
    }
}

fn resolve(
    method: &Option<Method>,
    h: &Helper,
    is_encode: bool,
    answers: &Vec<Answer>,
    run: &mut Run,
) -> (r: Result<Option<MethodInfo>, Halt>)
    requires
        h.wf(),
    ensures
        final(run)@ == info_for(
            crate::exp::opt_method_view(*method),
            h@,
            is_encode,
            answers_view(answers@),
            old(run)@,
        ).run,
        match info_for(
            crate::exp::opt_method_view(*method),
            h@,
            is_encode,
            answers_view(answers@),
            old(run)@,
        ).result {
            Ok(i) => r matches Ok(x) && opt_info_view(x) == i,
            Err(e) => r matches Err(x) && x@ == e,
        },
{
    match method {
        None => Ok(None),
        Some(m) => {
            let info = m.get_info(h, is_encode, answers, run)?;
            Ok(Some(info))
        },
    }
}

/// The signature that is known for the method of an expression.
pub open spec fn known_signature(info: Option<MethodInfoView>) -> Option<SignatureView> {
    match info {
        Some(i) => i.signature,
        None => None,
    }
}

/// A decode expression on a value: the value is a byte string, and it is
/// decoded by the result types of the method where a signature is known, and
/// else by the types that the message describes.
pub open spec fn decode_value(
    method: Option<MethodView>,
    v: ValueView,
    h: HelperView,
    answers: Seq<AnswerView>,
    run: RunView,
) -> Stage<ValueView> {
    match blob_bytes(v) {
        None => stopped(blob_error(), run),
        Some(bytes) => {
            let info = info_for(method, h, false, answers, run);
            match info.result {
                Err(x) => Stage { result: Err(x), run: info.run },
                Ok(i) => {
                    let vals = values_stage(
                        answers,
                        info.run,
                        RequestView::Decode { bytes, types: ret_types(known_signature(i)) },
                    );
                    match vals.result {
                        Ok(vs) => reply_value(vs, vals.run),
                        Err(x) => Stage { result: Err(x), run: vals.run },
                    }
                },
            }
        },
    }
}

fn signature_of(info: &Option<MethodInfo>) -> (r: &Option<Signature>)
    ensures
        opt_signature_view(*r) == known_signature(opt_info_view(*info)),
{
    match info {
        Some(i) => &i.signature,
        None => &None,
    }
}

/// Evaluates a decode expression on the value of its operand.
pub fn decode(
    method: &Option<Method>,
    v: &Value,
    h: &Helper,
    answers: &Vec<Answer>,
    run: &mut Run,
) -> (r: Result<Value, Halt>)
    requires
        h.wf(),
    ensures
        result_view(r) == decode_value(
            crate::exp::opt_method_view(*method),
            v@,
            h@,
            answers_view(answers@),
            old(run)@,
        ).result,
        final(run)@ == decode_value(
            crate::exp::opt_method_view(*method),
            v@,
            h@,
            answers_view(answers@),
            old(run)@,
        ).run,
{
    let bytes = match bytes_of(v) {
        Some(b) => b,
        None => {
            return Err(fail(ErrorKind::Semantic, "not a blob"));
        },
    };
    let info = resolve(method, h, false, answers, run)?;
    let types = ret_types_of(signature_of(&info));
    let vs = stage_values(answers, run, Request::Decode { bytes, types })?;
    reply(&vs)
}

pub open spec fn arguments_missing_error() -> ErrorView {
    plain_error(ErrorKind::Resolution, "cannot get method type, please provide arguments"@)
}

/// The argument values of a call: those that the expression gives, or else
/// those that the user is asked for, which takes a signature.
pub open spec fn call_args(
    sig: Option<SignatureView>,
    args: Option<Seq<ValueView>>,
    answers: Seq<AnswerView>,
    run: RunView,
) -> Stage<Seq<ValueView>> {
    match args {
        Some(a) => reached(a, run),
        None => match arg_types(sig) {
            Some(types) => values_stage(answers, run, RequestView::InputArgs { types }),
            None => stopped(arguments_missing_error(), run),
        },
    }
}

pub open spec fn opt_values_view(v: Option<Vec<Value>>) -> Option<Seq<ValueView>> {
    match v {
        Some(x) => Some(values_view(x@)),
        None => None,
    }
}

fn arguments(
    sig: &Option<Signature>,
    args: Option<Vec<Value>>,
    answers: &Vec<Answer>,
    run: &mut Run,
) -> (r: Result<Vec<Value>, Halt>)
    ensures
        final(run)@ == call_args(
            opt_signature_view(*sig),
            opt_values_view(args),
            answers_view(answers@),
            old(run)@,
        ).run,
        match call_args(
            opt_signature_view(*sig),
            opt_values_view(args),
            answers_view(answers@),
            old(run)@,
        ).result {
            Ok(v) => r matches Ok(x) && values_view(x@) == v,
            Err(e) => r matches Err(x) && x@ == e,
        },
{
    match args {
        Some(a) => Ok(a),
        None => match arg_types_of(sig) {
            Some(types) => stage_values(answers, run, Request::InputArgs { types }),
            None => Err(
                fail(ErrorKind::Resolution, "cannot get method type, please provide arguments"),
            ),
        },
    }
}

/// Whether the cost of a call is measured: it is sent, it is an update, and its
/// target is instrumented.
pub open spec fn ok_to_profile(h: HelperView, info: MethodInfoView) -> bool {
    !h.offline && info.profiling is Some && !query_call(info.signature)
}

/// The count of instructions that a canister has run, as the host reports it.
pub open spec fn cycles(canister: Seq<u8>, answers: Seq<AnswerView>, run: RunView) -> Stage<i64> {
    match asked(answers, run, RequestView::Cycles { canister }) {
        Err(x) => Stage { result: Err(x), run },
        Ok((AnswerView::Value(ValueView::Int64(n)), next)) => reached(n, next),
        Ok((AnswerView::Failed(m), next)) => stopped(transport_error(m), next),
        Ok((_, next)) => stopped(protocol_error(), next),
    }
}

fn get_cycles(canister: &Principal, answers: &Vec<Answer>, run: &mut Run) -> (r: Result<
    i64,
    Halt,
>)
    ensures
        final(run)@ == cycles(canister@, answers_view(answers@), old(run)@).run,
        match cycles(canister@, answers_view(answers@), old(run)@).result {
            Ok(n) => r == Ok::<i64, Halt>(n),
            Err(e) => r matches Err(x) && x@ == e,
        },
{
    match ask(answers, run, Request::Cycles { canister: canister.clone() })? {
        Answer::Value(Value::Int64(n)) => Ok(*n),
        Answer::Failed(m) => Err(transport_failure(m.as_str())),
        _ => Err(protocol_failure()),
    }
}

pub open spec fn cost_error() -> ErrorView {
    plain_error(ErrorKind::Semantic, "cost is out of range"@)
}

/// The record that reports a cost.
pub open spec fn cost_record(cost: i64) -> ValueView {
    ValueView::Record(
        seq![FieldView { id: LabelView::Named("__cost"@), val: ValueView::Int64(cost) }],
    )
}

/// The value of a call whose cost was measured: the value of the reply, and
/// with it the record of the cost.
pub open spec fn with_cost(reply: ValueView, before: i64, after: i64, run: RunView) -> Stage<ValueView> {
    if i64::MIN <= after - before <= i64::MAX {
        reached(
            ValueView::Record(tuple_fields(seq![reply, cost_record((after - before) as i64)])),
            run,
        )
    } else {
        stopped(cost_error(), run)
    }
}

/// A call that is sent and its value. Where the cost is measured, the count of
/// instructions is read before and after the call, and the difference goes with
/// the value.
pub open spec fn live_call(
    h: HelperView,
    info: MethodInfoView,
    method: Seq<char>,
    bytes: Seq<u8>,
    answers: Seq<AnswerView>,
    run: RunView,
) -> Stage<ValueView> {
    if ok_to_profile(h, info) {
        let before = cycles(info.canister_id, answers, run);
        match before.result {
            Err(x) => Stage { result: Err(x), run: before.run },
            Ok(b) => {
                let res = call_spec(
                    h,
                    info.canister_id,
                    method,
                    bytes,
                    info.signature,
                    answers,
                    before.run,
                );
                match res.result {
                    Err(x) => Stage { result: Err(x), run: res.run },
                    Ok(vs) => {
                        let after = cycles(info.canister_id, answers, res.run);
                        match after.result {
                            Err(x) => Stage { result: Err(x), run: after.run },
                            Ok(a) => {
                                let value = reply_value(vs, after.run);
                                match value.result {
                                    Ok(v) => with_cost(v, b, a, after.run),
                                    Err(_) => value,
                                }
                            },
                        }
                    },
                }
            },
        }
    } else {
        let res = call_spec(h, info.canister_id, method, bytes, info.signature, answers, run);
        match res.result {
            Err(x) => Stage { result: Err(x), run: res.run },
            Ok(vs) => reply_value(vs, res.run),
        }
    }
}

fn cost_value(reply: Value, before: i64, after: i64) -> (r: Result<Value, Halt>)
    ensures
        forall|run: RunView| result_view(r) == (#[trigger] with_cost(reply@, before, after, run)).result,
{
    match after.checked_sub(before) {
        Some(cost) => {
            let mut cost_fields: Vec<ValueField> = Vec::new();
            cost_fields.push(
                ValueField { id: Label::Named(text_copy("__cost")), val: Value::Int64(cost) },
            );
            proof {
                crate::value::lemma_record_view(cost_fields);
                assert(fields_view(cost_fields@) =~= seq![
                    FieldView { id: LabelView::Named("__cost"@), val: ValueView::Int64(cost) },
                ]);
            }
            let record = Value::Record(cost_fields);
            let ghost pair = seq![reply@, record@];
            let mut fs: Vec<ValueField> = Vec::new();
            fs.push(ValueField { id: Label::Id(0), val: reply });
            fs.push(ValueField { id: Label::Id(1), val: record });
            proof {
                crate::value::lemma_record_view(fs);
                assert(fields_view(fs@) =~= tuple_fields(pair));
            }
            Ok(Value::Record(fs))
        },
        None => Err(fail(ErrorKind::Semantic, "cost is out of range")),
    }
}

fn can_profile(h: &Helper, info: &MethodInfo) -> (r: bool)
    requires
        h.wf(),
    ensures
        r == ok_to_profile(h@, info@),
{
    let query = match &info.signature {
        Some(s) => s.func.is_query(),
        None => false,
    };
    !h.offline && info.profiling.is_some() && !query
}

fn call_live(
    h: &Helper,
    info: &MethodInfo,
    method: &str,
    bytes: &Vec<u8>,
    answers: &Vec<Answer>,
    run: &mut Run,
) -> (r: Result<Value, Halt>)
    requires
        h.wf(),
    ensures
        result_view(r) == live_call(
            h@,
            info@,
            method@,
            bytes@,
            answers_view(answers@),
            old(run)@,
        ).result,
        final(run)@ == live_call(h@, info@, method@, bytes@, answers_view(answers@), old(run)@).run,
{
    if can_profile(h, info) {
        let before = get_cycles(&info.canister_id, answers, run)?;
        let vs = call(h, &info.canister_id, method, bytes, &info.signature, answers, run)?;
        let after = get_cycles(&info.canister_id, answers, run)?;
        let v = reply(&vs)?;
        cost_value(v, before, after)
    } else {
        let vs = call(h, &info.canister_id, method, bytes, &info.signature, answers, run)?;
        reply(&vs)
    }
}

/// The script by which a call goes through a relay: the relay forwards the
/// encoded arguments to the method of the target, and what it hands back is
/// decoded by the result types of that method.
pub open spec fn proxy_code(relay: Seq<char>, canister: Seq<char>, method: Seq<char>) -> Seq<
    char,
> {
    "\nlet _ = call \""@ + relay
        + "\".wallet_call(\n  record {\n    args = _msg;\n    cycles = 0;\n    method_name = \""@
        + method + "\";\n    canister = principal \""@ + canister
        + "\";\n  }\n);\nlet _ = decode as \""@ + canister + "\"."@ + method
        + " _.Ok.return;\n"@
}

fn proxy_script(relay: &str, canister: &str, method: &str) -> (r: String)
    ensures
        r@ == proxy_code(relay@, canister@, method@),
{
    let s = text_join("\nlet _ = call \"", relay);
    let s = text_join(
        s.as_str(),
        "\".wallet_call(\n  record {\n    args = _msg;\n    cycles = 0;\n    method_name = \"",
    );
    let s = text_join(s.as_str(), method);
    let s = text_join(s.as_str(), "\";\n    canister = principal \"");
    let s = text_join(s.as_str(), canister);
    let s = text_join(s.as_str(), "\";\n  }\n);\nlet _ = decode as \"");
    let s = text_join(s.as_str(), canister);
    let s = text_join(s.as_str(), "\".");
    let s = text_join(s.as_str(), method);
    text_join(s.as_str(), " _.Ok.return;\n")
}

pub open spec fn relay_error(relay: Seq<u8>) -> ErrorView {
    plain_error(ErrorKind::Resolution, principal_label(relay) + " canister interface not found"@)
}

pub open spec fn result_missing_error() -> ErrorView {
    plain_error(ErrorKind::Resolution, "Undefined variable _"@)
}

/// The scope in which the relay script runs: the encoded arguments under the
/// name `_msg`, and nothing else.
pub open spec fn proxy_scope(bytes: Seq<u8>) -> Seq<BindingView> {
    seq![BindingView { name: "_msg"@, value: ValueView::Blob(bytes) }]
}

/// What the relay script hands back: what its scope binds to `_` at the end.
pub open spec fn proxy_answer(a: AnswerView) -> Result<ValueView, HaltView> {
    match a {
        AnswerView::Scope(s) => if distinct_names(s) {
            match lookup(s, "_"@) {
                Some(v) => Ok(v),
                None => Err(HaltView::Failed(result_missing_error())),
            }
        } else {
            Err(HaltView::Failed(protocol_error()))
        },
        AnswerView::Failed(m) => Err(HaltView::Failed(transport_error(m))),
        _ => Err(HaltView::Failed(protocol_error())),
    }
}

/// A call through a relay. The interface of the relay has to be known; the
/// script runs in a scope of its own.
pub open spec fn proxy_call(
    h: HelperView,
    m: MethodView,
    id: Seq<char>,
    bytes: Seq<u8>,
    answers: Seq<AnswerView>,
    run: RunView,
) -> Stage<ValueView> {
    match resolve_address(h.env, m.canister) {
        Err(e) => stopped(e, run),
        Ok(canister) => match resolve_address(h.env, id) {
            Err(e) => stopped(e, run),
            Ok(relay) => match cached(run.cache, relay) {
                None => stopped(relay_error(relay), run),
                Some(interface) => match asked(
                    answers,
                    run,
                    RequestView::RunScript {
                        code: proxy_code(
                            principal_label(relay),
                            principal_label(canister),
                            m.method,
                        ),
                        scope: proxy_scope(bytes),
                        relay,
                        interface,
                    },
                ) {
                    Ok((a, next)) => Stage { result: proxy_answer(a), run: next },
                    Err(x) => Stage { result: Err(x), run },
                },
            },
        },
    }
}

fn call_proxy(
    h: &Helper,
    m: &Method,
    id: &str,
    bytes: Vec<u8>,
    answers: &Vec<Answer>,
    run: &mut Run,
) -> (r: Result<Value, Halt>)
    requires
        h.wf(),
    ensures
        result_view(r) == proxy_call(h@, m@, id@, bytes@, answers_view(answers@), old(run)@).result,
        final(run)@ == proxy_call(h@, m@, id@, bytes@, answers_view(answers@), old(run)@).run,
{
    let canister = match str_to_principal(m.canister.as_str(), h) {
        Ok(p) => p,
        Err(e) => {
            return Err(Halt::Failed(e));
        },
    };
    let relay = match str_to_principal(id, h) {
        Ok(p) => p,
        Err(e) => {
            return Err(Halt::Failed(e));
        },
    };
    let interface = match cache_find(&run.cache, &relay) {
        Some(i) => i.clone(),
        None => {
            let name = principal_name(&relay);
            return Err(
                Halt::Failed(
                    Error::with_detail(
                        ErrorKind::Resolution,
                        name.as_str(),
                        " canister interface not found",
                    ),
                ),
            );
        },
    };
    let relay_name = principal_name(&relay);
    let canister_name = principal_name(&canister);
    let code = proxy_script(relay_name.as_str(), canister_name.as_str(), m.method.as_str());
    let mut scope: Vec<Binding> = Vec::new();
    scope.push(Binding { name: text_copy("_msg"), value: Value::Blob(bytes) });
    assert(bindings_view(scope@) =~= proxy_scope(bytes@));
    match ask(answers, run, Request::RunScript { code, scope, relay, interface })? {
        Answer::Scope(s) => {
            if !names_are_distinct(s) {
                return Err(protocol_failure());
            }
            match env_find(s, "_") {
                Some(v) => Ok(v.duplicate()),
                None => Err(fail(ErrorKind::Resolution, "Undefined variable _")),
            }
        },
        Answer::Failed(m) => Err(transport_failure(m.as_str())),
        _ => Err(protocol_failure()),
    }
}

pub open spec fn method_error() -> ErrorView {
    plain_error(ErrorKind::Resolution, "call expects a method"@)
}

/// What a call expression does with its encoded arguments, by its mode: it
/// hands them back, sends them, or sends them through a relay.
pub open spec fn dispatch_call(
    method: Option<MethodView>,
    info: Option<MethodInfoView>,
    mode: CallModeView,
    bytes: Seq<u8>,
    h: HelperView,
    answers: Seq<AnswerView>,
    run: RunView,
) -> Stage<ValueView> {
    match mode {
        CallModeView::Encode => reached(ValueView::Blob(bytes), run),
        CallModeView::Call => match (method, info) {
            (Some(m), Some(i)) => live_call(h, i, m.method, bytes, answers, run),
            _ => stopped(method_error(), run),
        },
        CallModeView::Proxy(id) => match method {
            Some(m) => proxy_call(h, m, id, bytes, answers, run),
            None => stopped(method_error(), run),
        },
    }
}

/// A call expression on the values of its arguments. The method is resolved,
/// the arguments are encoded by its signature, or by their own types where none
/// is known, and the mode says what is done with them.
pub open spec fn call_value(
    method: Option<MethodView>,
    args: Option<Seq<ValueView>>,
    mode: CallModeView,
    h: HelperView,
    answers: Seq<AnswerView>,
    run: RunView,
) -> Stage<ValueView> {
    let info = info_for(method, h, mode is Encode, answers, run);
    match info.result {
        Err(x) => Stage { result: Err(x), run: info.run },
        Ok(i) => {
            let sig = known_signature(i);
            let given = call_args(sig, args, answers, info.run);
            match given.result {
                Err(x) => Stage { result: Err(x), run: given.run },
                Ok(vals) => {
                    let encoded = bytes_stage(
                        answers,
                        given.run,
                        RequestView::Encode { args: vals, types: arg_types(sig) },
                    );
                    match encoded.result {
                        Err(x) => Stage { result: Err(x), run: encoded.run },
                        Ok(bytes) => dispatch_call(method, i, mode, bytes, h, answers, encoded.run),
                    }
                },
            }
        },
    }
}

fn is_encode(mode: &CallMode) -> (r: bool)
    ensures
        r == (mode@ is Encode),
{
    match mode {
        CallMode::Encode => true,
        _ => false,
    }
}

/// Evaluates a call expression on the values of its arguments.
pub fn invoke(
    method: &Option<Method>,
    args: Option<Vec<Value>>,
    mode: &CallMode,
    h: &Helper,
    answers: &Vec<Answer>,
    run: &mut Run,
) -> (r: Result<Value, Halt>)
    requires
        h.wf(),
    ensures
        result_view(r) == call_value(
            crate::exp::opt_method_view(*method),
            opt_values_view(args),
            mode@,
            h@,
            answers_view(answers@),
            old(run)@,
        ).result,
        final(run)@ == call_value(
            crate::exp::opt_method_view(*method),
            opt_values_view(args),
            mode@,
            h@,
            answers_view(answers@),
            old(run)@,
        ).run,
{
    let info = resolve(method, h, is_encode(mode), answers, run)?;
    let sig = signature_of(&info);
    let vals = arguments(sig, args, answers, run)?;
    let types = arg_types_of(sig);
    let bytes = stage_bytes(answers, run, Request::Encode { args: vals, types })?;
    match mode {
        CallMode::Encode => Ok(Value::Blob(bytes)),
        CallMode::Call => match method {
            Some(m) => match &info {
                Some(i) => call_live(h, i, m.method.as_str(), &bytes, answers, run),
                None => Err(fail(ErrorKind::Resolution, "call expects a method")),
            },
            None => Err(fail(ErrorKind::Resolution, "call expects a method")),
        },
        CallMode::Proxy(id) => match method {
            Some(m) => call_proxy(h, m, id.as_str(), bytes, answers, run),
            None => Err(fail(ErrorKind::Resolution, "call expects a method")),
        },
    }
}

} // verus!
