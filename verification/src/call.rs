//! Sending a call: to the network, or to the log of signed messages.
use vstd::prelude::*;
use vstd::string::*;
use crate::codec::{hex_of, hex_text};
use crate::host::{
    answers_view, ask, asked, messages_view, opt_types_view, protocol_error, protocol_failure,
    reached, stopped, transport_error, transport_failure, Answer, AnswerView, CallSpec,
    CallSpecView, Halt, HaltView, Message, MessageView, Request, RequestStatus, RequestStatusView,
    RequestView, Run, RunView, Stage, Types, TypesView,
};
use crate::label::{Label, LabelView};
use crate::principal::Principal;
use crate::text::{bytes_copy, text_copy, texts_copy};
use crate::types::{is_query, opt_signature_view, Helper, HelperView, Signature, SignatureView};
use crate::value::{fields_view, values_copy, values_view, FieldView, Value, ValueField, ValueView};

verus! {

/// The values as a tuple: a record whose fields are numbered from 0.
pub open spec fn tuple_fields(args: Seq<ValueView>) -> Seq<FieldView> {
    Seq::new(args.len(), |i: int| FieldView { id: LabelView::Id(i as u32), val: args[i] })
}

/// The values of a reply as one value: null for none, the value itself for
/// one, and a tuple for more.
pub open spec fn args_value(args: Seq<ValueView>) -> ValueView {
    if args.len() == 0 {
        ValueView::Null
    } else if args.len() == 1 {
        args[0]
    } else {
        ValueView::Record(tuple_fields(args))
    }
}

/// Makes one value of the values of a reply. A tuple has at most 2^32 fields.
pub fn args_to_value(args: &Vec<Value>) -> (r: Value)
    requires
        args.len() <= u32::MAX,
    ensures
        r@ == args_value(values_view(args@)),
{
    if args.len() == 0 {
        Value::Null
    } else if args.len() == 1 {
        args[0].duplicate()
    } else {
        let mut fs: Vec<ValueField> = Vec::new();
        let mut i: usize = 0;
        while i < args.len()
            invariant
                i <= args.len(),
                args.len() <= u32::MAX,
                fs@.len() == i,
                forall|k: int|
                    0 <= k < i ==> fs@[k]@ == (FieldView {
                        id: LabelView::Id(k as u32),
                        val: args@[k]@,
                    }),
            decreases args.len() - i,
        {
            fs.push(ValueField { id: Label::Id(i as u32), val: args[i].duplicate() });
            i += 1;
        }
        assert(fields_view(fs@) =~= tuple_fields(values_view(args@)));
        proof {
            crate::value::lemma_record_view(fs);
        }
        Value::Record(fs)
    }
}

/// The types of the arguments of a signature.
pub open spec fn arg_types(sig: Option<SignatureView>) -> Option<TypesView> {
    match sig {
        Some(s) => Some(TypesView { env: s.env, types: s.func.args }),
        None => None,
    }
}

/// The types of the results of a signature.
pub open spec fn ret_types(sig: Option<SignatureView>) -> Option<TypesView> {
    match sig {
        Some(s) => Some(TypesView { env: s.env, types: s.func.rets }),
        None => None,
    }
}

/// The types of the arguments of a signature, for the codec.
pub fn arg_types_of(sig: &Option<Signature>) -> (r: Option<Types>)
    ensures
        opt_types_view(r) == arg_types(opt_signature_view(*sig)),
{
    match sig {
        Some(s) => Some(Types { env: text_copy(s.env.as_str()), types: texts_copy(&s.func.args) }),
        None => None,
    }
}

/// The types of the results of a signature, for the codec.
pub fn ret_types_of(sig: &Option<Signature>) -> (r: Option<Types>)
    ensures
        opt_types_view(r) == ret_types(opt_signature_view(*sig)),
{
    match sig {
        Some(s) => Some(Types { env: text_copy(s.env.as_str()), types: texts_copy(&s.func.rets) }),
        None => None,
    }
}

/// A bytes answer as a result.
pub open spec fn encoded_answer(a: AnswerView) -> Result<Seq<u8>, HaltView> {
    match a {
        AnswerView::Bytes(b) => Ok(b),
        AnswerView::Failed(m) => Err(HaltView::Failed(transport_error(m))),
        _ => Err(HaltView::Failed(protocol_error())),
    }
}

/// A values answer as a result.
pub open spec fn decoded_answer(a: AnswerView) -> Result<Seq<ValueView>, HaltView> {
    match a {
        AnswerView::Values(v) => Ok(v),
        AnswerView::Failed(m) => Err(HaltView::Failed(transport_error(m))),
        _ => Err(HaltView::Failed(protocol_error())),
    }
}

/// A request whose answer is a byte string.
pub open spec fn bytes_stage(answers: Seq<AnswerView>, run: RunView, request: RequestView)
    -> Stage<Seq<u8>> {
    match asked(answers, run, request) {
        Ok((a, next)) => Stage { result: encoded_answer(a), run: next },
        Err(h) => Stage { result: Err(h), run },
    }
}

/// A request whose answer is a list of values.
pub open spec fn values_stage(answers: Seq<AnswerView>, run: RunView, request: RequestView)
    -> Stage<Seq<ValueView>> {
    match asked(answers, run, request) {
        Ok((a, next)) => Stage { result: decoded_answer(a), run: next },
        Err(h) => Stage { result: Err(h), run },
    }
}

/// Asks for a byte string.
pub fn stage_bytes(answers: &Vec<Answer>, run: &mut Run, request: Request) -> (r: Result<
    Vec<u8>,
    Halt,
>)
    ensures
        final(run)@ == bytes_stage(answers_view(answers@), old(run)@, request@).run,
        match bytes_stage(answers_view(answers@), old(run)@, request@).result {
            Ok(b) => r matches Ok(x) && x@ == b,
            Err(h) => r matches Err(x) && x@ == h,
        },
{
    match ask(answers, run, request)? {
        Answer::Bytes(b) => Ok(bytes_copy(b)),
        Answer::Failed(m) => Err(transport_failure(m.as_str())),
        _ => Err(protocol_failure()),
    }
}

/// Asks for a list of values.
pub fn stage_values(answers: &Vec<Answer>, run: &mut Run, request: Request) -> (r: Result<
    Vec<Value>,
    Halt,
>)
    ensures
        final(run)@ == values_stage(answers_view(answers@), old(run)@, request@).run,
        match values_stage(answers_view(answers@), old(run)@, request@).result {
            Ok(v) => r matches Ok(x) && values_view(x@) == v,
            Err(h) => r matches Err(x) && x@ == h,
        },
{
    match ask(answers, run, request)? {
        Answer::Values(v) => Ok(values_copy(v)),
        Answer::Failed(m) => Err(transport_failure(m.as_str())),
        _ => Err(protocol_failure()),
    }
}

/// The canister by which a call is routed: the one that the host names for
/// it, or else the default of the environment.
pub open spec fn routed(
    h: HelperView,
    canister: Seq<u8>,
    method: Seq<char>,
    args: Seq<u8>,
    answers: Seq<AnswerView>,
    run: RunView,
) -> Stage<Seq<u8>> {
    match asked(answers, run, RequestView::Route { canister, method, args }) {
        Err(x) => Stage { result: Err(x), run },
        Ok((AnswerView::Route(Some(p)), next)) => reached(p, next),
        Ok((AnswerView::Route(None), next)) => reached(h.default_effective_canister_id, next),
        Ok((AnswerView::Failed(m), next)) => stopped(transport_error(m), next),
        Ok((_, next)) => stopped(protocol_error(), next),
    }
}

/// Finds the canister by which a call is routed.
pub fn route(
    helper: &Helper,
    canister: &Principal,
    method: &str,
    args: &Vec<u8>,
    answers: &Vec<Answer>,
    run: &mut Run,
) -> (r: Result<Principal, Halt>)
    requires
        helper.wf(),
    ensures
        final(run)@ == routed(
            helper@,
            canister@,
            method@,
            args@,
            answers_view(answers@),
            old(run)@,
        ).run,
        match routed(helper@, canister@, method@, args@, answers_view(answers@), old(run)@).result {
            Ok(p) => r matches Ok(x) && x@ == p,
            Err(h) => r matches Err(x) && x@ == h,
        },
{
    let request = Request::Route {
        canister: canister.clone(),
        method: text_copy(method),
        args: bytes_copy(args),
    };
    match ask(answers, run, request)? {
        Answer::Route(Some(p)) => Ok(p.clone()),
        Answer::Route(None) => Ok(helper.default_effective_canister_id.clone()),
        Answer::Failed(m) => Err(transport_failure(m.as_str())),
        _ => Err(protocol_failure()),
    }
}

/// Whether a call is a query: where its signature says so. A call without a
/// signature is an update.
pub open spec fn query_call(sig: Option<SignatureView>) -> bool {
    match sig {
        Some(s) => is_query(s.func),
        None => false,
    }
}

/// The log entry of a signed query.
pub open spec fn query_message(content: Seq<u8>) -> MessageView {
    MessageView {
        call_type: "query"@,
        request_id: None,
        content: hex_of(content),
        request_status: None,
    }
}

/// The log entry of a signed update and of the signed request for its status.
pub open spec fn update_message(
    request_id: Seq<u8>,
    content: Seq<u8>,
    effective: Seq<u8>,
    status_id: Seq<u8>,
    status_content: Seq<u8>,
) -> MessageView {
    MessageView {
        call_type: "update"@,
        request_id: Some(hex_of(request_id)),
        content: hex_of(content),
        request_status: Some(
            RequestStatusView {
                canister_id: effective,
                request_id: hex_of(status_id),
                content: hex_of(status_content),
            },
        ),
    }
}

/// A message is appended to the log and handed to the output; nothing comes
/// back from a call that was only signed.
pub open spec fn logged(message: MessageView, answers: Seq<AnswerView>, run: RunView) -> Stage<
    Seq<ValueView>,
> {
    let noted = RunView { messages: run.messages.push(message), ..run };
    match asked(answers, noted, RequestView::Emit { message }) {
        Err(x) => Stage { result: Err(x), run: noted },
        Ok((AnswerView::Unit, next)) => reached(Seq::empty(), next),
        Ok((AnswerView::Failed(m), next)) => stopped(transport_error(m), next),
        Ok((_, next)) => stopped(protocol_error(), next),
    }
}

/// A call that is signed and not sent. A query is signed; an update is signed
/// and so is a request for its status. The payloads are logged in hexadecimal.
pub open spec fn signed_call(
    call: CallSpecView,
    query: bool,
    answers: Seq<AnswerView>,
    run: RunView,
) -> Stage<Seq<ValueView>> {
    match asked(answers, run, RequestView::Sign { call, query }) {
        Err(x) => Stage { result: Err(x), run },
        Ok((AnswerView::Signed { request_id, content }, next)) => if query {
            logged(query_message(content), answers, next)
        } else {
            match asked(
                answers,
                next,
                RequestView::SignStatus { effective: call.effective, request_id },
            ) {
                Err(x) => Stage { result: Err(x), run: next },
                Ok((AnswerView::Signed { request_id: status_id, content: status }, last)) => logged(
                    update_message(request_id, content, call.effective, status_id, status),
                    answers,
                    last,
                ),
                Ok((AnswerView::Failed(m), last)) => stopped(transport_error(m), last),
                Ok((_, last)) => stopped(protocol_error(), last),
            }
        },
        Ok((AnswerView::Failed(m), next)) => stopped(transport_error(m), next),
        Ok((_, next)) => stopped(protocol_error(), next),
    }
}

/// A call that is sent: the reply is decoded by the result types of the
/// signature, or by the types it describes where there is no signature.
pub open spec fn sent_call(
    call: CallSpecView,
    query: bool,
    sig: Option<SignatureView>,
    answers: Seq<AnswerView>,
    run: RunView,
) -> Stage<Seq<ValueView>> {
    let reply = bytes_stage(answers, run, RequestView::Call { call, query });
    match reply.result {
        Err(x) => Stage { result: Err(x), run: reply.run },
        Ok(bytes) => values_stage(
            answers,
            reply.run,
            RequestView::Decode { bytes, types: ret_types(sig) },
        ),
    }
}

/// A call of a method with encoded arguments. It is routed, it is a query or an
/// update by its signature, and it is sent or, in offline mode, signed and logged.
pub open spec fn call_spec(
    h: HelperView,
    canister: Seq<u8>,
    method: Seq<char>,
    args: Seq<u8>,
    sig: Option<SignatureView>,
    answers: Seq<AnswerView>,
    run: RunView,
) -> Stage<Seq<ValueView>> {
    let way = routed(h, canister, method, args, answers, run);
    match way.result {
        Err(x) => Stage { result: Err(x), run: way.run },
        Ok(effective) => {
            let call = CallSpecView { canister, effective, method, args };
            if h.offline {
                signed_call(call, query_call(sig), answers, way.run)
            } else {
                sent_call(call, query_call(sig), sig, answers, way.run)
            }
        },
    }
}

fn log_message(message: Message, answers: &Vec<Answer>, run: &mut Run) -> (r: Result<
    Vec<Value>,
    Halt,
>)
    ensures
        final(run)@ == logged(message@, answers_view(answers@), old(run)@).run,
        match logged(message@, answers_view(answers@), old(run)@).result {
            Ok(v) => r matches Ok(x) && values_view(x@) == v,
            Err(h) => r matches Err(x) && x@ == h,
        },
{
    let ghost before = messages_view(run.messages@);
    let copy = message.clone();
    run.messages.push(copy);
    assert(messages_view(run.messages@) =~= before.push(message@));
    match ask(answers, run, Request::Emit { message })? {
        Answer::Unit => {
            let r: Vec<Value> = Vec::new();
            assert(values_view(r@) =~= Seq::empty());
            Ok(r)
        },
        Answer::Failed(m) => Err(transport_failure(m.as_str())),
        _ => Err(protocol_failure()),
    }
}

fn sign_call(call: CallSpec, query: bool, answers: &Vec<Answer>, run: &mut Run) -> (r: Result<
    Vec<Value>,
    Halt,
>)
    ensures
        final(run)@ == signed_call(call@, query, answers_view(answers@), old(run)@).run,
        match signed_call(call@, query, answers_view(answers@), old(run)@).result {
            Ok(v) => r matches Ok(x) && values_view(x@) == v,
            Err(h) => r matches Err(x) && x@ == h,
        },
{
    let effective = call.effective.clone();
    match ask(answers, run, Request::Sign { call, query })? {
        Answer::Signed { request_id, content } => {
            if query {
                let message = Message {
                    call_type: text_copy("query"),
                    request_id: None,
                    content: hex_text(content),
                    request_status: None,
                };
                log_message(message, answers, run)
            } else {
                let request = Request::SignStatus {
                    effective: effective.clone(),
                    request_id: bytes_copy(request_id),
                };
                match ask(answers, run, request)? {
                    Answer::Signed { request_id: status_id, content: status } => {
                        let message = Message {
                            call_type: text_copy("update"),
                            request_id: Some(hex_text(request_id)),
                            content: hex_text(content),
                            request_status: Some(
                                RequestStatus {
                                    canister_id: effective,
                                    request_id: hex_text(status_id),
                                    content: hex_text(status),
                                },
                            ),
                        };
                        log_message(message, answers, run)
                    },
                    Answer::Failed(m) => Err(transport_failure(m.as_str())),
                    _ => Err(protocol_failure()),
                }
            }
        },
        Answer::Failed(m) => Err(transport_failure(m.as_str())),
        _ => Err(protocol_failure()),
    }
}

fn send_call(
    call: CallSpec,
    query: bool,
    sig: &Option<Signature>,
    answers: &Vec<Answer>,
    run: &mut Run,
) -> (r: Result<Vec<Value>, Halt>)
    ensures
        final(run)@ == sent_call(
            call@,
            query,
            opt_signature_view(*sig),
            answers_view(answers@),
            old(run)@,
        ).run,
        match sent_call(
            call@,
            query,
            opt_signature_view(*sig),
            answers_view(answers@),
            old(run)@,
        ).result {
            Ok(v) => r matches Ok(x) && values_view(x@) == v,
            Err(h) => r matches Err(x) && x@ == h,
        },
{
    let bytes = stage_bytes(answers, run, Request::Call { call, query })?;
    stage_values(answers, run, Request::Decode { bytes, types: ret_types_of(sig) })
}

fn is_query_call(sig: &Option<Signature>) -> (r: bool)
    ensures
        r == query_call(opt_signature_view(*sig)),
{
    match sig {
        Some(s) => s.func.is_query(),
        None => false,
    }
}

/// Calls a method with encoded arguments, and hands back the values of the
/// reply; none where the call was signed and not sent.
pub fn call(
    helper: &Helper,
    canister_id: &Principal,
    method: &str,
    args: &Vec<u8>,
    opt_func: &Option<Signature>,
    answers: &Vec<Answer>,
    run: &mut Run,
) -> (r: Result<Vec<Value>, Halt>)
    requires
        helper.wf(),
    ensures
        final(run)@ == call_spec(
            helper@,
            canister_id@,
            method@,
            args@,
            opt_signature_view(*opt_func),
            answers_view(answers@),
            old(run)@,
        ).run,
        match call_spec(
            helper@,
            canister_id@,
            method@,
            args@,
            opt_signature_view(*opt_func),
            answers_view(answers@),
            old(run)@,
        ).result {
            Ok(v) => r matches Ok(x) && values_view(x@) == v,
            Err(h) => r matches Err(x) && x@ == h,
        },
        crate::types::cache_wf(old(run)@.cache) ==> crate::types::cache_wf(final(run)@.cache),
{
    proof {
        crate::replay::lemma_call_spec(
            helper@,
            canister_id@,
            method@,
            args@,
            opt_signature_view(*opt_func),
            answers_view(answers@),
            Seq::empty(),
            run@,
        );
    }
    let effective = route(helper, canister_id, method, args, answers, run)?;
    let spec = CallSpec {
        canister: canister_id.clone(),
        effective,
        method: text_copy(method),
        args: bytes_copy(args),
    };
    let query = is_query_call(opt_func);
    if helper.offline {
        sign_call(spec, query, answers, run)
    } else {
        send_call(spec, query, opt_func, answers, run)
    }
}

} // verus!
