//! Several calls sent at once: their results come back in the order in which
//! the calls were given, and one failure fails them all.
//!
//! The host answers a batch in one of two ways. It may wait for every call and
//! answer with the outcome of each; the batch then fails with the failure of
//! the first call, in the order of the calls, that failed. Or it may end the
//! batch at the first call that fails and answer with that failure alone.
use vstd::prelude::*;
use vstd::string::*;
use crate::call::{
    arg_types, arg_types_of, bytes_stage, ret_types, ret_types_of, route, routed, stage_bytes,
    stage_values, values_stage,
};
use crate::effects::{reply, reply_value};
use crate::host::{
    answers_view, ask, asked, calls_view, opt_types_view, outcomes_view, protocol_error,
    protocol_failure, reached, result_view, stopped, transport_error, transport_failure, Answer,
    AnswerView, CallSpec, CallSpecView, Halt, HaltView, Outcome, OutcomeView, Request, RequestView,
    Run, RunView, Stage, Types, TypesView,
};
use crate::resolve::get_info_spec;
use crate::text::{bytes_copy, text_copy};
use crate::types::{Helper, HelperView, Method, MethodView};
use crate::value::{values_view, Value, ValueView};

verus! {

/// A call that is ready to be sent, and the types by which its reply is decoded.
#[derive(Debug, PartialEq, Eq)]
pub struct Prepared {
    pub call: CallSpec,
    pub rets: Option<Types>,
}

pub struct PreparedView {
    pub call: CallSpecView,
    pub rets: Option<TypesView>,
}

impl View for Prepared {
    type V = PreparedView;

    open spec fn view(&self) -> PreparedView {
        PreparedView { call: self.call@, rets: opt_types_view(self.rets) }
    }
}

pub open spec fn prepared_view(s: Seq<Prepared>) -> Seq<PreparedView> {
    Seq::new(s.len(), |i: int| s[i]@)
}

/// The calls of a list of prepared calls.
pub open spec fn calls_of(s: Seq<PreparedView>) -> Seq<CallSpecView> {
    Seq::new(s.len(), |i: int| s[i].call)
}

/// One call of a batch, made ready: the method is resolved, the arguments are
/// encoded, and the call is routed.
pub open spec fn prepare_call(
    m: MethodView,
    args: Seq<ValueView>,
    h: HelperView,
    answers: Seq<AnswerView>,
    run: RunView,
) -> Stage<PreparedView> {
    let info = get_info_spec(m, h, false, answers, run);
    match info.result {
        Err(x) => Stage { result: Err(x), run: info.run },
        Ok(i) => {
            let encoded = bytes_stage(
                answers,
                info.run,
                RequestView::Encode { args, types: arg_types(i.signature) },
            );
            match encoded.result {
                Err(x) => Stage { result: Err(x), run: encoded.run },
                Ok(bytes) => {
                    let way = routed(h, i.canister_id, m.method, bytes, answers, encoded.run);
                    match way.result {
                        Err(x) => Stage { result: Err(x), run: way.run },
                        Ok(effective) => reached(
                            PreparedView {
                                call: CallSpecView {
                                    canister: i.canister_id,
                                    effective,
                                    method: m.method,
                                    args: bytes,
                                },
                                rets: ret_types(i.signature),
                            },
                            way.run,
                        ),
                    }
                },
            }
        },
    }
}

/// Makes one call of a batch ready.
pub fn prepare(m: &Method, args: Vec<Value>, h: &Helper, answers: &Vec<Answer>, run: &mut Run)
    -> (r: Result<Prepared, Halt>)
    requires
        h.wf(),
    ensures
        final(run)@ == prepare_call(
            m@,
            values_view(args@),
            h@,
            answers_view(answers@),
            old(run)@,
        ).run,
        match prepare_call(m@, values_view(args@), h@, answers_view(answers@), old(run)@).result {
            Ok(p) => r matches Ok(x) && x@ == p,
            Err(e) => r matches Err(x) && x@ == e,
        },
{
    let info = m.get_info(h, false, answers, run)?;
    let types = arg_types_of(&info.signature);
    let bytes = stage_bytes(answers, run, Request::Encode { args, types })?;
    let effective = route(h, &info.canister_id, m.method.as_str(), &bytes, answers, run)?;
    Ok(
        Prepared {
            call: CallSpec {
                canister: info.canister_id,
                effective,
                method: text_copy(m.method.as_str()),
                args: bytes,
            },
            rets: ret_types_of(&info.signature),
        },
    )
}

/// The message of the first call from `k` on that failed.
pub open spec fn first_failure(outcomes: Seq<OutcomeView>, k: int) -> Option<Seq<char>>
    decreases outcomes.len() - k,
{
    if k < 0 || k >= outcomes.len() {
        None
    } else {
        match outcomes[k] {
            OutcomeView::Failure(m) => Some(m),
            OutcomeView::Reply(_) => first_failure(outcomes, k + 1),
        }
    }
}

/// The bytes of a reply; none for a failure.
pub open spec fn reply_bytes(o: OutcomeView) -> Seq<u8> {
    match o {
        OutcomeView::Reply(b) => b,
        OutcomeView::Failure(_) => Seq::empty(),
    }
}

/// The values of the first `n` replies, each decoded by the types of its call
/// and made one value, in the order of the calls.
pub open spec fn decode_replies(
    prepared: Seq<PreparedView>,
    outcomes: Seq<OutcomeView>,
    n: nat,
    answers: Seq<AnswerView>,
    run: RunView,
) -> Stage<Seq<ValueView>>
    decreases n,
{
    if n == 0 || n > prepared.len() || n > outcomes.len() {
        Stage { result: Ok(Seq::empty()), run }
    } else {
        let head = decode_replies(prepared, outcomes, (n - 1) as nat, answers, run);
        match head.result {
            Err(_) => head,
            Ok(vs) => {
                let vals = values_stage(
                    answers,
                    head.run,
                    RequestView::Decode {
                        bytes: reply_bytes(outcomes[n - 1]),
                        types: prepared[n - 1].rets,
                    },
                );
                match vals.result {
                    Err(x) => Stage { result: Err(x), run: vals.run },
                    Ok(decoded) => {
                        let v = reply_value(decoded, vals.run);
                        match v.result {
                            Ok(x) => Stage { result: Ok(vs.push(x)), run: vals.run },
                            Err(x) => Stage { result: Err(x), run: vals.run },
                        }
                    },
                }
            },
        }
    }
}

/// What comes of the outcomes of a batch: the error of the first call that
/// failed, or else the values of all replies as one value.
pub open spec fn batch_outcomes(
    prepared: Seq<PreparedView>,
    outcomes: Seq<OutcomeView>,
    answers: Seq<AnswerView>,
    run: RunView,
) -> Stage<ValueView> {
    if outcomes.len() != prepared.len() {
        stopped(protocol_error(), run)
    } else {
        match first_failure(outcomes, 0) {
            Some(m) => stopped(transport_error(m), run),
            None => {
                let decoded = decode_replies(prepared, outcomes, prepared.len(), answers, run);
                match decoded.result {
                    Ok(vs) => reply_value(vs, decoded.run),
                    Err(x) => Stage { result: Err(x), run: decoded.run },
                }
            },
        }
    }
}

/// A batch of prepared calls, sent at once.
pub open spec fn batch_value(prepared: Seq<PreparedView>, answers: Seq<AnswerView>, run: RunView)
    -> Stage<ValueView> {
    match asked(answers, run, RequestView::Batch { calls: calls_of(prepared) }) {
        Err(x) => Stage { result: Err(x), run },
        Ok((AnswerView::Batch(outcomes), next)) => batch_outcomes(prepared, outcomes, answers, next),
        Ok((AnswerView::Failed(m), next)) => stopped(transport_error(m), next),
        Ok((_, next)) => stopped(protocol_error(), next),
    }
}

proof fn lemma_replies_stop(
    prepared: Seq<PreparedView>,
    outcomes: Seq<OutcomeView>,
    k: nat,
    n: nat,
    answers: Seq<AnswerView>,
    run: RunView,
)
    requires
        k <= n <= prepared.len(),
        n <= outcomes.len(),
        decode_replies(prepared, outcomes, k, answers, run).result is Err,
    ensures
        decode_replies(prepared, outcomes, n, answers, run) == decode_replies(
            prepared,
            outcomes,
            k,
            answers,
            run,
        ),
    decreases n,
{
    if n > k {
        lemma_replies_stop(prepared, outcomes, k, (n - 1) as nat, answers, run);
    }
}

fn find_failure(outcomes: &Vec<Outcome>) -> (r: Option<&String>)
    ensures
        match first_failure(outcomes_view(outcomes@), 0) {
            Some(m) => r matches Some(x) && x@ == m,
            None => r is None && forall|k: int|
                0 <= k < outcomes@.len() ==> (#[trigger] outcomes_view(outcomes@)[k]) is Reply,
        },
{
    let ghost ov = outcomes_view(outcomes@);
    let mut i: usize = 0;
    while i < outcomes.len()
        invariant
            i <= outcomes.len(),
            ov == outcomes_view(outcomes@),
            first_failure(ov, 0) == first_failure(ov, i as int),
            forall|k: int| 0 <= k < i ==> (#[trigger] ov[k]) is Reply,
        decreases outcomes.len() - i,
    {
        assert(ov[i as int] == outcomes@[i as int]@);
        if let Outcome::Failure(m) = &outcomes[i] {
            return Some(m);
        }
        i += 1;
    }
    None
}

fn decode_all(
    prepared: &Vec<Prepared>,
    outcomes: &Vec<Outcome>,
    answers: &Vec<Answer>,
    run: &mut Run,
) -> (r: Result<Vec<Value>, Halt>)
    requires
        prepared.len() == outcomes.len(),
    ensures
        final(run)@ == decode_replies(
            prepared_view(prepared@),
            outcomes_view(outcomes@),
            prepared@.len(),
            answers_view(answers@),
            old(run)@,
        ).run,
        match decode_replies(
            prepared_view(prepared@),
            outcomes_view(outcomes@),
            prepared@.len(),
            answers_view(answers@),
            old(run)@,
        ).result {
            Ok(v) => r matches Ok(x) && values_view(x@) == v,
            Err(e) => r matches Err(x) && x@ == e,
        },
{
    let ghost start = run@;
    let ghost pv = prepared_view(prepared@);
    let ghost ov = outcomes_view(outcomes@);
    let ghost av = answers_view(answers@);
    let mut vals: Vec<Value> = Vec::new();
    let mut i: usize = 0;
    assert(values_view(vals@) =~= Seq::empty());
    while i < prepared.len()
        invariant
            i <= prepared.len(),
            prepared.len() == outcomes.len(),
            pv == prepared_view(prepared@),
            ov == outcomes_view(outcomes@),
            av == answers_view(answers@),
            start == old(run)@,
            decode_replies(pv, ov, i as nat, av, start).result == Ok::<Seq<ValueView>, HaltView>(
                values_view(vals@),
            ),
            decode_replies(pv, ov, i as nat, av, start).run == run@,
        decreases prepared.len() - i,
    {
        assert(pv[i as int] == prepared@[i as int]@);
        assert(ov[i as int] == outcomes@[i as int]@);
        let bytes: Vec<u8> = match &outcomes[i] {
            Outcome::Reply(b) => bytes_copy(b),
            Outcome::Failure(_) => Vec::new(),
        };
        assert(bytes@ =~= reply_bytes(ov[i as int]));
        let types: Option<Types> = match &prepared[i].rets {
            Some(t) => Some(t.clone()),
            None => None,
        };
        let ghost mid = run@;
        match stage_values(answers, run, Request::Decode { bytes, types }) {
            Err(x) => {
                proof {
                    lemma_replies_stop(pv, ov, (i + 1) as nat, prepared@.len(), av, start);
                }
                return Err(x);
            },
            Ok(decoded) => match reply(&decoded) {
                Ok(v) => {
                    proof {
                        crate::value::lemma_values_view_push(vals@, v);
                        assert(reply_value(values_view(decoded@), run@).result is Ok);
                    }
                    vals.push(v);
                },
                Err(x) => {
                    proof {
                        assert(reply_value(values_view(decoded@), run@).result is Err);
                        lemma_replies_stop(pv, ov, (i + 1) as nat, prepared@.len(), av, start);
                    }
                    return Err(x);
                },
            },
        }
        i += 1;
    }
    Ok(vals)
}

fn calls_copy(prepared: &Vec<Prepared>) -> (r: Vec<CallSpec>)
    ensures
        calls_view(r@) == calls_of(prepared_view(prepared@)),
{
    let mut r: Vec<CallSpec> = Vec::new();
    let mut i: usize = 0;
    while i < prepared.len()
        invariant
            i <= prepared.len(),
            r@.len() == i,
            forall|k: int| 0 <= k < i ==> r@[k]@ == prepared@[k]@.call,
        decreases prepared.len() - i,
    {
        let c = &prepared[i].call;
        r.push(
            CallSpec {
                canister: c.canister.clone(),
                effective: c.effective.clone(),
                method: text_copy(c.method.as_str()),
                args: bytes_copy(&c.args),
            },
        );
        i += 1;
    }
    assert(calls_view(r@) =~= calls_of(prepared_view(prepared@)));
    r
}

/// What comes of the outcomes of a batch.
pub fn collect(
    prepared: &Vec<Prepared>,
    outcomes: &Vec<Outcome>,
    answers: &Vec<Answer>,
    run: &mut Run,
) -> (r: Result<Value, Halt>)
    ensures
        result_view(r) == batch_outcomes(
            prepared_view(prepared@),
            outcomes_view(outcomes@),
            answers_view(answers@),
            old(run)@,
        ).result,
        final(run)@ == batch_outcomes(
            prepared_view(prepared@),
            outcomes_view(outcomes@),
            answers_view(answers@),
            old(run)@,
        ).run,
{
    if outcomes.len() != prepared.len() {
        return Err(protocol_failure());
    }
    match find_failure(outcomes) {
        Some(m) => Err(transport_failure(m.as_str())),
        None => {
            let vs = decode_all(prepared, outcomes, answers, run)?;
            reply(&vs)
        },
    }
}

/// Sends a batch of prepared calls and makes one value of their replies.
pub fn send_batch(prepared: &Vec<Prepared>, answers: &Vec<Answer>, run: &mut Run) -> (r: Result<
    Value,
    Halt,
>)
    ensures
        result_view(r) == batch_value(
            prepared_view(prepared@),
            answers_view(answers@),
            old(run)@,
        ).result,
        final(run)@ == batch_value(prepared_view(prepared@), answers_view(answers@), old(run)@).run,
{
    match ask(answers, run, Request::Batch { calls: calls_copy(prepared) })? {
        Answer::Batch(outcomes) => collect(prepared, outcomes, answers, run),
        Answer::Failed(m) => Err(transport_failure(m.as_str())),
        _ => Err(protocol_failure()),
    }
}

/// Where a call of a batch fails, the batch fails with the error of the first
/// call that failed, whatever the other calls replied.
pub proof fn law_batch_fails_fast(
    prepared: Seq<PreparedView>,
    outcomes: Seq<OutcomeView>,
    k: int,
    answers: Seq<AnswerView>,
    run: RunView,
)
    requires
        outcomes.len() == prepared.len(),
        0 <= k < outcomes.len(),
        outcomes[k] is Failure,
        forall|i: int| 0 <= i < k ==> (#[trigger] outcomes[i]) is Reply,
    ensures
        batch_outcomes(prepared, outcomes, answers, run) == stopped::<ValueView>(
            transport_error(outcomes[k]->Failure_0),
            run,
        ),
{
    lemma_first_failure(outcomes, 0, k);
}

proof fn lemma_first_failure(outcomes: Seq<OutcomeView>, from: int, k: int)
    requires
        0 <= from <= k < outcomes.len(),
        outcomes[k] is Failure,
        forall|i: int| from <= i < k ==> (#[trigger] outcomes[i]) is Reply,
    ensures
        first_failure(outcomes, from) == Some(outcomes[k]->Failure_0),
    decreases k - from,
{
    if from < k {
        assert(outcomes[from] is Reply);
        lemma_first_failure(outcomes, from + 1, k);
    }
}

} // verus!
