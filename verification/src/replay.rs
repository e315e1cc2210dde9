//! Why an evaluation may be run again after each answer.
//!
//! An evaluation reads the answers of the host in order. Where it stops to
//! ask, it has read all of them; where it ends, answers that it has not read
//! have no part in its outcome.
use vstd::prelude::*;
use crate::batch::{batch_value, decode_replies, prepare_call, PreparedView};
use crate::builtin::Builtin;
use crate::call::call_spec;
use crate::effects::{stringified, stringify_builtin};
use crate::eval::{
    apply_builtin, apply_func_spec, apply_values, cast_value, eval_apply, eval_calls, eval_exports,
    eval_fields, eval_list, eval_spec,
};
use crate::exp::{ExpView, FieldExpView, FuncCallView};
use crate::host::{asked, AnswerView, HaltView, RequestView, RunView};
use crate::invoke::{call_value, decode_value, live_call};
use crate::resolve::get_info_spec;
use crate::types::{cache_wf, lemma_cached_push, HelperView, MethodView};
use crate::value::ValueView;

verus! {

/// The outcome is a request to the host.
pub open spec fn waits<T>(r: Result<T, HaltView>) -> bool {
    r matches Err(HaltView::Pending(_))
}

/// An outcome that is in step with the answers: no more answers are read than
/// there are, and a request is made only when all are read.
pub open spec fn in_step<T>(r: Result<T, HaltView>, after: RunView, answers: Seq<AnswerView>)
    -> bool {
    &&& after.cursor <= answers.len()
    &&& waits(r) ==> after.cursor == answers.len()
}

proof fn lemma_stringified(
    args: Seq<ValueView>,
    n: nat,
    a: Seq<AnswerView>,
    b: Seq<AnswerView>,
    run: RunView,
)
    ensures
        run.cursor <= a.len() ==> in_step(stringified(args, n, a, run).result, stringified(args, n, a, run).run, a),
        cache_wf(run.cache) ==> cache_wf(stringified(args, n, a, run).run.cache),
        run.cursor <= a.len() && !waits(stringified(args, n, a, run).result) ==> stringified(args, n, a + b, run)
            == stringified(args, n, a, run),
    decreases n,
{
    if !(n == 0 || n > args.len()) {
        lemma_stringified(args, (n - 1) as nat, a, b, run);
    }
}

proof fn lemma_decode_replies(
    prepared: Seq<PreparedView>,
    outcomes: Seq<crate::host::OutcomeView>,
    n: nat,
    a: Seq<AnswerView>,
    b: Seq<AnswerView>,
    run: RunView,
)
    ensures
        run.cursor <= a.len() ==> in_step(
            decode_replies(prepared, outcomes, n, a, run).result,
            decode_replies(prepared, outcomes, n, a, run).run,
            a,
        ),
        cache_wf(run.cache) ==> cache_wf(decode_replies(prepared, outcomes, n, a, run).run.cache),
        run.cursor <= a.len() && !waits(decode_replies(prepared, outcomes, n, a, run).result) ==> decode_replies(
            prepared,
            outcomes,
            n,
            a + b,
            run,
        ) == decode_replies(prepared, outcomes, n, a, run),
    decreases n,
{
    if !(n == 0 || n > prepared.len() || n > outcomes.len()) {
        lemma_decode_replies(prepared, outcomes, (n - 1) as nat, a, b, run);
    }
}

proof fn lemma_batch_value(
    prepared: Seq<PreparedView>,
    a: Seq<AnswerView>,
    b: Seq<AnswerView>,
    run: RunView,
)
    ensures
        run.cursor <= a.len() ==> in_step(batch_value(prepared, a, run).result, batch_value(prepared, a, run).run, a),
        cache_wf(run.cache) ==> cache_wf(batch_value(prepared, a, run).run.cache),
        run.cursor <= a.len() && !waits(batch_value(prepared, a, run).result) ==> batch_value(prepared, a + b, run)
            == batch_value(prepared, a, run),
{
    match asked(a, run, RequestView::Batch { calls: crate::batch::calls_of(prepared) }) {
        Ok((AnswerView::Batch(outcomes), next)) => {
            lemma_decode_replies(prepared, outcomes, prepared.len(), a, b, next);
        },
        _ => {},
    }
}

proof fn lemma_interface_of(canister: Seq<u8>, a: Seq<AnswerView>, b: Seq<AnswerView>, run: RunView)
    ensures
        run.cursor <= a.len() ==> in_step(
            crate::resolve::interface_of(canister, a, run).result,
            crate::resolve::interface_of(canister, a, run).run,
            a,
        ),
        cache_wf(run.cache) ==> cache_wf(crate::resolve::interface_of(canister, a, run).run.cache),
        run.cursor <= a.len() && !waits(crate::resolve::interface_of(canister, a, run).result)
            ==> crate::resolve::interface_of(canister, a + b, run) == crate::resolve::interface_of(
            canister,
            a,
            run,
        ),
{
    let after = crate::resolve::interface_of(canister, a, run).run.cache;
    if cache_wf(run.cache) && after != run.cache {
        let e = after.last();
        assert(after =~= run.cache.push(e));
        lemma_cached_push(run.cache, e, canister);
        assert forall|i: int| 0 <= i < after.len() implies crate::types::interface_wf(
            #[trigger] after[i].info,
        ) by {
            if i < run.cache.len() {
                assert(after[i] == run.cache[i]);
            }
        }
    }
}

pub proof fn lemma_get_info(
    m: MethodView,
    h: HelperView,
    is_encode: bool,
    a: Seq<AnswerView>,
    b: Seq<AnswerView>,
    run: RunView,
)
    ensures
        run.cursor <= a.len() ==> in_step(
            get_info_spec(m, h, is_encode, a, run).result,
            get_info_spec(m, h, is_encode, a, run).run,
            a,
        ),
        cache_wf(run.cache) ==> cache_wf(get_info_spec(m, h, is_encode, a, run).run.cache),
        run.cursor <= a.len() && !waits(get_info_spec(m, h, is_encode, a, run).result) ==> get_info_spec(
            m,
            h,
            is_encode,
            a + b,
            run,
        ) == get_info_spec(m, h, is_encode, a, run),
{
    match crate::resolve::resolve_address(h.env, m.canister) {
        Ok(canister) => {
            lemma_interface_of(canister, a, b, run);
        },
        Err(_) => {},
    }
}

pub proof fn lemma_call_spec(
    h: HelperView,
    canister: Seq<u8>,
    method: Seq<char>,
    args: Seq<u8>,
    sig: Option<crate::types::SignatureView>,
    a: Seq<AnswerView>,
    b: Seq<AnswerView>,
    run: RunView,
)
    ensures
        run.cursor <= a.len() ==> in_step(
            call_spec(h, canister, method, args, sig, a, run).result,
            call_spec(h, canister, method, args, sig, a, run).run,
            a,
        ),
        cache_wf(run.cache) ==> cache_wf(call_spec(h, canister, method, args, sig, a, run).run.cache),
        run.cursor <= a.len() && !waits(call_spec(h, canister, method, args, sig, a, run).result) ==> call_spec(
            h,
            canister,
            method,
            args,
            sig,
            a + b,
            run,
        ) == call_spec(h, canister, method, args, sig, a, run),
{
}

proof fn lemma_live_call(
    h: HelperView,
    info: crate::types::MethodInfoView,
    method: Seq<char>,
    bytes: Seq<u8>,
    a: Seq<AnswerView>,
    b: Seq<AnswerView>,
    run: RunView,
)
    ensures
        run.cursor <= a.len() ==> in_step(live_call(h, info, method, bytes, a, run).result, live_call(h, info, method, bytes, a, run).run, a),
        cache_wf(run.cache) ==> cache_wf(live_call(h, info, method, bytes, a, run).run.cache),
        run.cursor <= a.len() && !waits(live_call(h, info, method, bytes, a, run).result) ==> live_call(h, info, method, bytes, a + b, run) == live_call(h, info, method, bytes, a, run),
{
    if crate::invoke::ok_to_profile(h, info) {
        let before = crate::invoke::cycles(info.canister_id, a, run);
        if before.result is Ok {
            lemma_call_spec(h, info.canister_id, method, bytes, info.signature, a, b, before.run);
        }
    } else {
        lemma_call_spec(h, info.canister_id, method, bytes, info.signature, a, b, run);
    }
}

proof fn lemma_call_value(
    method: Option<MethodView>,
    args: Option<Seq<ValueView>>,
    mode: crate::types::CallModeView,
    h: HelperView,
    a: Seq<AnswerView>,
    b: Seq<AnswerView>,
    run: RunView,
)
    ensures
        run.cursor <= a.len() ==> in_step(call_value(method, args, mode, h, a, run).result, call_value(method, args, mode, h, a, run).run, a),
        cache_wf(run.cache) ==> cache_wf(call_value(method, args, mode, h, a, run).run.cache),
        run.cursor <= a.len() && !waits(call_value(method, args, mode, h, a, run).result) ==> call_value(method, args, mode, h, a + b, run) == call_value(method, args, mode, h, a, run),
{
    let info = crate::invoke::info_for(method, h, mode is Encode, a, run);
    if method is Some {
        lemma_get_info(method->Some_0, h, mode is Encode, a, b, run);
    }
    if info.result is Ok {
        let i = info.result->Ok_0;
        let sig = crate::invoke::known_signature(i);
        let given = crate::invoke::call_args(sig, args, a, info.run);
        if given.result is Ok {
            let encoded = crate::call::bytes_stage(
                a,
                given.run,
                RequestView::Encode { args: given.result->Ok_0, types: crate::call::arg_types(sig) },
            );
            if encoded.result is Ok {
                if mode is Call && method is Some && i is Some {
                    lemma_live_call(
                        h,
                        i->Some_0,
                        method->Some_0.method,
                        encoded.result->Ok_0,
                        a,
                        b,
                        encoded.run,
                    );
                }
            }
        }
    }
}

proof fn lemma_decode_value(
    method: Option<MethodView>,
    v: ValueView,
    h: HelperView,
    a: Seq<AnswerView>,
    b: Seq<AnswerView>,
    run: RunView,
)
    ensures
        run.cursor <= a.len() ==> in_step(decode_value(method, v, h, a, run).result, decode_value(method, v, h, a, run).run, a),
        cache_wf(run.cache) ==> cache_wf(decode_value(method, v, h, a, run).run.cache),
        run.cursor <= a.len() && !waits(decode_value(method, v, h, a, run).result) ==> decode_value(method, v, h, a + b, run) == decode_value(method, v, h, a, run),
{
    if method is Some {
        lemma_get_info(method->Some_0, h, false, a, b, run);
    }
}

proof fn lemma_prepare_call(
    m: MethodView,
    args: Seq<ValueView>,
    h: HelperView,
    a: Seq<AnswerView>,
    b: Seq<AnswerView>,
    run: RunView,
)
    ensures
        run.cursor <= a.len() ==> in_step(prepare_call(m, args, h, a, run).result, prepare_call(m, args, h, a, run).run, a),
        cache_wf(run.cache) ==> cache_wf(prepare_call(m, args, h, a, run).run.cache),
        run.cursor <= a.len() && !waits(prepare_call(m, args, h, a, run).result) ==> prepare_call(m, args, h, a + b, run) == prepare_call(m, args, h, a, run),
{
    lemma_get_info(m, h, false, a, b, run);
}

proof fn lemma_cast_value(
    v: ValueView,
    ty: Seq<char>,
    a: Seq<AnswerView>,
    b: Seq<AnswerView>,
    run: RunView,
)
    ensures
        run.cursor <= a.len() ==> in_step(cast_value(v, ty, a, run).result, cast_value(v, ty, a, run).run, a),
        cache_wf(run.cache) ==> cache_wf(cast_value(v, ty, a, run).run.cache),
        run.cursor <= a.len() && !waits(cast_value(v, ty, a, run).result) ==> cast_value(v, ty, a + b, run) == cast_value(v, ty, a, run),
{
}

pub proof fn lemma_apply_func(
    h: HelperView,
    func: Seq<char>,
    args: Seq<ValueView>,
    a: Seq<AnswerView>,
    b: Seq<AnswerView>,
    run: RunView,
)
    ensures
        run.cursor <= a.len() ==> in_step(apply_func_spec(h, func, args, a, run).result, apply_func_spec(h, func, args, a, run).run, a),
        cache_wf(run.cache) ==> cache_wf(apply_func_spec(h, func, args, a, run).run.cache),
        run.cursor <= a.len() && !waits(apply_func_spec(h, func, args, a, run).result) ==> apply_func_spec(h, func, args, a + b, run) == apply_func_spec(h, func, args, a, run),
{
}

proof fn lemma_account(
    args: Seq<ValueView>,
    a: Seq<AnswerView>,
    b: Seq<AnswerView>,
    run: RunView,
)
    ensures
        run.cursor <= a.len() ==> in_step(crate::effects::account_builtin(args, a, run).result, crate::effects::account_builtin(args, a, run).run, a),
        cache_wf(run.cache) ==> cache_wf(crate::effects::account_builtin(args, a, run).run.cache),
        run.cursor <= a.len() && !waits(crate::effects::account_builtin(args, a, run).result) ==> crate::effects::account_builtin(args, a + b, run) == crate::effects::account_builtin(args, a, run),
{
}

proof fn lemma_subaccount(
    args: Seq<ValueView>,
    a: Seq<AnswerView>,
    b: Seq<AnswerView>,
    run: RunView,
)
    ensures
        run.cursor <= a.len() ==> in_step(crate::effects::subaccount_builtin(args, a, run).result, crate::effects::subaccount_builtin(args, a, run).run, a),
        cache_wf(run.cache) ==> cache_wf(crate::effects::subaccount_builtin(args, a, run).run.cache),
        run.cursor <= a.len() && !waits(crate::effects::subaccount_builtin(args, a, run).result) ==> crate::effects::subaccount_builtin(args, a + b, run) == crate::effects::subaccount_builtin(args, a, run),
{
}

proof fn lemma_neuron_account(
    args: Seq<ValueView>,
    a: Seq<AnswerView>,
    b: Seq<AnswerView>,
    run: RunView,
)
    ensures
        run.cursor <= a.len() ==> in_step(crate::effects::neuron_account_builtin(args, a, run).result, crate::effects::neuron_account_builtin(args, a, run).run, a),
        cache_wf(run.cache) ==> cache_wf(crate::effects::neuron_account_builtin(args, a, run).run.cache),
        run.cursor <= a.len() && !waits(crate::effects::neuron_account_builtin(args, a, run).result) ==> crate::effects::neuron_account_builtin(args, a + b, run) == crate::effects::neuron_account_builtin(args, a, run),
{
}

proof fn lemma_read_state(
    args: Seq<ValueView>,
    a: Seq<AnswerView>,
    b: Seq<AnswerView>,
    run: RunView,
)
    ensures
        run.cursor <= a.len() ==> in_step(crate::effects::read_state_builtin(args, a, run).result, crate::effects::read_state_builtin(args, a, run).run, a),
        cache_wf(run.cache) ==> cache_wf(crate::effects::read_state_builtin(args, a, run).run.cache),
        run.cursor <= a.len() && !waits(crate::effects::read_state_builtin(args, a, run).result) ==> crate::effects::read_state_builtin(args, a + b, run) == crate::effects::read_state_builtin(args, a, run),
{
}

proof fn lemma_file(
    args: Seq<ValueView>,
    a: Seq<AnswerView>,
    b: Seq<AnswerView>,
    run: RunView,
)
    ensures
        run.cursor <= a.len() ==> in_step(crate::effects::file_builtin(args, a, run).result, crate::effects::file_builtin(args, a, run).run, a),
        cache_wf(run.cache) ==> cache_wf(crate::effects::file_builtin(args, a, run).run.cache),
        run.cursor <= a.len() && !waits(crate::effects::file_builtin(args, a, run).result) ==> crate::effects::file_builtin(args, a + b, run) == crate::effects::file_builtin(args, a, run),
{
}

proof fn lemma_gzip(
    args: Seq<ValueView>,
    a: Seq<AnswerView>,
    b: Seq<AnswerView>,
    run: RunView,
)
    ensures
        run.cursor <= a.len() ==> in_step(crate::effects::gzip_builtin(args, a, run).result, crate::effects::gzip_builtin(args, a, run).run, a),
        cache_wf(run.cache) ==> cache_wf(crate::effects::gzip_builtin(args, a, run).run.cache),
        run.cursor <= a.len() && !waits(crate::effects::gzip_builtin(args, a, run).result) ==> crate::effects::gzip_builtin(args, a + b, run) == crate::effects::gzip_builtin(args, a, run),
{
}

proof fn lemma_exec(
    args: Seq<ValueView>,
    a: Seq<AnswerView>,
    b: Seq<AnswerView>,
    run: RunView,
)
    ensures
        run.cursor <= a.len() ==> in_step(crate::effects::exec_builtin(args, a, run).result, crate::effects::exec_builtin(args, a, run).run, a),
        cache_wf(run.cache) ==> cache_wf(crate::effects::exec_builtin(args, a, run).run.cache),
        run.cursor <= a.len() && !waits(crate::effects::exec_builtin(args, a, run).result) ==> crate::effects::exec_builtin(args, a + b, run) == crate::effects::exec_builtin(args, a, run),
{
}

proof fn lemma_send(
    args: Seq<ValueView>,
    a: Seq<AnswerView>,
    b: Seq<AnswerView>,
    run: RunView,
)
    ensures
        run.cursor <= a.len() ==> in_step(crate::effects::send_builtin(args, a, run).result, crate::effects::send_builtin(args, a, run).run, a),
        cache_wf(run.cache) ==> cache_wf(crate::effects::send_builtin(args, a, run).run.cache),
        run.cursor <= a.len() && !waits(crate::effects::send_builtin(args, a, run).result) ==> crate::effects::send_builtin(args, a + b, run) == crate::effects::send_builtin(args, a, run),
{
}

proof fn lemma_wasm_profiling(
    args: Seq<ValueView>,
    a: Seq<AnswerView>,
    b: Seq<AnswerView>,
    run: RunView,
)
    ensures
        run.cursor <= a.len() ==> in_step(crate::effects::wasm_profiling_builtin(args, a, run).result, crate::effects::wasm_profiling_builtin(args, a, run).run, a),
        cache_wf(run.cache) ==> cache_wf(crate::effects::wasm_profiling_builtin(args, a, run).run.cache),
        run.cursor <= a.len() && !waits(crate::effects::wasm_profiling_builtin(args, a, run).result) ==> crate::effects::wasm_profiling_builtin(args, a + b, run) == crate::effects::wasm_profiling_builtin(args, a, run),
{
}

proof fn lemma_flamegraph(
    args: Seq<ValueView>,
    a: Seq<AnswerView>,
    b: Seq<AnswerView>,
    run: RunView,
)
    ensures
        run.cursor <= a.len() ==> in_step(crate::effects::flamegraph_builtin(args, a, run).result, crate::effects::flamegraph_builtin(args, a, run).run, a),
        cache_wf(run.cache) ==> cache_wf(crate::effects::flamegraph_builtin(args, a, run).run.cache),
        run.cursor <= a.len() && !waits(crate::effects::flamegraph_builtin(args, a, run).result) ==> crate::effects::flamegraph_builtin(args, a + b, run) == crate::effects::flamegraph_builtin(args, a, run),
{
    if args.len() == 3 && args[0] is Principal {
        lemma_interface_of(args[0]->Principal_0, a, b, run);
    }
}

proof fn lemma_output(
    args: Seq<ValueView>,
    a: Seq<AnswerView>,
    b: Seq<AnswerView>,
    run: RunView,
)
    ensures
        run.cursor <= a.len() ==> in_step(crate::effects::output_builtin(args, a, run).result, crate::effects::output_builtin(args, a, run).run, a),
        cache_wf(run.cache) ==> cache_wf(crate::effects::output_builtin(args, a, run).run.cache),
        run.cursor <= a.len() && !waits(crate::effects::output_builtin(args, a, run).result) ==> crate::effects::output_builtin(args, a + b, run) == crate::effects::output_builtin(args, a, run),
{
}

proof fn lemma_stringify(
    args: Seq<ValueView>,
    a: Seq<AnswerView>,
    b: Seq<AnswerView>,
    run: RunView,
)
    ensures
        run.cursor <= a.len() ==> in_step(stringify_builtin(args, a, run).result, stringify_builtin(args, a, run).run, a),
        cache_wf(run.cache) ==> cache_wf(stringify_builtin(args, a, run).run.cache),
        run.cursor <= a.len() && !waits(stringify_builtin(args, a, run).result) ==> stringify_builtin(args, a + b, run) == stringify_builtin(args, a, run),
{
    lemma_stringified(args, args.len(), a, b, run);
}

proof fn lemma_equality(
    f: Builtin,
    args: Seq<ValueView>,
    a: Seq<AnswerView>,
    b: Seq<AnswerView>,
    run: RunView,
)
    ensures
        run.cursor <= a.len() ==> in_step(crate::builtin::equality_builtin(f, args, a, run).result, crate::builtin::equality_builtin(f, args, a, run).run, a),
        cache_wf(run.cache) ==> cache_wf(crate::builtin::equality_builtin(f, args, a, run).run.cache),
        run.cursor <= a.len() && !waits(crate::builtin::equality_builtin(f, args, a, run).result) ==> crate::builtin::equality_builtin(f, args, a + b, run) == crate::builtin::equality_builtin(f, args, a, run),
{
}

proof fn lemma_arith(
    f: Builtin,
    op: crate::number::ArithOp,
    args: Seq<ValueView>,
    a: Seq<AnswerView>,
    b: Seq<AnswerView>,
    run: RunView,
)
    ensures
        run.cursor <= a.len() ==> in_step(crate::builtin::arith_builtin(f, op, args, a, run).result, crate::builtin::arith_builtin(f, op, args, a, run).run, a),
        cache_wf(run.cache) ==> cache_wf(crate::builtin::arith_builtin(f, op, args, a, run).run.cache),
        run.cursor <= a.len() && !waits(crate::builtin::arith_builtin(f, op, args, a, run).result) ==> crate::builtin::arith_builtin(f, op, args, a + b, run) == crate::builtin::arith_builtin(f, op, args, a, run),
{
}

proof fn lemma_order(
    f: Builtin,
    op: crate::number::OrderOp,
    args: Seq<ValueView>,
    a: Seq<AnswerView>,
    b: Seq<AnswerView>,
    run: RunView,
)
    ensures
        run.cursor <= a.len() ==> in_step(crate::builtin::order_builtin(f, op, args, a, run).result, crate::builtin::order_builtin(f, op, args, a, run).run, a),
        cache_wf(run.cache) ==> cache_wf(crate::builtin::order_builtin(f, op, args, a, run).run.cache),
        run.cursor <= a.len() && !waits(crate::builtin::order_builtin(f, op, args, a, run).result) ==> crate::builtin::order_builtin(f, op, args, a + b, run) == crate::builtin::order_builtin(f, op, args, a, run),
{
}

proof fn lemma_apply_builtin(
    f: Builtin,
    args: Seq<ValueView>,
    h: HelperView,
    a: Seq<AnswerView>,
    b: Seq<AnswerView>,
    run: RunView,
)
    ensures
        run.cursor <= a.len() ==> in_step(apply_builtin(f, args, h, a, run).result, apply_builtin(f, args, h, a, run).run, a),
        cache_wf(run.cache) ==> cache_wf(apply_builtin(f, args, h, a, run).run.cache),
        run.cursor <= a.len() && !waits(apply_builtin(f, args, h, a, run).result) ==> apply_builtin(f, args, h, a + b, run) == apply_builtin(f, args, h, a, run),
{
    match f {
        Builtin::Eq => {
            lemma_equality(f, args, a, b, run);
        },
        Builtin::Neq => {
            lemma_equality(f, args, a, b, run);
        },
        Builtin::Lt => {
            lemma_order(f, crate::number::OrderOp::Lt, args, a, b, run);
        },
        Builtin::Lte => {
            lemma_order(f, crate::number::OrderOp::Lte, args, a, b, run);
        },
        Builtin::Gt => {
            lemma_order(f, crate::number::OrderOp::Gt, args, a, b, run);
        },
        Builtin::Gte => {
            lemma_order(f, crate::number::OrderOp::Gte, args, a, b, run);
        },
        Builtin::Add => {
            lemma_arith(f, crate::number::ArithOp::Add, args, a, b, run);
        },
        Builtin::Sub => {
            lemma_arith(f, crate::number::ArithOp::Sub, args, a, b, run);
        },
        Builtin::Mul => {
            lemma_arith(f, crate::number::ArithOp::Mul, args, a, b, run);
        },
        Builtin::Div => {
            lemma_arith(f, crate::number::ArithOp::Div, args, a, b, run);
        },
        Builtin::Account => {
            lemma_account(args, a, b, run);
        },
        Builtin::Subaccount => {
            lemma_subaccount(args, a, b, run);
        },
        Builtin::NeuronAccount => {
            lemma_neuron_account(args, a, b, run);
        },
        Builtin::ReadState => {
            lemma_read_state(args, a, b, run);
            lemma_apply_func(h, crate::builtin::builtin_name(f), args, a, b, run);
        },
        Builtin::File => {
            lemma_file(args, a, b, run);
        },
        Builtin::Gzip => {
            lemma_gzip(args, a, b, run);
        },
        Builtin::Exec => {
            lemma_exec(args, a, b, run);
        },
        Builtin::Send => {
            lemma_send(args, a, b, run);
            lemma_apply_func(h, crate::builtin::builtin_name(f), args, a, b, run);
        },
        Builtin::WasmProfiling => {
            lemma_wasm_profiling(args, a, b, run);
        },
        Builtin::Flamegraph => {
            lemma_flamegraph(args, a, b, run);
        },
        Builtin::Output => {
            lemma_output(args, a, b, run);
        },
        Builtin::Stringify => {
            lemma_stringify(args, a, b, run);
        },
        Builtin::Concat => {},
        Builtin::And => {},
        Builtin::Or => {},
        Builtin::Not => {},
        Builtin::ReplicaUrl => {},
        _ => {
            lemma_apply_func(h, crate::builtin::builtin_name(f), args, a, b, run);
        },
    }
}

proof fn lemma_apply_values(
    func: Seq<char>,
    args: Seq<ValueView>,
    h: HelperView,
    a: Seq<AnswerView>,
    b: Seq<AnswerView>,
    run: RunView,
)
    ensures
        run.cursor <= a.len() ==> in_step(apply_values(func, args, h, a, run).result, apply_values(func, args, h, a, run).run, a),
        cache_wf(run.cache) ==> cache_wf(apply_values(func, args, h, a, run).run.cache),
        run.cursor <= a.len() && !waits(apply_values(func, args, h, a, run).result) ==> apply_values(func, args, h, a + b, run) == apply_values(func, args, h, a, run),
{
    match crate::builtin::builtin_named(func) {
        Some(f) => {
            lemma_apply_builtin(f, args, h, a, b, run);
        },
        None => {
            lemma_apply_func(h, func, args, a, b, run);
        },
    }
}

pub proof fn lemma_eval(
    e: ExpView,
    h: HelperView,
    a: Seq<AnswerView>,
    b: Seq<AnswerView>,
    run: RunView,
)
    ensures
        run.cursor <= a.len() ==> in_step(eval_spec(e, h, a, run).result, eval_spec(e, h, a, run).run, a),
        cache_wf(run.cache) ==> cache_wf(eval_spec(e, h, a, run).run.cache),
        run.cursor <= a.len() && !waits(eval_spec(e, h, a, run).result) ==> eval_spec(e, h, a + b, run) == eval_spec(
            e,
            h,
            a,
            run,
        ),
    decreases e, 0nat,
{
    match e {
        ExpView::AnnVal(x, ty) => {
            lemma_eval(*x, h, a, b, run);
            let inner = eval_spec(*x, h, a, run);
            if inner.result is Ok {
                lemma_cast_value(inner.result->Ok_0, ty, a, b, inner.run);
            }
        },
        ExpView::Fail(x) => {
            lemma_eval(*x, h, a, b, run);
        },
        ExpView::Apply(func, exps) => {
            lemma_eval_apply(func, exps, h, a, b, run);
        },
        ExpView::Decode { method, blob } => {
            lemma_eval(*blob, h, a, b, run);
            let inner = eval_spec(*blob, h, a, run);
            if inner.result is Ok {
                lemma_decode_value(method, inner.result->Ok_0, h, a, b, inner.run);
            }
        },
        ExpView::ParCall { calls } => {
            lemma_eval_calls(calls, calls.len(), h, a, b, run);
            let ready = eval_calls(calls, calls.len(), h, a, run);
            if ready.result is Ok {
                lemma_batch_value(ready.result->Ok_0, a, b, ready.run);
            }
        },
        ExpView::Call { method, args, mode } => {
            match args {
                Some(es) => {
                    lemma_eval_list(es, es.len(), h, a, b, run);
                    let list = eval_list(es, es.len(), h, a, run);
                    if list.result is Ok {
                        lemma_call_value(method, Some(list.result->Ok_0), mode, h, a, b, list.run);
                    }
                },
                None => {
                    lemma_call_value(method, None, mode, h, a, b, run);
                },
            }
        },
        ExpView::Opt(x) => {
            lemma_eval(*x, h, a, b, run);
        },
        ExpView::Vec(es) => {
            lemma_eval_list(es, es.len(), h, a, b, run);
        },
        ExpView::Record(fs) => {
            lemma_eval_fields(fs, fs.len(), h, a, b, run);
        },
        ExpView::Variant(f, idx) => {
            lemma_eval(f.val, h, a, b, run);
        },
        _ => {},
    }
}

proof fn lemma_eval_list(
    es: Seq<ExpView>,
    n: nat,
    h: HelperView,
    a: Seq<AnswerView>,
    b: Seq<AnswerView>,
    run: RunView,
)
    ensures
        run.cursor <= a.len() ==> in_step(eval_list(es, n, h, a, run).result, eval_list(es, n, h, a, run).run, a),
        cache_wf(run.cache) ==> cache_wf(eval_list(es, n, h, a, run).run.cache),
        run.cursor <= a.len() && !waits(eval_list(es, n, h, a, run).result) ==> eval_list(es, n, h, a + b, run)
            == eval_list(es, n, h, a, run),
    decreases es, n,
{
    if !(n == 0 || n > es.len()) {
        lemma_eval_list(es, (n - 1) as nat, h, a, b, run);
        let head = eval_list(es, (n - 1) as nat, h, a, run);
        if head.result is Ok {
            lemma_eval(es[n - 1], h, a, b, head.run);
        }
    }
}

proof fn lemma_eval_fields(
    fs: Seq<FieldExpView>,
    n: nat,
    h: HelperView,
    a: Seq<AnswerView>,
    b: Seq<AnswerView>,
    run: RunView,
)
    ensures
        run.cursor <= a.len() ==> in_step(eval_fields(fs, n, h, a, run).result, eval_fields(fs, n, h, a, run).run, a),
        cache_wf(run.cache) ==> cache_wf(eval_fields(fs, n, h, a, run).run.cache),
        run.cursor <= a.len() && !waits(eval_fields(fs, n, h, a, run).result) ==> eval_fields(fs, n, h, a + b, run)
            == eval_fields(fs, n, h, a, run),
    decreases fs, n,
{
    if !(n == 0 || n > fs.len()) {
        lemma_eval_fields(fs, (n - 1) as nat, h, a, b, run);
        let head = eval_fields(fs, (n - 1) as nat, h, a, run);
        if head.result is Ok {
            lemma_eval(fs[n - 1].val, h, a, b, head.run);
        }
    }
}

proof fn lemma_eval_calls(
    calls: Seq<FuncCallView>,
    n: nat,
    h: HelperView,
    a: Seq<AnswerView>,
    b: Seq<AnswerView>,
    run: RunView,
)
    ensures
        run.cursor <= a.len() ==> in_step(eval_calls(calls, n, h, a, run).result, eval_calls(calls, n, h, a, run).run, a),
        cache_wf(run.cache) ==> cache_wf(eval_calls(calls, n, h, a, run).run.cache),
        run.cursor <= a.len() && !waits(eval_calls(calls, n, h, a, run).result) ==> eval_calls(calls, n, h, a + b, run)
            == eval_calls(calls, n, h, a, run),
    decreases calls, n,
{
    if !(n == 0 || n > calls.len()) {
        lemma_eval_calls(calls, (n - 1) as nat, h, a, b, run);
        let head = eval_calls(calls, (n - 1) as nat, h, a, run);
        if head.result is Ok {
            let c = calls[n - 1];
            lemma_eval_list(c.args, c.args.len(), h, a, b, head.run);
            let list = eval_list(c.args, c.args.len(), h, a, head.run);
            if list.result is Ok {
                lemma_prepare_call(c.method, list.result->Ok_0, h, a, b, list.run);
            }
        }
    }
}

proof fn lemma_eval_exports(
    exps: Seq<ExpView>,
    n: nat,
    h: HelperView,
    a: Seq<AnswerView>,
    b: Seq<AnswerView>,
    run: RunView,
)
    ensures
        run.cursor <= a.len() ==> in_step(eval_exports(exps, n, h, a, run).result, eval_exports(exps, n, h, a, run).run, a),
        cache_wf(run.cache) ==> cache_wf(eval_exports(exps, n, h, a, run).run.cache),
        run.cursor <= a.len() && !waits(eval_exports(exps, n, h, a, run).result) ==> eval_exports(exps, n, h, a + b, run)
            == eval_exports(exps, n, h, a, run),
    decreases exps, n,
{
    if !(n <= 1 || n > exps.len()) {
        lemma_eval_exports(exps, (n - 1) as nat, h, a, b, run);
        let head = eval_exports(exps, (n - 1) as nat, h, a, run);
        if head.result is Ok {
            lemma_eval(exps[n - 1], h, a, b, head.run);
        }
    }
}

proof fn lemma_eval_apply(
    func: Seq<char>,
    exps: Seq<ExpView>,
    h: HelperView,
    a: Seq<AnswerView>,
    b: Seq<AnswerView>,
    run: RunView,
)
    ensures
        run.cursor <= a.len() ==> in_step(eval_apply(func, exps, h, a, run).result, eval_apply(func, exps, h, a, run).run, a),
        cache_wf(run.cache) ==> cache_wf(eval_apply(func, exps, h, a, run).run.cache),
        run.cursor <= a.len() && !waits(eval_apply(func, exps, h, a, run).result) ==> eval_apply(func, exps, h, a + b, run)
            == eval_apply(func, exps, h, a, run),
    decreases exps, exps.len() + 1,
{
    match crate::builtin::builtin_named(func) {
        Some(Builtin::Ite) => {
            if exps.len() == 3 {
                lemma_eval(exps[0], h, a, b, run);
                let c = eval_spec(exps[0], h, a, run);
                if c.result is Ok {
                    lemma_eval(exps[1], h, a, b, c.run);
                    lemma_eval(exps[2], h, a, b, c.run);
                }
            }
        },
        Some(Builtin::Exist) => {
            if exps.len() == 1 {
                lemma_eval(exps[0], h, a, b, run);
            }
        },
        Some(Builtin::Export) => {
            if exps.len() > 1 {
                lemma_eval(exps[0], h, a, b, run);
                let p = eval_spec(exps[0], h, a, run);
                if p.result is Ok {
                    lemma_eval_exports(exps, exps.len(), h, a, b, p.run);
                }
            }
        },
        _ => {
            lemma_eval_list(exps, exps.len(), h, a, b, run);
            let list = eval_list(exps, exps.len(), h, a, run);
            if list.result is Ok {
                lemma_apply_values(func, list.result->Ok_0, h, a, b, list.run);
            }
        },
    }
}

/// An evaluation is in step with the answers of the host: it reads no more
/// answers than there are, and where it asks the host for something it has
/// read them all, so that the next answer is the answer to what it asks.
pub proof fn law_requests_follow_the_answers(
    e: ExpView,
    h: HelperView,
    answers: Seq<AnswerView>,
)
    ensures
        ({
            let r = eval_spec(e, h, answers, crate::eval::first_run(h));
            &&& r.run.cursor <= answers.len()
            &&& waits(r.result) ==> r.run.cursor == answers.len()
        }),
{
    lemma_eval(e, h, answers, Seq::empty(), crate::eval::first_run(h));
}

/// An evaluation that has come to its end does not change when the host gives
/// more answers: answers that are not read have no part in the outcome.
pub proof fn law_unread_answers_do_not_matter(
    e: ExpView,
    h: HelperView,
    answers: Seq<AnswerView>,
    more: Seq<AnswerView>,
)
    requires
        !waits(eval_spec(e, h, answers, crate::eval::first_run(h)).result),
    ensures
        eval_spec(e, h, answers + more, crate::eval::first_run(h)) == eval_spec(
            e,
            h,
            answers,
            crate::eval::first_run(h),
        ),
{
    lemma_eval(e, h, answers, more, crate::eval::first_run(h));
}

/// An evaluation in a well-formed environment leaves the known interfaces
/// well formed: each interface that it adds is well formed, and is that of a
/// canister of which none was known.
pub proof fn law_interfaces_stay_well_formed(
    e: ExpView,
    h: HelperView,
    answers: Seq<AnswerView>,
)
    requires
        crate::types::helper_wf(h),
    ensures
        cache_wf(eval_spec(e, h, answers, crate::eval::first_run(h)).run.cache),
{
    lemma_eval(e, h, answers, Seq::empty(), crate::eval::first_run(h));
}

} // verus!
