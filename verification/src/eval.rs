//! Evaluation of expressions.
//!
//! `eval_spec` says what an expression evaluates to, given the environment and
//! the answers that the host has given so far. The executable evaluator computes
//! exactly that.
use vstd::prelude::*;
use vstd::string::*;
use crate::batch::{
    batch_value, prepare, prepare_call, prepared_view, send_batch, Prepared, PreparedView,
};
use crate::builtin::{
    arguments_error, arith, arith_builtin, builtin_name, builtin_named, concat, concat_builtin,
    equality, equality_builtin, fail, fail_named, logic, logic_builtin, order, order_builtin,
    Builtin,
};
use crate::effects::{
    account, account_builtin, exec, exec_builtin, file, file_builtin, flamegraph,
    flamegraph_builtin, gzip, gzip_builtin, neuron_account, neuron_account_builtin, output,
    output_builtin, read_state, read_state_builtin, replica_url, replica_url_builtin, send,
    send_builtin, stringify, stringify_builtin, subaccount, subaccount_builtin, wasm_profiling,
    wasm_profiling_builtin,
};
use crate::error::{plain_error, Error, ErrorKind, ErrorView};
use crate::exp::{
    exps_view, field_exps_view, func_calls_view, Exp, ExpView, Field, FieldExpView, FuncCall,
    FuncCallView, SelectorView,
};
use crate::host::{
    answers_view, ask, asked, messages_view, protocol_error, protocol_failure, reached,
    request_unit, result_view, settled, stopped, transport_error, transport_failure, unit_request,
    Answer, AnswerView, Halt, HaltView, Message, MessageView, Request, RequestView, Run, RunView,
    Stage,
};
use crate::invoke::{call_value, decode, decode_value, invoke};
use crate::number::{count_text, nat_text, ArithOp, OrderOp};
use crate::record::{make_record, record_of};
use crate::select::{project, project_value};
use crate::text::{text_copy, text_join, texts_view};
use crate::types::{
    distinct_names, names_are_distinct,
    bindings_view, cache_copy, cache_view, env_find, find_func, func_find, lookup, Binding,
    BindingView, CacheEntry, CacheEntryView, Helper, HelperView,
};
use crate::value::{fields_view, values_view, FieldView, Value, ValueField, ValueView};

verus! {

pub open spec fn list_result_view(r: Result<Vec<Value>, Halt>) -> Result<Seq<ValueView>, HaltView> {
    match r {
        Ok(v) => Ok(values_view(v@)),
        Err(h) => Err(h@),
    }
}

pub open spec fn fields_result_view(r: Result<Vec<ValueField>, Halt>) -> Result<
    Seq<FieldView>,
    HaltView,
> {
    match r {
        Ok(v) => Ok(fields_view(v@)),
        Err(h) => Err(h@),
    }
}

pub open spec fn undefined_error(name: Seq<char>) -> ErrorView {
    plain_error(ErrorKind::Resolution, "Undefined variable "@ + name)
}

/// A variable and a projection from it.
pub open spec fn path_value(env: Seq<BindingView>, name: Seq<char>, path: Seq<SelectorView>)
    -> Result<ValueView, ErrorView> {
    match lookup(env, name) {
        Some(v) => project(v, path),
        None => Err(undefined_error(name)),
    }
}

/// The error for a value that cannot be converted to a type; it wraps what the
/// conversion said.
pub open spec fn cast_error(ty: Seq<char>, cause: Seq<char>) -> ErrorView {
    ErrorView {
        kind: ErrorKind::Semantic,
        message: "casting to type "@ + ty + " fails"@,
        cause: Some(cause),
    }
}

pub open spec fn cast_answer(a: AnswerView, ty: Seq<char>) -> Result<ValueView, HaltView> {
    match a {
        AnswerView::Value(v) => Ok(v),
        AnswerView::Failed(m) => Err(HaltView::Failed(cast_error(ty, m))),
        _ => Err(HaltView::Failed(protocol_error())),
    }
}

/// A value converted to a declared type: the host converts, and where it cannot
/// the error names the type.
pub open spec fn cast_value(v: ValueView, ty: Seq<char>, answers: Seq<AnswerView>, run: RunView)
    -> Stage<ValueView> {
    match asked(answers, run, RequestView::Cast { value: v, ty }) {
        Ok((a, next)) => Stage { result: cast_answer(a, ty), run: next },
        Err(h) => Stage { result: Err(h), run },
    }
}

pub open spec fn expectation_error() -> ErrorView {
    plain_error(ErrorKind::Expectation, "Expects an error state"@)
}

pub open spec fn unknown_function_error(func: Seq<char>) -> ErrorView {
    plain_error(ErrorKind::Resolution, "Unknown function "@ + func)
}

/// The error for a function that is applied to the wrong number of arguments: it
/// names the function, the number it expects and the number it was given.
pub open spec fn arity_error(func: Seq<char>, expected: nat, provided: nat) -> ErrorView {
    plain_error(
        ErrorKind::Arguments,
        func + " expects "@ + nat_text(expected) + " arguments, but "@ + nat_text(provided)
            + " is provided"@,
    )
}

/// The parameters bound to the arguments, in order.
pub open spec fn bound(params: Seq<Seq<char>>, args: Seq<ValueView>) -> Seq<BindingView> {
    Seq::new(params.len(), |i: int| BindingView { name: params[i], value: args[i] })
}

/// What a function hands back: what its scope binds to `_` when its body has
/// run, or null where it binds nothing to it. A scope that binds a variable
/// twice is no answer.
pub open spec fn scope_answer(a: AnswerView) -> Result<ValueView, HaltView> {
    match a {
        AnswerView::Scope(s) => if distinct_names(s) {
            match lookup(s, "_"@) {
                Some(v) => Ok(v),
                None => Ok(ValueView::Null),
            }
        } else {
            Err(HaltView::Failed(protocol_error()))
        },
        AnswerView::Failed(m) => Err(HaltView::Failed(transport_error(m))),
        _ => Err(HaltView::Failed(protocol_error())),
    }
}

/// A function that a script has defined, applied to values. It takes as many
/// arguments as it has parameters. Its body runs in a scope of its own that
/// binds each parameter to the argument in its place.
pub open spec fn apply_func_spec(
    h: HelperView,
    func: Seq<char>,
    args: Seq<ValueView>,
    answers: Seq<AnswerView>,
    run: RunView,
) -> Stage<ValueView> {
    match find_func(h.func_env, func) {
        None => stopped(unknown_function_error(func), run),
        Some(params) => if params.len() != args.len() {
            stopped(arity_error(func, params.len(), args.len()), run)
        } else {
            match asked(
                answers,
                run,
                RequestView::RunFunction { name: func, scope: bound(params, args) },
            ) {
                Ok((a, next)) => Stage { result: scope_answer(a), run: next },
                Err(h) => Stage { result: Err(h), run },
            }
        },
    }
}

/// A builtin that takes evaluated arguments, applied to them. In offline mode
/// `read_state` and `send` are no builtins, and the name is looked up among the
/// functions that scripts have defined, as is the name of a builtin that takes
/// expressions.
pub open spec fn apply_builtin(
    b: Builtin,
    args: Seq<ValueView>,
    h: HelperView,
    answers: Seq<AnswerView>,
    run: RunView,
) -> Stage<ValueView> {
    match b {
        Builtin::Concat => settled(concat_builtin(args), run),
        Builtin::Eq => equality_builtin(b, args, answers, run),
        Builtin::Neq => equality_builtin(b, args, answers, run),
        Builtin::And => settled(logic_builtin(b, args), run),
        Builtin::Or => settled(logic_builtin(b, args), run),
        Builtin::Not => settled(logic_builtin(b, args), run),
        Builtin::Lt => order_builtin(b, OrderOp::Lt, args, answers, run),
        Builtin::Lte => order_builtin(b, OrderOp::Lte, args, answers, run),
        Builtin::Gt => order_builtin(b, OrderOp::Gt, args, answers, run),
        Builtin::Gte => order_builtin(b, OrderOp::Gte, args, answers, run),
        Builtin::Add => arith_builtin(b, ArithOp::Add, args, answers, run),
        Builtin::Sub => arith_builtin(b, ArithOp::Sub, args, answers, run),
        Builtin::Mul => arith_builtin(b, ArithOp::Mul, args, answers, run),
        Builtin::Div => arith_builtin(b, ArithOp::Div, args, answers, run),
        Builtin::Account => account_builtin(args, answers, run),
        Builtin::Subaccount => subaccount_builtin(args, answers, run),
        Builtin::NeuronAccount => neuron_account_builtin(args, answers, run),
        Builtin::ReplicaUrl => replica_url_builtin(args, h, run),
        Builtin::ReadState => if h.offline {
            apply_func_spec(h, builtin_name(b), args, answers, run)
        } else {
            read_state_builtin(args, answers, run)
        },
        Builtin::File => file_builtin(args, answers, run),
        Builtin::Gzip => gzip_builtin(args, answers, run),
        Builtin::Exec => exec_builtin(args, answers, run),
        Builtin::Send => if h.offline {
            apply_func_spec(h, builtin_name(b), args, answers, run)
        } else {
            send_builtin(args, answers, run)
        },
        Builtin::WasmProfiling => wasm_profiling_builtin(args, answers, run),
        Builtin::Flamegraph => flamegraph_builtin(args, answers, run),
        Builtin::Output => output_builtin(args, answers, run),
        Builtin::Stringify => stringify_builtin(args, answers, run),
        _ => apply_func_spec(h, builtin_name(b), args, answers, run),
    }
}

/// A function applied to values: a builtin where the name is one, else a
/// function that a script has defined.
pub open spec fn apply_values(
    func: Seq<char>,
    args: Seq<ValueView>,
    h: HelperView,
    answers: Seq<AnswerView>,
    run: RunView,
) -> Stage<ValueView> {
    match builtin_named(func) {
        Some(b) => apply_builtin(b, args, h, answers, run),
        None => apply_func_spec(h, func, args, answers, run),
    }
}

pub open spec fn ite_shape_error() -> ErrorView {
    arguments_error("ite expects a bool, true branch and false branch"@)
}

pub open spec fn ite_condition_error() -> ErrorView {
    arguments_error("ite expects the first argument to be a boolean expression"@)
}

pub open spec fn exist_shape_error() -> ErrorView {
    arguments_error("exist expects an expression"@)
}

/// What an expression evaluates to in an environment, given the answers of the
/// host so far, from a run; and the run after it.
pub open spec fn eval_spec(e: ExpView, h: HelperView, answers: Seq<AnswerView>, run: RunView)
    -> Stage<ValueView>
    decreases e, 0nat,
{
    match e {
        ExpView::Path(name, path) => settled(path_value(h.env, name, path), run),
        ExpView::AnnVal(x, ty) => {
            let inner = eval_spec(*x, h, answers, run);
            match inner.result {
                Ok(v) => cast_value(v, ty, answers, inner.run),
                Err(_) => inner,
            }
        },
        ExpView::Fail(x) => {
            let inner = eval_spec(*x, h, answers, run);
            match inner.result {
                Ok(_) => stopped(expectation_error(), inner.run),
                Err(HaltView::Failed(err)) => reached(ValueView::Text(err.message), inner.run),
                Err(HaltView::Pending(_)) => inner,
            }
        },
        ExpView::Apply(func, exps) => eval_apply(func, exps, h, answers, run),
        ExpView::Decode { method, blob } => {
            let inner = eval_spec(*blob, h, answers, run);
            match inner.result {
                Ok(v) => decode_value(method, v, h, answers, inner.run),
                Err(_) => inner,
            }
        },
        ExpView::ParCall { calls } => {
            let ready = eval_calls(calls, calls.len(), h, answers, run);
            match ready.result {
                Ok(prepared) => batch_value(prepared, answers, ready.run),
                Err(x) => Stage { result: Err(x), run: ready.run },
            }
        },
        ExpView::Call { method, args, mode } => match args {
            Some(es) => {
                let list = eval_list(es, es.len(), h, answers, run);
                match list.result {
                    Ok(vs) => call_value(method, Some(vs), mode, h, answers, list.run),
                    Err(x) => Stage { result: Err(x), run: list.run },
                }
            },
            None => call_value(method, None, mode, h, answers, run),
        },
        ExpView::Bool(b) => reached(ValueView::Bool(b), run),
        ExpView::Null => reached(ValueView::Null, run),
        ExpView::Text(s) => reached(ValueView::Text(s), run),
        ExpView::Number(s) => reached(ValueView::Number(s), run),
        ExpView::Float64(b) => reached(ValueView::Float64(b), run),
        ExpView::Principal(p) => reached(ValueView::Principal(p), run),
        ExpView::Service(p) => reached(ValueView::Service(p), run),
        ExpView::Func(p, m) => reached(ValueView::Func(p, m), run),
        ExpView::Blob(b) => reached(ValueView::Blob(b), run),
        ExpView::Opt(x) => {
            let inner = eval_spec(*x, h, answers, run);
            match inner.result {
                Ok(v) => reached(ValueView::Opt(Box::new(v)), inner.run),
                Err(_) => inner,
            }
        },
        ExpView::Vec(es) => {
            let list = eval_list(es, es.len(), h, answers, run);
            match list.result {
                Ok(vs) => reached(ValueView::Vec(vs), list.run),
                Err(x) => Stage { result: Err(x), run: list.run },
            }
        },
        ExpView::Record(fs) => {
            let list = eval_fields(fs, fs.len(), h, answers, run);
            match list.result {
                Ok(vs) => settled(record_of(vs), list.run),
                Err(x) => Stage { result: Err(x), run: list.run },
            }
        },
        ExpView::Variant(f, idx) => {
            let inner = eval_spec(f.val, h, answers, run);
            match inner.result {
                Ok(v) => reached(
                    ValueView::Variant(Box::new(FieldView { id: f.id, val: v }), idx),
                    inner.run,
                ),
                Err(_) => inner,
            }
        },
    }
}

/// The first `n` expressions of a list, evaluated from the left; evaluation
/// stops at the first that does not give a value.
pub open spec fn eval_list(
    es: Seq<ExpView>,
    n: nat,
    h: HelperView,
    answers: Seq<AnswerView>,
    run: RunView,
) -> Stage<Seq<ValueView>>
    decreases es, n,
{
    if n == 0 || n > es.len() {
        Stage { result: Ok(Seq::empty()), run }
    } else {
        let head = eval_list(es, (n - 1) as nat, h, answers, run);
        match head.result {
            Err(_) => head,
            Ok(vs) => {
                let e = eval_spec(es[n - 1], h, answers, head.run);
                match e.result {
                    Ok(v) => Stage { result: Ok(vs.push(v)), run: e.run },
                    Err(x) => Stage { result: Err(x), run: e.run },
                }
            },
        }
    }
}

/// The first `n` fields of a record expression, evaluated from the left.
pub open spec fn eval_fields(
    fs: Seq<FieldExpView>,
    n: nat,
    h: HelperView,
    answers: Seq<AnswerView>,
    run: RunView,
) -> Stage<Seq<FieldView>>
    decreases fs, n,
{
    if n == 0 || n > fs.len() {
        Stage { result: Ok(Seq::empty()), run }
    } else {
        let head = eval_fields(fs, (n - 1) as nat, h, answers, run);
        match head.result {
            Err(_) => head,
            Ok(vs) => {
                let e = eval_spec(fs[n - 1].val, h, answers, head.run);
                match e.result {
                    Ok(v) => Stage {
                        result: Ok(vs.push(FieldView { id: fs[n - 1].id, val: v })),
                        run: e.run,
                    },
                    Err(x) => Stage { result: Err(x), run: e.run },
                }
            },
        }
    }
}

/// The first `n` calls of a batch, made ready from the left: the arguments of a
/// call are evaluated, then the call is resolved, encoded and routed.
pub open spec fn eval_calls(
    calls: Seq<FuncCallView>,
    n: nat,
    h: HelperView,
    answers: Seq<AnswerView>,
    run: RunView,
) -> Stage<Seq<PreparedView>>
    decreases calls, n,
{
    if n == 0 || n > calls.len() {
        Stage { result: Ok(Seq::empty()), run }
    } else {
        let head = eval_calls(calls, (n - 1) as nat, h, answers, run);
        match head.result {
            Err(_) => head,
            Ok(ps) => {
                let c = calls[n - 1];
                let list = eval_list(c.args, c.args.len(), h, answers, head.run);
                match list.result {
                    Err(x) => Stage { result: Err(x), run: list.run },
                    Ok(vs) => {
                        let p = prepare_call(c.method, vs, h, answers, list.run);
                        match p.result {
                            Ok(x) => Stage { result: Ok(ps.push(x)), run: p.run },
                            Err(x) => Stage { result: Err(x), run: p.run },
                        }
                    },
                }
            },
        }
    }
}

pub open spec fn export_shape_error() -> ErrorView {
    arguments_error("export expects at least two arguments"@)
}

pub open spec fn export_path_error() -> ErrorView {
    arguments_error("export expects first argument to be a file path"@)
}

pub open spec fn export_variables_error() -> ErrorView {
    arguments_error("export expects variables"@)
}

/// The variables that `export` writes, up to the `n`th argument: each argument
/// after the first is a variable, and is bound to the value that it evaluates
/// to.
pub open spec fn eval_exports(
    exps: Seq<ExpView>,
    n: nat,
    h: HelperView,
    answers: Seq<AnswerView>,
    run: RunView,
) -> Stage<Seq<BindingView>>
    decreases exps, n,
{
    if n <= 1 || n > exps.len() {
        Stage { result: Ok(Seq::empty()), run }
    } else {
        let head = eval_exports(exps, (n - 1) as nat, h, answers, run);
        match head.result {
            Err(_) => head,
            Ok(bs) => match exps[n - 1] {
                ExpView::Path(name, _) => {
                    let e = eval_spec(exps[n - 1], h, answers, head.run);
                    match e.result {
                        Ok(v) => Stage {
                            result: Ok(bs.push(BindingView { name, value: v })),
                            run: e.run,
                        },
                        Err(x) => Stage { result: Err(x), run: e.run },
                    }
                },
                _ => Stage {
                    result: Err(HaltView::Failed(export_variables_error())),
                    run: head.run,
                },
            },
        }
    }
}

/// A function applied to expressions. `ite`, `exist` and `export` look at
/// expressions that are not evaluated yet: `ite` evaluates its condition and
/// one branch, `exist` tells whether its argument evaluates, and `export` takes
/// a path and variables. For every other function the arguments are evaluated
/// from the left, and the function is applied to the values.
pub open spec fn eval_apply(
    func: Seq<char>,
    exps: Seq<ExpView>,
    h: HelperView,
    answers: Seq<AnswerView>,
    run: RunView,
) -> Stage<ValueView>
    decreases exps, exps.len() + 1,
{
    match builtin_named(func) {
        Some(Builtin::Ite) => if exps.len() != 3 {
            stopped(ite_shape_error(), run)
        } else {
            let c = eval_spec(exps[0], h, answers, run);
            match c.result {
                Ok(ValueView::Bool(true)) => eval_spec(exps[1], h, answers, c.run),
                Ok(ValueView::Bool(false)) => eval_spec(exps[2], h, answers, c.run),
                Ok(_) => stopped(ite_condition_error(), c.run),
                Err(_) => c,
            }
        },
        Some(Builtin::Exist) => if exps.len() != 1 {
            stopped(exist_shape_error(), run)
        } else {
            let inner = eval_spec(exps[0], h, answers, run);
            match inner.result {
                Ok(_) => reached(ValueView::Bool(true), inner.run),
                Err(HaltView::Failed(_)) => reached(ValueView::Bool(false), inner.run),
                Err(HaltView::Pending(_)) => inner,
            }
        },
        Some(Builtin::Export) => if exps.len() <= 1 {
            stopped(export_shape_error(), run)
        } else {
            let p = eval_spec(exps[0], h, answers, run);
            match p.result {
                Ok(ValueView::Text(path)) => {
                    let vars = eval_exports(exps, exps.len(), h, answers, p.run);
                    match vars.result {
                        Ok(bindings) => unit_request(
                            answers,
                            vars.run,
                            RequestView::Export { path, bindings },
                            ValueView::Null,
                        ),
                        Err(x) => Stage { result: Err(x), run: vars.run },
                    }
                },
                Ok(_) => stopped(export_path_error(), p.run),
                Err(_) => p,
            }
        },
        _ => {
            let list = eval_list(exps, exps.len(), h, answers, run);
            match list.result {
                Ok(args) => apply_values(func, args, h, answers, list.run),
                Err(x) => Stage { result: Err(x), run: list.run },
            }
        },
    }
}

/// An application evaluates as `eval_apply` says.
pub proof fn lemma_eval_application(
    func: Seq<char>,
    exps: Seq<ExpView>,
    h: HelperView,
    answers: Seq<AnswerView>,
    run: RunView,
)
    ensures
        eval_spec(ExpView::Apply(func, exps), h, answers, run) == eval_apply(
            func,
            exps,
            h,
            answers,
            run,
        ),
{
}

/// How `ite` evaluates, on three expressions.
pub proof fn lemma_eval_ite(
    exps: Seq<ExpView>,
    h: HelperView,
    answers: Seq<AnswerView>,
    run: RunView,
)
    requires
        exps.len() == 3,
    ensures
        eval_apply("ite"@, exps, h, answers, run) == ({
            let c = eval_spec(exps[0], h, answers, run);
            match c.result {
                Ok(ValueView::Bool(true)) => eval_spec(exps[1], h, answers, c.run),
                Ok(ValueView::Bool(false)) => eval_spec(exps[2], h, answers, c.run),
                Ok(_) => stopped(ite_condition_error(), c.run),
                Err(_) => c,
            }
        }),
{
    crate::builtin::lemma_builtin_found(Builtin::Ite);
}

/// How `exist` evaluates, on one expression.
pub proof fn lemma_eval_exist(
    exps: Seq<ExpView>,
    h: HelperView,
    answers: Seq<AnswerView>,
    run: RunView,
)
    requires
        exps.len() == 1,
    ensures
        eval_apply("exist"@, exps, h, answers, run) == ({
            let inner = eval_spec(exps[0], h, answers, run);
            match inner.result {
                Ok(_) => reached(ValueView::Bool(true), inner.run),
                Err(HaltView::Failed(_)) => reached(ValueView::Bool(false), inner.run),
                Err(HaltView::Pending(_)) => inner,
            }
        }),
{
    crate::builtin::lemma_builtin_found(Builtin::Exist);
}

/// How a function other than `ite`, `exist` and `export` evaluates: on the
/// values of its arguments.
pub proof fn lemma_eval_eager(
    func: Seq<char>,
    exps: Seq<ExpView>,
    h: HelperView,
    answers: Seq<AnswerView>,
    run: RunView,
)
    requires
        builtin_named(func) != Some(Builtin::Ite),
        builtin_named(func) != Some(Builtin::Exist),
        builtin_named(func) != Some(Builtin::Export),
    ensures
        eval_apply(func, exps, h, answers, run) == ({
            let list = eval_list(exps, exps.len(), h, answers, run);
            match list.result {
                Ok(args) => apply_values(func, args, h, answers, list.run),
                Err(x) => Stage { result: Err(x), run: list.run },
            }
        }),
{
}

/// A list of two expressions evaluates from the left: the first, then the
/// second from the run that the first has left, and it stops at the first that
/// gives no value.
pub proof fn lemma_eval_pair(
    a: ExpView,
    b: ExpView,
    h: HelperView,
    answers: Seq<AnswerView>,
    run: RunView,
)
    ensures
        eval_list(seq![a, b], 2, h, answers, run) == ({
            let first = eval_spec(a, h, answers, run);
            match first.result {
                Err(x) => Stage::<Seq<ValueView>> { result: Err(x), run: first.run },
                Ok(v) => {
                    let second = eval_spec(b, h, answers, first.run);
                    match second.result {
                        Err(x) => Stage { result: Err(x), run: second.run },
                        Ok(w) => Stage { result: Ok(seq![v, w]), run: second.run },
                    }
                },
            }
        }),
{
    let es = seq![a, b];
    assert(es[0] == a && es[1] == b && es.len() == 2);
    lemma_list_step(es, 1, h, answers, run);
    lemma_list_step(es, 2, h, answers, run);
    let first = eval_spec(a, h, answers, run);
    if first.result is Ok {
        let v = first.result->Ok_0;
        assert(Seq::<ValueView>::empty().push(v) =~= seq![v]);
        let second = eval_spec(b, h, answers, first.run);
        if second.result is Ok {
            assert(seq![v].push(second.result->Ok_0) =~= seq![v, second.result->Ok_0]);
        }
    }
}

/// One more expression of a list, evaluated.
proof fn lemma_list_step(
    es: Seq<ExpView>,
    n: nat,
    h: HelperView,
    answers: Seq<AnswerView>,
    run: RunView,
)
    requires
        0 < n <= es.len(),
    ensures
        eval_list(es, n, h, answers, run) == ({
            let head = eval_list(es, (n - 1) as nat, h, answers, run);
            match head.result {
                Err(_) => head,
                Ok(vs) => {
                    let e = eval_spec(es[n - 1], h, answers, head.run);
                    match e.result {
                        Ok(v) => Stage { result: Ok(vs.push(v)), run: e.run },
                        Err(x) => Stage { result: Err(x), run: e.run },
                    }
                },
            }
        }),
        eval_list(es, 0, h, answers, run) == (Stage::<Seq<ValueView>> {
            result: Ok(Seq::empty()),
            run,
        }),
{
}

proof fn lemma_list_stops(
    es: Seq<ExpView>,
    k: nat,
    n: nat,
    h: HelperView,
    answers: Seq<AnswerView>,
    run: RunView,
)
    requires
        k <= n <= es.len(),
        eval_list(es, k, h, answers, run).result is Err,
    ensures
        eval_list(es, n, h, answers, run) == eval_list(es, k, h, answers, run),
    decreases n,
{
    if n > k {
        lemma_list_stops(es, k, (n - 1) as nat, h, answers, run);
    }
}

proof fn lemma_fields_stop(
    fs: Seq<FieldExpView>,
    k: nat,
    n: nat,
    h: HelperView,
    answers: Seq<AnswerView>,
    run: RunView,
)
    requires
        k <= n <= fs.len(),
        eval_fields(fs, k, h, answers, run).result is Err,
    ensures
        eval_fields(fs, n, h, answers, run) == eval_fields(fs, k, h, answers, run),
    decreases n,
{
    if n > k {
        lemma_fields_stop(fs, k, (n - 1) as nat, h, answers, run);
    }
}

fn cast(v: Value, ty: &str, answers: &Vec<Answer>, run: &mut Run) -> (r: Result<Value, Halt>)
    ensures
        result_view(r) == cast_value(v@, ty@, answers_view(answers@), old(run)@).result,
        final(run)@ == cast_value(v@, ty@, answers_view(answers@), old(run)@).run,
{
    match ask(answers, run, Request::Cast { value: v, ty: text_copy(ty) })? {
        Answer::Value(x) => Ok(x.duplicate()),
        Answer::Failed(m) => {
            let head = text_join("casting to type ", ty);
            Err(
                Halt::Failed(
                    Error {
                        kind: ErrorKind::Semantic,
                        message: text_join(head.as_str(), " fails"),
                        cause: Some(text_copy(m.as_str())),
                    },
                ),
            )
        },
        _ => Err(protocol_failure()),
    }
}

fn bind(params: &Vec<String>, args: &Vec<Value>) -> (r: Vec<Binding>)
    requires
        params.len() == args.len(),
    ensures
        bindings_view(r@) == bound(texts_view(params@), values_view(args@)),
{
    let mut r: Vec<Binding> = Vec::new();
    let mut i: usize = 0;
    while i < params.len()
        invariant
            i <= params.len(),
            params.len() == args.len(),
            r@.len() == i,
            forall|k: int|
                0 <= k < i ==> r@[k]@ == (BindingView { name: params@[k]@, value: args@[k]@ }),
        decreases params.len() - i,
    {
        r.push(Binding { name: text_copy(params[i].as_str()), value: args[i].duplicate() });
        i += 1;
    }
    assert(bindings_view(r@) =~= bound(texts_view(params@), values_view(args@)));
    r
}

fn arity_failure(func: &str, expected: usize, provided: usize) -> (r: Halt)
    ensures
        r@ == HaltView::Failed(arity_error(func@, expected as nat, provided as nat)),
{
    let a = count_text(expected);
    let b = count_text(provided);
    let m = text_join(func, " expects ");
    let m = text_join(m.as_str(), a.as_str());
    let m = text_join(m.as_str(), " arguments, but ");
    let m = text_join(m.as_str(), b.as_str());
    let m = text_join(m.as_str(), " is provided");
    Halt::Failed(Error { kind: ErrorKind::Arguments, message: m, cause: None })
}

/// Applies a function that a script has defined. Where the name is not that of
/// a function, or the number of arguments is not that of its parameters, the
/// error says so. Else the host is asked to run the body in a scope that binds
/// the parameters to the arguments, and the result is what that scope binds to
/// `_` afterwards, or null.
pub fn apply_func(
    helper: &Helper,
    func: &str,
    args: Vec<Value>,
    answers: &Vec<Answer>,
    run: &mut Run,
) -> (r: Result<Value, Halt>)
    requires
        helper.wf(),
    ensures
        result_view(r) == apply_func_spec(
            helper@,
            func@,
            values_view(args@),
            answers_view(answers@),
            old(run)@,
        ).result,
        final(run)@ == apply_func_spec(
            helper@,
            func@,
            values_view(args@),
            answers_view(answers@),
            old(run)@,
        ).run,
        crate::types::cache_wf(old(run)@.cache) ==> crate::types::cache_wf(final(run)@.cache),
{
    proof {
        crate::replay::lemma_apply_func(
            helper@,
            func@,
            values_view(args@),
            answers_view(answers@),
            Seq::empty(),
            run@,
        );
    }
    match func_find(&helper.func_env, func) {
        None => Err(fail_named(ErrorKind::Resolution, "Unknown function ", func)),
        Some(params) => {
            if params.len() != args.len() {
                return Err(arity_failure(func, params.len(), args.len()));
            }
            let scope = bind(params, &args);
            match ask(answers, run, Request::RunFunction { name: text_copy(func), scope })? {
                Answer::Scope(s) => {
                    if !names_are_distinct(s) {
                        return Err(protocol_failure());
                    }
                    match env_find(s, "_") {
                        Some(v) => Ok(v.duplicate()),
                        None => Ok(Value::Null),
                    }
                },
                Answer::Failed(m) => Err(transport_failure(m.as_str())),
                _ => Err(protocol_failure()),
            }
        },
    }
}

fn lift(r: Result<Value, Error>) -> (x: Result<Value, Halt>)
    ensures
        x matches Ok(v) ==> r matches Ok(w) && v@ == w@,
        x matches Err(h) ==> r matches Err(e) && h@ == HaltView::Failed(e@),
{
    match r {
        Ok(v) => Ok(v),
        Err(e) => Err(Halt::Failed(e)),
    }
}

fn apply_builtin_to(
    b: Builtin,
    args: Vec<Value>,
    h: &Helper,
    answers: &Vec<Answer>,
    run: &mut Run,
) -> (r: Result<Value, Halt>)
    requires
        h.wf(),
    ensures
        result_view(r) == apply_builtin(
            b,
            values_view(args@),
            h@,
            answers_view(answers@),
            old(run)@,
        ).result,
        final(run)@ == apply_builtin(
            b,
            values_view(args@),
            h@,
            answers_view(answers@),
            old(run)@,
        ).run,
{
    match b {
        Builtin::Concat => lift(concat(&args)),
        Builtin::Eq => equality(b, &args, answers, run),
        Builtin::Neq => equality(b, &args, answers, run),
        Builtin::And => lift(logic(b, &args)),
        Builtin::Or => lift(logic(b, &args)),
        Builtin::Not => lift(logic(b, &args)),
        Builtin::Lt => order(b, OrderOp::Lt, &args, answers, run),
        Builtin::Lte => order(b, OrderOp::Lte, &args, answers, run),
        Builtin::Gt => order(b, OrderOp::Gt, &args, answers, run),
        Builtin::Gte => order(b, OrderOp::Gte, &args, answers, run),
        Builtin::Add => arith(b, ArithOp::Add, &args, answers, run),
        Builtin::Sub => arith(b, ArithOp::Sub, &args, answers, run),
        Builtin::Mul => arith(b, ArithOp::Mul, &args, answers, run),
        Builtin::Div => arith(b, ArithOp::Div, &args, answers, run),
        Builtin::Account => account(&args, answers, run),
        Builtin::Subaccount => subaccount(&args, answers, run),
        Builtin::NeuronAccount => neuron_account(&args, answers, run),
        Builtin::ReplicaUrl => replica_url(&args, h),
        Builtin::ReadState => {
            if h.offline {
                apply_func(h, b.name(), args, answers, run)
            } else {
                read_state(&args, answers, run)
            }
        },
        Builtin::File => file(&args, answers, run),
        Builtin::Gzip => gzip(&args, answers, run),
        Builtin::Exec => exec(&args, answers, run),
        Builtin::Send => {
            if h.offline {
                apply_func(h, b.name(), args, answers, run)
            } else {
                send(&args, answers, run)
            }
        },
        Builtin::WasmProfiling => wasm_profiling(&args, answers, run),
        Builtin::Flamegraph => flamegraph(&args, answers, run),
        Builtin::Output => output(&args, answers, run),
        Builtin::Stringify => stringify(&args, answers, run),
        _ => apply_func(h, b.name(), args, answers, run),
    }
}

fn apply_to_values(
    func: &str,
    args: Vec<Value>,
    h: &Helper,
    answers: &Vec<Answer>,
    run: &mut Run,
) -> (r: Result<Value, Halt>)
    requires
        h.wf(),
    ensures
        result_view(r) == apply_values(
            func@,
            values_view(args@),
            h@,
            answers_view(answers@),
            old(run)@,
        ).result,
        final(run)@ == apply_values(
            func@,
            values_view(args@),
            h@,
            answers_view(answers@),
            old(run)@,
        ).run,
{
    match Builtin::from_name(func) {
        Some(b) => apply_builtin_to(b, args, h, answers, run),
        None => apply_func(h, func, args, answers, run),
    }
}

impl Exp {
    /// Evaluates this expression from a run that is under way.
    pub fn eval_in(&self, h: &Helper, answers: &Vec<Answer>, run: &mut Run) -> (r: Result<
        Value,
        Halt,
    >)
        requires
            h.wf(),
        ensures
            result_view(r) == eval_spec(self@, h@, answers_view(answers@), old(run)@).result,
            final(run)@ == eval_spec(self@, h@, answers_view(answers@), old(run)@).run,
            crate::types::cache_wf(old(run)@.cache) ==> crate::types::cache_wf(final(run)@.cache),
        decreases self, 0nat,
    {
        proof {
            crate::replay::lemma_eval(self@, h@, answers_view(answers@), Seq::empty(), run@);
        }
        match self {
            Exp::Path(name, path) => match env_find(&h.env, name.as_str()) {
                Some(v) => lift(project_value(v, path)),
                None => Err(fail_named(ErrorKind::Resolution, "Undefined variable ", name.as_str())),
            },
            Exp::AnnVal(x, ty) => {
                let v = x.eval_in(h, answers, run)?;
                cast(v, ty.as_str(), answers, run)
            },
            Exp::Fail(x) => match x.eval_in(h, answers, run) {
                Ok(_) => Err(fail(ErrorKind::Expectation, "Expects an error state")),
                Err(Halt::Failed(err)) => Ok(Value::Text(err.message)),
                Err(Halt::Pending(req)) => Err(Halt::Pending(req)),
            },
            Exp::Apply(func, exps) => {
                proof {
                    crate::exp::lemma_exps_model(*exps);
                }
                eval_apply_in(func.as_str(), exps, h, answers, run)
            },
            Exp::Bool(b) => Ok(Value::Bool(*b)),
            Exp::Null => Ok(Value::Null),
            Exp::Text(s) => Ok(Value::Text(text_copy(s.as_str()))),
            Exp::Number(s) => Ok(Value::Number(text_copy(s.as_str()))),
            Exp::Float64(b) => Ok(Value::Float64(*b)),
            Exp::Principal(p) => Ok(Value::Principal(p.clone())),
            Exp::Service(p) => Ok(Value::Service(p.clone())),
            Exp::Func(p, m) => Ok(Value::Func(p.clone(), text_copy(m.as_str()))),
            Exp::Blob(b) => Ok(Value::Blob(crate::text::bytes_copy(b))),
            Exp::Opt(x) => {
                let v = x.eval_in(h, answers, run)?;
                Ok(Value::Opt(Box::new(v)))
            },
            Exp::Vec(es) => {
                proof {
                    crate::exp::lemma_exps_model(*es);
                }
                let vs = eval_list_in(es, h, answers, run)?;
                proof {
                    crate::value::lemma_vec_view(vs);
                }
                Ok(Value::Vec(vs))
            },
            Exp::Record(fs) => {
                proof {
                    crate::exp::lemma_record_exp_view(*fs);
                }
                let vs = eval_fields_in(fs, h, answers, run)?;
                lift(make_record(&vs))
            },
            Exp::Variant(f, idx) => {
                let v = f.val.eval_in(h, answers, run)?;
                Ok(Value::Variant(Box::new(ValueField { id: f.id.clone(), val: v }), *idx))
            },
            Exp::Decode { method, blob } => {
                let v = blob.eval_in(h, answers, run)?;
                decode(method, &v, h, answers, run)
            },
            Exp::ParCall { calls } => {
                proof {
                    crate::exp::lemma_par_call_view(*calls);
                }
                let prepared = eval_calls_in(calls, h, answers, run)?;
                send_batch(&prepared, answers, run)
            },
            Exp::Call { method, args, mode } => match args {
                Some(es) => {
                    proof {
                        crate::exp::lemma_exps_model(*es);
                    }
                    let vs = eval_list_in(es, h, answers, run)?;
                    invoke(method, Some(vs), mode, h, answers, run)
                },
                None => invoke(method, None, mode, h, answers, run),
            },
        }
    }
}

/// Evaluates a list of expressions from the left.
pub fn eval_list_in(es: &Vec<Exp>, h: &Helper, answers: &Vec<Answer>, run: &mut Run) -> (r:
    Result<Vec<Value>, Halt>)
    requires
        h.wf(),
    ensures
        list_result_view(r) == eval_list(
            exps_view(es@),
            es@.len(),
            h@,
            answers_view(answers@),
            old(run)@,
        ).result,
        final(run)@ == eval_list(
            exps_view(es@),
            es@.len(),
            h@,
            answers_view(answers@),
            old(run)@,
        ).run,
    decreases es, es@.len(),
{
    let ghost start = run@;
    let ghost esv = exps_view(es@);
    let ghost hv = h@;
    let ghost av = answers_view(answers@);
    let mut vals: Vec<Value> = Vec::new();
    let mut i: usize = 0;
    assert(values_view(vals@) =~= Seq::empty());
    while i < es.len()
        invariant
            i <= es.len(),
            esv == exps_view(es@),
            hv == h@,
            h.wf(),
            av == answers_view(answers@),
            start == old(run)@,
            eval_list(esv, i as nat, hv, av, start).result == Ok::<Seq<ValueView>, HaltView>(
                values_view(vals@),
            ),
            eval_list(esv, i as nat, hv, av, start).run == run@,
        decreases es.len() - i,
    {
        assert(esv[i as int] == es@[i as int]@);
        match es[i].eval_in(h, answers, run) {
            Ok(v) => {
                proof {
                    crate::value::lemma_values_view_push(vals@, v);
                }
                vals.push(v);
            },
            Err(x) => {
                proof {
                    lemma_list_stops(esv, (i + 1) as nat, es@.len(), hv, av, start);
                }
                return Err(x);
            },
        }
        i += 1;
    }
    Ok(vals)
}

/// Evaluates the fields of a record expression from the left.
pub fn eval_fields_in(fs: &Vec<Field>, h: &Helper, answers: &Vec<Answer>, run: &mut Run) -> (r:
    Result<Vec<ValueField>, Halt>)
    requires
        h.wf(),
    ensures
        fields_result_view(r) == eval_fields(
            field_exps_view(fs@),
            fs@.len(),
            h@,
            answers_view(answers@),
            old(run)@,
        ).result,
        final(run)@ == eval_fields(
            field_exps_view(fs@),
            fs@.len(),
            h@,
            answers_view(answers@),
            old(run)@,
        ).run,
    decreases fs, fs@.len(),
{
    let ghost start = run@;
    let ghost fsv = field_exps_view(fs@);
    let ghost hv = h@;
    let ghost av = answers_view(answers@);
    let mut vals: Vec<ValueField> = Vec::new();
    let mut i: usize = 0;
    assert(fields_view(vals@) =~= Seq::empty());
    while i < fs.len()
        invariant
            i <= fs.len(),
            fsv == field_exps_view(fs@),
            hv == h@,
            h.wf(),
            av == answers_view(answers@),
            start == old(run)@,
            eval_fields(fsv, i as nat, hv, av, start).result == Ok::<Seq<FieldView>, HaltView>(
                fields_view(vals@),
            ),
            eval_fields(fsv, i as nat, hv, av, start).run == run@,
        decreases fs.len() - i,
    {
        assert(fsv[i as int] == fs@[i as int]@);
        match fs[i].val.eval_in(h, answers, run) {
            Ok(v) => {
                let f = ValueField { id: fs[i].id.clone(), val: v };
                proof {
                    crate::value::lemma_fields_view_push(vals@, f);
                }
                vals.push(f);
            },
            Err(x) => {
                proof {
                    lemma_fields_stop(fsv, (i + 1) as nat, fs@.len(), hv, av, start);
                }
                return Err(x);
            },
        }
        i += 1;
    }
    Ok(vals)
}

/// Applies a function to expressions.
pub fn eval_apply_in(
    func: &str,
    exps: &Vec<Exp>,
    h: &Helper,
    answers: &Vec<Answer>,
    run: &mut Run,
) -> (r: Result<Value, Halt>)
    requires
        h.wf(),
    ensures
        result_view(r) == eval_apply(
            func@,
            exps_view(exps@),
            h@,
            answers_view(answers@),
            old(run)@,
        ).result,
        final(run)@ == eval_apply(
            func@,
            exps_view(exps@),
            h@,
            answers_view(answers@),
            old(run)@,
        ).run,
    decreases exps, exps@.len() + 1,
{
    match Builtin::from_name(func) {
        Some(Builtin::Ite) => {
            if exps.len() != 3 {
                return Err(
                    fail(
                        ErrorKind::Arguments,
                        "ite expects a bool, true branch and false branch",
                    ),
                );
            }
            match exps[0].eval_in(h, answers, run)? {
                Value::Bool(true) => exps[1].eval_in(h, answers, run),
                Value::Bool(false) => exps[2].eval_in(h, answers, run),
                _ => Err(
                    fail(
                        ErrorKind::Arguments,
                        "ite expects the first argument to be a boolean expression",
                    ),
                ),
            }
        },
        Some(Builtin::Exist) => {
            if exps.len() != 1 {
                return Err(fail(ErrorKind::Arguments, "exist expects an expression"));
            }
            match exps[0].eval_in(h, answers, run) {
                Ok(_) => Ok(Value::Bool(true)),
                Err(Halt::Failed(_)) => Ok(Value::Bool(false)),
                Err(Halt::Pending(req)) => Err(Halt::Pending(req)),
            }
        },
        Some(Builtin::Export) => {
            if exps.len() <= 1 {
                return Err(fail(ErrorKind::Arguments, "export expects at least two arguments"));
            }
            match exps[0].eval_in(h, answers, run)? {
                Value::Text(path) => {
                    let bindings = eval_exports_in(exps, h, answers, run)?;
                    request_unit(answers, run, Request::Export { path, bindings }, Value::Null)
                },
                _ => Err(
                    fail(
                        ErrorKind::Arguments,
                        "export expects first argument to be a file path",
                    ),
                ),
            }
        },
        _ => {
            let args = eval_list_in(exps, h, answers, run)?;
            apply_to_values(func, args, h, answers, run)
        },
    }
}

proof fn lemma_exports_stop(
    exps: Seq<ExpView>,
    k: nat,
    n: nat,
    h: HelperView,
    answers: Seq<AnswerView>,
    run: RunView,
)
    requires
        k <= n <= exps.len(),
        eval_exports(exps, k, h, answers, run).result is Err,
    ensures
        eval_exports(exps, n, h, answers, run) == eval_exports(exps, k, h, answers, run),
    decreases n,
{
    if n > k {
        lemma_exports_stop(exps, k, (n - 1) as nat, h, answers, run);
    }
}

/// Evaluates the variables that `export` writes.
fn eval_exports_in(exps: &Vec<Exp>, h: &Helper, answers: &Vec<Answer>, run: &mut Run) -> (r:
    Result<Vec<Binding>, Halt>)
    requires
        h.wf(),
        exps.len() >= 1,
    ensures
        final(run)@ == eval_exports(
            exps_view(exps@),
            exps@.len(),
            h@,
            answers_view(answers@),
            old(run)@,
        ).run,
        match eval_exports(
            exps_view(exps@),
            exps@.len(),
            h@,
            answers_view(answers@),
            old(run)@,
        ).result {
            Ok(b) => r matches Ok(x) && bindings_view(x@) == b,
            Err(e) => r matches Err(x) && x@ == e,
        },
    decreases exps, exps@.len(),
{
    let ghost start = run@;
    let ghost esv = exps_view(exps@);
    let ghost hv = h@;
    let ghost av = answers_view(answers@);
    let mut vars: Vec<Binding> = Vec::new();
    let mut i: usize = 1;
    assert(bindings_view(vars@) =~= Seq::empty());
    while i < exps.len()
        invariant
            1 <= i <= exps.len(),
            esv == exps_view(exps@),
            hv == h@,
            h.wf(),
            av == answers_view(answers@),
            start == old(run)@,
            eval_exports(esv, i as nat, hv, av, start).result == Ok::<Seq<BindingView>, HaltView>(
                bindings_view(vars@),
            ),
            eval_exports(esv, i as nat, hv, av, start).run == run@,
        decreases exps.len() - i,
    {
        assert(esv[i as int] == exps@[i as int]@);
        let ghost before = bindings_view(vars@);
        match &exps[i] {
            Exp::Path(name, _) => match exps[i].eval_in(h, answers, run) {
                Ok(v) => {
                    let b = Binding { name: text_copy(name.as_str()), value: v };
                    vars.push(b);
                    assert(bindings_view(vars@) =~= before.push(b@));
                },
                Err(x) => {
                    proof {
                        lemma_exports_stop(esv, (i + 1) as nat, exps@.len(), hv, av, start);
                    }
                    return Err(x);
                },
            },
            _ => {
                proof {
                    lemma_exports_stop(esv, (i + 1) as nat, exps@.len(), hv, av, start);
                }
                return Err(fail(ErrorKind::Arguments, "export expects variables"));
            },
        }
        i += 1;
    }
    Ok(vars)
}

proof fn lemma_calls_stop(
    calls: Seq<FuncCallView>,
    k: nat,
    n: nat,
    h: HelperView,
    answers: Seq<AnswerView>,
    run: RunView,
)
    requires
        k <= n <= calls.len(),
        eval_calls(calls, k, h, answers, run).result is Err,
    ensures
        eval_calls(calls, n, h, answers, run) == eval_calls(calls, k, h, answers, run),
    decreases n,
{
    if n > k {
        lemma_calls_stop(calls, k, (n - 1) as nat, h, answers, run);
    }
}

/// Makes the calls of a batch ready, from the left.
pub fn eval_calls_in(calls: &Vec<FuncCall>, h: &Helper, answers: &Vec<Answer>, run: &mut Run)
    -> (r: Result<Vec<Prepared>, Halt>)
    requires
        h.wf(),
    ensures
        final(run)@ == eval_calls(
            func_calls_view(calls@),
            calls@.len(),
            h@,
            answers_view(answers@),
            old(run)@,
        ).run,
        match eval_calls(
            func_calls_view(calls@),
            calls@.len(),
            h@,
            answers_view(answers@),
            old(run)@,
        ).result {
            Ok(p) => r matches Ok(x) && prepared_view(x@) == p,
            Err(e) => r matches Err(x) && x@ == e,
        },
    decreases calls, calls@.len(),
{
    let ghost start = run@;
    let ghost cv = func_calls_view(calls@);
    let ghost hv = h@;
    let ghost av = answers_view(answers@);
    let mut ready: Vec<Prepared> = Vec::new();
    let mut i: usize = 0;
    assert(prepared_view(ready@) =~= Seq::empty());
    while i < calls.len()
        invariant
            i <= calls.len(),
            cv == func_calls_view(calls@),
            hv == h@,
            h.wf(),
            av == answers_view(answers@),
            start == old(run)@,
            eval_calls(cv, i as nat, hv, av, start).result == Ok::<Seq<PreparedView>, HaltView>(
                prepared_view(ready@),
            ),
            eval_calls(cv, i as nat, hv, av, start).run == run@,
        decreases calls.len() - i,
    {
        assert(cv[i as int] == calls@[i as int]@);
        let ghost before = prepared_view(ready@);
        proof {
            crate::exp::lemma_exps_model(calls@[i as int].args);
        }
        let vs = match eval_list_in(&calls[i].args, h, answers, run) {
            Ok(vs) => vs,
            Err(x) => {
                proof {
                    lemma_calls_stop(cv, (i + 1) as nat, calls@.len(), hv, av, start);
                }
                return Err(x);
            },
        };
        match prepare(&calls[i].method, vs, h, answers, run) {
            Ok(p) => {
                ready.push(p);
                assert(prepared_view(ready@) =~= before.push(p@));
            },
            Err(x) => {
                proof {
                    lemma_calls_stop(cv, (i + 1) as nat, calls@.len(), hv, av, start);
                }
                return Err(x);
            },
        }
        i += 1;
    }
    Ok(ready)
}

/// Where an evaluation stands: it is done, with its result and what it has
/// changed, or it asks the host for something.
#[derive(Debug, PartialEq, Eq)]
pub enum Step {
    Done {
        result: Result<Value, Error>,
        /// The interfaces that are known after the evaluation.
        cache: Vec<CacheEntry>,
        /// The signed messages that the evaluation has logged, in order.
        messages: Vec<Message>,
    },
    Ask(Request),
}

pub enum StepView {
    Done {
        result: Result<ValueView, ErrorView>,
        cache: Seq<CacheEntryView>,
        messages: Seq<MessageView>,
    },
    Ask(RequestView),
}

impl View for Step {
    type V = StepView;

    open spec fn view(&self) -> StepView {
        match self {
            Step::Done { result, cache, messages } => StepView::Done {
                result: match result {
                    Ok(v) => Ok(v@),
                    Err(e) => Err(e@),
                },
                cache: cache_view(cache@),
                messages: messages_view(messages@),
            },
            Step::Ask(r) => StepView::Ask(r@),
        }
    }
}

/// The run at the start of an evaluation: no answer is read, the interfaces are
/// those that the environment knows, no message is logged.
pub open spec fn first_run(h: HelperView) -> RunView {
    RunView { cursor: 0, cache: h.canister_map, messages: Seq::empty() }
}

/// An outcome as a step.
pub open spec fn step_of(e: Stage<ValueView>) -> StepView {
    match e.result {
        Ok(v) => StepView::Done { result: Ok(v), cache: e.run.cache, messages: e.run.messages },
        Err(HaltView::Failed(err)) => StepView::Done {
            result: Err(err),
            cache: e.run.cache,
            messages: e.run.messages,
        },
        Err(HaltView::Pending(r)) => StepView::Ask(r),
    }
}

impl Exp {
    /// Evaluates this expression in an environment, given the answers that the
    /// host has given so far.
    ///
    /// The step is `Ask` where the evaluation needs an answer that is not there
    /// yet: the host does what is asked, appends its answer, and evaluates again.
    /// It is `Done` where the evaluation has come to a value or an error. The
    /// environment is well formed, and so are the interfaces that are known
    /// when the evaluation is done.
    pub fn eval(&self, helper: &Helper, answers: &Vec<Answer>) -> (step: Step)
        requires
            helper.wf(),
        ensures
            step@ == step_of(
                eval_spec(self@, helper@, answers_view(answers@), first_run(helper@)),
            ),
            step@ matches StepView::Done { cache, .. } ==> crate::types::cache_wf(cache),
    {
        proof {
            crate::replay::law_interfaces_stay_well_formed(
                self@,
                helper@,
                answers_view(answers@),
            );
        }
        let mut run = Run {
            cursor: 0,
            cache: cache_copy(&helper.canister_map),
            messages: Vec::new(),
        };
        assert(messages_view(run.messages@) =~= Seq::empty());
        match self.eval_in(helper, answers, &mut run) {
            Ok(v) => Step::Done { result: Ok(v), cache: run.cache, messages: run.messages },
            Err(Halt::Failed(e)) => Step::Done {
                result: Err(e),
                cache: run.cache,
                messages: run.messages,
            },
            Err(Halt::Pending(r)) => Step::Ask(r),
        }
    }
}

} // verus!
