//! The builtins that need the host: files, processes, accounts, profiling and
//! the certified state. Each checks the kinds of its arguments, asks the host
//! for the work, and makes its value of the answer.
use vstd::prelude::*;
use vstd::string::*;
use crate::builtin::{arguments_error, fail};
use crate::call::{args_to_value, args_value, bytes_stage, stage_bytes, stage_values, values_stage};
use crate::codec::{hex_of, hex_text};
use crate::error::{plain_error, Error, ErrorKind, ErrorView};
use crate::host::{
    answers_view, ask, asked, bytes_request, protocol_error, protocol_failure, reached,
    request_bytes, request_unit, request_value, result_view, stopped, transport_error,
    transport_failure, unit_request, value_request, Answer, AnswerView, Halt, HaltView, Request,
    RequestView, Run, RunView, Stage,
};
use crate::label::{label_id, LabelView};
use crate::number::{parse_u64, u64_literal};
use crate::principal::{text_of_principal, Principal};
use crate::resolve::{interface, interface_of};
use crate::select::{find_field, get_field};
use crate::text::{bytes_copy, text_copy, text_join, texts_view};
use crate::types::{Helper, HelperView};
use crate::value::{fields_view, values_view, FieldView, Value, ValueField, ValueView};

verus! {

/// The error for a reply of more values than a tuple can number.
pub open spec fn tuple_error() -> ErrorView {
    plain_error(ErrorKind::Semantic, "too many values for a tuple"@)
}

/// The values of a reply as one value.
pub open spec fn reply_value(vs: Seq<ValueView>, run: RunView) -> Stage<ValueView> {
    if vs.len() > u32::MAX {
        stopped(tuple_error(), run)
    } else {
        reached(args_value(vs), run)
    }
}

/// Makes one value of the values of a reply.
pub fn reply(vs: &Vec<Value>) -> (r: Result<Value, Halt>)
    ensures
        forall|run: RunView| result_view(r) == (#[trigger] reply_value(values_view(vs@), run)).result,
{
    if vs.len() > u32::MAX as usize {
        Err(fail(ErrorKind::Semantic, "too many values for a tuple"))
    } else {
        Ok(args_to_value(vs))
    }
}

pub open spec fn account_error() -> ErrorView {
    arguments_error("account expects principal"@)
}

/// `account`: of a principal, or of a principal and a subaccount.
pub open spec fn account_builtin(args: Seq<ValueView>, answers: Seq<AnswerView>, run: RunView)
    -> Stage<ValueView> {
    if args.len() == 1 && args[0] is Principal {
        bytes_request(
            answers,
            run,
            RequestView::Account { principal: args[0]->Principal_0, subaccount: None },
        )
    } else if args.len() == 2 && args[0] is Principal && args[1] is Blob {
        bytes_request(
            answers,
            run,
            RequestView::Account {
                principal: args[0]->Principal_0,
                subaccount: Some(args[1]->Blob_0),
            },
        )
    } else {
        stopped(account_error(), run)
    }
}

/// `subaccount`: of a principal.
pub open spec fn subaccount_builtin(args: Seq<ValueView>, answers: Seq<AnswerView>, run: RunView)
    -> Stage<ValueView> {
    if args.len() == 1 && args[0] is Principal {
        bytes_request(answers, run, RequestView::Subaccount { principal: args[0]->Principal_0 })
    } else {
        stopped(account_error(), run)
    }
}

pub open spec fn neuron_error() -> ErrorView {
    arguments_error("neuron_account expects (principal, nonce)"@)
}

pub open spec fn nonce_error() -> ErrorView {
    plain_error(ErrorKind::Semantic, "nonce is not a natural number below 2^64"@)
}

/// `neuron_account`: of a principal and a nonce, the nonce a `nat64` or a number
/// that writes one.
pub open spec fn neuron_account_builtin(
    args: Seq<ValueView>,
    answers: Seq<AnswerView>,
    run: RunView,
) -> Stage<ValueView> {
    if args.len() == 2 && args[0] is Principal {
        match args[1] {
            ValueView::Number(s) => match u64_literal(s) {
                Some(nonce) => bytes_request(
                    answers,
                    run,
                    RequestView::NeuronAccount { principal: args[0]->Principal_0, nonce },
                ),
                None => stopped(nonce_error(), run),
            },
            ValueView::Nat64(nonce) => bytes_request(
                answers,
                run,
                RequestView::NeuronAccount { principal: args[0]->Principal_0, nonce },
            ),
            _ => stopped(neuron_error(), run),
        }
    } else {
        stopped(neuron_error(), run)
    }
}

/// `replica_url`: the address of the replica.
pub open spec fn replica_url_builtin(args: Seq<ValueView>, h: HelperView, run: RunView)
    -> Stage<ValueView> {
    if args.len() == 0 {
        reached(ValueView::Text(h.agent_url), run)
    } else {
        stopped(arguments_error("replica_url expects no arguments"@), run)
    }
}

/// `read_state`: a path in the certified state, after the canister by which the
/// read is routed where one is given.
pub open spec fn read_state_builtin(args: Seq<ValueView>, answers: Seq<AnswerView>, run: RunView)
    -> Stage<ValueView> {
    if args.len() >= 1 && args[0] is Text {
        value_request(answers, run, RequestView::ReadState { effective: None, path: args })
    } else if args.len() >= 2 && args[0] is Principal && args[1] is Text {
        value_request(
            answers,
            run,
            RequestView::ReadState {
                effective: Some(args[0]->Principal_0),
                path: args.subrange(1, args.len() as int),
            },
        )
    } else {
        stopped(
            arguments_error(
                "read_state expects ([effective_id,] prefix, principal, path, ...)"@,
            ),
            run,
        )
    }
}

/// `file`: the contents of a file.
pub open spec fn file_builtin(args: Seq<ValueView>, answers: Seq<AnswerView>, run: RunView)
    -> Stage<ValueView> {
    if args.len() == 1 && args[0] is Text {
        bytes_request(answers, run, RequestView::ReadFile { path: args[0]->Text_0 })
    } else {
        stopped(arguments_error("file expects file path"@), run)
    }
}

/// The answer to a request to compress: a gzip stream of the data, and no
/// other byte string.
pub open spec fn gzip_answer(a: AnswerView, data: Seq<u8>) -> Result<ValueView, HaltView> {
    match a {
        AnswerView::Bytes(b) => if crate::host::gzip_of(b, data) {
            Ok(ValueView::Blob(b))
        } else {
            Err(HaltView::Failed(protocol_error()))
        },
        AnswerView::Failed(m) => Err(HaltView::Failed(transport_error(m))),
        _ => Err(HaltView::Failed(protocol_error())),
    }
}

/// `gzip`: a byte string, compressed. The value is a gzip stream that decodes to
/// the byte string.
pub open spec fn gzip_builtin(args: Seq<ValueView>, answers: Seq<AnswerView>, run: RunView)
    -> Stage<ValueView> {
    if args.len() == 1 && args[0] is Blob {
        match asked(answers, run, RequestView::Gzip { data: args[0]->Blob_0 }) {
            Ok((a, next)) => Stage { result: gzip_answer(a, args[0]->Blob_0), run: next },
            Err(h) => Stage { result: Err(h), run },
        }
    } else {
        stopped(arguments_error("gzip expects blob"@), run)
    }
}

/// `output`: a text appended to a file; the value is the text.
pub open spec fn output_builtin(args: Seq<ValueView>, answers: Seq<AnswerView>, run: RunView)
    -> Stage<ValueView> {
    if args.len() == 2 && args[0] is Text && args[1] is Text {
        unit_request(
            answers,
            run,
            RequestView::Output { file: args[0]->Text_0, content: args[1]->Text_0 },
            ValueView::Text(args[1]->Text_0),
        )
    } else {
        stopped(arguments_error("wasm_profiling expects (file path, content)"@), run)
    }
}

/// White space, as Unicode defines it.
pub open spec fn is_space(c: char) -> bool {
    let n = c as u32;
    ||| 0x09 <= n <= 0x0D
    ||| n == 0x20
    ||| n == 0x85
    ||| n == 0xA0
    ||| n == 0x1680
    ||| 0x2000 <= n <= 0x200A
    ||| n == 0x2028
    ||| n == 0x2029
    ||| n == 0x202F
    ||| n == 0x205F
    ||| n == 0x3000
}

/// The first character from `k` on that is not white space.
pub open spec fn first_mark(s: Seq<char>, k: int) -> Option<char>
    decreases s.len() - k,
{
    if k < 0 || k >= s.len() {
        None
    } else if is_space(s[k]) {
        first_mark(s, k + 1)
    } else {
        Some(s[k])
    }
}

pub open spec fn send_error() -> ErrorView {
    arguments_error("send expects a json blob"@)
}

pub open spec fn json_error() -> ErrorView {
    plain_error(ErrorKind::Semantic, "not a valid json message"@)
}

pub open spec fn message_text_error() -> ErrorView {
    plain_error(ErrorKind::Semantic, "message is not valid utf-8"@)
}

/// `send`: signed messages that were made earlier, sent now. The byte string
/// holds a text that begins, after white space, with a brace for one message or
/// with a bracket for a list of them.
pub open spec fn send_builtin(args: Seq<ValueView>, answers: Seq<AnswerView>, run: RunView)
    -> Stage<ValueView> {
    if args.len() == 1 && args[0] is Blob {
        let bytes = args[0]->Blob_0;
        if !vstd::utf8::valid_utf8(bytes) {
            stopped(message_text_error(), run)
        } else {
            let message = vstd::utf8::decode_utf8(bytes);
            match first_mark(message, 0) {
                Some(c) => if c == '{' || c == '[' {
                    let sent = values_stage(
                        answers,
                        run,
                        RequestView::Send { message, many: c == '[' },
                    );
                    match sent.result {
                        Ok(vs) => reply_value(vs, sent.run),
                        Err(x) => Stage { result: Err(x), run: sent.run },
                    }
                } else {
                    stopped(json_error(), run)
                },
                None => stopped(json_error(), run),
            }
        }
    } else {
        stopped(send_error(), run)
    }
}

fn space(c: char) -> (r: bool)
    ensures
        r == is_space(c),
{
    let n: u32 = c as u32;
    (0x09 <= n && n <= 0x0D) || n == 0x20 || n == 0x85 || n == 0xA0 || n == 0x1680 || (0x2000 <= n
        && n <= 0x200A) || n == 0x2028 || n == 0x2029 || n == 0x202F || n == 0x205F || n == 0x3000
}

fn mark_of(s: &str) -> (r: Option<char>)
    ensures
        r == first_mark(s@, 0),
{
    let n: usize = s.unicode_len();
    let mut i: usize = 0;
    while i < n
        invariant
            i <= n,
            n == s@.len(),
            first_mark(s@, 0) == first_mark(s@, i as int),
        decreases n - i,
    {
        let c = s.get_char(i);
        if !space(c) {
            return Some(c);
        }
        i += 1;
    }
    None
}

/// Computes `account`.
pub fn account(args: &Vec<Value>, answers: &Vec<Answer>, run: &mut Run) -> (r: Result<
    Value,
    Halt,
>)
    ensures
        result_view(r) == account_builtin(
            values_view(args@),
            answers_view(answers@),
            old(run)@,
        ).result,
        final(run)@ == account_builtin(values_view(args@), answers_view(answers@), old(run)@).run,
{
    if args.len() == 1 {
        if let Value::Principal(p) = &args[0] {
            return request_bytes(
                answers,
                run,
                Request::Account { principal: p.clone(), subaccount: None },
            );
        }
    } else if args.len() == 2 {
        if let Value::Principal(p) = &args[0] {
            if let Value::Blob(s) = &args[1] {
                return request_bytes(
                    answers,
                    run,
                    Request::Account { principal: p.clone(), subaccount: Some(bytes_copy(s)) },
                );
            }
        }
    }
    Err(fail(ErrorKind::Arguments, "account expects principal"))
}

/// Computes `subaccount`.
pub fn subaccount(args: &Vec<Value>, answers: &Vec<Answer>, run: &mut Run) -> (r: Result<
    Value,
    Halt,
>)
    ensures
        result_view(r) == subaccount_builtin(
            values_view(args@),
            answers_view(answers@),
            old(run)@,
        ).result,
        final(run)@ == subaccount_builtin(
            values_view(args@),
            answers_view(answers@),
            old(run)@,
        ).run,
{
    if args.len() == 1 {
        if let Value::Principal(p) = &args[0] {
            return request_bytes(answers, run, Request::Subaccount { principal: p.clone() });
        }
    }
    Err(fail(ErrorKind::Arguments, "account expects principal"))
}

/// Computes `neuron_account`.
pub fn neuron_account(args: &Vec<Value>, answers: &Vec<Answer>, run: &mut Run) -> (r: Result<
    Value,
    Halt,
>)
    ensures
        result_view(r) == neuron_account_builtin(
            values_view(args@),
            answers_view(answers@),
            old(run)@,
        ).result,
        final(run)@ == neuron_account_builtin(
            values_view(args@),
            answers_view(answers@),
            old(run)@,
        ).run,
{
    if args.len() == 2 {
        if let Value::Principal(p) = &args[0] {
            match &args[1] {
                Value::Number(s) => {
                    return match parse_u64(s.as_str()) {
                        Some(nonce) => request_bytes(
                            answers,
                            run,
                            Request::NeuronAccount { principal: p.clone(), nonce },
                        ),
                        None => Err(
                            fail(ErrorKind::Semantic, "nonce is not a natural number below 2^64"),
                        ),
                    };
                },
                Value::Nat64(nonce) => {
                    return request_bytes(
                        answers,
                        run,
                        Request::NeuronAccount { principal: p.clone(), nonce: *nonce },
                    );
                },
                _ => {},
            }
        }
    }
    Err(fail(ErrorKind::Arguments, "neuron_account expects (principal, nonce)"))
}

/// Computes `replica_url`.
pub fn replica_url(args: &Vec<Value>, h: &Helper) -> (r: Result<Value, Halt>)
    requires
        h.wf(),
    ensures
        forall|run: RunView|
            result_view(r) == (#[trigger] replica_url_builtin(values_view(args@), h@, run)).result,
{
    if args.len() == 0 {
        Ok(Value::Text(text_copy(h.agent_url.as_str())))
    } else {
        Err(fail(ErrorKind::Arguments, "replica_url expects no arguments"))
    }
}

fn values_from(args: &Vec<Value>, from: usize) -> (r: Vec<Value>)
    requires
        from <= args.len(),
    ensures
        values_view(r@) == values_view(args@).subrange(from as int, args.len() as int),
{
    let mut r: Vec<Value> = Vec::new();
    let mut i: usize = from;
    while i < args.len()
        invariant
            from <= i <= args.len(),
            r@.len() == i - from,
            forall|k: int| 0 <= k < i - from ==> r@[k]@ == args@[from + k]@,
        decreases args.len() - i,
    {
        r.push(args[i].duplicate());
        i += 1;
    }
    assert(values_view(r@) =~= values_view(args@).subrange(from as int, args.len() as int));
    r
}

/// Computes `read_state`.
pub fn read_state(args: &Vec<Value>, answers: &Vec<Answer>, run: &mut Run) -> (r: Result<
    Value,
    Halt,
>)
    ensures
        result_view(r) == read_state_builtin(
            values_view(args@),
            answers_view(answers@),
            old(run)@,
        ).result,
        final(run)@ == read_state_builtin(
            values_view(args@),
            answers_view(answers@),
            old(run)@,
        ).run,
{
    if args.len() >= 1 {
        match &args[0] {
            Value::Text(_) => {
                let path = values_from(args, 0);
                assert(values_view(args@).subrange(0, args.len() as int) =~= values_view(args@));
                return request_value(answers, run, Request::ReadState { effective: None, path });
            },
            Value::Principal(e) => {
                if args.len() >= 2 {
                    if let Value::Text(_) = &args[1] {
                        let path = values_from(args, 1);
                        return request_value(
                            answers,
                            run,
                            Request::ReadState { effective: Some(e.clone()), path },
                        );
                    }
                }
            },
            _ => {},
        }
    }
    Err(
        fail(
            ErrorKind::Arguments,
            "read_state expects ([effective_id,] prefix, principal, path, ...)",
        ),
    )
}

/// Computes `file`.
pub fn file(args: &Vec<Value>, answers: &Vec<Answer>, run: &mut Run) -> (r: Result<Value, Halt>)
    ensures
        result_view(r) == file_builtin(values_view(args@), answers_view(answers@), old(run)@).result,
        final(run)@ == file_builtin(values_view(args@), answers_view(answers@), old(run)@).run,
{
    if args.len() == 1 {
        if let Value::Text(f) = &args[0] {
            return request_bytes(answers, run, Request::ReadFile { path: text_copy(f.as_str()) });
        }
    }
    Err(fail(ErrorKind::Arguments, "file expects file path"))
}

/// Computes `gzip`.
pub fn gzip(args: &Vec<Value>, answers: &Vec<Answer>, run: &mut Run) -> (r: Result<Value, Halt>)
    ensures
        result_view(r) == gzip_builtin(values_view(args@), answers_view(answers@), old(run)@).result,
        final(run)@ == gzip_builtin(values_view(args@), answers_view(answers@), old(run)@).run,
{
    if args.len() == 1 {
        if let Value::Blob(b) = &args[0] {
            return match ask(answers, run, Request::Gzip { data: bytes_copy(b) })? {
                Answer::Bytes(stream) => {
                    if crate::host::is_gzip_of(stream, b) {
                        Ok(Value::Blob(bytes_copy(stream)))
                    } else {
                        Err(protocol_failure())
                    }
                },
                Answer::Failed(m) => Err(transport_failure(m.as_str())),
                _ => Err(protocol_failure()),
            };
        }
    }
    Err(fail(ErrorKind::Arguments, "gzip expects blob"))
}

/// Computes `output`.
pub fn output(args: &Vec<Value>, answers: &Vec<Answer>, run: &mut Run) -> (r: Result<Value, Halt>)
    ensures
        result_view(r) == output_builtin(
            values_view(args@),
            answers_view(answers@),
            old(run)@,
        ).result,
        final(run)@ == output_builtin(values_view(args@), answers_view(answers@), old(run)@).run,
{
    if args.len() == 2 {
        if let Value::Text(f) = &args[0] {
            if let Value::Text(c) = &args[1] {
                return request_unit(
                    answers,
                    run,
                    Request::Output { file: text_copy(f.as_str()), content: text_copy(c.as_str()) },
                    Value::Text(text_copy(c.as_str())),
                );
            }
        }
    }
    Err(fail(ErrorKind::Arguments, "wasm_profiling expects (file path, content)"))
}

/// Computes `send`.
pub fn send(args: &Vec<Value>, answers: &Vec<Answer>, run: &mut Run) -> (r: Result<Value, Halt>)
    ensures
        result_view(r) == send_builtin(values_view(args@), answers_view(answers@), old(run)@).result,
        final(run)@ == send_builtin(values_view(args@), answers_view(answers@), old(run)@).run,
{
    if args.len() == 1 {
        if let Value::Blob(b) = &args[0] {
            let message = match crate::codec::utf8_text(b) {
                Some(m) => m,
                None => {
                    return Err(fail(ErrorKind::Semantic, "message is not valid utf-8"));
                },
            };
            let many: bool = match mark_of(message.as_str()) {
                Some('{') => false,
                Some('[') => true,
                _ => {
                    return Err(fail(ErrorKind::Semantic, "not a valid json message"));
                },
            };
            let vs = stage_values(answers, run, Request::Send { message, many })?;
            return reply(&vs);
        }
    }
    Err(fail(ErrorKind::Arguments, "send expects a json blob"))
}

/// The id of the label of a name.
pub open spec fn name_id(name: Seq<char>) -> u32 {
    label_id(LabelView::Named(name))
}

/// How a command is run: its arguments, the directory it runs in, and whether
/// what it writes is kept from the terminal.
pub struct ExecPlan {
    pub args: Seq<Seq<char>>,
    pub cwd: Option<Seq<char>>,
    pub silence: bool,
}

pub open spec fn exec_error() -> ErrorView {
    arguments_error("exec expects (text command, ...text args)"@)
}

pub open spec fn exec_args_error() -> ErrorView {
    arguments_error("exec expects string arguments"@)
}

pub open spec fn cwd_error() -> ErrorView {
    arguments_error("cwd expects a string"@)
}

pub open spec fn silence_error() -> ErrorView {
    arguments_error("silence expects a boolean"@)
}

/// The options that a record gives for a command: `cwd`, a text, and `silence`,
/// a boolean.
pub open spec fn exec_options(plan: ExecPlan, fs: Seq<FieldView>) -> Result<ExecPlan, ErrorView> {
    match find_field(fs, name_id("cwd"@)) {
        Some(ValueView::Text(p)) => match find_field(fs, name_id("silence"@)) {
            Some(ValueView::Bool(b)) => Ok(ExecPlan { cwd: Some(p), silence: b, ..plan }),
            Some(_) => Err(silence_error()),
            None => Ok(ExecPlan { cwd: Some(p), ..plan }),
        },
        Some(_) => Err(cwd_error()),
        None => match find_field(fs, name_id("silence"@)) {
            Some(ValueView::Bool(b)) => Ok(ExecPlan { silence: b, ..plan }),
            Some(_) => Err(silence_error()),
            None => Ok(plan),
        },
    }
}

/// What the values after the command say, up to the `n`th: a text is an
/// argument; a record gives options, and may stand only in the last place.
pub open spec fn exec_plan(args: Seq<ValueView>, n: nat) -> Result<ExecPlan, ErrorView>
    decreases n,
{
    if n <= 1 || n > args.len() {
        Ok(ExecPlan { args: Seq::empty(), cwd: None, silence: false })
    } else {
        match exec_plan(args, (n - 1) as nat) {
            Err(e) => Err(e),
            Ok(plan) => match args[n - 1] {
                ValueView::Text(a) => Ok(ExecPlan { args: plan.args.push(a), ..plan }),
                ValueView::Record(fs) => if n == args.len() {
                    exec_options(plan, fs)
                } else {
                    Err(exec_args_error())
                },
                _ => Err(exec_args_error()),
            },
        }
    }
}

/// What a command wrote, as a value: the value that the line writes, or else
/// the line as a text.
pub open spec fn line_value(line: Seq<char>, answers: Seq<AnswerView>, run: RunView) -> Stage<ValueView> {
    match asked(answers, run, RequestView::Parse { text: line }) {
        Err(x) => Stage { result: Err(x), run },
        Ok((AnswerView::Value(v), next)) => reached(v, next),
        Ok((AnswerView::Failed(_), next)) => reached(ValueView::Text(line), next),
        Ok((_, next)) => stopped(protocol_error(), next),
    }
}

/// A command that is run, and the value of the last line that it wrote.
pub open spec fn exec_run(request: RequestView, answers: Seq<AnswerView>, run: RunView)
    -> Stage<ValueView> {
    match asked(answers, run, request) {
        Err(x) => Stage { result: Err(x), run },
        Ok((AnswerView::Value(ValueView::Text(line)), next)) => line_value(line, answers, next),
        Ok((AnswerView::Failed(m), next)) => stopped(transport_error(m), next),
        Ok((_, next)) => stopped(protocol_error(), next),
    }
}

/// `exec`: a command run with arguments. Its value is the last line that the
/// command writes: the value that the line writes, or else the line as a text.
pub open spec fn exec_builtin(args: Seq<ValueView>, answers: Seq<AnswerView>, run: RunView)
    -> Stage<ValueView> {
    if args.len() >= 1 && args[0] is Text {
        match exec_plan(args, args.len()) {
            Ok(plan) => exec_run(
                RequestView::Exec {
                    command: args[0]->Text_0,
                    args: plan.args,
                    cwd: plan.cwd,
                    silence: plan.silence,
                },
                answers,
                run,
            ),
            Err(e) => stopped(e, run),
        }
    } else {
        stopped(exec_error(), run)
    }
}

fn run_command(request: Request, answers: &Vec<Answer>, run: &mut Run) -> (r: Result<Value, Halt>)
    ensures
        result_view(r) == exec_run(request@, answers_view(answers@), old(run)@).result,
        final(run)@ == exec_run(request@, answers_view(answers@), old(run)@).run,
{
    let line = match ask(answers, run, request)? {
        Answer::Value(Value::Text(line)) => line,
        Answer::Failed(m) => {
            return Err(transport_failure(m.as_str()));
        },
        _ => {
            return Err(protocol_failure());
        },
    };
    match ask(answers, run, Request::Parse { text: text_copy(line.as_str()) })? {
        Answer::Value(v) => Ok(v.duplicate()),
        Answer::Failed(_) => Ok(Value::Text(text_copy(line.as_str()))),
        _ => Err(protocol_failure()),
    }
}

proof fn lemma_plan_stops(args: Seq<ValueView>, k: nat, n: nat)
    requires
        k <= n <= args.len(),
        exec_plan(args, k) is Err,
    ensures
        exec_plan(args, n) == exec_plan(args, k),
    decreases n,
{
    if n > k {
        lemma_plan_stops(args, k, (n - 1) as nat);
    }
}

/// Computes `exec`.
pub fn exec(args: &Vec<Value>, answers: &Vec<Answer>, run: &mut Run) -> (r: Result<Value, Halt>)
    ensures
        result_view(r) == exec_builtin(values_view(args@), answers_view(answers@), old(run)@).result,
        final(run)@ == exec_builtin(values_view(args@), answers_view(answers@), old(run)@).run,
{
    if args.len() == 0 {
        return Err(fail(ErrorKind::Arguments, "exec expects (text command, ...text args)"));
    }
    let command = match &args[0] {
        Value::Text(c) => text_copy(c.as_str()),
        _ => {
            return Err(fail(ErrorKind::Arguments, "exec expects (text command, ...text args)"));
        },
    };
    let ghost av = values_view(args@);
    let mut list: Vec<String> = Vec::new();
    let mut cwd: Option<String> = None;
    let mut silence: bool = false;
    let mut i: usize = 1;
    assert(texts_view(list@) =~= Seq::empty());
    while i < args.len()
        invariant
            1 <= i <= args.len(),
            av == values_view(args@),
            av[0] is Text,
            exec_plan(av, i as nat) == Ok::<ExecPlan, ErrorView>(
                ExecPlan {
                    args: texts_view(list@),
                    cwd: crate::host::opt_text_view(cwd),
                    silence,
                },
            ),
            run@ == old(run)@,
        decreases args.len() - i,
    {
        let ghost before = texts_view(list@);
        assert(av[i as int] == args@[i as int]@);
        match &args[i] {
            Value::Text(a) => {
                list.push(text_copy(a.as_str()));
                assert(texts_view(list@) =~= before.push(a@));
            },
            Value::Record(fs) => {
                proof {
                    crate::value::lemma_record_view(*fs);
                }
                if i + 1 != args.len() {
                    proof {
                        lemma_plan_stops(av, (i + 1) as nat, args@.len());
                    }
                    return Err(fail(ErrorKind::Arguments, "exec expects string arguments"));
                }
                match get_field(fs, "cwd") {
                    Some(Value::Text(p)) => {
                        cwd = Some(text_copy(p.as_str()));
                    },
                    Some(_) => {
                        return Err(fail(ErrorKind::Arguments, "cwd expects a string"));
                    },
                    None => {},
                }
                match get_field(fs, "silence") {
                    Some(Value::Bool(b)) => {
                        silence = *b;
                    },
                    Some(_) => {
                        return Err(fail(ErrorKind::Arguments, "silence expects a boolean"));
                    },
                    None => {},
                }
            },
            _ => {
                proof {
                    lemma_plan_stops(av, (i + 1) as nat, args@.len());
                }
                return Err(fail(ErrorKind::Arguments, "exec expects string arguments"));
            },
        }
        i += 1;
    }
    run_command(Request::Exec { command, args: list, cwd, silence }, answers, run)
}

/// The natural number below 2^32 that a value holds.
pub open spec fn u32_of(v: ValueView) -> Option<u32> {
    match v {
        ValueView::Number(s) => match u64_literal(s) {
            Some(n) => if n <= u32::MAX {
                Some(n as u32)
            } else {
                None
            },
            None => None,
        },
        ValueView::Nat8(n) => Some(n as u32),
        ValueView::Nat16(n) => Some(n as u32),
        ValueView::Nat32(n) => Some(n),
        ValueView::Nat64(n) => if n <= u32::MAX {
            Some(n as u32)
        } else {
            None
        },
        _ => None,
    }
}

/// Reads a natural number below 2^32 from a value.
pub fn as_u32(v: &Value) -> (r: Option<u32>)
    ensures
        r == u32_of(v@),
{
    match v {
        Value::Number(s) => match parse_u64(s.as_str()) {
            Some(n) => if n <= u32::MAX as u64 {
                Some(n as u32)
            } else {
                None
            },
            None => None,
        },
        Value::Nat8(n) => Some(*n as u32),
        Value::Nat16(n) => Some(*n as u32),
        Value::Nat32(n) => Some(*n),
        Value::Nat64(n) => if *n <= u32::MAX as u64 {
            Some(*n as u32)
        } else {
            None
        },
        _ => None,
    }
}

/// The 32 bits of a natural number, read as a signed number.
pub open spec fn signed_bits(n: u32) -> i32 {
    if n <= i32::MAX {
        n as i32
    } else {
        (n - 0x1_0000_0000) as i32
    }
}

fn to_signed(n: u32) -> (r: i32)
    ensures
        r == signed_bits(n),
{
    if n <= i32::MAX as u32 {
        n as i32
    } else {
        let low: u32 = n - 0x8000_0000;
        (low as i32) + i32::MIN
    }
}

/// The size of a page of memory in bytes.
pub const PAGE_SIZE: i64 = 65536;

/// How a module is instrumented.
pub struct ProfilingPlan {
    pub trace_only_funcs: Seq<Seq<char>>,
    pub start_address: Option<i64>,
    pub page_limit: Option<i32>,
}

/// The texts among the first `n` values, in order.
pub open spec fn texts_among(xs: Seq<ValueView>, n: nat) -> Seq<Seq<char>>
    decreases n,
{
    if n == 0 || n > xs.len() {
        Seq::empty()
    } else {
        match xs[n - 1] {
            ValueView::Text(s) => texts_among(xs, (n - 1) as nat).push(s),
            _ => texts_among(xs, (n - 1) as nat),
        }
    }
}

pub open spec fn start_page_error() -> ErrorView {
    ErrorView {
        kind: ErrorKind::Arguments,
        message: "start_page expects a number"@,
        cause: None,
    }
}

pub open spec fn page_limit_error() -> ErrorView {
    ErrorView {
        kind: ErrorKind::Arguments,
        message: "page_limit expects a number"@,
        cause: None,
    }
}

pub open spec fn trace_error() -> ErrorView {
    arguments_error("trace_only_funcs expects a vetor of function names"@)
}

/// The page at which tracing starts, where the record names one.
pub open spec fn start_page_of(fs: Seq<FieldView>) -> Result<Option<i32>, ErrorView> {
    match find_field(fs, name_id("start_page"@)) {
        Some(n) => match u32_of(n) {
            Some(x) => Ok(Some(signed_bits(x))),
            None => Err(start_page_error()),
        },
        None => Ok(None),
    }
}

/// The limit of pages, which counts only where a start page is given.
pub open spec fn page_limit_of(fs: Seq<FieldView>, start: Option<i32>) -> Result<
    Option<i32>,
    ErrorView,
> {
    if start is Some {
        match find_field(fs, name_id("page_limit"@)) {
            Some(n) => match u32_of(n) {
                Some(x) => Ok(Some(signed_bits(x))),
                None => Err(page_limit_error()),
            },
            None => Ok(None),
        }
    } else {
        Ok(None)
    }
}

/// The functions to trace: the texts of the vector that the record gives.
pub open spec fn trace_funcs_of(fs: Seq<FieldView>) -> Result<Seq<Seq<char>>, ErrorView> {
    match find_field(fs, name_id("trace_only_funcs"@)) {
        Some(ValueView::Vec(xs)) => Ok(texts_among(xs, xs.len())),
        Some(_) => Err(trace_error()),
        None => Ok(Seq::empty()),
    }
}

/// What a record says of how to instrument: the page at which tracing starts,
/// as an address; the limit of pages, which counts only with a start page; and
/// the functions to trace, of which only texts count.
pub open spec fn profiling_plan(fs: Seq<FieldView>) -> Result<ProfilingPlan, ErrorView> {
    match start_page_of(fs) {
        Err(e) => Err(e),
        Ok(start) => match page_limit_of(fs, start) {
            Err(e) => Err(e),
            Ok(page_limit) => match trace_funcs_of(fs) {
                Err(e) => Err(e),
                Ok(trace_only_funcs) => Ok(
                    ProfilingPlan {
                        trace_only_funcs,
                        start_address: match start {
                            Some(p) => Some((p * PAGE_SIZE) as i64),
                            None => None,
                        },
                        page_limit,
                    },
                ),
            },
        },
    }
}

pub open spec fn profiling_error() -> ErrorView {
    arguments_error("wasm_profiling expects file path and optionally record for config"@)
}

/// How a module is instrumented where no record says how.
pub open spec fn plain_plan() -> ProfilingPlan {
    ProfilingPlan { trace_only_funcs: Seq::empty(), start_address: None, page_limit: None }
}

/// How the arguments of `wasm_profiling` say to instrument; none where they
/// are not a file path, or a file path and a record.
pub open spec fn profiling_request(args: Seq<ValueView>) -> Option<Result<ProfilingPlan, ErrorView>> {
    if args.len() == 1 && args[0] is Text {
        Some(Ok(plain_plan()))
    } else if args.len() == 2 && args[0] is Text && args[1] is Record {
        Some(profiling_plan(args[1]->Record_0))
    } else {
        None
    }
}

/// `wasm_profiling`: the module in a file, instrumented for profiling, by the
/// configuration that a record gives. The file is read first; then the
/// configuration is looked at, and the module goes to the instrumentation.
pub open spec fn wasm_profiling_builtin(
    args: Seq<ValueView>,
    answers: Seq<AnswerView>,
    run: RunView,
) -> Stage<ValueView> {
    match profiling_request(args) {
        None => stopped(profiling_error(), run),
        Some(plan) => {
            let read = bytes_stage(answers, run, RequestView::ReadFile { path: args[0]->Text_0 });
            match read.result {
                Err(x) => Stage { result: Err(x), run: read.run },
                Ok(module) => match plan {
                    Err(e) => stopped(e, read.run),
                    Ok(p) => bytes_request(
                        answers,
                        read.run,
                        RequestView::Instrument {
                            module,
                            trace_only_funcs: p.trace_only_funcs,
                            start_address: p.start_address,
                            page_limit: p.page_limit,
                        },
                    ),
                },
            }
        },
    }
}

fn texts_in(xs: &Vec<Value>) -> (r: Vec<String>)
    ensures
        texts_view(r@) == texts_among(values_view(xs@), xs@.len()),
{
    let ghost xv = values_view(xs@);
    let mut r: Vec<String> = Vec::new();
    let mut i: usize = 0;
    assert(texts_view(r@) =~= Seq::empty());
    while i < xs.len()
        invariant
            i <= xs.len(),
            xv == values_view(xs@),
            texts_view(r@) == texts_among(xv, i as nat),
        decreases xs.len() - i,
    {
        let ghost before = texts_view(r@);
        assert(xv[i as int] == xs@[i as int]@);
        if let Value::Text(s) = &xs[i] {
            r.push(text_copy(s.as_str()));
            assert(texts_view(r@) =~= before.push(s@));
        }
        i += 1;
    }
    r
}

fn start_page(fs: &Vec<ValueField>) -> (r: Result<Option<i32>, Error>)
    ensures
        match start_page_of(fields_view(fs@)) {
            Ok(p) => r == Ok::<Option<i32>, Error>(p),
            Err(e) => r matches Err(x) && x@ == e,
        },
{
    match get_field(fs, "start_page") {
        Some(n) => match as_u32(n) {
            Some(x) => Ok(Some(to_signed(x))),
            None => Err(Error::new(ErrorKind::Arguments, "start_page expects a number")),
        },
        None => Ok(None),
    }
}

fn page_limit(fs: &Vec<ValueField>, start: Option<i32>) -> (r: Result<Option<i32>, Error>)
    ensures
        match page_limit_of(fields_view(fs@), start) {
            Ok(p) => r == Ok::<Option<i32>, Error>(p),
            Err(e) => r matches Err(x) && x@ == e,
        },
{
    if start.is_some() {
        match get_field(fs, "page_limit") {
            Some(n) => match as_u32(n) {
                Some(x) => Ok(Some(to_signed(x))),
                None => Err(Error::new(ErrorKind::Arguments, "page_limit expects a number")),
            },
            None => Ok(None),
        }
    } else {
        Ok(None)
    }
}

fn trace_funcs(fs: &Vec<ValueField>) -> (r: Result<Vec<String>, Error>)
    ensures
        match trace_funcs_of(fields_view(fs@)) {
            Ok(t) => r matches Ok(x) && texts_view(x@) == t,
            Err(e) => r matches Err(x) && x@ == e,
        },
{
    match get_field(fs, "trace_only_funcs") {
        Some(Value::Vec(xs)) => {
            proof {
                crate::value::lemma_vec_view(*xs);
            }
            Ok(texts_in(xs))
        },
        Some(_) => Err(
            Error::new(
                ErrorKind::Arguments,
                "trace_only_funcs expects a vetor of function names",
            ),
        ),
        None => {
            let r: Vec<String> = Vec::new();
            assert(texts_view(r@) =~= Seq::empty());
            Ok(r)
        },
    }
}

/// Computes `wasm_profiling`.
pub fn wasm_profiling(args: &Vec<Value>, answers: &Vec<Answer>, run: &mut Run) -> (r: Result<
    Value,
    Halt,
>)
    ensures
        result_view(r) == wasm_profiling_builtin(
            values_view(args@),
            answers_view(answers@),
            old(run)@,
        ).result,
        final(run)@ == wasm_profiling_builtin(
            values_view(args@),
            answers_view(answers@),
            old(run)@,
        ).run,
{
    if args.len() == 1 {
        if let Value::Text(f) = &args[0] {
            let module = stage_bytes(answers, run, Request::ReadFile { path: text_copy(f.as_str()) })?;
            let none: Vec<String> = Vec::new();
            assert(texts_view(none@) =~= Seq::empty());
            return request_bytes(
                answers,
                run,
                Request::Instrument {
                    module,
                    trace_only_funcs: none,
                    start_address: None,
                    page_limit: None,
                },
            );
        }
    } else if args.len() == 2 {
        if let Value::Text(f) = &args[0] {
            if let Value::Record(fs) = &args[1] {
                proof {
                    crate::value::lemma_record_view(*fs);
                }
                let module = stage_bytes(
                    answers,
                    run,
                    Request::ReadFile { path: text_copy(f.as_str()) },
                )?;
                let start = match start_page(fs) {
                    Ok(p) => p,
                    Err(e) => {
                        return Err(Halt::Failed(e));
                    },
                };
                let limit = match page_limit(fs, start) {
                    Ok(p) => p,
                    Err(e) => {
                        return Err(Halt::Failed(e));
                    },
                };
                let funcs = match trace_funcs(fs) {
                    Ok(t) => t,
                    Err(e) => {
                        return Err(Halt::Failed(e));
                    },
                };
                let start_address: Option<i64> = match start {
                    Some(p) => Some((p as i64) * PAGE_SIZE),
                    None => None,
                };
                return request_bytes(
                    answers,
                    run,
                    Request::Instrument {
                        module,
                        trace_only_funcs: funcs,
                        start_address,
                        page_limit: limit,
                    },
                );
            }
        }
    }
    Err(
        fail(
            ErrorKind::Arguments,
            "wasm_profiling expects file path and optionally record for config",
        ),
    )
}

/// How an address is named in a message: by its textual form, or in
/// hexadecimal where it has none.
pub open spec fn principal_label(p: Seq<u8>) -> Seq<char> {
    match text_of_principal(p) {
        Some(t) => t,
        None => hex_of(p),
    }
}

/// The name of an address for a message.
pub fn principal_name(p: &Principal) -> (r: String)
    ensures
        r@ == principal_label(p@),
{
    match p.to_text() {
        Some(t) => t,
        None => hex_text(&p.bytes),
    }
}

pub open spec fn instrumented_error(canister: Seq<u8>) -> ErrorView {
    plain_error(ErrorKind::Resolution, principal_label(canister) + " is not instrumented"@)
}

pub open spec fn flamegraph_error() -> ErrorView {
    arguments_error("flamegraph expects (canister id, title name, svg file name)"@)
}

/// `flamegraph`: the profile of an instrumented canister, rendered into a file
/// under a title. Its value is the cost that the profile shows.
pub open spec fn flamegraph_builtin(args: Seq<ValueView>, answers: Seq<AnswerView>, run: RunView)
    -> Stage<ValueView> {
    if args.len() == 3 && args[0] is Principal && args[1] is Text && args[2] is Text {
        let canister = args[0]->Principal_0;
        let fetched = interface_of(canister, answers, run);
        match fetched.result {
            Err(x) => Stage { result: Err(x), run: fetched.run },
            Ok(Some(info)) => match info.profiling {
                Some(names) => value_request(
                    answers,
                    fetched.run,
                    RequestView::Flamegraph {
                        canister,
                        names,
                        title: args[1]->Text_0,
                        file: args[2]->Text_0,
                    },
                ),
                None => stopped(instrumented_error(canister), fetched.run),
            },
            Ok(None) => stopped(instrumented_error(canister), fetched.run),
        }
    } else {
        stopped(flamegraph_error(), run)
    }
}

fn not_instrumented(canister: &Principal) -> (r: Halt)
    ensures
        r@ == HaltView::Failed(instrumented_error(canister@)),
{
    let name = principal_name(canister);
    Halt::Failed(Error::with_detail(ErrorKind::Resolution, name.as_str(), " is not instrumented"))
}

/// Computes `flamegraph`.
pub fn flamegraph(args: &Vec<Value>, answers: &Vec<Answer>, run: &mut Run) -> (r: Result<
    Value,
    Halt,
>)
    ensures
        result_view(r) == flamegraph_builtin(
            values_view(args@),
            answers_view(answers@),
            old(run)@,
        ).result,
        final(run)@ == flamegraph_builtin(
            values_view(args@),
            answers_view(answers@),
            old(run)@,
        ).run,
{
    if args.len() == 3 {
        if let Value::Principal(canister) = &args[0] {
            if let Value::Text(title) = &args[1] {
                if let Value::Text(file) = &args[2] {
                    let info = interface(canister, answers, run)?;
                    return match info {
                        Some(info) => match &info.profiling {
                            Some(names) => request_value(
                                answers,
                                run,
                                Request::Flamegraph {
                                    canister: canister.clone(),
                                    names: names.clone(),
                                    title: text_copy(title.as_str()),
                                    file: text_copy(file.as_str()),
                                },
                            ),
                            None => Err(not_instrumented(canister)),
                        },
                        None => Err(not_instrumented(canister)),
                    };
                }
            }
        }
    }
    Err(
        fail(ErrorKind::Arguments, "flamegraph expects (canister id, title name, svg file name)"),
    )
}

/// The texts of the first `n` values one after the other, each rendered by the
/// host.
pub open spec fn stringified(
    args: Seq<ValueView>,
    n: nat,
    answers: Seq<AnswerView>,
    run: RunView,
) -> Stage<Seq<char>>
    decreases n,
{
    if n == 0 || n > args.len() {
        Stage { result: Ok(Seq::empty()), run }
    } else {
        let head = stringified(args, (n - 1) as nat, answers, run);
        match head.result {
            Err(_) => head,
            Ok(text) => match asked(
                answers,
                head.run,
                RequestView::Stringify { value: args[n - 1] },
            ) {
                Err(x) => Stage { result: Err(x), run: head.run },
                Ok((AnswerView::Value(ValueView::Text(s)), next)) => Stage {
                    result: Ok(text + s),
                    run: next,
                },
                Ok((AnswerView::Failed(m), next)) => Stage {
                    result: Err(HaltView::Failed(transport_error(m))),
                    run: next,
                },
                Ok((_, next)) => Stage { result: Err(HaltView::Failed(protocol_error())), run: next },
            },
        }
    }
}

/// `stringify`: the values as one text.
pub open spec fn stringify_builtin(args: Seq<ValueView>, answers: Seq<AnswerView>, run: RunView)
    -> Stage<ValueView> {
    let all = stringified(args, args.len(), answers, run);
    match all.result {
        Ok(text) => reached(ValueView::Text(text), all.run),
        Err(x) => Stage { result: Err(x), run: all.run },
    }
}

proof fn lemma_stringified_stops(
    args: Seq<ValueView>,
    k: nat,
    n: nat,
    answers: Seq<AnswerView>,
    run: RunView,
)
    requires
        k <= n <= args.len(),
        stringified(args, k, answers, run).result is Err,
    ensures
        stringified(args, n, answers, run) == stringified(args, k, answers, run),
    decreases n,
{
    if n > k {
        lemma_stringified_stops(args, k, (n - 1) as nat, answers, run);
    }
}

/// Computes `stringify`.
pub fn stringify(args: &Vec<Value>, answers: &Vec<Answer>, run: &mut Run) -> (r: Result<
    Value,
    Halt,
>)
    ensures
        result_view(r) == stringify_builtin(
            values_view(args@),
            answers_view(answers@),
            old(run)@,
        ).result,
        final(run)@ == stringify_builtin(
            values_view(args@),
            answers_view(answers@),
            old(run)@,
        ).run,
{
    let ghost start = run@;
    let ghost av = values_view(args@);
    let ghost ans = answers_view(answers@);
    let mut text: String = text_copy("");
    proof {
        reveal_strlit("");
        assert(text@ =~= Seq::<char>::empty());
    }
    let mut i: usize = 0;
    while i < args.len()
        invariant
            i <= args.len(),
            av == values_view(args@),
            ans == answers_view(answers@),
            start == old(run)@,
            stringified(av, i as nat, ans, start).result == Ok::<Seq<char>, HaltView>(text@),
            stringified(av, i as nat, ans, start).run == run@,
        decreases args.len() - i,
    {
        assert(av[i as int] == args@[i as int]@);
        proof {
            lemma_stringified_stops_next(av, (i + 1) as nat, args@.len(), ans, start);
        }
        match ask(answers, run, Request::Stringify { value: args[i].duplicate() }) {
            Err(x) => {
                return Err(x);
            },
            Ok(Answer::Value(Value::Text(s))) => {
                text = text_join(text.as_str(), s.as_str());
            },
            Ok(Answer::Failed(m)) => {
                return Err(transport_failure(m.as_str()));
            },
            Ok(_) => {
                return Err(protocol_failure());
            },
        }
        i += 1;
    }
    Ok(Value::Text(text))
}

proof fn lemma_stringified_stops_next(
    args: Seq<ValueView>,
    k: nat,
    n: nat,
    answers: Seq<AnswerView>,
    run: RunView,
)
    requires
        k <= n <= args.len(),
    ensures
        stringified(args, k, answers, run).result is Err ==> stringified(args, n, answers, run)
            == stringified(args, k, answers, run),
{
    if stringified(args, k, answers, run).result is Err {
        lemma_stringified_stops(args, k, n, answers, run);
    }
}

} // verus!
