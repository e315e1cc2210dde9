//! The evaluator and its host.
//!
//! The evaluator does no work outside itself. Where an expression needs a file,
//! the network, a subprocess, floating-point arithmetic, the codec of the wire
//! format or the body of a function that a script has defined, evaluation stops
//! with a request. The host does the work and appends its answer to the answers
//! that it has given so far, and evaluation is run again from the start: it is a
//! function of the expression, the environment and those answers, so it takes
//! the same path and goes on from where it stopped.
use vstd::prelude::*;
use vstd::string::*;
use crate::error::{plain_error, Error, ErrorKind, ErrorView};
use crate::number::{ArithOp, OrderOp};
use crate::principal::Principal;
use crate::text::{text_copy, texts_view};
use crate::types::{
    bindings_view, cache_view, Binding, BindingView, CacheEntry, CacheEntryView,
    CanisterInfo, CanisterInfoView,
};
use crate::value::{values_view, Value, ValueView};

verus! {

/// The types that the codec is to go by: type definitions and a list of types
/// stated over them.
#[derive(Debug, PartialEq, Eq)]
pub struct Types {
    pub env: String,
    pub types: Vec<String>,
}

pub struct TypesView {
    pub env: Seq<char>,
    pub types: Seq<Seq<char>>,
}

impl View for Types {
    type V = TypesView;

    open spec fn view(&self) -> TypesView {
        TypesView { env: self.env@, types: texts_view(self.types@) }
    }
}

pub open spec fn opt_types_view(t: Option<Types>) -> Option<TypesView> {
    match t {
        Some(x) => Some(x@),
        None => None,
    }
}

/// A call as it goes out: the canister, the canister by which it is routed, the
/// method and the encoded arguments.
#[derive(Debug, PartialEq, Eq)]
pub struct CallSpec {
    pub canister: Principal,
    pub effective: Principal,
    pub method: String,
    pub args: Vec<u8>,
}

pub struct CallSpecView {
    pub canister: Seq<u8>,
    pub effective: Seq<u8>,
    pub method: Seq<char>,
    pub args: Seq<u8>,
}

impl View for CallSpec {
    type V = CallSpecView;

    open spec fn view(&self) -> CallSpecView {
        CallSpecView {
            canister: self.canister@,
            effective: self.effective@,
            method: self.method@,
            args: self.args@,
        }
    }
}

pub open spec fn calls_view(s: Seq<CallSpec>) -> Seq<CallSpecView> {
    Seq::new(s.len(), |i: int| s[i]@)
}

/// The descriptor by which the status of a signed update call is asked for.
#[derive(Debug, PartialEq, Eq)]
pub struct RequestStatus {
    pub canister_id: Principal,
    pub request_id: String,
    pub content: String,
}

pub struct RequestStatusView {
    pub canister_id: Seq<u8>,
    pub request_id: Seq<char>,
    pub content: Seq<char>,
}

impl View for RequestStatus {
    type V = RequestStatusView;

    open spec fn view(&self) -> RequestStatusView {
        RequestStatusView {
            canister_id: self.canister_id@,
            request_id: self.request_id@,
            content: self.content@,
        }
    }
}

/// A signed request that was not sent: the kind of call, the request id and the
/// signed payload in hexadecimal, and for an update call its status descriptor.
#[derive(Debug, PartialEq, Eq)]
pub struct Message {
    pub call_type: String,
    pub request_id: Option<String>,
    pub content: String,
    pub request_status: Option<RequestStatus>,
}

pub struct MessageView {
    pub call_type: Seq<char>,
    pub request_id: Option<Seq<char>>,
    pub content: Seq<char>,
    pub request_status: Option<RequestStatusView>,
}

impl View for Message {
    type V = MessageView;

    open spec fn view(&self) -> MessageView {
        MessageView {
            call_type: self.call_type@,
            request_id: match self.request_id {
                Some(s) => Some(s@),
                None => None,
            },
            content: self.content@,
            request_status: match self.request_status {
                Some(s) => Some(s@),
                None => None,
            },
        }
    }
}

impl Clone for Message {
    fn clone(&self) -> (r: Self)
        ensures
            r@ == self@,
    {
        Message {
            call_type: text_copy(self.call_type.as_str()),
            request_id: match &self.request_id {
                Some(s) => Some(text_copy(s.as_str())),
                None => None,
            },
            content: text_copy(self.content.as_str()),
            request_status: match &self.request_status {
                Some(s) => Some(
                    RequestStatus {
                        canister_id: s.canister_id.clone(),
                        request_id: text_copy(s.request_id.as_str()),
                        content: text_copy(s.content.as_str()),
                    },
                ),
                None => None,
            },
        }
    }
}

pub open spec fn messages_view(s: Seq<Message>) -> Seq<MessageView> {
    Seq::new(s.len(), |i: int| s[i]@)
}

/// What the host is asked to do.
#[derive(Debug, PartialEq, Eq)]
#[allow(inconsistent_fields)]
pub enum Request {
    /// Arithmetic on two numbers of which one is a float; the answer is a
    /// `Float64` value.
    FloatArith { op: ArithOp, lhs: Value, rhs: Value },
    /// An order test on two numbers of which one is a float; the answer is a
    /// `Bool` value.
    FloatOrder { op: OrderOp, lhs: Value, rhs: Value },
    /// Equality of two values of one type tag in which floats occur; the answer
    /// is a `Bool` value.
    FloatEqual { lhs: Value, rhs: Value },
    /// Convert a value to a declared type.
    Cast { value: Value, ty: String },
    /// Encode argument values, by the types given or else by their own types.
    Encode { args: Vec<Value>, types: Option<Types> },
    /// Decode a message, by the types given or else by the types it describes.
    Decode { bytes: Vec<u8>, types: Option<Types> },
    /// Ask the user for argument values of the given types.
    InputArgs { types: Types },
    /// Read a file.
    ReadFile { path: String },
    /// Run a command; the answer is the last line that it wrote, as a text.
    Exec { command: String, args: Vec<String>, cwd: Option<String>, silence: bool },
    /// Read a text as a value in the textual form of values.
    Parse { text: String },
    /// Append a text to a file.
    Output { file: String, content: String },
    /// Write the variables and their values to a file, a line for each.
    Export { path: String, bindings: Vec<Binding> },
    /// Compress a byte string into the gzip format.
    Gzip { data: Vec<u8> },
    /// Instrument a module for profiling.
    Instrument {
        module: Vec<u8>,
        trace_only_funcs: Vec<String>,
        start_address: Option<i64>,
        page_limit: Option<i32>,
    },
    /// Render the profile of a canister into a file; the answer is its cost.
    Flamegraph {
        canister: Principal,
        names: std::collections::BTreeMap<u16, String>,
        title: String,
        file: String,
    },
    /// Render a value as a text.
    Stringify { value: Value },
    /// The account of a principal, with a subaccount where one is given.
    Account { principal: Principal, subaccount: Option<Vec<u8>> },
    /// The subaccount that stands for a principal.
    Subaccount { principal: Principal },
    /// The account of the neuron of a principal with a nonce.
    NeuronAccount { principal: Principal, nonce: u64 },
    /// Fetch the interface of a canister.
    FetchInterface { canister: Principal },
    /// The canister by which a call is routed, where it is not the target.
    Route { canister: Principal, method: String, args: Vec<u8> },
    /// Send a call and wait for the reply.
    Call { call: CallSpec, query: bool },
    /// Sign a call without sending it.
    Sign { call: CallSpec, query: bool },
    /// Sign a request for the status of a signed update call.
    SignStatus { effective: Principal, request_id: Vec<u8> },
    /// Hand a signed message to the output.
    Emit { message: Message },
    /// The count of instructions that a canister has run.
    Cycles { canister: Principal },
    /// Send several update calls at once and wait for all of them.
    Batch { calls: Vec<CallSpec> },
    /// Read from the certified state.
    ReadState { effective: Option<Principal>, path: Vec<Value> },
    /// Send signed messages that were made earlier: the one that the text
    /// describes, or the list of them where `many` is set.
    Send { message: String, many: bool },
    /// Run the body of a function in the given scope; the answer is the scope
    /// after it.
    RunFunction { name: String, scope: Vec<Binding> },
    /// Run a script in the given scope, with the interface of the relay known;
    /// the answer is the scope after it.
    RunScript { code: String, scope: Vec<Binding>, relay: Principal, interface: CanisterInfo },
}

#[allow(inconsistent_fields)]
pub enum RequestView {
    FloatArith { op: ArithOp, lhs: ValueView, rhs: ValueView },
    FloatOrder { op: OrderOp, lhs: ValueView, rhs: ValueView },
    FloatEqual { lhs: ValueView, rhs: ValueView },
    Cast { value: ValueView, ty: Seq<char> },
    Encode { args: Seq<ValueView>, types: Option<TypesView> },
    Decode { bytes: Seq<u8>, types: Option<TypesView> },
    InputArgs { types: TypesView },
    ReadFile { path: Seq<char> },
    Exec { command: Seq<char>, args: Seq<Seq<char>>, cwd: Option<Seq<char>>, silence: bool },
    Parse { text: Seq<char> },
    Output { file: Seq<char>, content: Seq<char> },
    Export { path: Seq<char>, bindings: Seq<BindingView> },
    Gzip { data: Seq<u8> },
    Instrument {
        module: Seq<u8>,
        trace_only_funcs: Seq<Seq<char>>,
        start_address: Option<i64>,
        page_limit: Option<i32>,
    },
    Flamegraph {
        canister: Seq<u8>,
        names: Map<u16, String>,
        title: Seq<char>,
        file: Seq<char>,
    },
    Stringify { value: ValueView },
    Account { principal: Seq<u8>, subaccount: Option<Seq<u8>> },
    Subaccount { principal: Seq<u8> },
    NeuronAccount { principal: Seq<u8>, nonce: u64 },
    FetchInterface { canister: Seq<u8> },
    Route { canister: Seq<u8>, method: Seq<char>, args: Seq<u8> },
    Call { call: CallSpecView, query: bool },
    Sign { call: CallSpecView, query: bool },
    SignStatus { effective: Seq<u8>, request_id: Seq<u8> },
    Emit { message: MessageView },
    Cycles { canister: Seq<u8> },
    Batch { calls: Seq<CallSpecView> },
    ReadState { effective: Option<Seq<u8>>, path: Seq<ValueView> },
    Send { message: Seq<char>, many: bool },
    RunFunction { name: Seq<char>, scope: Seq<BindingView> },
    RunScript {
        code: Seq<char>,
        scope: Seq<BindingView>,
        relay: Seq<u8>,
        interface: CanisterInfoView,
    },
}

pub open spec fn opt_text_view(s: Option<String>) -> Option<Seq<char>> {
    match s {
        Some(x) => Some(x@),
        None => None,
    }
}

pub open spec fn opt_bytes_view(s: Option<Vec<u8>>) -> Option<Seq<u8>> {
    match s {
        Some(x) => Some(x@),
        None => None,
    }
}

pub open spec fn opt_principal_view(s: Option<Principal>) -> Option<Seq<u8>> {
    match s {
        Some(x) => Some(x@),
        None => None,
    }
}

impl View for Request {
    type V = RequestView;

    open spec fn view(&self) -> RequestView {
        match self {
            Request::FloatArith { op, lhs, rhs } => RequestView::FloatArith {
                op: *op,
                lhs: lhs@,
                rhs: rhs@,
            },
            Request::FloatOrder { op, lhs, rhs } => RequestView::FloatOrder {
                op: *op,
                lhs: lhs@,
                rhs: rhs@,
            },
            Request::FloatEqual { lhs, rhs } => RequestView::FloatEqual { lhs: lhs@, rhs: rhs@ },
            Request::Cast { value, ty } => RequestView::Cast { value: value@, ty: ty@ },
            Request::Encode { args, types } => RequestView::Encode {
                args: values_view(args@),
                types: opt_types_view(*types),
            },
            Request::Decode { bytes, types } => RequestView::Decode {
                bytes: bytes@,
                types: opt_types_view(*types),
            },
            Request::InputArgs { types } => RequestView::InputArgs { types: types@ },
            Request::ReadFile { path } => RequestView::ReadFile { path: path@ },
            Request::Exec { command, args, cwd, silence } => RequestView::Exec {
                command: command@,
                args: texts_view(args@),
                cwd: opt_text_view(*cwd),
                silence: *silence,
            },
            Request::Parse { text } => RequestView::Parse { text: text@ },
            Request::Output { file, content } => RequestView::Output {
                file: file@,
                content: content@,
            },
            Request::Export { path, bindings } => RequestView::Export {
                path: path@,
                bindings: bindings_view(bindings@),
            },
            Request::Gzip { data } => RequestView::Gzip { data: data@ },
            Request::Instrument {
                module,
                trace_only_funcs,
                start_address,
                page_limit,
            } => RequestView::Instrument {
                module: module@,
                trace_only_funcs: texts_view(trace_only_funcs@),
                start_address: *start_address,
                page_limit: *page_limit,
            },
            Request::Flamegraph { canister, names, title, file } => RequestView::Flamegraph {
                canister: canister@,
                names: names@,
                title: title@,
                file: file@,
            },
            Request::Stringify { value } => RequestView::Stringify { value: value@ },
            Request::Account { principal, subaccount } => RequestView::Account {
                principal: principal@,
                subaccount: opt_bytes_view(*subaccount),
            },
            Request::Subaccount { principal } => RequestView::Subaccount { principal: principal@ },
            Request::NeuronAccount { principal, nonce } => RequestView::NeuronAccount {
                principal: principal@,
                nonce: *nonce,
            },
            Request::FetchInterface { canister } => RequestView::FetchInterface {
                canister: canister@,
            },
            Request::Route { canister, method, args } => RequestView::Route {
                canister: canister@,
                method: method@,
                args: args@,
            },
            Request::Call { call, query } => RequestView::Call { call: call@, query: *query },
            Request::Sign { call, query } => RequestView::Sign { call: call@, query: *query },
            Request::SignStatus { effective, request_id } => RequestView::SignStatus {
                effective: effective@,
                request_id: request_id@,
            },
            Request::Emit { message } => RequestView::Emit { message: message@ },
            Request::Cycles { canister } => RequestView::Cycles { canister: canister@ },
            Request::Batch { calls } => RequestView::Batch { calls: calls_view(calls@) },
            Request::ReadState { effective, path } => RequestView::ReadState {
                effective: opt_principal_view(*effective),
                path: values_view(path@),
            },
            Request::Send { message, many } => RequestView::Send {
                message: message@,
                many: *many,
            },
            Request::RunFunction { name, scope } => RequestView::RunFunction {
                name: name@,
                scope: bindings_view(scope@),
            },
            Request::RunScript { code, scope, relay, interface } => RequestView::RunScript {
                code: code@,
                scope: bindings_view(scope@),
                relay: relay@,
                interface: interface@,
            },
        }
    }
}

/// How one call of a batch ended: with the reply, or with a message of what
/// failed.
#[derive(Debug, PartialEq, Eq)]
pub enum Outcome {
    Reply(Vec<u8>),
    Failure(String),
}

pub enum OutcomeView {
    Reply(Seq<u8>),
    Failure(Seq<char>),
}

impl View for Outcome {
    type V = OutcomeView;

    open spec fn view(&self) -> OutcomeView {
        match self {
            Outcome::Reply(b) => OutcomeView::Reply(b@),
            Outcome::Failure(m) => OutcomeView::Failure(m@),
        }
    }
}

pub open spec fn outcomes_view(s: Seq<Outcome>) -> Seq<OutcomeView> {
    Seq::new(s.len(), |i: int| s[i]@)
}

/// What the host answers.
#[derive(Debug, PartialEq, Eq)]
pub enum Answer {
    Value(Value),
    Values(Vec<Value>),
    Bytes(Vec<u8>),
    Scope(Vec<Binding>),
    Interface(CanisterInfo),
    Route(Option<Principal>),
    /// The id of a signed request and its signed payload.
    Signed { request_id: Vec<u8>, content: Vec<u8> },
    Batch(Vec<Outcome>),
    /// The work is done and there is nothing to hand back.
    Unit,
    /// The work failed, with this message.
    Failed(String),
}

pub enum AnswerView {
    Value(ValueView),
    Values(Seq<ValueView>),
    Bytes(Seq<u8>),
    Scope(Seq<BindingView>),
    Interface(CanisterInfoView),
    Route(Option<Seq<u8>>),
    Signed { request_id: Seq<u8>, content: Seq<u8> },
    Batch(Seq<OutcomeView>),
    Unit,
    Failed(Seq<char>),
}

impl View for Answer {
    type V = AnswerView;

    open spec fn view(&self) -> AnswerView {
        match self {
            Answer::Value(v) => AnswerView::Value(v@),
            Answer::Values(v) => AnswerView::Values(values_view(v@)),
            Answer::Bytes(b) => AnswerView::Bytes(b@),
            Answer::Scope(s) => AnswerView::Scope(bindings_view(s@)),
            Answer::Interface(i) => AnswerView::Interface(i@),
            Answer::Route(p) => AnswerView::Route(opt_principal_view(*p)),
            Answer::Signed { request_id, content } => AnswerView::Signed {
                request_id: request_id@,
                content: content@,
            },
            Answer::Batch(o) => AnswerView::Batch(outcomes_view(o@)),
            Answer::Unit => AnswerView::Unit,
            Answer::Failed(m) => AnswerView::Failed(m@),
        }
    }
}

pub open spec fn answers_view(s: Seq<Answer>) -> Seq<AnswerView> {
    Seq::new(s.len(), |i: int| s[i]@)
}

/// Why an evaluation stopped without a value: it failed, or it waits for the
/// host.
#[derive(Debug, PartialEq, Eq)]
pub enum Halt {
    Failed(Error),
    Pending(Request),
}

pub enum HaltView {
    Failed(ErrorView),
    Pending(RequestView),
}

impl View for Halt {
    type V = HaltView;

    open spec fn view(&self) -> HaltView {
        match self {
            Halt::Failed(e) => HaltView::Failed(e@),
            Halt::Pending(r) => HaltView::Pending(r@),
        }
    }
}

/// What an evaluation has used and changed so far: how many of the host's
/// answers it has read, the interfaces it knows, and the signed messages it has
/// logged.
#[derive(Debug, PartialEq, Eq)]
pub struct Run {
    pub cursor: usize,
    pub cache: Vec<CacheEntry>,
    pub messages: Vec<Message>,
}

pub struct RunView {
    pub cursor: nat,
    pub cache: Seq<CacheEntryView>,
    pub messages: Seq<MessageView>,
}

impl View for Run {
    type V = RunView;

    open spec fn view(&self) -> RunView {
        RunView {
            cursor: self.cursor as nat,
            cache: cache_view(self.cache@),
            messages: messages_view(self.messages@),
        }
    }
}

/// The error for an answer that failed.
pub open spec fn transport_error(message: Seq<char>) -> ErrorView {
    plain_error(ErrorKind::Transport, message)
}

/// The error for an answer of a kind that the request does not ask for.
pub open spec fn protocol_error() -> ErrorView {
    plain_error(ErrorKind::Protocol, "unexpected answer from the host"@)
}

/// The answer to the next request, where the host has given it, and the run
/// after reading it; else the request is pending.
pub open spec fn asked(answers: Seq<AnswerView>, run: RunView, request: RequestView) -> Result<
    (AnswerView, RunView),
    HaltView,
> {
    if run.cursor < answers.len() {
        Ok((answers[run.cursor as int], RunView { cursor: run.cursor + 1, ..run }))
    } else {
        Err(HaltView::Pending(request))
    }
}

/// Reads the host's answer to a request, or stops with the request.
pub fn ask<'a>(answers: &'a Vec<Answer>, run: &mut Run, request: Request) -> (r: Result<
    &'a Answer,
    Halt,
>)
    ensures
        match asked(answers_view(answers@), old(run)@, request@) {
            Ok((a, next)) => r matches Ok(x) && x@ == a && final(run)@ == next,
            Err(h) => r matches Err(x) && x@ == h && final(run)@ == old(run)@,
        },
{
    if run.cursor < answers.len() {
        let a = &answers[run.cursor];
        run.cursor = run.cursor + 1;
        Ok(a)
    } else {
        Err(Halt::Pending(request))
    }
}

/// The error for a failed answer.
pub fn transport_failure(message: &str) -> (r: Halt)
    ensures
        r@ == HaltView::Failed(transport_error(message@)),
{
    Halt::Failed(Error::new(ErrorKind::Transport, message))
}

/// The error for an answer of the wrong kind.
pub fn protocol_failure() -> (r: Halt)
    ensures
        r@ == HaltView::Failed(protocol_error()),
{
    Halt::Failed(Error::new(ErrorKind::Protocol, "unexpected answer from the host"))
}

/// An outcome of some stage of an evaluation and the run after it.
pub struct Stage<T> {
    pub result: Result<T, HaltView>,
    pub run: RunView,
}

/// A stage that failed.
pub open spec fn stopped<T>(e: ErrorView, run: RunView) -> Stage<T> {
    Stage { result: Err(HaltView::Failed(e)), run }
}

/// A stage that came to a result.
pub open spec fn reached<T>(v: T, run: RunView) -> Stage<T> {
    Stage { result: Ok(v), run }
}

/// A result that needed no host, as a stage from which the run goes on
/// unchanged.
pub open spec fn settled<T>(r: Result<T, ErrorView>, run: RunView) -> Stage<T> {
    match r {
        Ok(v) => reached(v, run),
        Err(e) => stopped(e, run),
    }
}

/// The views of an outcome of evaluation.
pub open spec fn result_view(r: Result<Value, Halt>) -> Result<ValueView, HaltView> {
    match r {
        Ok(v) => Ok(v@),
        Err(h) => Err(h@),
    }
}

/// A value answer as a result.
pub open spec fn value_answer(a: AnswerView) -> Result<ValueView, HaltView> {
    match a {
        AnswerView::Value(v) => Ok(v),
        AnswerView::Failed(m) => Err(HaltView::Failed(transport_error(m))),
        _ => Err(HaltView::Failed(protocol_error())),
    }
}

/// A bytes answer as a result: a byte string.
pub open spec fn bytes_answer(a: AnswerView) -> Result<ValueView, HaltView> {
    match a {
        AnswerView::Bytes(b) => Ok(ValueView::Blob(b)),
        AnswerView::Failed(m) => Err(HaltView::Failed(transport_error(m))),
        _ => Err(HaltView::Failed(protocol_error())),
    }
}

/// The answer that nothing is to be handed back, as a result with the value
/// given.
pub open spec fn unit_answer(a: AnswerView, v: ValueView) -> Result<ValueView, HaltView> {
    match a {
        AnswerView::Unit => Ok(v),
        AnswerView::Failed(m) => Err(HaltView::Failed(transport_error(m))),
        _ => Err(HaltView::Failed(protocol_error())),
    }
}

/// A request whose answer is a value.
pub open spec fn value_request(answers: Seq<AnswerView>, run: RunView, request: RequestView)
    -> Stage<ValueView> {
    match asked(answers, run, request) {
        Ok((a, next)) => Stage { result: value_answer(a), run: next },
        Err(h) => Stage { result: Err(h), run },
    }
}

/// A request whose answer is a byte string.
pub open spec fn bytes_request(answers: Seq<AnswerView>, run: RunView, request: RequestView)
    -> Stage<ValueView> {
    match asked(answers, run, request) {
        Ok((a, next)) => Stage { result: bytes_answer(a), run: next },
        Err(h) => Stage { result: Err(h), run },
    }
}

/// A request that hands nothing back; its result is the value given.
pub open spec fn unit_request(
    answers: Seq<AnswerView>,
    run: RunView,
    request: RequestView,
    v: ValueView,
) -> Stage<ValueView> {
    match asked(answers, run, request) {
        Ok((a, next)) => Stage { result: unit_answer(a, v), run: next },
        Err(h) => Stage { result: Err(h), run },
    }
}

/// Asks for a value.
pub fn request_value(answers: &Vec<Answer>, run: &mut Run, request: Request) -> (r: Result<
    Value,
    Halt,
>)
    ensures
        result_view(r) == value_request(answers_view(answers@), old(run)@, request@).result,
        final(run)@ == value_request(answers_view(answers@), old(run)@, request@).run,
{
    match ask(answers, run, request)? {
        Answer::Value(v) => Ok(v.duplicate()),
        Answer::Failed(m) => Err(transport_failure(m.as_str())),
        _ => Err(protocol_failure()),
    }
}

/// Asks for a byte string.
pub fn request_bytes(answers: &Vec<Answer>, run: &mut Run, request: Request) -> (r: Result<
    Value,
    Halt,
>)
    ensures
        result_view(r) == bytes_request(answers_view(answers@), old(run)@, request@).result,
        final(run)@ == bytes_request(answers_view(answers@), old(run)@, request@).run,
{
    match ask(answers, run, request)? {
        Answer::Bytes(b) => Ok(Value::Blob(crate::text::bytes_copy(b))),
        Answer::Failed(m) => Err(transport_failure(m.as_str())),
        _ => Err(protocol_failure()),
    }
}

/// Asks for work that hands nothing back.
pub fn request_unit(answers: &Vec<Answer>, run: &mut Run, request: Request, v: Value) -> (r:
    Result<Value, Halt>)
    ensures
        result_view(r) == unit_request(answers_view(answers@), old(run)@, request@, v@).result,
        final(run)@ == unit_request(answers_view(answers@), old(run)@, request@, v@).run,
{
    match ask(answers, run, request)? {
        Answer::Unit => Ok(v),
        Answer::Failed(m) => Err(transport_failure(m.as_str())),
        _ => Err(protocol_failure()),
    }
}

/// The first two bytes of every gzip stream.
pub open spec fn gzip_header(stream: Seq<u8>) -> bool {
    stream.len() >= 2 && stream[0] == 31 && stream[1] == 139
}

/// What a gzip stream decodes to, where it decodes: the result of
/// `libflate::gzip::Decoder`, made with `new` on the stream and read to the end.
pub uninterp spec fn gunzipped(stream: Seq<u8>) -> Option<Seq<u8>>;

/// Calls `libflate::gzip::Encoder`: `new` on an empty buffer, `write_all` with
/// the data, then `finish` and `into_result`. The stream that comes out holds the
/// time at which it was made, so the contract claims of it only what holds of
/// every outcome: it begins with the two identification bytes of the format,
/// which `new` writes before anything else.
#[verifier::external_body]
fn gzip_stream(data: &Vec<u8>) -> (r: Result<Vec<u8>, String>)
    ensures
        r matches Ok(b) ==> gzip_header(b@),
{
    let mut encoder = libflate::gzip::Encoder::new(Vec::with_capacity(data.len())).map_err(
        |e| e.to_string(),
    )?;
    std::io::Write::write_all(&mut encoder, data).map_err(|e| e.to_string())?;
    encoder.finish().into_result().map_err(|e| e.to_string())
}

/// Calls `libflate::gzip::Decoder::new` on the stream and reads it to the end.
/// The contract claims that the outcome depends on the stream alone.
#[verifier::external_body]
fn gunzip(stream: &Vec<u8>) -> (r: Option<Vec<u8>>)
    ensures
        opt_bytes_view(r) == gunzipped(stream@),
{
    let mut decoder = libflate::gzip::Decoder::new(&stream[..]).ok()?;
    let mut data = Vec::new();
    std::io::Read::read_to_end(&mut decoder, &mut data).ok()?;
    Some(data)
}

/// A gzip stream of some data: it begins as every gzip stream does, and it
/// decodes to the data.
pub open spec fn gzip_of(stream: Seq<u8>, data: Seq<u8>) -> bool {
    gzip_header(stream) && gunzipped(stream) == Some(data)
}

/// Whether a byte string is a gzip stream of the data.
pub fn is_gzip_of(stream: &Vec<u8>, data: &Vec<u8>) -> (r: bool)
    ensures
        r == gzip_of(stream@, data@),
{
    if !(stream.len() >= 2 && stream[0] == 31 && stream[1] == 139) {
        return false;
    }
    match gunzip(stream) {
        Some(back) => crate::text::bytes_eq(&back, data),
        None => false,
    }
}

/// Whether a request is one that `perform` answers.
pub open spec fn performed_here(request: RequestView) -> bool {
    request is Gzip
}

/// What holds of the answer that `perform` gives to a request: a request to
/// compress is answered with a gzip stream of the data of the request, or with
/// a failure.
pub open spec fn performed(request: RequestView, answer: AnswerView) -> bool {
    match request {
        RequestView::Gzip { data } => match answer {
            AnswerView::Bytes(b) => gzip_of(b, data),
            AnswerView::Failed(_) => true,
            _ => false,
        },
        _ => false,
    }
}

/// The views of what the encoder gave.
pub open spec fn outcome_view(o: Result<Vec<u8>, String>) -> Result<Seq<u8>, Seq<char>> {
    match o {
        Ok(b) => Ok(b@),
        Err(m) => Err(m@),
    }
}

/// The answer that follows from what the encoder gave for some data: the
/// stream where it is a gzip stream of the data, a failure of the library's
/// own where it is not, and the encoder's failure where it failed.
pub open spec fn checked_stream(o: Result<Seq<u8>, Seq<char>>, data: Seq<u8>) -> AnswerView {
    match o {
        Ok(b) => if gzip_of(b, data) {
            AnswerView::Bytes(b)
        } else {
            AnswerView::Failed("the stream does not decode to the data"@)
        },
        Err(m) => AnswerView::Failed(m),
    }
}

/// Makes the answer to a request to compress of what the encoder gave.
pub fn stream_answer(o: Result<Vec<u8>, String>, data: &Vec<u8>) -> (a: Answer)
    ensures
        a@ == checked_stream(outcome_view(o), data@),
{
    match o {
        Ok(b) => {
            if is_gzip_of(&b, data) {
                Answer::Bytes(b)
            } else {
                Answer::Failed(text_copy("the stream does not decode to the data"))
            }
        },
        Err(m) => Answer::Failed(m),
    }
}

/// Answers a request that needs nothing from outside but the clock: the
/// compression of a byte string. The data of the request goes to the encoder,
/// and the answer is what `stream_answer` makes of the outcome: the stream is
/// handed back only where it decodes to the data again. For every other
/// request there is no answer here, and the host has to give one.
pub fn perform(request: &Request) -> (r: Option<Answer>)
    ensures
        r is Some == performed_here(request@),
        r matches Some(a) ==> performed(request@, a@),
{
    match request {
        Request::Gzip { data } => Some(stream_answer(gzip_stream(data), data)),
        _ => None,
    }
}

impl Clone for Types {
    fn clone(&self) -> (r: Self)
        ensures
            r@ == self@,
    {
        Types { env: text_copy(self.env.as_str()), types: crate::text::texts_copy(&self.types) }
    }
}

impl Clone for CallSpec {
    fn clone(&self) -> (r: Self)
        ensures
            r@ == self@,
    {
        CallSpec {
            canister: self.canister.clone(),
            effective: self.effective.clone(),
            method: text_copy(self.method.as_str()),
            args: crate::text::bytes_copy(&self.args),
        }
    }
}

impl Clone for Outcome {
    fn clone(&self) -> (r: Self)
        ensures
            r@ == self@,
    {
        match self {
            Outcome::Reply(b) => Outcome::Reply(crate::text::bytes_copy(b)),
            Outcome::Failure(m) => Outcome::Failure(text_copy(m.as_str())),
        }
    }
}

fn outcomes_copy(a: &Vec<Outcome>) -> (r: Vec<Outcome>)
    ensures
        outcomes_view(r@) == outcomes_view(a@),
{
    let mut r: Vec<Outcome> = Vec::new();
    let mut i: usize = 0;
    while i < a.len()
        invariant
            i <= a.len(),
            r@.len() == i,
            forall|k: int| 0 <= k < i ==> r@[k]@ == a@[k]@,
        decreases a.len() - i,
    {
        r.push(a[i].clone());
        i += 1;
    }
    assert(outcomes_view(r@) =~= outcomes_view(a@));
    r
}

impl Clone for Answer {
    fn clone(&self) -> (r: Self)
        ensures
            r@ == self@,
    {
        match self {
            Answer::Value(v) => Answer::Value(v.duplicate()),
            Answer::Values(v) => Answer::Values(crate::value::values_copy(v)),
            Answer::Bytes(b) => Answer::Bytes(crate::text::bytes_copy(b)),
            Answer::Scope(s) => Answer::Scope(crate::types::bindings_copy(s)),
            Answer::Interface(i) => Answer::Interface(i.clone()),
            Answer::Route(p) => Answer::Route(
                match p {
                    Some(x) => Some(x.clone()),
                    None => None,
                },
            ),
            Answer::Signed { request_id, content } => Answer::Signed {
                request_id: crate::text::bytes_copy(request_id),
                content: crate::text::bytes_copy(content),
            },
            Answer::Batch(o) => Answer::Batch(outcomes_copy(o)),
            Answer::Unit => Answer::Unit,
            Answer::Failed(m) => Answer::Failed(text_copy(m.as_str())),
        }
    }
}

} // verus!
