//! The builtin functions, by name, and those among them that compute on values
//! alone or with the help of floating-point arithmetic.
use vstd::prelude::*;
use vstd::string::*;
use crate::equality::{equal_values, holds_float, tag};
use crate::error::{plain_error, Error, ErrorKind, ErrorView};
use crate::host::{
    answers_view, reached, result_view, stopped, Answer, AnswerView, Halt, HaltView, Request,
    RequestView, Run, RunView, Stage,
};
use crate::number::{
    arith_result, int_arith, int_order, int_text, int_value, is_int_literal, is_int_literal_text,
    lemma_int_text, order_result, text_of_i64, text_of_u64, ArithOp, OrderOp,
};
use crate::record::{merge_records, merged_records};
use crate::text::{bytes_join, text_copy, text_eq, text_join};
use crate::value::{values_view, Value, ValueView};

verus! {

/// The builtin functions.
#[derive(Debug, Clone, Copy, PartialEq, Eq)]
pub enum Builtin {
    Ite,
    Exist,
    Export,
    Account,
    Subaccount,
    NeuronAccount,
    ReplicaUrl,
    ReadState,
    File,
    Gzip,
    Exec,
    Send,
    WasmProfiling,
    Flamegraph,
    Output,
    Stringify,
    Concat,
    Eq,
    Neq,
    And,
    Or,
    Not,
    Lt,
    Lte,
    Gt,
    Gte,
    Add,
    Sub,
    Mul,
    Div,
}

/// The name by which a script calls a builtin.
pub open spec fn builtin_name(b: Builtin) -> Seq<char> {
    match b {
        Builtin::Ite => "ite"@,
        Builtin::Exist => "exist"@,
        Builtin::Export => "export"@,
        Builtin::Account => "account"@,
        Builtin::Subaccount => "subaccount"@,
        Builtin::NeuronAccount => "neuron_account"@,
        Builtin::ReplicaUrl => "replica_url"@,
        Builtin::ReadState => "read_state"@,
        Builtin::File => "file"@,
        Builtin::Gzip => "gzip"@,
        Builtin::Exec => "exec"@,
        Builtin::Send => "send"@,
        Builtin::WasmProfiling => "wasm_profiling"@,
        Builtin::Flamegraph => "flamegraph"@,
        Builtin::Output => "output"@,
        Builtin::Stringify => "stringify"@,
        Builtin::Concat => "concat"@,
        Builtin::Eq => "eq"@,
        Builtin::Neq => "neq"@,
        Builtin::And => "and"@,
        Builtin::Or => "or"@,
        Builtin::Not => "not"@,
        Builtin::Lt => "lt"@,
        Builtin::Lte => "lte"@,
        Builtin::Gt => "gt"@,
        Builtin::Gte => "gte"@,
        Builtin::Add => "add"@,
        Builtin::Sub => "sub"@,
        Builtin::Mul => "mul"@,
        Builtin::Div => "div"@,
    }
}

/// The builtin that a name calls: one whose name it is.
pub open spec fn builtin_named(name: Seq<char>) -> Option<Builtin> {
    if exists|b: Builtin| builtin_name(b) == name {
        Some(choose|b: Builtin| builtin_name(b) == name)
    } else {
        None
    }
}

/// What the names of the builtins hold.
pub proof fn lemma_builtin_names()
    ensures
        builtin_name(Builtin::Ite) =~= seq!['i', 't', 'e'],
        builtin_name(Builtin::Exist) =~= seq!['e', 'x', 'i', 's', 't'],
        builtin_name(Builtin::Export) =~= seq!['e', 'x', 'p', 'o', 'r', 't'],
        builtin_name(Builtin::Account) =~= seq!['a', 'c', 'c', 'o', 'u', 'n', 't'],
        builtin_name(Builtin::Subaccount) =~= seq!['s', 'u', 'b', 'a', 'c', 'c', 'o', 'u', 'n', 't'],
        builtin_name(Builtin::NeuronAccount) =~= seq!['n', 'e', 'u', 'r', 'o', 'n', '_', 'a', 'c', 'c', 'o', 'u', 'n', 't'],
        builtin_name(Builtin::ReplicaUrl) =~= seq!['r', 'e', 'p', 'l', 'i', 'c', 'a', '_', 'u', 'r', 'l'],
        builtin_name(Builtin::ReadState) =~= seq!['r', 'e', 'a', 'd', '_', 's', 't', 'a', 't', 'e'],
        builtin_name(Builtin::File) =~= seq!['f', 'i', 'l', 'e'],
        builtin_name(Builtin::Gzip) =~= seq!['g', 'z', 'i', 'p'],
        builtin_name(Builtin::Exec) =~= seq!['e', 'x', 'e', 'c'],
        builtin_name(Builtin::Send) =~= seq!['s', 'e', 'n', 'd'],
        builtin_name(Builtin::WasmProfiling) =~= seq!['w', 'a', 's', 'm', '_', 'p', 'r', 'o', 'f', 'i', 'l', 'i', 'n', 'g'],
        builtin_name(Builtin::Flamegraph) =~= seq!['f', 'l', 'a', 'm', 'e', 'g', 'r', 'a', 'p', 'h'],
        builtin_name(Builtin::Output) =~= seq!['o', 'u', 't', 'p', 'u', 't'],
        builtin_name(Builtin::Stringify) =~= seq!['s', 't', 'r', 'i', 'n', 'g', 'i', 'f', 'y'],
        builtin_name(Builtin::Concat) =~= seq!['c', 'o', 'n', 'c', 'a', 't'],
        builtin_name(Builtin::Eq) =~= seq!['e', 'q'],
        builtin_name(Builtin::Neq) =~= seq!['n', 'e', 'q'],
        builtin_name(Builtin::And) =~= seq!['a', 'n', 'd'],
        builtin_name(Builtin::Or) =~= seq!['o', 'r'],
        builtin_name(Builtin::Not) =~= seq!['n', 'o', 't'],
        builtin_name(Builtin::Lt) =~= seq!['l', 't'],
        builtin_name(Builtin::Lte) =~= seq!['l', 't', 'e'],
        builtin_name(Builtin::Gt) =~= seq!['g', 't'],
        builtin_name(Builtin::Gte) =~= seq!['g', 't', 'e'],
        builtin_name(Builtin::Add) =~= seq!['a', 'd', 'd'],
        builtin_name(Builtin::Sub) =~= seq!['s', 'u', 'b'],
        builtin_name(Builtin::Mul) =~= seq!['m', 'u', 'l'],
        builtin_name(Builtin::Div) =~= seq!['d', 'i', 'v'],
{
    reveal_strlit("ite");
    reveal_strlit("exist");
    reveal_strlit("export");
    reveal_strlit("account");
    reveal_strlit("subaccount");
    reveal_strlit("neuron_account");
    reveal_strlit("replica_url");
    reveal_strlit("read_state");
    reveal_strlit("file");
    reveal_strlit("gzip");
    reveal_strlit("exec");
    reveal_strlit("send");
    reveal_strlit("wasm_profiling");
    reveal_strlit("flamegraph");
    reveal_strlit("output");
    reveal_strlit("stringify");
    reveal_strlit("concat");
    reveal_strlit("eq");
    reveal_strlit("neq");
    reveal_strlit("and");
    reveal_strlit("or");
    reveal_strlit("not");
    reveal_strlit("lt");
    reveal_strlit("lte");
    reveal_strlit("gt");
    reveal_strlit("gte");
    reveal_strlit("add");
    reveal_strlit("sub");
    reveal_strlit("mul");
    reveal_strlit("div");
}

/// No two builtins have one name.
pub proof fn lemma_builtin_names_distinct(a: Builtin, b: Builtin)
    requires
        builtin_name(a) == builtin_name(b),
    ensures
        a == b,
{
    lemma_builtin_names();
    let x = builtin_name(a);
    let y = builtin_name(b);
    assert(x.len() == y.len());
    assert(x.len() > 1);
    assert(x[0] == y[0]);
    assert(x[1] == y[1]);
    if x.len() > 2 {
        assert(x[2] == y[2]);
    }
}

/// The name of a builtin calls that builtin.
pub proof fn lemma_builtin_found(b: Builtin)
    ensures
        builtin_named(builtin_name(b)) == Some(b),
{
    let c = choose|c: Builtin| builtin_name(c) == builtin_name(b);
    lemma_builtin_names_distinct(c, b);
}

impl Builtin {
    /// The builtin that a name calls, where it calls one.
    pub fn from_name(name: &str) -> (r: Option<Builtin>)
        ensures
            r == builtin_named(name@),
    {
        let r: Option<Builtin> = if text_eq(name, "ite") {
            Some(Builtin::Ite)
        } else if text_eq(name, "exist") {
            Some(Builtin::Exist)
        } else if text_eq(name, "export") {
            Some(Builtin::Export)
        } else if text_eq(name, "account") {
            Some(Builtin::Account)
        } else if text_eq(name, "subaccount") {
            Some(Builtin::Subaccount)
        } else if text_eq(name, "neuron_account") {
            Some(Builtin::NeuronAccount)
        } else if text_eq(name, "replica_url") {
            Some(Builtin::ReplicaUrl)
        } else if text_eq(name, "read_state") {
            Some(Builtin::ReadState)
        } else if text_eq(name, "file") {
            Some(Builtin::File)
        } else if text_eq(name, "gzip") {
            Some(Builtin::Gzip)
        } else if text_eq(name, "exec") {
            Some(Builtin::Exec)
        } else if text_eq(name, "send") {
            Some(Builtin::Send)
        } else if text_eq(name, "wasm_profiling") {
            Some(Builtin::WasmProfiling)
        } else if text_eq(name, "flamegraph") {
            Some(Builtin::Flamegraph)
        } else if text_eq(name, "output") {
            Some(Builtin::Output)
        } else if text_eq(name, "stringify") {
            Some(Builtin::Stringify)
        } else if text_eq(name, "concat") {
            Some(Builtin::Concat)
        } else if text_eq(name, "eq") {
            Some(Builtin::Eq)
        } else if text_eq(name, "neq") {
            Some(Builtin::Neq)
        } else if text_eq(name, "and") {
            Some(Builtin::And)
        } else if text_eq(name, "or") {
            Some(Builtin::Or)
        } else if text_eq(name, "not") {
            Some(Builtin::Not)
        } else if text_eq(name, "lt") {
            Some(Builtin::Lt)
        } else if text_eq(name, "lte") {
            Some(Builtin::Lte)
        } else if text_eq(name, "gt") {
            Some(Builtin::Gt)
        } else if text_eq(name, "gte") {
            Some(Builtin::Gte)
        } else if text_eq(name, "add") {
            Some(Builtin::Add)
        } else if text_eq(name, "sub") {
            Some(Builtin::Sub)
        } else if text_eq(name, "mul") {
            Some(Builtin::Mul)
        } else if text_eq(name, "div") {
            Some(Builtin::Div)
        } else {
            None
        };
        proof {
            match r {
                Some(b) => {
                    lemma_builtin_found(b);
                },
                None => {
                    assert forall|b: Builtin| builtin_name(b) != name@ by {};
                },
            }
        }
        r
    }

    /// The name of this builtin.
    pub fn name(&self) -> (r: &'static str)
        ensures
            r@ == builtin_name(*self),
    {
        match self {
            Builtin::Ite => "ite",
            Builtin::Exist => "exist",
            Builtin::Export => "export",
            Builtin::Account => "account",
            Builtin::Subaccount => "subaccount",
            Builtin::NeuronAccount => "neuron_account",
            Builtin::ReplicaUrl => "replica_url",
            Builtin::ReadState => "read_state",
            Builtin::File => "file",
            Builtin::Gzip => "gzip",
            Builtin::Exec => "exec",
            Builtin::Send => "send",
            Builtin::WasmProfiling => "wasm_profiling",
            Builtin::Flamegraph => "flamegraph",
            Builtin::Output => "output",
            Builtin::Stringify => "stringify",
            Builtin::Concat => "concat",
            Builtin::Eq => "eq",
            Builtin::Neq => "neq",
            Builtin::And => "and",
            Builtin::Or => "or",
            Builtin::Not => "not",
            Builtin::Lt => "lt",
            Builtin::Lte => "lte",
            Builtin::Gt => "gt",
            Builtin::Gte => "gte",
            Builtin::Add => "add",
            Builtin::Sub => "sub",
            Builtin::Mul => "mul",
            Builtin::Div => "div",
        }
    }
}

/// The error for arguments of the wrong number or kinds.
pub open spec fn arguments_error(message: Seq<char>) -> ErrorView {
    plain_error(ErrorKind::Arguments, message)
}

/// `and`, `or` and `not`: on booleans, and on nothing else. A builtin other
/// than `not` and `and` counts as `or`.
pub open spec fn logic_builtin(b: Builtin, args: Seq<ValueView>) -> Result<ValueView, ErrorView> {
    match b {
        Builtin::Not => if args.len() == 1 && args[0] is Bool {
            Ok(ValueView::Bool(!args[0]->Bool_0))
        } else {
            Err(arguments_error("not expects a bool value"@))
        },
        _ => if args.len() == 2 && args[0] is Bool && args[1] is Bool {
            if b == Builtin::And {
                Ok(ValueView::Bool(args[0]->Bool_0 && args[1]->Bool_0))
            } else {
                Ok(ValueView::Bool(args[0]->Bool_0 || args[1]->Bool_0))
            }
        } else {
            Err(arguments_error(builtin_name(b) + " expects bool values"@))
        },
    }
}

/// `concat`: two vectors, two byte strings or two texts, one after the other,
/// or two records as one.
pub open spec fn concat_builtin(args: Seq<ValueView>) -> Result<ValueView, ErrorView> {
    if args.len() != 2 {
        Err(arguments_error("concat expects two vec, record or text"@))
    } else {
        match (args[0], args[1]) {
            (ValueView::Vec(a), ValueView::Vec(b)) => Ok(ValueView::Vec(a + b)),
            (ValueView::Blob(a), ValueView::Blob(b)) => Ok(ValueView::Blob(a + b)),
            (ValueView::Text(a), ValueView::Text(b)) => Ok(ValueView::Text(a + b)),
            (ValueView::Record(a), ValueView::Record(b)) => merged_records(a, b),
            _ => Err(arguments_error("concat expects two vec, record or text"@)),
        }
    }
}

/// The answer to a question of yes or no, turned round where `negate` says so.
pub open spec fn flag_answer(a: AnswerView, negate: bool) -> Result<ValueView, HaltView> {
    match a {
        AnswerView::Value(ValueView::Bool(b)) => Ok(ValueView::Bool(b != negate)),
        AnswerView::Failed(m) => Err(HaltView::Failed(crate::host::transport_error(m))),
        _ => Err(HaltView::Failed(crate::host::protocol_error())),
    }
}

/// A request whose answer is yes or no.
pub open spec fn flag_request(
    answers: Seq<AnswerView>,
    run: RunView,
    request: RequestView,
    negate: bool,
) -> Stage<ValueView> {
    match crate::host::asked(answers, run, request) {
        Ok((a, next)) => Stage { result: flag_answer(a, negate), run: next },
        Err(h) => Stage { result: Err(h), run },
    }
}

/// `eq` and `neq`: on two values of one type tag, whether they are equal. Where
/// floats occur in them the host compares. A builtin other than `neq` counts as
/// `eq`.
pub open spec fn equality_builtin(
    b: Builtin,
    args: Seq<ValueView>,
    answers: Seq<AnswerView>,
    run: RunView,
) -> Stage<ValueView> {
    let negate = b == Builtin::Neq;
    if args.len() != 2 {
        stopped(arguments_error(builtin_name(b) + " expects two values"@), run)
    } else if tag(args[0]) != tag(args[1]) {
        stopped(
            plain_error(
                ErrorKind::Semantic,
                builtin_name(b) + " expects two values of the same type"@,
            ),
            run,
        )
    } else if holds_float(args[0]) || holds_float(args[1]) {
        flag_request(answers, run, RequestView::FloatEqual { lhs: args[0], rhs: args[1] }, negate)
    } else {
        reached(ValueView::Bool(equal_values(args[0], args[1]) != negate), run)
    }
}

/// A value that is a float.
pub open spec fn is_float(v: ValueView) -> bool {
    v is Float32 || v is Float64
}

/// A value that is a number of some kind.
pub open spec fn is_numeric(v: ValueView) -> bool {
    match v {
        ValueView::Number(_) => true,
        ValueView::Int(_) => true,
        ValueView::Nat(_) => true,
        ValueView::Nat8(_) => true,
        ValueView::Nat16(_) => true,
        ValueView::Nat32(_) => true,
        ValueView::Nat64(_) => true,
        ValueView::Int8(_) => true,
        ValueView::Int16(_) => true,
        ValueView::Int32(_) => true,
        ValueView::Int64(_) => true,
        ValueView::Float32(_) => true,
        ValueView::Float64(_) => true,
        _ => false,
    }
}

/// The integer that a value holds, where it holds one.
pub open spec fn int_operand(v: ValueView) -> Option<int> {
    match v {
        ValueView::Number(s) => if is_int_literal(s) {
            Some(int_value(s))
        } else {
            None
        },
        ValueView::Int(s) => if is_int_literal(s) {
            Some(int_value(s))
        } else {
            None
        },
        ValueView::Nat(s) => if is_int_literal(s) {
            Some(int_value(s))
        } else {
            None
        },
        ValueView::Nat8(n) => Some(n as int),
        ValueView::Nat16(n) => Some(n as int),
        ValueView::Nat32(n) => Some(n as int),
        ValueView::Nat64(n) => Some(n as int),
        ValueView::Int8(n) => Some(n as int),
        ValueView::Int16(n) => Some(n as int),
        ValueView::Int32(n) => Some(n as int),
        ValueView::Int64(n) => Some(n as int),
        _ => None,
    }
}

pub open spec fn numbers_error(b: Builtin) -> ErrorView {
    arguments_error(builtin_name(b) + " expects two numbers"@)
}

pub open spec fn division_error() -> ErrorView {
    plain_error(ErrorKind::Semantic, "division by zero"@)
}

/// The answer to float arithmetic: a `Float64` value.
pub open spec fn float_answer(a: AnswerView) -> Result<ValueView, HaltView> {
    match a {
        AnswerView::Value(ValueView::Float64(x)) => Ok(ValueView::Float64(x)),
        AnswerView::Failed(m) => Err(HaltView::Failed(crate::host::transport_error(m))),
        _ => Err(HaltView::Failed(crate::host::protocol_error())),
    }
}

/// A request whose answer is a float.
pub open spec fn float_request(answers: Seq<AnswerView>, run: RunView, request: RequestView)
    -> Stage<ValueView> {
    match crate::host::asked(answers, run, request) {
        Ok((a, next)) => Stage { result: float_answer(a), run: next },
        Err(h) => Stage { result: Err(h), run },
    }
}

/// `add`, `sub`, `mul` and `div` on two numbers. Where one of them is a float
/// the host computes and the result is a float. Else both are integers, and the
/// result is the integer of unbounded size that the operation gives, division
/// rounding toward zero, written as a number without a type.
pub open spec fn arith_builtin(
    b: Builtin,
    op: ArithOp,
    args: Seq<ValueView>,
    answers: Seq<AnswerView>,
    run: RunView,
) -> Stage<ValueView> {
    if args.len() != 2 {
        stopped(numbers_error(b), run)
    } else if is_float(args[0]) || is_float(args[1]) {
        if is_numeric(args[0]) && is_numeric(args[1]) {
            float_request(
                answers,
                run,
                RequestView::FloatArith { op, lhs: args[0], rhs: args[1] },
            )
        } else {
            stopped(numbers_error(b), run)
        }
    } else {
        match (int_operand(args[0]), int_operand(args[1])) {
            (Some(x), Some(y)) => match arith_result(op, x, y) {
                Some(i) => reached(ValueView::Number(int_text(i)), run),
                None => stopped(division_error(), run),
            },
            _ => stopped(numbers_error(b), run),
        }
    }
}

/// `lt`, `lte`, `gt` and `gte` on two numbers: by the host where one of them is
/// a float, and else as integers.
pub open spec fn order_builtin(
    b: Builtin,
    op: OrderOp,
    args: Seq<ValueView>,
    answers: Seq<AnswerView>,
    run: RunView,
) -> Stage<ValueView> {
    if args.len() != 2 {
        stopped(numbers_error(b), run)
    } else if is_float(args[0]) || is_float(args[1]) {
        if is_numeric(args[0]) && is_numeric(args[1]) {
            flag_request(
                answers,
                run,
                RequestView::FloatOrder { op, lhs: args[0], rhs: args[1] },
                false,
            )
        } else {
            stopped(numbers_error(b), run)
        }
    } else {
        match (int_operand(args[0]), int_operand(args[1])) {
            (Some(x), Some(y)) => reached(ValueView::Bool(order_result(op, x, y)), run),
            _ => stopped(numbers_error(b), run),
        }
    }
}

/// An error of the given kind as a halt.
pub fn fail(kind: ErrorKind, message: &str) -> (r: Halt)
    ensures
        r@ == HaltView::Failed(plain_error(kind, message@)),
{
    Halt::Failed(Error::new(kind, message))
}

/// An error whose message is a name followed by a fixed text.
pub fn fail_named(kind: ErrorKind, name: &str, tail: &str) -> (r: Halt)
    ensures
        r@ == HaltView::Failed(plain_error(kind, name@ + tail@)),
{
    Halt::Failed(Error::with_detail(kind, name, tail))
}

/// Computes `not` for that builtin, `and` for that one, and `or` for any other.
pub fn logic(b: Builtin, args: &Vec<Value>) -> (r: Result<Value, Error>)
    ensures
        match logic_builtin(b, values_view(args@)) {
            Ok(v) => r matches Ok(x) && x@ == v,
            Err(e) => r matches Err(x) && x@ == e,
        },
{
    match b {
        Builtin::Not => {
            if args.len() == 1 {
                if let Value::Bool(x) = &args[0] {
                    return Ok(Value::Bool(!*x));
                }
            }
            Err(Error::new(ErrorKind::Arguments, "not expects a bool value"))
        },
        _ => {
            if args.len() == 2 {
                if let Value::Bool(x) = &args[0] {
                    if let Value::Bool(y) = &args[1] {
                        return Ok(
                            Value::Bool(
                                match b {
                                    Builtin::And => *x && *y,
                                    _ => *x || *y,
                                },
                            ),
                        );
                    }
                }
            }
            Err(Error::with_detail(ErrorKind::Arguments, b.name(), " expects bool values"))
        },
    }
}

fn values_join(a: &Vec<Value>, b: &Vec<Value>) -> (r: Vec<Value>)
    ensures
        values_view(r@) == values_view(a@) + values_view(b@),
{
    let mut r: Vec<Value> = Vec::new();
    let mut i: usize = 0;
    while i < a.len()
        invariant
            i <= a.len(),
            r@.len() == i,
            forall|k: int| 0 <= k < i ==> r@[k]@ == a@[k]@,
        decreases a.len() - i,
    {
        r.push(a[i].duplicate());
        i += 1;
    }
    let mut j: usize = 0;
    while j < b.len()
        invariant
            j <= b.len(),
            r@.len() == a.len() + j,
            forall|k: int| 0 <= k < a.len() ==> r@[k]@ == a@[k]@,
            forall|k: int| 0 <= k < j ==> r@[a.len() + k]@ == b@[k]@,
        decreases b.len() - j,
    {
        r.push(b[j].duplicate());
        j += 1;
    }
    assert(values_view(r@) =~= values_view(a@) + values_view(b@));
    r
}

/// Computes `concat`.
pub fn concat(args: &Vec<Value>) -> (r: Result<Value, Error>)
    ensures
        match concat_builtin(values_view(args@)) {
            Ok(v) => r matches Ok(x) && x@ == v,
            Err(e) => r matches Err(x) && x@ == e,
        },
{
    broadcast use crate::value::group_value_views;

    if args.len() == 2 {
        match &args[0] {
            Value::Vec(a) => {
                if let Value::Vec(b) = &args[1] {
                    return Ok(Value::Vec(values_join(a, b)));
                }
            },
            Value::Blob(a) => {
                if let Value::Blob(b) = &args[1] {
                    return Ok(Value::Blob(bytes_join(a, b)));
                }
            },
            Value::Text(a) => {
                if let Value::Text(b) = &args[1] {
                    return Ok(Value::Text(text_join(a.as_str(), b.as_str())));
                }
            },
            Value::Record(a) => {
                if let Value::Record(b) = &args[1] {
                    return merge_records(a, b);
                }
            },
            _ => {},
        }
    }
    Err(Error::new(ErrorKind::Arguments, "concat expects two vec, record or text"))
}

/// Asks a question of yes or no.
pub fn request_flag(answers: &Vec<Answer>, run: &mut Run, request: Request, negate: bool) -> (r:
    Result<Value, Halt>)
    ensures
        result_view(r) == flag_request(
            answers_view(answers@),
            old(run)@,
            request@,
            negate,
        ).result,
        final(run)@ == flag_request(answers_view(answers@), old(run)@, request@, negate).run,
{
    match crate::host::ask(answers, run, request)? {
        Answer::Value(Value::Bool(b)) => Ok(Value::Bool(*b != negate)),
        Answer::Failed(m) => Err(crate::host::transport_failure(m.as_str())),
        _ => Err(crate::host::protocol_failure()),
    }
}

/// Asks for float arithmetic.
pub fn request_float(answers: &Vec<Answer>, run: &mut Run, request: Request) -> (r: Result<
    Value,
    Halt,
>)
    ensures
        result_view(r) == float_request(answers_view(answers@), old(run)@, request@).result,
        final(run)@ == float_request(answers_view(answers@), old(run)@, request@).run,
{
    match crate::host::ask(answers, run, request)? {
        Answer::Value(Value::Float64(x)) => Ok(Value::Float64(*x)),
        Answer::Failed(m) => Err(crate::host::transport_failure(m.as_str())),
        _ => Err(crate::host::protocol_failure()),
    }
}

/// Computes `neq` for that builtin and `eq` for any other.
pub fn equality(b: Builtin, args: &Vec<Value>, answers: &Vec<Answer>, run: &mut Run) -> (r:
    Result<Value, Halt>)
    ensures
        result_view(r) == equality_builtin(
            b,
            values_view(args@),
            answers_view(answers@),
            old(run)@,
        ).result,
        final(run)@ == equality_builtin(
            b,
            values_view(args@),
            answers_view(answers@),
            old(run)@,
        ).run,
{
    let negate: bool = match b {
        Builtin::Neq => true,
        _ => false,
    };
    if args.len() != 2 {
        return Err(fail_named(ErrorKind::Arguments, b.name(), " expects two values"));
    }
    if !args[0].same_tag(&args[1]) {
        return Err(
            fail_named(ErrorKind::Semantic, b.name(), " expects two values of the same type"),
        );
    }
    if args[0].has_float() || args[1].has_float() {
        return request_flag(
            answers,
            run,
            Request::FloatEqual { lhs: args[0].duplicate(), rhs: args[1].duplicate() },
            negate,
        );
    }
    Ok(Value::Bool(args[0].equals(&args[1]) != negate))
}

fn float_value(v: &Value) -> (r: bool)
    ensures
        r == is_float(v@),
{
    match v {
        Value::Float32(_) => true,
        Value::Float64(_) => true,
        _ => false,
    }
}

fn numeric_value(v: &Value) -> (r: bool)
    ensures
        r == is_numeric(v@),
{
    match v {
        Value::Number(_) => true,
        Value::Int(_) => true,
        Value::Nat(_) => true,
        Value::Nat8(_) => true,
        Value::Nat16(_) => true,
        Value::Nat32(_) => true,
        Value::Nat64(_) => true,
        Value::Int8(_) => true,
        Value::Int16(_) => true,
        Value::Int32(_) => true,
        Value::Int64(_) => true,
        Value::Float32(_) => true,
        Value::Float64(_) => true,
        _ => false,
    }
}

fn literal_copy(s: &String) -> (r: Option<String>)
    ensures
        match r {
            Some(t) => is_int_literal(s@) && t@ == s@,
            None => !is_int_literal(s@),
        },
{
    if is_int_literal_text(s.as_str()) {
        Some(text_copy(s.as_str()))
    } else {
        None
    }
}

/// The integer that a value holds, as a literal.
pub fn int_literal_of(v: &Value) -> (r: Option<String>)
    ensures
        match int_operand(v@) {
            Some(i) => r matches Some(s) && is_int_literal(s@) && int_value(s@) == i,
            None => r is None,
        },
{
    match v {
        Value::Number(s) => literal_copy(s),
        Value::Int(s) => literal_copy(s),
        Value::Nat(s) => literal_copy(s),
        Value::Nat8(n) => {
            proof {
                lemma_int_text(*n as int);
            }
            Some(text_of_u64(*n as u64))
        },
        Value::Nat16(n) => {
            proof {
                lemma_int_text(*n as int);
            }
            Some(text_of_u64(*n as u64))
        },
        Value::Nat32(n) => {
            proof {
                lemma_int_text(*n as int);
            }
            Some(text_of_u64(*n as u64))
        },
        Value::Nat64(n) => {
            proof {
                lemma_int_text(*n as int);
            }
            Some(text_of_u64(*n))
        },
        Value::Int8(n) => {
            proof {
                lemma_int_text(*n as int);
            }
            Some(text_of_i64(*n as i64))
        },
        Value::Int16(n) => {
            proof {
                lemma_int_text(*n as int);
            }
            Some(text_of_i64(*n as i64))
        },
        Value::Int32(n) => {
            proof {
                lemma_int_text(*n as int);
            }
            Some(text_of_i64(*n as i64))
        },
        Value::Int64(n) => {
            proof {
                lemma_int_text(*n as int);
            }
            Some(text_of_i64(*n))
        },
        _ => None,
    }
}

/// Computes `add`, `sub`, `mul` or `div`.
pub fn arith(b: Builtin, op: ArithOp, args: &Vec<Value>, answers: &Vec<Answer>, run: &mut Run)
    -> (r: Result<Value, Halt>)
    ensures
        result_view(r) == arith_builtin(
            b,
            op,
            values_view(args@),
            answers_view(answers@),
            old(run)@,
        ).result,
        final(run)@ == arith_builtin(
            b,
            op,
            values_view(args@),
            answers_view(answers@),
            old(run)@,
        ).run,
{
    if args.len() != 2 {
        return Err(fail_named(ErrorKind::Arguments, b.name(), " expects two numbers"));
    }
    if float_value(&args[0]) || float_value(&args[1]) {
        if numeric_value(&args[0]) && numeric_value(&args[1]) {
            return request_float(
                answers,
                run,
                Request::FloatArith { op, lhs: args[0].duplicate(), rhs: args[1].duplicate() },
            );
        }
        return Err(fail_named(ErrorKind::Arguments, b.name(), " expects two numbers"));
    }
    let x = int_literal_of(&args[0]);
    let y = int_literal_of(&args[1]);
    match (x, y) {
        (Some(x), Some(y)) => match int_arith(op, x.as_str(), y.as_str()) {
            Some(s) => Ok(Value::Number(s)),
            None => Err(fail(ErrorKind::Semantic, "division by zero")),
        },
        _ => Err(fail_named(ErrorKind::Arguments, b.name(), " expects two numbers")),
    }
}

/// Computes `lt`, `lte`, `gt` or `gte`.
pub fn order(b: Builtin, op: OrderOp, args: &Vec<Value>, answers: &Vec<Answer>, run: &mut Run)
    -> (r: Result<Value, Halt>)
    ensures
        result_view(r) == order_builtin(
            b,
            op,
            values_view(args@),
            answers_view(answers@),
            old(run)@,
        ).result,
        final(run)@ == order_builtin(
            b,
            op,
            values_view(args@),
            answers_view(answers@),
            old(run)@,
        ).run,
{
    if args.len() != 2 {
        return Err(fail_named(ErrorKind::Arguments, b.name(), " expects two numbers"));
    }
    if float_value(&args[0]) || float_value(&args[1]) {
        if numeric_value(&args[0]) && numeric_value(&args[1]) {
            return request_flag(
                answers,
                run,
                Request::FloatOrder { op, lhs: args[0].duplicate(), rhs: args[1].duplicate() },
                false,
            );
        }
        return Err(fail_named(ErrorKind::Arguments, b.name(), " expects two numbers"));
    }
    let x = int_literal_of(&args[0]);
    let y = int_literal_of(&args[1]);
    match (x, y) {
        (Some(x), Some(y)) => Ok(Value::Bool(int_order(op, x.as_str(), y.as_str()))),
        _ => Err(fail_named(ErrorKind::Arguments, b.name(), " expects two numbers")),
    }
}

} // verus!
