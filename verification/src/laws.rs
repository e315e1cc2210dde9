//! What holds of the evaluator, for all expressions and values.
use vstd::prelude::*;
use crate::builtin::{
    arith_builtin, builtin_name, concat_builtin, division_error, equality_builtin, is_float,
    lemma_builtin_found, Builtin,
};
use crate::equality::{equal_values, holds_float, tag};
use crate::eval::{
    apply_func_spec, arity_error, bound, eval_spec, lemma_eval_application, lemma_eval_eager,
    lemma_eval_exist, lemma_eval_ite, lemma_eval_pair,
};
use crate::exp::ExpView;
use crate::host::{reached, stopped, AnswerView, HaltView, RequestView, RunView};
use crate::number::{
    arith_result, int_text, int_value, is_int_literal, lemma_int_text, trunc_div, ArithOp,
};
use crate::record::{distinct_ids, field_id, lemma_checked_fields, sorted_by_id};
use crate::types::{find_func, lookup, BindingView, HelperView};
use crate::value::{FieldView, ValueView};

verus! {

/// `concat` of two records that share no label id is the record of the fields
/// of both, in the order of their label ids.
pub proof fn law_concat_disjoint_records(a: Seq<FieldView>, b: Seq<FieldView>)
    requires
        distinct_ids(a),
        distinct_ids(b),
        forall|i: int, j: int|
            0 <= i < a.len() && 0 <= j < b.len() ==> field_id(a[i]) != field_id(b[j]),
    ensures
        concat_builtin(seq![ValueView::Record(a), ValueView::Record(b)]) matches Ok(
            ValueView::Record(t),
        ) && sorted_by_id(t) && distinct_ids(t) && t.to_multiset() == (a + b).to_multiset(),
{
    let s = a + b;
    assert forall|i: int, j: int| 0 <= i < j < s.len() implies field_id(s[i]) != field_id(
        s[j],
    ) by {
        if j < a.len() {
            assert(field_id(a[i]) != field_id(a[j]));
        } else if i < a.len() {
            assert(field_id(a[i]) != field_id(b[j - a.len()]));
        } else {
            assert(field_id(b[i - a.len()]) != field_id(b[j - a.len()]));
        }
    }
    lemma_checked_fields(s);
}

/// `concat` of two records that share a label id fails.
pub proof fn law_concat_overlapping_records(a: Seq<FieldView>, b: Seq<FieldView>, i: int, j: int)
    requires
        0 <= i < a.len(),
        0 <= j < b.len(),
        field_id(a[i]) == field_id(b[j]),
    ensures
        concat_builtin(seq![ValueView::Record(a), ValueView::Record(b)]) is Err,
{
    let s = a + b;
    assert(field_id(s[i]) == field_id(s[a.len() + j]));
    lemma_checked_fields(s);
}

/// A record expression evaluates to a record whose fields stand in the order
/// of their label ids, no id twice, or to no value.
pub proof fn law_records_are_ordered(
    fs: Seq<crate::exp::FieldExpView>,
    h: HelperView,
    answers: Seq<AnswerView>,
    run: RunView,
)
    ensures
        eval_spec(ExpView::Record(fs), h, answers, run).result matches Ok(v) ==> (v matches ValueView::Record(
            t,
        ) && sorted_by_id(t) && distinct_ids(t)),
{
    let list = crate::eval::eval_fields(fs, fs.len(), h, answers, run);
    if list.result is Ok {
        lemma_checked_fields(list.result->Ok_0);
    }
}

/// `eq` and `neq` fail on two values of different type tags. On two values of
/// one type tag in which no float occurs, `eq` is structural equality and `neq`
/// is its negation.
pub proof fn law_equality(
    b: Builtin,
    x: ValueView,
    y: ValueView,
    answers: Seq<AnswerView>,
    run: RunView,
)
    requires
        b == Builtin::Eq || b == Builtin::Neq,
    ensures
        tag(x) != tag(y) ==> equality_builtin(b, seq![x, y], answers, run).result matches Err(
            HaltView::Failed(_),
        ),
        tag(x) == tag(y) && !holds_float(x) && !holds_float(y) ==> equality_builtin(
            b,
            seq![x, y],
            answers,
            run,
        ) == reached(ValueView::Bool(equal_values(x, y) == (b == Builtin::Eq)), run),
{
}

/// `ite` on a condition that is true is its second argument, evaluated after
/// the condition. The third argument has no part in it.
pub proof fn law_ite_true(
    c: ExpView,
    a: ExpView,
    b: ExpView,
    h: HelperView,
    answers: Seq<AnswerView>,
    run: RunView,
)
    requires
        eval_spec(c, h, answers, run).result == Ok::<ValueView, HaltView>(ValueView::Bool(true)),
    ensures
        eval_spec(ExpView::Apply("ite"@, seq![c, a, b]), h, answers, run) == eval_spec(
            a,
            h,
            answers,
            eval_spec(c, h, answers, run).run,
        ),
{
    lemma_eval_application("ite"@, seq![c, a, b], h, answers, run);
    lemma_eval_ite(seq![c, a, b], h, answers, run);
}

/// `ite` on a condition that is false is its third argument, evaluated after
/// the condition. The second argument has no part in it.
pub proof fn law_ite_false(
    c: ExpView,
    a: ExpView,
    b: ExpView,
    h: HelperView,
    answers: Seq<AnswerView>,
    run: RunView,
)
    requires
        eval_spec(c, h, answers, run).result == Ok::<ValueView, HaltView>(ValueView::Bool(false)),
    ensures
        eval_spec(ExpView::Apply("ite"@, seq![c, a, b]), h, answers, run) == eval_spec(
            b,
            h,
            answers,
            eval_spec(c, h, answers, run).run,
        ),
{
    lemma_eval_application("ite"@, seq![c, a, b], h, answers, run);
    lemma_eval_ite(seq![c, a, b], h, answers, run);
}

/// `exist` is true where its argument evaluates to a value and false where
/// the evaluation fails. It never fails itself; it waits for the host where its
/// argument does.
pub proof fn law_exist(e: ExpView, h: HelperView, answers: Seq<AnswerView>, run: RunView)
    ensures
        ({
            let inner = eval_spec(e, h, answers, run);
            let outer = eval_spec(ExpView::Apply("exist"@, seq![e]), h, answers, run);
            &&& (outer.result == Ok::<ValueView, HaltView>(ValueView::Bool(true)))
                == inner.result is Ok
            &&& (outer.result == Ok::<ValueView, HaltView>(ValueView::Bool(false)))
                == (inner.result matches Err(HaltView::Failed(_)))
            &&& !(outer.result matches Err(HaltView::Failed(_)))
            &&& (outer.result matches Err(HaltView::Pending(_))) == (inner.result matches Err(
                HaltView::Pending(_),
            ))
            &&& outer.run == inner.run
        }),
{
    lemma_eval_application("exist"@, seq![e], h, answers, run);
    lemma_eval_exist(seq![e], h, answers, run);
}

/// The builtin and the operation of each name of arithmetic.
pub open spec fn arithmetic(b: Builtin, op: ArithOp) -> bool {
    ||| b == Builtin::Add && op == ArithOp::Add
    ||| b == Builtin::Sub && op == ArithOp::Sub
    ||| b == Builtin::Mul && op == ArithOp::Mul
    ||| b == Builtin::Div && op == ArithOp::Div
}

/// Arithmetic on two integer literals is the arithmetic of integers of
/// unbounded size, division rounding toward zero. The result is a number that
/// writes the integer. Division by zero fails.
pub proof fn law_integer_arithmetic(
    b: Builtin,
    op: ArithOp,
    x: Seq<char>,
    y: Seq<char>,
    answers: Seq<AnswerView>,
    run: RunView,
)
    requires
        arithmetic(b, op),
        is_int_literal(x),
        is_int_literal(y),
    ensures
        ({
            let r = arith_builtin(
                b,
                op,
                seq![ValueView::Number(x), ValueView::Number(y)],
                answers,
                run,
            );
            let i = int_value(x);
            let j = int_value(y);
            &&& op == ArithOp::Add ==> r == reached(ValueView::Number(int_text(i + j)), run)
            &&& op == ArithOp::Sub ==> r == reached(ValueView::Number(int_text(i - j)), run)
            &&& op == ArithOp::Mul ==> r == reached(ValueView::Number(int_text(i * j)), run)
            &&& op == ArithOp::Div && j != 0 ==> r == reached(
                ValueView::Number(int_text(trunc_div(i, j))),
                run,
            )
            &&& op == ArithOp::Div && j == 0 ==> r == stopped::<ValueView>(division_error(), run)
            &&& r.result matches Ok(ValueView::Number(s)) ==> is_int_literal(s) && Some(
                int_value(s),
            ) == arith_result(op, i, j)
        }),
{
    match arith_result(op, int_value(x), int_value(y)) {
        Some(i) => {
            lemma_int_text(i);
        },
        None => {},
    }
}

/// A builtin that takes the values of its arguments.
pub open spec fn eager(f: Builtin) -> bool {
    f != Builtin::Ite && f != Builtin::Exist && f != Builtin::Export
}

/// An application of a builtin to two expressions that evaluate to values is
/// the builtin applied to the two values, after both are evaluated from the
/// left.
pub proof fn law_application_of_two(
    f: Builtin,
    a: ExpView,
    b: ExpView,
    h: HelperView,
    answers: Seq<AnswerView>,
    run: RunView,
)
    requires
        eager(f),
        eval_spec(a, h, answers, run).result is Ok,
        eval_spec(b, h, answers, eval_spec(a, h, answers, run).run).result is Ok,
    ensures
        ({
            let first = eval_spec(a, h, answers, run);
            let second = eval_spec(b, h, answers, first.run);
            eval_spec(ExpView::Apply(builtin_name(f), seq![a, b]), h, answers, run)
                == crate::eval::apply_builtin(
                f,
                seq![first.result->Ok_0, second.result->Ok_0],
                h,
                answers,
                second.run,
            )
        }),
{
    let exps = seq![a, b];
    lemma_builtin_found(f);
    lemma_eval_application(builtin_name(f), exps, h, answers, run);
    lemma_eval_eager(builtin_name(f), exps, h, answers, run);
    lemma_eval_pair(a, b, h, answers, run);
}

/// `eq` and `neq` applied to two expressions that evaluate to values: an error
/// where the type tags of the two values differ; and where they are the same
/// and no float occurs in the values, whether the values are equal, or for `neq`
/// whether they are not.
pub proof fn law_equality_evaluates(
    f: Builtin,
    a: ExpView,
    b: ExpView,
    h: HelperView,
    answers: Seq<AnswerView>,
    run: RunView,
)
    requires
        f == Builtin::Eq || f == Builtin::Neq,
        eval_spec(a, h, answers, run).result is Ok,
        eval_spec(b, h, answers, eval_spec(a, h, answers, run).run).result is Ok,
    ensures
        ({
            let first = eval_spec(a, h, answers, run);
            let second = eval_spec(b, h, answers, first.run);
            let x = first.result->Ok_0;
            let y = second.result->Ok_0;
            let r = eval_spec(ExpView::Apply(builtin_name(f), seq![a, b]), h, answers, run);
            &&& tag(x) != tag(y) ==> (r.result is Err && r.result->Err_0 is Failed)
            &&& tag(x) == tag(y) && !holds_float(x) && !holds_float(y) ==> r == reached(
                ValueView::Bool(equal_values(x, y) == (f == Builtin::Eq)),
                second.run,
            )
        }),
{
    law_application_of_two(f, a, b, h, answers, run);
    let first = eval_spec(a, h, answers, run);
    let second = eval_spec(b, h, answers, first.run);
    law_equality(f, first.result->Ok_0, second.result->Ok_0, answers, second.run);
}

/// `eq` and `neq` applied to two expressions that evaluate to values of one
/// type tag in which a float occurs: the host is asked whether the two values
/// are equal, and the value is its answer, turned round for `neq`.
pub proof fn law_float_equality_evaluates(
    f: Builtin,
    a: ExpView,
    b: ExpView,
    h: HelperView,
    answers: Seq<AnswerView>,
    run: RunView,
)
    requires
        f == Builtin::Eq || f == Builtin::Neq,
        eval_spec(a, h, answers, run).result is Ok,
        eval_spec(b, h, answers, eval_spec(a, h, answers, run).run).result is Ok,
        ({
            let first = eval_spec(a, h, answers, run);
            let second = eval_spec(b, h, answers, first.run);
            let x = first.result->Ok_0;
            let y = second.result->Ok_0;
            tag(x) == tag(y) && (holds_float(x) || holds_float(y))
        }),
    ensures
        ({
            let first = eval_spec(a, h, answers, run);
            let second = eval_spec(b, h, answers, first.run);
            let r = eval_spec(ExpView::Apply(builtin_name(f), seq![a, b]), h, answers, run);
            &&& r == crate::builtin::flag_request(
                answers,
                second.run,
                RequestView::FloatEqual { lhs: first.result->Ok_0, rhs: second.result->Ok_0 },
                f == Builtin::Neq,
            )
            &&& r.result is Ok ==> r.result->Ok_0 is Bool
        }),
{
    let first = eval_spec(a, h, answers, run);
    let second = eval_spec(b, h, answers, first.run);
    law_application_of_two(f, a, b, h, answers, run);
    lemma_float_equality(f, first.result->Ok_0, second.result->Ok_0, h, answers, second.run);
}

proof fn lemma_float_equality(
    f: Builtin,
    x: ValueView,
    y: ValueView,
    h: HelperView,
    answers: Seq<AnswerView>,
    run: RunView,
)
    requires
        f == Builtin::Eq || f == Builtin::Neq,
        tag(x) == tag(y),
        holds_float(x) || holds_float(y),
    ensures
        crate::eval::apply_builtin(f, seq![x, y], h, answers, run) == crate::builtin::flag_request(
            answers,
            run,
            RequestView::FloatEqual { lhs: x, rhs: y },
            f == Builtin::Neq,
        ),
        crate::eval::apply_builtin(f, seq![x, y], h, answers, run).result is Ok
            ==> crate::eval::apply_builtin(f, seq![x, y], h, answers, run).result->Ok_0 is Bool,
{
}

/// `add`, `sub`, `mul` and `div` applied to two expressions that evaluate to
/// integer literals: the number that writes the sum, the difference, the
/// product, or the quotient rounded toward zero, of integers of unbounded size.
/// Division by zero is an error.
pub proof fn law_arithmetic_evaluates(
    f: Builtin,
    op: ArithOp,
    a: ExpView,
    b: ExpView,
    x: Seq<char>,
    y: Seq<char>,
    h: HelperView,
    answers: Seq<AnswerView>,
    run: RunView,
)
    requires
        arithmetic(f, op),
        is_int_literal(x),
        is_int_literal(y),
        eval_spec(a, h, answers, run).result == Ok::<ValueView, HaltView>(ValueView::Number(x)),
        eval_spec(b, h, answers, eval_spec(a, h, answers, run).run).result == Ok::<
            ValueView,
            HaltView,
        >(ValueView::Number(y)),
    ensures
        ({
            let after = eval_spec(b, h, answers, eval_spec(a, h, answers, run).run).run;
            let r = eval_spec(ExpView::Apply(builtin_name(f), seq![a, b]), h, answers, run);
            match arith_result(op, int_value(x), int_value(y)) {
                Some(i) => r == reached(ValueView::Number(int_text(i)), after) && is_int_literal(
                    int_text(i),
                ) && int_value(int_text(i)) == i,
                None => r == stopped::<ValueView>(division_error(), after),
            }
        }),
{
    law_application_of_two(f, a, b, h, answers, run);
    let after = eval_spec(b, h, answers, eval_spec(a, h, answers, run).run).run;
    law_integer_arithmetic(f, op, x, y, answers, after);
    match arith_result(op, int_value(x), int_value(y)) {
        Some(i) => {
            lemma_int_text(i);
        },
        None => {},
    }
}

proof fn lemma_float_builtin(
    f: Builtin,
    op: ArithOp,
    x: ValueView,
    y: ValueView,
    h: HelperView,
    answers: Seq<AnswerView>,
    run: RunView,
)
    requires
        arithmetic(f, op),
        is_float(x) || is_float(y),
        crate::builtin::is_numeric(x),
        crate::builtin::is_numeric(y),
    ensures
        crate::eval::apply_builtin(f, seq![x, y], h, answers, run) == crate::builtin::float_request(
            answers,
            run,
            RequestView::FloatArith { op, lhs: x, rhs: y },
        ),
        crate::eval::apply_builtin(f, seq![x, y], h, answers, run).result is Ok
            ==> crate::eval::apply_builtin(f, seq![x, y], h, answers, run).result->Ok_0 is Float64,
{
}

/// `add`, `sub`, `mul` and `div` applied to two expressions that evaluate to
/// numbers of which one is a float: the host is asked for the arithmetic on the
/// two values, and the value is a float or there is none.
pub proof fn law_float_arithmetic_evaluates(
    f: Builtin,
    op: ArithOp,
    a: ExpView,
    b: ExpView,
    h: HelperView,
    answers: Seq<AnswerView>,
    run: RunView,
)
    requires
        arithmetic(f, op),
        eval_spec(a, h, answers, run).result is Ok,
        eval_spec(b, h, answers, eval_spec(a, h, answers, run).run).result is Ok,
        ({
            let first = eval_spec(a, h, answers, run);
            let second = eval_spec(b, h, answers, first.run);
            let x = first.result->Ok_0;
            let y = second.result->Ok_0;
            (is_float(x) || is_float(y)) && crate::builtin::is_numeric(x)
                && crate::builtin::is_numeric(y)
        }),
    ensures
        ({
            let first = eval_spec(a, h, answers, run);
            let second = eval_spec(b, h, answers, first.run);
            let r = eval_spec(ExpView::Apply(builtin_name(f), seq![a, b]), h, answers, run);
            &&& r == crate::builtin::float_request(
                answers,
                second.run,
                RequestView::FloatArith {
                    op,
                    lhs: first.result->Ok_0,
                    rhs: second.result->Ok_0,
                },
            )
            &&& r.result is Ok ==> r.result->Ok_0 is Float64
        }),
{
    let first = eval_spec(a, h, answers, run);
    let second = eval_spec(b, h, answers, first.run);
    law_application_of_two(f, a, b, h, answers, run);
    lemma_float_builtin(f, op, first.result->Ok_0, second.result->Ok_0, h, answers, second.run);
}

/// Arithmetic on two values of which one is a float gives a float or no value.
pub proof fn law_float_arithmetic(
    b: Builtin,
    op: ArithOp,
    x: ValueView,
    y: ValueView,
    answers: Seq<AnswerView>,
    run: RunView,
)
    requires
        is_float(x) || is_float(y),
    ensures
        arith_builtin(b, op, seq![x, y], answers, run).result matches Ok(v) ==> v is Float64,
{
}

/// A function that is applied to another number of arguments than it has
/// parameters fails, and the error names the function and both numbers.
pub proof fn law_arity_mismatch(
    h: HelperView,
    func: Seq<char>,
    args: Seq<ValueView>,
    answers: Seq<AnswerView>,
    run: RunView,
)
    requires
        find_func(h.func_env, func) matches Some(params) && params.len() != args.len(),
    ensures
        apply_func_spec(h, func, args, answers, run) == stopped::<ValueView>(
            arity_error(func, find_func(h.func_env, func)->Some_0.len(), args.len()),
            run,
        ),
{
}

/// A function that is applied to as many arguments as it has parameters runs
/// in a scope that binds each parameter to the argument in its place, and hands
/// back what the scope binds to `_` afterwards, or null where it binds nothing
/// to it. The scope that comes back binds no variable twice.
pub proof fn law_apply_binds_by_position(
    h: HelperView,
    func: Seq<char>,
    args: Seq<ValueView>,
    answers: Seq<AnswerView>,
    run: RunView,
)
    requires
        find_func(h.func_env, func) matches Some(params) && params.len() == args.len(),
    ensures
        ({
            let params = find_func(h.func_env, func)->Some_0;
            let scope = bound(params, args);
            let r = apply_func_spec(h, func, args, answers, run);
            &&& scope.len() == params.len()
            &&& forall|i: int|
                0 <= i < params.len() ==> #[trigger] scope[i] == (BindingView {
                    name: params[i],
                    value: args[i],
                })
            &&& run.cursor >= answers.len() ==> r.result == Err::<ValueView, HaltView>(
                HaltView::Pending(RequestView::RunFunction { name: func, scope }),
            )
            &&& run.cursor < answers.len() && answers[run.cursor as int] is Scope
                && crate::types::distinct_names(answers[run.cursor as int]->Scope_0) ==> r.result
                == Ok::<ValueView, HaltView>(
                match lookup(answers[run.cursor as int]->Scope_0, "_"@) {
                    Some(v) => v,
                    None => ValueView::Null,
                },
            )
        }),
{
}

/// `gzip` of a byte string is a gzip stream that decodes to the byte string, or
/// there is no value.
pub proof fn law_gzip_decodes(data: Seq<u8>, answers: Seq<AnswerView>, run: RunView)
    ensures
        crate::effects::gzip_builtin(seq![ValueView::Blob(data)], answers, run).result matches Ok(
            v,
        ) ==> v is Blob && crate::host::gzip_of(v->Blob_0, data),
{
}

} // verus!
