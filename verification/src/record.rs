//! Records: fields in the order of their label ids, no id twice.
use vstd::prelude::*;
use vstd::string::*;
use crate::error::{plain_error, Error, ErrorKind, ErrorView};
use crate::label::{label_id, Label, LabelView};
use crate::number::{grouped_text, text_of_u64};
use crate::text::{text_copy, text_join};
use crate::value::{fields_view, FieldView, Value, ValueField, ValueView};

verus! {

/// The id under which a field is ordered and found.
pub open spec fn field_id(f: FieldView) -> u32 {
    label_id(f.id)
}

/// The fields stand in the order of their ids.
pub open spec fn sorted_by_id(s: Seq<FieldView>) -> bool {
    forall|i: int, j: int| 0 <= i < j < s.len() ==> field_id(s[i]) <= field_id(s[j])
}

/// No two fields have the same id.
pub open spec fn distinct_ids(s: Seq<FieldView>) -> bool {
    forall|i: int, j: int| 0 <= i < j < s.len() ==> field_id(s[i]) != field_id(s[j])
}

/// Where a field goes into fields that are in order: behind the last one whose
/// id is not above its own.
pub open spec fn insert_position(s: Seq<FieldView>, f: FieldView) -> int
    decreases s.len(),
{
    if s.len() == 0 {
        0
    } else if field_id(s.last()) <= field_id(f) {
        s.len() as int
    } else {
        insert_position(s.drop_last(), f)
    }
}

/// The fields in the order of their ids; fields of one id keep their order.
pub open spec fn sort_by_id(s: Seq<FieldView>) -> Seq<FieldView>
    decreases s.len(),
{
    if s.len() == 0 {
        Seq::empty()
    } else {
        let t = sort_by_id(s.drop_last());
        t.insert(insert_position(t, s.last()), s.last())
    }
}

/// The first place from `k` on at which a field and the next have one id.
pub open spec fn first_repeat(s: Seq<FieldView>, k: int) -> Option<int>
    decreases s.len() - k,
{
    if k < 0 || k + 1 >= s.len() {
        None
    } else if field_id(s[k]) == field_id(s[k + 1]) {
        Some(k)
    } else {
        first_repeat(s, k + 1)
    }
}

/// How a label is written in a message: a name as it is, a number in the
/// grouped form.
pub open spec fn label_text(l: LabelView) -> Seq<char> {
    match l {
        LabelView::Id(n) => grouped_text(n as nat),
        LabelView::Named(s) => s,
        LabelView::Unnamed(n) => grouped_text(n as nat),
    }
}

/// The error for a label that meets another of the same id.
pub open spec fn collision_error(label: LabelView, previous: LabelView) -> ErrorView {
    plain_error(
        ErrorKind::Semantic,
        "label '"@ + label_text(label) + "' hash collision with '"@ + label_text(previous) + "'"@,
    )
}

/// The fields in order where no id occurs twice, and else the error that names
/// the first field to repeat an id and the field before it.
pub open spec fn checked_fields(s: Seq<FieldView>) -> Result<Seq<FieldView>, ErrorView> {
    let t = sort_by_id(s);
    match first_repeat(t, 0) {
        Some(k) => Err(collision_error(t[k + 1].id, t[k].id)),
        None => Ok(t),
    }
}

/// The record of the given fields: the fields in the order of their label ids,
/// or the error for an id that occurs twice.
pub open spec fn record_of(s: Seq<FieldView>) -> Result<ValueView, ErrorView> {
    match checked_fields(s) {
        Ok(t) => Ok(ValueView::Record(t)),
        Err(e) => Err(e),
    }
}

/// Two records as one: the record of the fields of both.
pub open spec fn merged_records(a: Seq<FieldView>, b: Seq<FieldView>) -> Result<
    ValueView,
    ErrorView,
> {
    record_of(a + b)
}

proof fn lemma_insert_position(s: Seq<FieldView>, f: FieldView)
    ensures
        0 <= insert_position(s, f) <= s.len(),
        forall|k: int| insert_position(s, f) <= k < s.len() ==> field_id(s[k]) > field_id(f),
        insert_position(s, f) > 0 ==> field_id(s[insert_position(s, f) - 1]) <= field_id(f),
    decreases s.len(),
{
    if s.len() > 0 && field_id(s.last()) > field_id(f) {
        let t = s.drop_last();
        lemma_insert_position(t, f);
        assert forall|k: int| insert_position(s, f) <= k < s.len() implies field_id(s[k])
            > field_id(f) by {
            if k < t.len() {
                assert(s[k] == t[k]);
            }
        }
        if insert_position(s, f) > 0 {
            assert(s[insert_position(s, f) - 1] == t[insert_position(t, f) - 1]);
        }
    }
}

proof fn lemma_position_unique(s: Seq<FieldView>, f: FieldView, p: int)
    requires
        0 <= p <= s.len(),
        forall|k: int| p <= k < s.len() ==> field_id(s[k]) > field_id(f),
        p > 0 ==> field_id(s[p - 1]) <= field_id(f),
    ensures
        insert_position(s, f) == p,
    decreases s.len(),
{
    if s.len() > 0 && field_id(s.last()) > field_id(f) {
        lemma_position_unique(s.drop_last(), f, p);
    }
}

impl Label {
    /// This label as a message writes it.
    pub fn text(&self) -> (r: String)
        ensures
            r@ == label_text(self@),
    {
        match self {
            Label::Id(n) => text_of_u64(*n as u64),
            Label::Named(s) => text_copy(s.as_str()),
            Label::Unnamed(n) => text_of_u64(*n as u64),
        }
    }
}

fn collision(label: &Label, previous: &Label) -> (r: Error)
    ensures
        r@ == collision_error(label@, previous@),
{
    let a = label.text();
    let b = previous.text();
    let m = text_join("label '", a.as_str());
    let m = text_join(m.as_str(), "' hash collision with '");
    let m = text_join(m.as_str(), b.as_str());
    let m = text_join(m.as_str(), "'");
    Error { kind: ErrorKind::Semantic, message: m, cause: None }
}

fn insert_field(v: &mut Vec<ValueField>, f: ValueField)
    ensures
        fields_view(final(v)@) == fields_view(old(v)@).insert(
            insert_position(fields_view(old(v)@), f@),
            f@,
        ),
{
    let id: u32 = f.id.id();
    let ghost s = fields_view(v@);
    let mut p: usize = v.len();
    while p > 0 && v[p - 1].id.id() > id
        invariant
            p <= v.len(),
            s == fields_view(v@),
            id == field_id(f@),
            forall|k: int| p <= k < s.len() ==> field_id(s[k]) > id,
        decreases p,
    {
        p -= 1;
    }
    proof {
        lemma_position_unique(s, f@, p as int);
    }
    v.insert(p, f);
    assert(fields_view(v@) =~= s.insert(p as int, f@));
}

/// The fields of `a`, then those of `b`, in the order of their ids.
fn sort_both(a: &Vec<ValueField>, b: &Vec<ValueField>) -> (r: Vec<ValueField>)
    ensures
        fields_view(r@) == sort_by_id(fields_view(a@) + fields_view(b@)),
{
    let ghost all = fields_view(a@) + fields_view(b@);
    let mut r: Vec<ValueField> = Vec::new();
    let mut i: usize = 0;
    assert(fields_view(r@) =~= sort_by_id(all.subrange(0, 0)));
    while i < a.len()
        invariant
            i <= a.len(),
            all == fields_view(a@) + fields_view(b@),
            fields_view(r@) == sort_by_id(all.subrange(0, i as int)),
        decreases a.len() - i,
    {
        assert(all.subrange(0, i + 1).drop_last() =~= all.subrange(0, i as int));
        insert_field(&mut r, a[i].clone());
        i += 1;
    }
    let mut j: usize = 0;
    while j < b.len()
        invariant
            j <= b.len(),
            all == fields_view(a@) + fields_view(b@),
            fields_view(r@) == sort_by_id(all.subrange(0, a.len() + j)),
        decreases b.len() - j,
    {
        assert(all.subrange(0, a.len() + j + 1).drop_last() =~= all.subrange(0, a.len() + j));
        insert_field(&mut r, b[j].clone());
        j += 1;
    }
    assert(all.subrange(0, a.len() + b.len()) =~= all);
    r
}

/// Two records as one. The result holds the fields of both in the order of their
/// label ids; where an id occurs twice there is none, and the error names the
/// labels that meet.
pub fn merge_records(a: &Vec<ValueField>, b: &Vec<ValueField>) -> (r: Result<Value, Error>)
    ensures
        match merged_records(fields_view(a@), fields_view(b@)) {
            Ok(v) => r matches Ok(x) && x@ == v,
            Err(e) => r matches Err(x) && x@ == e,
        },
{
    broadcast use crate::value::group_value_views;

    let fs = sort_both(a, b);
    let ghost t = fields_view(fs@);
    let n: usize = fs.len();
    let mut k: usize = 0;
    while n >= 2 && k < n - 1
        invariant
            n == fs.len(),
            k <= n,
            t == fields_view(fs@),
            t == sort_by_id(fields_view(a@) + fields_view(b@)),
            first_repeat(t, 0) == first_repeat(t, k as int),
        decreases n - k,
    {
        if fs[k].id.id() == fs[k + 1].id.id() {
            return Err(collision(&fs[k + 1].id, &fs[k].id));
        }
        k += 1;
    }
    Ok(Value::Record(fs))
}

/// Some field has the id `x`.
pub open spec fn occurs(s: Seq<FieldView>, x: u32) -> bool {
    exists|i: int| 0 <= i < s.len() && field_id(#[trigger] s[i]) == x
}

proof fn lemma_insert_parts(t: Seq<FieldView>, p: int, f: FieldView)
    requires
        0 <= p <= t.len(),
    ensures
        t.insert(p, f).len() == t.len() + 1,
        forall|i: int| 0 <= i < p ==> #[trigger] t.insert(p, f)[i] == t[i],
        t.insert(p, f)[p] == f,
        forall|i: int| p < i <= t.len() ==> #[trigger] t.insert(p, f)[i] == t[i - 1],
{
}

proof fn lemma_insert_occurs(t: Seq<FieldView>, p: int, f: FieldView, x: u32)
    requires
        0 <= p <= t.len(),
    ensures
        occurs(t.insert(p, f), x) == (occurs(t, x) || field_id(f) == x),
{
    let r = t.insert(p, f);
    lemma_insert_parts(t, p, f);
    if occurs(r, x) {
        let i = choose|i: int| 0 <= i < r.len() && field_id(#[trigger] r[i]) == x;
        if i < p {
            assert(field_id(t[i]) == x);
        } else if i > p {
            assert(field_id(t[i - 1]) == x);
        }
    }
    if occurs(t, x) {
        let i = choose|i: int| 0 <= i < t.len() && field_id(#[trigger] t[i]) == x;
        if i < p {
            assert(field_id(r[i]) == x);
        } else {
            assert(field_id(r[i + 1]) == x);
        }
    }
    if field_id(f) == x {
        assert(field_id(r[p]) == x);
    }
}

proof fn lemma_insert_distinct(t: Seq<FieldView>, p: int, f: FieldView)
    requires
        0 <= p <= t.len(),
    ensures
        distinct_ids(t.insert(p, f)) == (distinct_ids(t) && !occurs(t, field_id(f))),
{
    let r = t.insert(p, f);
    lemma_insert_parts(t, p, f);
    if distinct_ids(t) && !occurs(t, field_id(f)) {
        assert forall|i: int, j: int| 0 <= i < j < r.len() implies field_id(r[i]) != field_id(
            r[j],
        ) by {
            let a = if i < p {
                i
            } else {
                i - 1
            };
            let b = if j < p {
                j
            } else {
                j - 1
            };
            if i == p {
                assert(field_id(t[b]) != field_id(f));
            } else if j == p {
                assert(field_id(t[a]) != field_id(f));
            } else {
                assert(field_id(t[a]) != field_id(t[b]));
            }
        }
    }
    if distinct_ids(r) {
        assert forall|i: int, j: int| 0 <= i < j < t.len() implies field_id(t[i]) != field_id(
            t[j],
        ) by {
            let a = if i < p {
                i
            } else {
                i + 1
            };
            let b = if j < p {
                j
            } else {
                j + 1
            };
            assert(field_id(r[a]) != field_id(r[b]));
        }
        if occurs(t, field_id(f)) {
            let i = choose|i: int| 0 <= i < t.len() && field_id(#[trigger] t[i]) == field_id(f);
            if i < p {
                assert(field_id(r[i]) != field_id(r[p]));
            } else {
                assert(field_id(r[p]) != field_id(r[i + 1]));
            }
        }
    }
}

proof fn lemma_drop_last_distinct(s: Seq<FieldView>)
    requires
        s.len() > 0,
    ensures
        distinct_ids(s) == (distinct_ids(s.drop_last()) && !occurs(
            s.drop_last(),
            field_id(s.last()),
        )),
{
    let t = s.drop_last();
    assert(s =~= t.insert(t.len() as int, s.last()));
    lemma_insert_distinct(t, t.len() as int, s.last());
}

/// Sorting keeps the fields: the result is in order, holds each field as often
/// as the input does, and has an id twice only where the input has.
pub proof fn lemma_sort_by_id(s: Seq<FieldView>)
    ensures
        sorted_by_id(sort_by_id(s)),
        sort_by_id(s).len() == s.len(),
        sort_by_id(s).to_multiset() == s.to_multiset(),
        distinct_ids(sort_by_id(s)) == distinct_ids(s),
        forall|x: u32| occurs(sort_by_id(s), x) == occurs(s, x),
    decreases s.len(),
{
    broadcast use vstd::seq_lib::group_to_multiset_ensures;

    if s.len() == 0 {
        assert(s =~= Seq::empty());
    } else {
        let d = s.drop_last();
        let f = s.last();
        let t = sort_by_id(d);
        let p = insert_position(t, f);
        let r = t.insert(p, f);
        lemma_sort_by_id(d);
        lemma_insert_position(t, f);
        lemma_insert_parts(t, p, f);
        assert forall|i: int, j: int| 0 <= i < j < r.len() implies field_id(r[i]) <= field_id(
            r[j],
        ) by {
            if j < p {
                assert(field_id(t[i]) <= field_id(t[j]));
            } else if j == p {
                if p > 0 {
                    assert(i == p - 1 || field_id(t[i]) <= field_id(t[p - 1]));
                }
            } else if i == p {
                assert(field_id(t[j - 1]) > field_id(f));
            } else if i > p {
                assert(field_id(t[i - 1]) <= field_id(t[j - 1]));
            } else {
                assert(field_id(t[i]) <= field_id(t[j - 1]));
            }
        }
        assert(s =~= d.push(f));
        vstd::seq_lib::to_multiset_insert(t, p, f);
        assert(d.push(f).to_multiset() == d.to_multiset().insert(f));
        lemma_insert_distinct(t, p, f);
        lemma_drop_last_distinct(s);
        assert forall|x: u32| occurs(r, x) == occurs(s, x) by {
            lemma_insert_occurs(t, p, f, x);
            lemma_insert_occurs(d, d.len() as int, f, x);
            assert(s =~= d.insert(d.len() as int, f));
        }
    }
}

proof fn lemma_first_repeat(t: Seq<FieldView>, k: int)
    requires
        sorted_by_id(t),
        0 <= k,
    ensures
        first_repeat(t, k) is None == (forall|i: int, j: int|
            k <= i < j < t.len() ==> field_id(t[i]) != field_id(t[j])),
        first_repeat(t, k) matches Some(m) ==> k <= m < t.len() - 1 && field_id(t[m]) == field_id(
            t[m + 1],
        ),
    decreases t.len() - k,
{
    if k + 1 < t.len() {
        lemma_first_repeat(t, k + 1);
        if field_id(t[k]) != field_id(t[k + 1]) {
            if first_repeat(t, k + 1) is None {
                assert forall|i: int, j: int| k <= i < j < t.len() implies field_id(t[i])
                    != field_id(t[j]) by {
                    if i == k && j > k + 1 {
                        assert(field_id(t[k + 1]) <= field_id(t[j]));
                    }
                }
            }
        }
    }
}

/// Makes a record of fields. The result holds the fields in the order of their
/// label ids; where an id occurs twice there is none, and the error names the
/// labels that meet.
pub fn make_record(fs: &Vec<ValueField>) -> (r: Result<Value, Error>)
    ensures
        match record_of(fields_view(fs@)) {
            Ok(v) => r matches Ok(x) && x@ == v,
            Err(e) => r matches Err(x) && x@ == e,
        },
{
    let none: Vec<ValueField> = Vec::new();
    assert(fields_view(fs@) + fields_view(none@) =~= fields_view(fs@));
    merge_records(fs, &none)
}

/// Whether the fields can form a record is a matter of their ids alone: they
/// can where no id occurs twice, and the record then holds exactly these
/// fields, in the order of their ids.
pub proof fn lemma_checked_fields(s: Seq<FieldView>)
    ensures
        checked_fields(s) is Ok == distinct_ids(s),
        checked_fields(s) matches Ok(t) ==> sorted_by_id(t) && distinct_ids(t) && t.to_multiset()
            == s.to_multiset(),
{
    lemma_sort_by_id(s);
    lemma_first_repeat(sort_by_id(s), 0);
}

} // verus!
