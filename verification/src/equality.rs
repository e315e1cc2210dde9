//! Type tags of values and equality between values.
use vstd::prelude::*;
use vstd::string::*;
use crate::label::label_id;
use crate::number::{int_order, int_value, is_int_literal, is_int_literal_text, OrderOp};
use crate::text::{bytes_eq, text_eq};
use crate::value::{Value, ValueView};

verus! {

/// The type tag of a value: the type that the value has when no type is declared
/// for it. A field of a record or variant counts by the id of its label.
pub enum Tag {
    Null,
    Bool,
    Int,
    Nat,
    Nat8,
    Nat16,
    Nat32,
    Nat64,
    Int8,
    Int16,
    Int32,
    Int64,
    Float32,
    Float64,
    Text,
    Reserved,
    Empty,
    Principal,
    Service,
    Func,
    Opt(Box<Tag>),
    Vec(Box<Tag>),
    Record(Seq<(u32, Tag)>),
    Variant(u32, Box<Tag>),
}

/// The tag of a value. A number without a type counts as an integer, a byte
/// string as a vector of `nat8`, a vector by its first element, and an empty
/// vector or an empty option as holding the empty type.
pub open spec fn tag(v: ValueView) -> Tag
    decreases v,
{
    match v {
        ValueView::Bool(_) => Tag::Bool,
        ValueView::Null => Tag::Null,
        ValueView::Text(_) => Tag::Text,
        ValueView::Number(_) => Tag::Int,
        ValueView::Float64(_) => Tag::Float64,
        ValueView::Opt(x) => Tag::Opt(Box::new(tag(*x))),
        ValueView::Vec(s) => Tag::Vec(
            Box::new(
                if s.len() == 0 {
                    Tag::Empty
                } else {
                    tag(s[0])
                },
            ),
        ),
        ValueView::Record(fs) => Tag::Record(
            Seq::new(
                fs.len(),
                |i: int|
                    if 0 <= i < fs.len() {
                        (label_id(fs[i].id), tag(fs[i].val))
                    } else {
                        (0u32, Tag::Empty)
                    },
            ),
        ),
        ValueView::Variant(f, _) => Tag::Variant(label_id(f.id), Box::new(tag(f.val))),
        ValueView::Blob(_) => Tag::Vec(Box::new(Tag::Nat8)),
        ValueView::Principal(_) => Tag::Principal,
        ValueView::Service(_) => Tag::Service,
        ValueView::Func(_, _) => Tag::Func,
        ValueView::OptNone => Tag::Opt(Box::new(Tag::Empty)),
        ValueView::Int(_) => Tag::Int,
        ValueView::Nat(_) => Tag::Nat,
        ValueView::Nat8(_) => Tag::Nat8,
        ValueView::Nat16(_) => Tag::Nat16,
        ValueView::Nat32(_) => Tag::Nat32,
        ValueView::Nat64(_) => Tag::Nat64,
        ValueView::Int8(_) => Tag::Int8,
        ValueView::Int16(_) => Tag::Int16,
        ValueView::Int32(_) => Tag::Int32,
        ValueView::Int64(_) => Tag::Int64,
        ValueView::Float32(_) => Tag::Float32,
        ValueView::Reserved => Tag::Reserved,
    }
}

/// Whether a float occurs in a value.
pub open spec fn holds_float(v: ValueView) -> bool
    decreases v,
{
    match v {
        ValueView::Float64(_) => true,
        ValueView::Float32(_) => true,
        ValueView::Opt(x) => holds_float(*x),
        ValueView::Vec(s) => exists|i: int| 0 <= i < s.len() && holds_float(#[trigger] s[i]),
        ValueView::Record(fs) => exists|i: int|
            0 <= i < fs.len() && holds_float((#[trigger] fs[i]).val),
        ValueView::Variant(f, _) => holds_float(f.val),
        _ => false,
    }
}

/// Whether two integer texts are equal: as integers where both are literals, as
/// texts where not.
pub open spec fn equal_int_texts(a: Seq<char>, b: Seq<char>) -> bool {
    if is_int_literal(a) && is_int_literal(b) {
        int_value(a) == int_value(b)
    } else {
        a == b
    }
}

/// Structural equality of two values. Both are of the same kind and their parts
/// are equal; labels are equal where their ids are, the index of a variant does
/// not count, and a float counts by its bits.
pub open spec fn equal_values(a: ValueView, b: ValueView) -> bool
    decreases a,
{
    match (a, b) {
        (ValueView::Bool(x), ValueView::Bool(y)) => x == y,
        (ValueView::Null, ValueView::Null) => true,
        (ValueView::Text(x), ValueView::Text(y)) => x == y,
        (ValueView::Number(x), ValueView::Number(y)) => x == y,
        (ValueView::Float64(x), ValueView::Float64(y)) => x == y,
        (ValueView::Opt(x), ValueView::Opt(y)) => equal_values(*x, *y),
        (ValueView::Vec(x), ValueView::Vec(y)) => {
            &&& x.len() == y.len()
            &&& forall|i: int| 0 <= i < x.len() ==> equal_values(#[trigger] x[i], y[i])
        },
        (ValueView::Record(x), ValueView::Record(y)) => {
            &&& x.len() == y.len()
            &&& forall|i: int|
                0 <= i < x.len() ==> label_id((#[trigger] x[i]).id) == label_id(y[i].id)
                    && equal_values(x[i].val, y[i].val)
        },
        (ValueView::Variant(x, _), ValueView::Variant(y, _)) => {
            label_id(x.id) == label_id(y.id) && equal_values(x.val, y.val)
        },
        (ValueView::Blob(x), ValueView::Blob(y)) => x == y,
        (ValueView::Principal(x), ValueView::Principal(y)) => x == y,
        (ValueView::Service(x), ValueView::Service(y)) => x == y,
        (ValueView::Func(x, m), ValueView::Func(y, n)) => x == y && m == n,
        (ValueView::OptNone, ValueView::OptNone) => true,
        (ValueView::Int(x), ValueView::Int(y)) => equal_int_texts(x, y),
        (ValueView::Nat(x), ValueView::Nat(y)) => equal_int_texts(x, y),
        (ValueView::Nat8(x), ValueView::Nat8(y)) => x == y,
        (ValueView::Nat16(x), ValueView::Nat16(y)) => x == y,
        (ValueView::Nat32(x), ValueView::Nat32(y)) => x == y,
        (ValueView::Nat64(x), ValueView::Nat64(y)) => x == y,
        (ValueView::Int8(x), ValueView::Int8(y)) => x == y,
        (ValueView::Int16(x), ValueView::Int16(y)) => x == y,
        (ValueView::Int32(x), ValueView::Int32(y)) => x == y,
        (ValueView::Int64(x), ValueView::Int64(y)) => x == y,
        (ValueView::Float32(x), ValueView::Float32(y)) => x == y,
        (ValueView::Reserved, ValueView::Reserved) => true,
        _ => false,
    }
}

/// No value has the empty type for its tag.
pub proof fn lemma_tag_not_empty(v: ValueView)
    ensures
        tag(v) != Tag::Empty,
{
}

/// A number that tells the tags of simple values apart; 0 for a value with parts.
pub open spec fn simple_code(v: ValueView) -> u8 {
    match v {
        ValueView::Null => 1,
        ValueView::Bool(_) => 2,
        ValueView::Number(_) => 3,
        ValueView::Int(_) => 3,
        ValueView::Nat(_) => 4,
        ValueView::Nat8(_) => 5,
        ValueView::Nat16(_) => 6,
        ValueView::Nat32(_) => 7,
        ValueView::Nat64(_) => 8,
        ValueView::Int8(_) => 9,
        ValueView::Int16(_) => 10,
        ValueView::Int32(_) => 11,
        ValueView::Int64(_) => 12,
        ValueView::Float32(_) => 13,
        ValueView::Float64(_) => 14,
        ValueView::Text(_) => 15,
        ValueView::Reserved => 16,
        ValueView::Principal(_) => 17,
        ValueView::Service(_) => 18,
        ValueView::Func(_, _) => 19,
        _ => 0,
    }
}

fn simple_code_of(v: &Value) -> (r: u8)
    ensures
        r == simple_code(v@),
{
    match v {
        Value::Null => 1,
        Value::Bool(_) => 2,
        Value::Number(_) => 3,
        Value::Int(_) => 3,
        Value::Nat(_) => 4,
        Value::Nat8(_) => 5,
        Value::Nat16(_) => 6,
        Value::Nat32(_) => 7,
        Value::Nat64(_) => 8,
        Value::Int8(_) => 9,
        Value::Int16(_) => 10,
        Value::Int32(_) => 11,
        Value::Int64(_) => 12,
        Value::Float32(_) => 13,
        Value::Float64(_) => 14,
        Value::Text(_) => 15,
        Value::Reserved => 16,
        Value::Principal(_) => 17,
        Value::Service(_) => 18,
        Value::Func(_, _) => 19,
        _ => 0,
    }
}

proof fn lemma_simple_code(a: ValueView, b: ValueView)
    requires
        simple_code(a) != 0,
    ensures
        (tag(a) == tag(b)) == (simple_code(a) == simple_code(b)),
{
}

fn is_nat8(v: &Value) -> (r: bool)
    ensures
        r == (tag(v@) == Tag::Nat8),
{
    match v {
        Value::Nat8(_) => true,
        _ => false,
    }
}

impl Value {
    /// Whether two values have the same type tag.
    #[verifier::loop_isolation(false)]
    pub fn same_tag(&self, other: &Value) -> (r: bool)
        ensures
            r == (tag(self@) == tag(other@)),
        decreases self,
    {
        broadcast use crate::value::group_value_views;

        proof {
            lemma_tag_not_empty(self@);
            lemma_tag_not_empty(other@);
        }
        match self {
            Value::Opt(x) => match other {
                Value::Opt(y) => x.same_tag(y),
                Value::OptNone => {
                    proof {
                        lemma_tag_not_empty(x@);
                    }
                    false
                },
                _ => false,
            },
            Value::OptNone => match other {
                Value::OptNone => true,
                Value::Opt(y) => {
                    proof {
                        lemma_tag_not_empty(y@);
                    }
                    false
                },
                _ => false,
            },
            Value::Vec(xs) => match other {
                Value::Vec(ys) => {
                    if xs.len() == 0 {
                        proof {
                            if ys.len() > 0 {
                                lemma_tag_not_empty(ys@[0]@);
                            }
                        }
                        ys.len() == 0
                    } else if ys.len() == 0 {
                        proof {
                            lemma_tag_not_empty(xs@[0]@);
                        }
                        false
                    } else {
                        xs[0].same_tag(&ys[0])
                    }
                },
                Value::Blob(_) => xs.len() > 0 && is_nat8(&xs[0]),
                _ => false,
            },
            Value::Blob(_) => match other {
                Value::Blob(_) => true,
                Value::Vec(ys) => ys.len() > 0 && is_nat8(&ys[0]),
                _ => false,
            },
            Value::Record(fs) => match other {
                Value::Record(gs) => {
                    if fs.len() != gs.len() {
                        assert(tag(self@)->Record_0.len() != tag(other@)->Record_0.len());
                        return false;
                    }
                    let ghost sa = tag(self@)->Record_0;
                    let ghost sb = tag(other@)->Record_0;
                    let mut i: usize = 0;
                    while i < fs.len()
                        invariant
                            i <= fs.len(),
                            fs.len() == gs.len(),
                            forall|k: int| 0 <= k < i ==> sa[k] == sb[k],
                        decreases fs.len() - i,
                    {
                        let same: bool = fs[i].id.id() == gs[i].id.id() && fs[i].val.same_tag(
                            &gs[i].val,
                        );
                        assert(same == (sa[i as int] == sb[i as int]));
                        if !same {
                            return false;
                        }
                        i += 1;
                    }
                    assert(sa =~= sb);
                    true
                },
                _ => false,
            },
            Value::Variant(f, _) => match other {
                Value::Variant(g, _) => f.id.id() == g.id.id() && f.val.same_tag(&g.val),
                _ => false,
            },
            _ => {
                proof {
                    lemma_simple_code(self@, other@);
                }
                simple_code_of(self) == simple_code_of(other)
            },
        }
    }
}

fn int_texts_equal(a: &str, b: &str) -> (r: bool)
    ensures
        r == equal_int_texts(a@, b@),
{
    if is_int_literal_text(a) && is_int_literal_text(b) {
        int_order(OrderOp::Lte, a, b) && int_order(OrderOp::Gte, a, b)
    } else {
        text_eq(a, b)
    }
}

impl Value {
    /// Whether a float occurs in this value.
    #[verifier::loop_isolation(false)]
    pub fn has_float(&self) -> (r: bool)
        ensures
            r == holds_float(self@),
        decreases self,
    {
        broadcast use crate::value::group_value_views;

        match self {
            Value::Float64(_) => true,
            Value::Float32(_) => true,
            Value::Opt(x) => x.has_float(),
            Value::Vec(xs) => {
                let mut i: usize = 0;
                while i < xs.len()
                    invariant
                        i <= xs.len(),
                        forall|k: int| 0 <= k < i ==> !holds_float(#[trigger] self@->Vec_0[k]),
                    decreases xs.len() - i,
                {
                    assert(self@->Vec_0[i as int] == xs@[i as int]@);
                    if xs[i].has_float() {
                        return true;
                    }
                    i += 1;
                }
                false
            },
            Value::Record(fs) => {
                let mut i: usize = 0;
                while i < fs.len()
                    invariant
                        i <= fs.len(),
                        forall|k: int|
                            0 <= k < i ==> !holds_float((#[trigger] self@->Record_0[k]).val),
                    decreases fs.len() - i,
                {
                    assert(self@->Record_0[i as int] == fs@[i as int]@);
                    if fs[i].val.has_float() {
                        return true;
                    }
                    i += 1;
                }
                false
            },
            Value::Variant(f, _) => f.val.has_float(),
            _ => false,
        }
    }

    /// Structural equality with another value.
    #[verifier::loop_isolation(false)]
    pub fn equals(&self, other: &Value) -> (r: bool)
        ensures
            r == equal_values(self@, other@),
        decreases self,
    {
        broadcast use crate::value::group_value_views;

        match self {
            Value::Bool(x) => match other {
                Value::Bool(y) => *x == *y,
                _ => false,
            },
            Value::Null => match other {
                Value::Null => true,
                _ => false,
            },
            Value::Text(x) => match other {
                Value::Text(y) => text_eq(x.as_str(), y.as_str()),
                _ => false,
            },
            Value::Number(x) => match other {
                Value::Number(y) => text_eq(x.as_str(), y.as_str()),
                _ => false,
            },
            Value::Float64(x) => match other {
                Value::Float64(y) => *x == *y,
                _ => false,
            },
            Value::Opt(x) => match other {
                Value::Opt(y) => x.equals(y),
                _ => false,
            },
            Value::Vec(xs) => match other {
                Value::Vec(ys) => {
                    if xs.len() != ys.len() {
                        return false;
                    }
                    let mut i: usize = 0;
                    while i < xs.len()
                        invariant
                            i <= xs.len(),
                            xs.len() == ys.len(),
                            forall|k: int|
                                0 <= k < i ==> equal_values(
                                    #[trigger] self@->Vec_0[k],
                                    other@->Vec_0[k],
                                ),
                        decreases xs.len() - i,
                    {
                        assert(self@->Vec_0[i as int] == xs@[i as int]@);
                        assert(other@->Vec_0[i as int] == ys@[i as int]@);
                        if !xs[i].equals(&ys[i]) {
                            return false;
                        }
                        i += 1;
                    }
                    true
                },
                _ => false,
            },
            Value::Record(fs) => match other {
                Value::Record(gs) => {
                    if fs.len() != gs.len() {
                        return false;
                    }
                    let mut i: usize = 0;
                    while i < fs.len()
                        invariant
                            i <= fs.len(),
                            fs.len() == gs.len(),
                            forall|k: int|
                                0 <= k < i ==> label_id((#[trigger] self@->Record_0[k]).id)
                                    == label_id(other@->Record_0[k].id) && equal_values(
                                    self@->Record_0[k].val,
                                    other@->Record_0[k].val,
                                ),
                        decreases fs.len() - i,
                    {
                        assert(self@->Record_0[i as int] == fs@[i as int]@);
                        assert(other@->Record_0[i as int] == gs@[i as int]@);
                        if !(fs[i].id.id() == gs[i].id.id() && fs[i].val.equals(&gs[i].val)) {
                            return false;
                        }
                        i += 1;
                    }
                    true
                },
                _ => false,
            },
            Value::Variant(f, _) => match other {
                Value::Variant(g, _) => f.id.id() == g.id.id() && f.val.equals(&g.val),
                _ => false,
            },
            Value::Blob(x) => match other {
                Value::Blob(y) => bytes_eq(x, y),
                _ => false,
            },
            Value::Principal(x) => match other {
                Value::Principal(y) => x.same(y),
                _ => false,
            },
            Value::Service(x) => match other {
                Value::Service(y) => x.same(y),
                _ => false,
            },
            Value::Func(x, m) => match other {
                Value::Func(y, n) => x.same(y) && text_eq(m.as_str(), n.as_str()),
                _ => false,
            },
            Value::OptNone => match other {
                Value::OptNone => true,
                _ => false,
            },
            Value::Int(x) => match other {
                Value::Int(y) => int_texts_equal(x.as_str(), y.as_str()),
                _ => false,
            },
            Value::Nat(x) => match other {
                Value::Nat(y) => int_texts_equal(x.as_str(), y.as_str()),
                _ => false,
            },
            Value::Nat8(x) => match other {
                Value::Nat8(y) => *x == *y,
                _ => false,
            },
            Value::Nat16(x) => match other {
                Value::Nat16(y) => *x == *y,
                _ => false,
            },
            Value::Nat32(x) => match other {
                Value::Nat32(y) => *x == *y,
                _ => false,
            },
            Value::Nat64(x) => match other {
                Value::Nat64(y) => *x == *y,
                _ => false,
            },
            Value::Int8(x) => match other {
                Value::Int8(y) => *x == *y,
                _ => false,
            },
            Value::Int16(x) => match other {
                Value::Int16(y) => *x == *y,
                _ => false,
            },
            Value::Int32(x) => match other {
                Value::Int32(y) => *x == *y,
                _ => false,
            },
            Value::Int64(x) => match other {
                Value::Int64(y) => *x == *y,
                _ => false,
            },
            Value::Float32(x) => match other {
                Value::Float32(y) => *x == *y,
                _ => false,
            },
            Value::Reserved => match other {
                Value::Reserved => true,
                _ => false,
            },
        }
    }
}

} // verus!
