//! The values that expressions evaluate to.
use vstd::prelude::*;
use vstd::string::*;
use crate::label::{Label, LabelView};
use crate::principal::Principal;
use crate::text::{bytes_copy, text_copy};

verus! {

/// A runtime value.
///
/// A float is held as the bits of its IEEE 754 form. An integer of unbounded
/// size (`Int`, `Nat`) and a number whose type is not yet known (`Number`) are
/// held as decimal texts.
#[derive(Debug, PartialEq, Eq)]
pub enum Value {
    Bool(bool),
    Null,
    Text(String),
    Number(String),
    Float64(u64),
    Opt(Box<Value>),
    Vec(Vec<Value>),
    Record(Vec<ValueField>),
    Variant(Box<ValueField>, u64),
    Blob(Vec<u8>),
    Principal(Principal),
    Service(Principal),
    Func(Principal, String),
    OptNone,
    Int(String),
    Nat(String),
    Nat8(u8),
    Nat16(u16),
    Nat32(u32),
    Nat64(u64),
    Int8(i8),
    Int16(i16),
    Int32(i32),
    Int64(i64),
    Float32(u32),
    Reserved,
}

/// A field of a record value, or the chosen alternative of a variant value.
#[derive(Debug, PartialEq, Eq)]
pub struct ValueField {
    pub id: Label,
    pub val: Value,
}

pub enum ValueView {
    Bool(bool),
    Null,
    Text(Seq<char>),
    Number(Seq<char>),
    Float64(u64),
    Opt(Box<ValueView>),
    Vec(Seq<ValueView>),
    Record(Seq<FieldView>),
    Variant(Box<FieldView>, u64),
    Blob(Seq<u8>),
    Principal(Seq<u8>),
    Service(Seq<u8>),
    Func(Seq<u8>, Seq<char>),
    OptNone,
    Int(Seq<char>),
    Nat(Seq<char>),
    Nat8(u8),
    Nat16(u16),
    Nat32(u32),
    Nat64(u64),
    Int8(i8),
    Int16(i16),
    Int32(i32),
    Int64(i64),
    Float32(u32),
    Reserved,
}

pub struct FieldView {
    pub id: LabelView,
    pub val: ValueView,
}

impl Value {
    /// The view of a value.
    pub open spec fn model(self) -> ValueView
        decreases self,
    {
        match self {
            Value::Bool(b) => ValueView::Bool(b),
            Value::Null => ValueView::Null,
            Value::Text(s) => ValueView::Text(s@),
            Value::Number(s) => ValueView::Number(s@),
            Value::Float64(b) => ValueView::Float64(b),
            Value::Opt(v) => ValueView::Opt(Box::new(v.model())),
            Value::Vec(vs) => ValueView::Vec(
                Seq::new(
                    vs@.len(),
                    |i: int|
                        if 0 <= i < vs@.len() {
                            vs@[i].model()
                        } else {
                            ValueView::Null
                        },
                ),
            ),
            Value::Record(fs) => ValueView::Record(
                Seq::new(
                    fs@.len(),
                    |i: int|
                        if 0 <= i < fs@.len() {
                            FieldView { id: fs@[i].id@, val: fs@[i].val.model() }
                        } else {
                            FieldView { id: LabelView::Id(0), val: ValueView::Null }
                        },
                ),
            ),
            Value::Variant(f, idx) => ValueView::Variant(
                Box::new(FieldView { id: f.id@, val: f.val.model() }),
                idx,
            ),
            Value::Blob(b) => ValueView::Blob(b@),
            Value::Principal(p) => ValueView::Principal(p@),
            Value::Service(p) => ValueView::Service(p@),
            Value::Func(p, m) => ValueView::Func(p@, m@),
            Value::OptNone => ValueView::OptNone,
            Value::Int(s) => ValueView::Int(s@),
            Value::Nat(s) => ValueView::Nat(s@),
            Value::Nat8(n) => ValueView::Nat8(n),
            Value::Nat16(n) => ValueView::Nat16(n),
            Value::Nat32(n) => ValueView::Nat32(n),
            Value::Nat64(n) => ValueView::Nat64(n),
            Value::Int8(n) => ValueView::Int8(n),
            Value::Int16(n) => ValueView::Int16(n),
            Value::Int32(n) => ValueView::Int32(n),
            Value::Int64(n) => ValueView::Int64(n),
            Value::Float32(b) => ValueView::Float32(b),
            Value::Reserved => ValueView::Reserved,
        }
    }
}

impl View for Value {
    type V = ValueView;

    open spec fn view(&self) -> ValueView {
        self.model()
    }
}

impl View for ValueField {
    type V = FieldView;

    open spec fn view(&self) -> FieldView {
        FieldView { id: self.id@, val: self.val.model() }
    }
}

/// The views of a list of values.
pub open spec fn values_view(s: Seq<Value>) -> Seq<ValueView> {
    Seq::new(s.len(), |i: int| s[i]@)
}

/// The views of a list of fields.
pub open spec fn fields_view(s: Seq<ValueField>) -> Seq<FieldView> {
    Seq::new(s.len(), |i: int| s[i]@)
}

/// The view of a vector value is the views of its elements.
pub broadcast proof fn lemma_vec_view(vs: Vec<Value>)
    ensures
        #[trigger] Value::Vec(vs)@ == ValueView::Vec(values_view(vs@)),
{
    assert(Value::Vec(vs)@->Vec_0 =~= values_view(vs@));
}

/// The view of a record value is the views of its fields.
pub broadcast proof fn lemma_record_view(fs: Vec<ValueField>)
    ensures
        #[trigger] Value::Record(fs)@ == ValueView::Record(fields_view(fs@)),
{
    assert(Value::Record(fs)@->Record_0 =~= fields_view(fs@));
}

/// The views of a list with one more value.
pub broadcast proof fn lemma_values_view_push(s: Seq<Value>, v: Value)
    ensures
        #[trigger] values_view(s.push(v)) == values_view(s).push(v@),
{
    assert(values_view(s.push(v)) =~= values_view(s).push(v@));
}

/// The views of a list with one more field.
pub broadcast proof fn lemma_fields_view_push(s: Seq<ValueField>, f: ValueField)
    ensures
        #[trigger] fields_view(s.push(f)) == fields_view(s).push(f@),
{
    assert(fields_view(s.push(f)) =~= fields_view(s).push(f@));
}

pub broadcast group group_value_views {
    lemma_vec_view,
    lemma_record_view,
    lemma_values_view_push,
    lemma_fields_view_push,
}

impl Clone for ValueField {
    fn clone(&self) -> (r: Self)
        ensures
            r@ == self@,
    {
        ValueField { id: self.id.clone(), val: self.val.duplicate() }
    }
}

impl Clone for Value {
    fn clone(&self) -> (r: Self)
        ensures
            r@ == self@,
    {
        self.duplicate()
    }
}

impl Value {
    /// A copy of this value.
    #[verifier::loop_isolation(false)]
    pub fn duplicate(&self) -> (r: Value)
        ensures
            r@ == self@,
        decreases self,
    {
        broadcast use group_value_views;

        match self {
            Value::Bool(b) => Value::Bool(*b),
            Value::Null => Value::Null,
            Value::Text(s) => Value::Text(text_copy(s.as_str())),
            Value::Number(s) => Value::Number(text_copy(s.as_str())),
            Value::Float64(b) => Value::Float64(*b),
            Value::Opt(v) => Value::Opt(Box::new(v.duplicate())),
            Value::Vec(vs) => {
                let mut r: Vec<Value> = Vec::new();
                let mut i: usize = 0;
                while i < vs.len()
                    invariant
                        i <= vs.len(),
                        r@.len() == i,
                        forall|k: int| 0 <= k < i ==> r@[k]@ == vs@[k]@,
                    decreases vs.len() - i,
                {
                    r.push(vs[i].duplicate());
                    i += 1;
                }
                assert(values_view(r@) =~= values_view(vs@));
                Value::Vec(r)
            },
            Value::Record(fs) => {
                let mut r: Vec<ValueField> = Vec::new();
                let mut i: usize = 0;
                while i < fs.len()
                    invariant
                        i <= fs.len(),
                        r@.len() == i,
                        forall|k: int| 0 <= k < i ==> r@[k]@ == fs@[k]@,
                    decreases fs.len() - i,
                {
                    r.push(ValueField { id: fs[i].id.clone(), val: fs[i].val.duplicate() });
                    i += 1;
                }
                assert(fields_view(r@) =~= fields_view(fs@));
                Value::Record(r)
            },
            Value::Variant(f, idx) => Value::Variant(
                Box::new(ValueField { id: f.id.clone(), val: f.val.duplicate() }),
                *idx,
            ),
            Value::Blob(b) => Value::Blob(bytes_copy(b)),
            Value::Principal(p) => Value::Principal(p.clone()),
            Value::Service(p) => Value::Service(p.clone()),
            Value::Func(p, m) => Value::Func(p.clone(), text_copy(m.as_str())),
            Value::OptNone => Value::OptNone,
            Value::Int(s) => Value::Int(text_copy(s.as_str())),
            Value::Nat(s) => Value::Nat(text_copy(s.as_str())),
            Value::Nat8(n) => Value::Nat8(*n),
            Value::Nat16(n) => Value::Nat16(*n),
            Value::Nat32(n) => Value::Nat32(*n),
            Value::Nat64(n) => Value::Nat64(*n),
            Value::Int8(n) => Value::Int8(*n),
            Value::Int16(n) => Value::Int16(*n),
            Value::Int32(n) => Value::Int32(*n),
            Value::Int64(n) => Value::Int64(*n),
            Value::Float32(b) => Value::Float32(*b),
            Value::Reserved => Value::Reserved,
        }
    }
}

/// A copy of a list of values.
pub fn values_copy(vs: &Vec<Value>) -> (r: Vec<Value>)
    ensures
        values_view(r@) == values_view(vs@),
{
    broadcast use group_value_views;

    let mut r: Vec<Value> = Vec::new();
    let mut i: usize = 0;
    while i < vs.len()
        invariant
            i <= vs.len(),
            r@.len() == i,
            forall|k: int| 0 <= k < i ==> r@[k]@ == vs@[k]@,
        decreases vs.len() - i,
    {
        r.push(vs[i].duplicate());
        i += 1;
    }
    assert(values_view(r@) =~= values_view(vs@));
    r
}

} // verus!
