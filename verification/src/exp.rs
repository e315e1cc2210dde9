//! Expressions and their evaluation.
use vstd::prelude::*;
use vstd::string::*;
use crate::label::{Label, LabelView};
use crate::principal::Principal;
use crate::types::{CallMode, CallModeView, Method, MethodView};

verus! {

/// A step of a projection: the element at an index, or the field of a name.
#[derive(Debug, PartialEq, Eq)]
pub enum Selector {
    Index(u64),
    Field(String),
}

pub enum SelectorView {
    Index(u64),
    Field(Seq<char>),
}

impl View for Selector {
    type V = SelectorView;

    open spec fn view(&self) -> SelectorView {
        match self {
            Selector::Index(i) => SelectorView::Index(*i),
            Selector::Field(s) => SelectorView::Field(s@),
        }
    }
}

pub open spec fn selectors_view(s: Seq<Selector>) -> Seq<SelectorView> {
    Seq::new(s.len(), |i: int| s[i]@)
}

/// An expression of a script, as the parser hands it over.
#[derive(Debug, PartialEq, Eq)]
pub enum Exp {
    /// A variable, and a projection from its value.
    Path(String, Vec<Selector>),
    /// An expression whose value is converted to a declared type, the type in
    /// its textual form.
    AnnVal(Box<Exp>, String),
    /// A call of a method.
    Call { method: Option<Method>, args: Option<Vec<Exp>>, mode: CallMode },
    /// Several calls that are sent at once.
    ParCall { calls: Vec<FuncCall> },
    /// A message that is decoded, by the result types of a method where one is
    /// given.
    Decode { method: Option<Method>, blob: Box<Exp> },
    /// A builtin or a function that a script has defined, applied to arguments.
    Apply(String, Vec<Exp>),
    /// An expression that is expected to fail.
    Fail(Box<Exp>),
    Bool(bool),
    Null,
    Text(String),
    /// A number whose type is not known yet.
    Number(String),
    /// A float, by its bits.
    Float64(u64),
    Opt(Box<Exp>),
    Blob(Vec<u8>),
    Vec(Vec<Exp>),
    /// A record. Its fields are evaluated in the order in which they stand here;
    /// in the value they stand in the order of their label ids.
    Record(Vec<Field>),
    /// A variant with its chosen field; the index is that of the field in the
    /// type, 0 where no type is known.
    Variant(Box<Field>, u64),
    Principal(Principal),
    Service(Principal),
    Func(Principal, String),
}

/// One call of a batch.
#[derive(Debug, PartialEq, Eq)]
pub struct FuncCall {
    pub method: Method,
    pub args: Vec<Exp>,
}

/// A field of a record expression, or the chosen field of a variant expression.
#[derive(Debug, PartialEq, Eq)]
pub struct Field {
    pub id: Label,
    pub val: Exp,
}

pub enum ExpView {
    Path(Seq<char>, Seq<SelectorView>),
    AnnVal(Box<ExpView>, Seq<char>),
    Call { method: Option<MethodView>, args: Option<Seq<ExpView>>, mode: CallModeView },
    ParCall { calls: Seq<FuncCallView> },
    Decode { method: Option<MethodView>, blob: Box<ExpView> },
    Apply(Seq<char>, Seq<ExpView>),
    Fail(Box<ExpView>),
    Bool(bool),
    Null,
    Text(Seq<char>),
    Number(Seq<char>),
    Float64(u64),
    Opt(Box<ExpView>),
    Blob(Seq<u8>),
    Vec(Seq<ExpView>),
    Record(Seq<FieldExpView>),
    Variant(Box<FieldExpView>, u64),
    Principal(Seq<u8>),
    Service(Seq<u8>),
    Func(Seq<u8>, Seq<char>),
}

pub struct FuncCallView {
    pub method: MethodView,
    pub args: Seq<ExpView>,
}

pub struct FieldExpView {
    pub id: LabelView,
    pub val: ExpView,
}

pub open spec fn opt_method_view(m: Option<Method>) -> Option<MethodView> {
    match m {
        Some(x) => Some(x@),
        None => None,
    }
}

/// The views of a list of expressions.
pub open spec fn exps_model(es: Vec<Exp>) -> Seq<ExpView>
    decreases es,
{
    Seq::new(
        es@.len(),
        |i: int|
            if 0 <= i < es@.len() {
                es@[i].model()
            } else {
                ExpView::Null
            },
    )
}

impl Exp {
    /// The view of an expression.
    pub open spec fn model(self) -> ExpView
        decreases self,
    {
        match self {
            Exp::Path(name, path) => ExpView::Path(name@, selectors_view(path@)),
            Exp::AnnVal(e, ty) => ExpView::AnnVal(Box::new(e.model()), ty@),
            Exp::Call { method, args, mode } => ExpView::Call {
                method: opt_method_view(method),
                args: match args {
                    Some(es) => Some(exps_model(es)),
                    None => None,
                },
                mode: mode@,
            },
            Exp::ParCall { calls } => ExpView::ParCall {
                calls: Seq::new(
                    calls@.len(),
                    |i: int|
                        if 0 <= i < calls@.len() {
                            FuncCallView {
                                method: calls@[i].method@,
                                args: exps_model(calls@[i].args),
                            }
                        } else {
                            FuncCallView {
                                method: MethodView { canister: Seq::empty(), method: Seq::empty() },
                                args: Seq::empty(),
                            }
                        },
                ),
            },
            Exp::Decode { method, blob } => ExpView::Decode {
                method: opt_method_view(method),
                blob: Box::new(blob.model()),
            },
            Exp::Apply(func, exps) => ExpView::Apply(func@, exps_model(exps)),
            Exp::Fail(e) => ExpView::Fail(Box::new(e.model())),
            Exp::Bool(b) => ExpView::Bool(b),
            Exp::Null => ExpView::Null,
            Exp::Text(s) => ExpView::Text(s@),
            Exp::Number(s) => ExpView::Number(s@),
            Exp::Float64(b) => ExpView::Float64(b),
            Exp::Opt(e) => ExpView::Opt(Box::new(e.model())),
            Exp::Blob(b) => ExpView::Blob(b@),
            Exp::Vec(es) => ExpView::Vec(exps_model(es)),
            Exp::Record(fs) => ExpView::Record(
                Seq::new(
                    fs@.len(),
                    |i: int|
                        if 0 <= i < fs@.len() {
                            FieldExpView { id: fs@[i].id@, val: fs@[i].val.model() }
                        } else {
                            FieldExpView { id: LabelView::Id(0), val: ExpView::Null }
                        },
                ),
            ),
            Exp::Variant(f, idx) => ExpView::Variant(
                Box::new(FieldExpView { id: f.id@, val: f.val.model() }),
                idx,
            ),
            Exp::Principal(p) => ExpView::Principal(p@),
            Exp::Service(p) => ExpView::Service(p@),
            Exp::Func(p, m) => ExpView::Func(p@, m@),
        }
    }
}

impl View for Exp {
    type V = ExpView;

    open spec fn view(&self) -> ExpView {
        self.model()
    }
}

impl View for Field {
    type V = FieldExpView;

    open spec fn view(&self) -> FieldExpView {
        FieldExpView { id: self.id@, val: self.val.model() }
    }
}

impl View for FuncCall {
    type V = FuncCallView;

    open spec fn view(&self) -> FuncCallView {
        FuncCallView { method: self.method@, args: exps_model(self.args) }
    }
}

pub open spec fn exps_view(s: Seq<Exp>) -> Seq<ExpView> {
    Seq::new(s.len(), |i: int| s[i]@)
}

pub open spec fn field_exps_view(s: Seq<Field>) -> Seq<FieldExpView> {
    Seq::new(s.len(), |i: int| s[i]@)
}

pub open spec fn func_calls_view(s: Seq<FuncCall>) -> Seq<FuncCallView> {
    Seq::new(s.len(), |i: int| s[i]@)
}

/// The views of a list of expressions, element by element.
pub broadcast proof fn lemma_exps_model(es: Vec<Exp>)
    ensures
        #[trigger] exps_model(es) == exps_view(es@),
{
    assert(exps_model(es) =~= exps_view(es@));
}

/// The view of a record expression is the views of its fields.
pub broadcast proof fn lemma_record_exp_view(fs: Vec<Field>)
    ensures
        #[trigger] Exp::Record(fs)@ == ExpView::Record(field_exps_view(fs@)),
{
    assert(Exp::Record(fs)@->Record_0 =~= field_exps_view(fs@));
}

/// The view of a batch is the views of its calls.
pub broadcast proof fn lemma_par_call_view(calls: Vec<FuncCall>)
    ensures
        #[trigger] (Exp::ParCall { calls })@ == (ExpView::ParCall {
            calls: func_calls_view(calls@),
        }),
{
    assert((Exp::ParCall { calls })@->ParCall_calls =~= func_calls_view(calls@));
}

pub broadcast group group_exp_views {
    lemma_exps_model,
    lemma_record_exp_view,
    lemma_par_call_view,
}

impl Exp {
    /// Whether this is a call that is sent, as against one that is only encoded
    /// or goes through a relay. A batch of calls does not count.
    pub fn is_call(&self) -> (r: bool)
        ensures
            r == (self@ matches ExpView::Call { mode: CallModeView::Call, .. }),
    {
        match self {
            Exp::Call { mode: CallMode::Call, .. } => true,
            _ => false,
        }
    }
}

impl Clone for Selector {
    fn clone(&self) -> (r: Self)
        ensures
            r@ == self@,
    {
        match self {
            Selector::Index(i) => Selector::Index(*i),
            Selector::Field(s) => Selector::Field(crate::text::text_copy(s.as_str())),
        }
    }
}

fn selectors_copy(a: &Vec<Selector>) -> (r: Vec<Selector>)
    ensures
        selectors_view(r@) == selectors_view(a@),
{
    let mut r: Vec<Selector> = Vec::new();
    let mut i: usize = 0;
    while i < a.len()
        invariant
            i <= a.len(),
            r@.len() == i,
            forall|k: int| 0 <= k < i ==> r@[k]@ == a@[k]@,
        decreases a.len() - i,
    {
        r.push(a[i].clone());
        i += 1;
    }
    assert(selectors_view(r@) =~= selectors_view(a@));
    r
}

fn opt_method_copy(m: &Option<Method>) -> (r: Option<Method>)
    ensures
        opt_method_view(r) == opt_method_view(*m),
{
    match m {
        Some(x) => Some(x.clone()),
        None => None,
    }
}

/// A copy of a list of expressions.
pub fn exps_copy(es: &Vec<Exp>) -> (r: Vec<Exp>)
    ensures
        exps_view(r@) == exps_view(es@),
    decreases es, 0nat,
{
    let mut r: Vec<Exp> = Vec::new();
    let mut i: usize = 0;
    while i < es.len()
        invariant
            i <= es.len(),
            r@.len() == i,
            forall|k: int| 0 <= k < i ==> r@[k]@ == es@[k]@,
        decreases es.len() - i,
    {
        r.push(es[i].duplicate());
        i += 1;
    }
    assert(exps_view(r@) =~= exps_view(es@));
    r
}

impl Exp {
    /// A copy of this expression.
    #[verifier::loop_isolation(false)]
    pub fn duplicate(&self) -> (r: Exp)
        ensures
            r@ == self@,
        decreases self, 0nat,
    {
        match self {
            Exp::Path(name, path) => Exp::Path(
                crate::text::text_copy(name.as_str()),
                selectors_copy(path),
            ),
            Exp::AnnVal(e, ty) => Exp::AnnVal(
                Box::new(e.duplicate()),
                crate::text::text_copy(ty.as_str()),
            ),
            Exp::Call { method, args, mode } => {
                let args = match args {
                    Some(es) => {
                        let c = exps_copy(es);
                        proof {
                            lemma_exps_model(*es);
                            lemma_exps_model(c);
                        }
                        Some(c)
                    },
                    None => None,
                };
                Exp::Call { method: opt_method_copy(method), args, mode: mode.clone() }
            },
            Exp::ParCall { calls } => {
                let mut r: Vec<FuncCall> = Vec::new();
                let mut i: usize = 0;
                while i < calls.len()
                    invariant
                        i <= calls.len(),
                        r@.len() == i,
                        forall|k: int| 0 <= k < i ==> r@[k]@ == calls@[k]@,
                    decreases calls.len() - i,
                {
                    let args = exps_copy(&calls[i].args);
                    proof {
                        lemma_exps_model(calls@[i as int].args);
                        lemma_exps_model(args);
                    }
                    r.push(FuncCall { method: calls[i].method.clone(), args });
                    i += 1;
                }
                proof {
                    lemma_par_call_view(*calls);
                    lemma_par_call_view(r);
                    assert(func_calls_view(r@) =~= func_calls_view(calls@));
                }
                Exp::ParCall { calls: r }
            },
            Exp::Decode { method, blob } => Exp::Decode {
                method: opt_method_copy(method),
                blob: Box::new(blob.duplicate()),
            },
            Exp::Apply(func, exps) => {
                let c = exps_copy(exps);
                proof {
                    lemma_exps_model(*exps);
                    lemma_exps_model(c);
                }
                Exp::Apply(crate::text::text_copy(func.as_str()), c)
            },
            Exp::Fail(e) => Exp::Fail(Box::new(e.duplicate())),
            Exp::Bool(b) => Exp::Bool(*b),
            Exp::Null => Exp::Null,
            Exp::Text(s) => Exp::Text(crate::text::text_copy(s.as_str())),
            Exp::Number(s) => Exp::Number(crate::text::text_copy(s.as_str())),
            Exp::Float64(b) => Exp::Float64(*b),
            Exp::Opt(e) => Exp::Opt(Box::new(e.duplicate())),
            Exp::Blob(b) => Exp::Blob(crate::text::bytes_copy(b)),
            Exp::Vec(es) => {
                let c = exps_copy(es);
                proof {
                    lemma_exps_model(*es);
                    lemma_exps_model(c);
                }
                Exp::Vec(c)
            },
            Exp::Record(fs) => {
                let mut r: Vec<Field> = Vec::new();
                let mut i: usize = 0;
                while i < fs.len()
                    invariant
                        i <= fs.len(),
                        r@.len() == i,
                        forall|k: int| 0 <= k < i ==> r@[k]@ == fs@[k]@,
                    decreases fs.len() - i,
                {
                    r.push(Field { id: fs[i].id.clone(), val: fs[i].val.duplicate() });
                    i += 1;
                }
                proof {
                    lemma_record_exp_view(*fs);
                    lemma_record_exp_view(r);
                    assert(field_exps_view(r@) =~= field_exps_view(fs@));
                }
                Exp::Record(r)
            },
            Exp::Variant(f, idx) => Exp::Variant(
                Box::new(Field { id: f.id.clone(), val: f.val.duplicate() }),
                *idx,
            ),
            Exp::Principal(p) => Exp::Principal(p.clone()),
            Exp::Service(p) => Exp::Service(p.clone()),
            Exp::Func(p, m) => Exp::Func(p.clone(), crate::text::text_copy(m.as_str())),
        }
    }
}

impl Clone for Exp {
    fn clone(&self) -> (r: Self)
        ensures
            r@ == self@,
    {
        self.duplicate()
    }
}

impl Clone for Field {
    fn clone(&self) -> (r: Self)
        ensures
            r@ == self@,
    {
        Field { id: self.id.clone(), val: self.val.duplicate() }
    }
}

impl Clone for FuncCall {
    fn clone(&self) -> (r: Self)
        ensures
            r@ == self@,
    {
        let args = exps_copy(&self.args);
        proof {
            lemma_exps_model(self.args);
            lemma_exps_model(args);
        }
        FuncCall { method: self.method.clone(), args }
    }
}

} // verus!
