//! What a script names and what is known of a canister: methods, signatures,
//! interfaces, and the environment in which an expression is evaluated.
//!
//! A type is not looked into here. It is carried in its textual form, as it
//! stands in an interface description, and so is a set of type definitions.
use vstd::prelude::*;
use vstd::string::*;
use crate::principal::Principal;
use crate::text::{text_copy, text_eq, texts_copy, texts_view};
use crate::value::{Value, ValueView};

verus! {

/// A method of a canister, the canister given by its address in text or by
/// the name of a variable that holds it.
#[derive(Debug, PartialEq, Eq)]
pub struct Method {
    pub canister: String,
    pub method: String,
}

pub struct MethodView {
    pub canister: Seq<char>,
    pub method: Seq<char>,
}

impl View for Method {
    type V = MethodView;

    open spec fn view(&self) -> MethodView {
        MethodView { canister: self.canister@, method: self.method@ }
    }
}

impl Clone for Method {
    fn clone(&self) -> (r: Self)
        ensures
            r@ == self@,
    {
        Method {
            canister: text_copy(self.canister.as_str()),
            method: text_copy(self.method.as_str()),
        }
    }
}

/// What a call expression does with its encoded arguments: send them, hand them
/// back as a byte string, or send them through a relay canister.
#[derive(Debug, PartialEq, Eq)]
pub enum CallMode {
    Call,
    Encode,
    Proxy(String),
}

pub enum CallModeView {
    Call,
    Encode,
    Proxy(Seq<char>),
}

impl View for CallMode {
    type V = CallModeView;

    open spec fn view(&self) -> CallModeView {
        match self {
            CallMode::Call => CallModeView::Call,
            CallMode::Encode => CallModeView::Encode,
            CallMode::Proxy(s) => CallModeView::Proxy(s@),
        }
    }
}

impl Clone for CallMode {
    fn clone(&self) -> (r: Self)
        ensures
            r@ == self@,
    {
        match self {
            CallMode::Call => CallMode::Call,
            CallMode::Encode => CallMode::Encode,
            CallMode::Proxy(s) => CallMode::Proxy(text_copy(s.as_str())),
        }
    }
}

/// A mode that a method is declared with.
#[derive(Debug, Clone, Copy, PartialEq, Eq)]
pub enum FuncMode {
    Oneway,
    Query,
    CompositeQuery,
}

/// The signature of a method: its modes and the types of its arguments and
/// results, each type in its textual form.
#[derive(Debug, PartialEq, Eq)]
pub struct Function {
    pub modes: Vec<FuncMode>,
    pub args: Vec<String>,
    pub rets: Vec<String>,
}

pub struct FunctionView {
    pub modes: Seq<FuncMode>,
    pub args: Seq<Seq<char>>,
    pub rets: Seq<Seq<char>>,
}

impl View for Function {
    type V = FunctionView;

    open spec fn view(&self) -> FunctionView {
        FunctionView {
            modes: self.modes@,
            args: texts_view(self.args@),
            rets: texts_view(self.rets@),
        }
    }
}

/// A method answers without consensus where it is declared `query` or
/// `composite_query`.
pub open spec fn is_query(f: FunctionView) -> bool {
    exists|i: int|
        0 <= i < f.modes.len() && (#[trigger] f.modes[i] == FuncMode::Query || f.modes[i]
            == FuncMode::CompositeQuery)
}

fn modes_copy(a: &Vec<FuncMode>) -> (r: Vec<FuncMode>)
    ensures
        r@ == a@,
{
    let mut r: Vec<FuncMode> = Vec::new();
    let mut i: usize = 0;
    while i < a.len()
        invariant
            i <= a.len(),
            r@.len() == i,
            forall|k: int| 0 <= k < i ==> r@[k] == a@[k],
        decreases a.len() - i,
    {
        r.push(a[i]);
        i += 1;
    }
    assert(r@ =~= a@);
    r
}

impl Clone for Function {
    fn clone(&self) -> (r: Self)
        ensures
            r@ == self@,
    {
        Function {
            modes: modes_copy(&self.modes),
            args: texts_copy(&self.args),
            rets: texts_copy(&self.rets),
        }
    }
}

impl Function {
    /// Whether the method is a query.
    pub fn is_query(&self) -> (r: bool)
        ensures
            r == is_query(self@),
    {
        let mut i: usize = 0;
        while i < self.modes.len()
            invariant
                i <= self.modes.len(),
                forall|k: int|
                    0 <= k < i ==> !(#[trigger] self.modes@[k] == FuncMode::Query || self.modes@[k]
                        == FuncMode::CompositeQuery),
            decreases self.modes.len() - i,
        {
            match self.modes[i] {
                FuncMode::Query => {
                    return true;
                },
                FuncMode::CompositeQuery => {
                    return true;
                },
                FuncMode::Oneway => {},
            }
            i += 1;
        }
        false
    }
}

/// The type definitions of an interface and a signature stated over them.
#[derive(Debug, PartialEq, Eq)]
pub struct Signature {
    pub env: String,
    pub func: Function,
}

pub struct SignatureView {
    pub env: Seq<char>,
    pub func: FunctionView,
}

impl View for Signature {
    type V = SignatureView;

    open spec fn view(&self) -> SignatureView {
        SignatureView { env: self.env@, func: self.func@ }
    }
}

impl Clone for Signature {
    fn clone(&self) -> (r: Self)
        ensures
            r@ == self@,
    {
        Signature { env: text_copy(self.env.as_str()), func: self.func.clone() }
    }
}

/// The profiling symbols of a canister, where it has them: the number of each
/// function and its name.
pub open spec fn opt_names_view(s: Option<std::collections::BTreeMap<u16, String>>) -> Option<Map<u16, String>> {
    match s {
        Some(m) => Some(m@),
        None => None,
    }
}

/// A copy of the profiling symbols of a canister.
pub fn opt_names_copy(a: &Option<std::collections::BTreeMap<u16, String>>) -> (r: Option<std::collections::BTreeMap<u16, String>>)
    ensures
        opt_names_view(r) == opt_names_view(*a),
{
    match a {
        Some(m) => Some(m.clone()),
        None => None,
    }
}

/// What is resolved of a method before a call: the address of its canister, its
/// signature where one is known, and the profiling symbols of the canister where
/// it is instrumented.
#[derive(Debug, PartialEq, Eq)]
pub struct MethodInfo {
    pub canister_id: Principal,
    pub signature: Option<Signature>,
    pub profiling: Option<std::collections::BTreeMap<u16, String>>,
}

pub struct MethodInfoView {
    pub canister_id: Seq<u8>,
    pub signature: Option<SignatureView>,
    pub profiling: Option<Map<u16, String>>,
}

pub open spec fn opt_signature_view(s: Option<Signature>) -> Option<SignatureView> {
    match s {
        Some(v) => Some(v@),
        None => None,
    }
}

impl View for MethodInfo {
    type V = MethodInfoView;

    open spec fn view(&self) -> MethodInfoView {
        MethodInfoView {
            canister_id: self.canister_id@,
            signature: opt_signature_view(self.signature),
            profiling: opt_names_view(self.profiling),
        }
    }
}

/// A declared method of an interface.
#[derive(Debug, PartialEq, Eq)]
pub struct MethodDecl {
    pub name: String,
    pub func: Function,
}

pub struct MethodDeclView {
    pub name: Seq<char>,
    pub func: FunctionView,
}

impl View for MethodDecl {
    type V = MethodDeclView;

    open spec fn view(&self) -> MethodDeclView {
        MethodDeclView { name: self.name@, func: self.func@ }
    }
}

pub open spec fn decls_view(s: Seq<MethodDecl>) -> Seq<MethodDeclView> {
    Seq::new(s.len(), |i: int| s[i]@)
}

fn decls_copy(a: &Vec<MethodDecl>) -> (r: Vec<MethodDecl>)
    ensures
        decls_view(r@) == decls_view(a@),
{
    let mut r: Vec<MethodDecl> = Vec::new();
    let mut i: usize = 0;
    while i < a.len()
        invariant
            i <= a.len(),
            r@.len() == i,
            forall|k: int| 0 <= k < i ==> r@[k]@ == a@[k]@,
        decreases a.len() - i,
    {
        r.push(MethodDecl { name: text_copy(a[i].name.as_str()), func: a[i].func.clone() });
        i += 1;
    }
    assert(decls_view(r@) =~= decls_view(a@));
    r
}

/// The interface of a canister: its type definitions, its methods, the types of
/// its constructor arguments where it declares them, and its profiling symbols
/// where it is instrumented.
///
/// The methods are a map, kept as a list: a well-formed interface declares no
/// method twice (`wf`).
#[derive(Debug, PartialEq, Eq)]
pub struct CanisterInfo {
    pub env: String,
    pub methods: Vec<MethodDecl>,
    pub init: Option<Vec<String>>,
    pub profiling: Option<std::collections::BTreeMap<u16, String>>,
}

pub struct CanisterInfoView {
    pub env: Seq<char>,
    pub methods: Seq<MethodDeclView>,
    pub init: Option<Seq<Seq<char>>>,
    pub profiling: Option<Map<u16, String>>,
}

pub open spec fn opt_texts_view(s: Option<Vec<String>>) -> Option<Seq<Seq<char>>> {
    match s {
        Some(v) => Some(texts_view(v@)),
        None => None,
    }
}

impl View for CanisterInfo {
    type V = CanisterInfoView;

    open spec fn view(&self) -> CanisterInfoView {
        CanisterInfoView {
            env: self.env@,
            methods: decls_view(self.methods@),
            init: opt_texts_view(self.init),
            profiling: opt_names_view(self.profiling),
        }
    }
}

impl Clone for CanisterInfo {
    fn clone(&self) -> (r: Self)
        ensures
            r@ == self@,
    {
        CanisterInfo {
            env: text_copy(self.env.as_str()),
            methods: decls_copy(&self.methods),
            init: match &self.init {
                Some(v) => Some(texts_copy(v)),
                None => None,
            },
            profiling: opt_names_copy(&self.profiling),
        }
    }
}

/// The signature of the method of that name: that of the first declaration
/// that bears it.
pub open spec fn find_method(methods: Seq<MethodDeclView>, name: Seq<char>) -> Option<
    FunctionView,
>
    decreases methods.len(),
{
    if methods.len() == 0 {
        None
    } else if methods[0].name == name {
        Some(methods[0].func)
    } else {
        find_method(methods.drop_first(), name)
    }
}

impl CanisterInfo {
    /// The signature of the method of that name, where the interface declares it.
    pub fn method(&self, name: &str) -> (r: Option<&Function>)
        ensures
            match find_method(self@.methods, name@) {
                Some(f) => r matches Some(x) && x@ == f,
                None => r is None,
            },
    {
        let ghost all = decls_view(self.methods@);
        let mut i: usize = 0;
        assert(all.subrange(0, all.len() as int) =~= all);
        while i < self.methods.len()
            invariant
                i <= self.methods.len(),
                all == decls_view(self.methods@),
                find_method(all, name@) == find_method(all.subrange(i as int, all.len() as int), name@),
            decreases self.methods.len() - i,
        {
            let ghost rest = all.subrange(i as int, all.len() as int);
            assert(rest[0] == self.methods@[i as int]@);
            if text_eq(self.methods[i].name.as_str(), name) {
                return Some(&self.methods[i].func);
            }
            assert(rest.drop_first() =~= all.subrange(i + 1, all.len() as int));
            i += 1;
        }
        None
    }
}

/// The interface that is known of a canister.
#[derive(Debug, PartialEq, Eq)]
pub struct CacheEntry {
    pub canister: Principal,
    pub info: CanisterInfo,
}

pub struct CacheEntryView {
    pub canister: Seq<u8>,
    pub info: CanisterInfoView,
}

impl View for CacheEntry {
    type V = CacheEntryView;

    open spec fn view(&self) -> CacheEntryView {
        CacheEntryView { canister: self.canister@, info: self.info@ }
    }
}

pub open spec fn cache_view(s: Seq<CacheEntry>) -> Seq<CacheEntryView> {
    Seq::new(s.len(), |i: int| s[i]@)
}

/// A copy of the known interfaces.
pub fn cache_copy(a: &Vec<CacheEntry>) -> (r: Vec<CacheEntry>)
    ensures
        cache_view(r@) == cache_view(a@),
{
    let mut r: Vec<CacheEntry> = Vec::new();
    let mut i: usize = 0;
    while i < a.len()
        invariant
            i <= a.len(),
            r@.len() == i,
            forall|k: int| 0 <= k < i ==> r@[k]@ == a@[k]@,
        decreases a.len() - i,
    {
        r.push(CacheEntry { canister: a[i].canister.clone(), info: a[i].info.clone() });
        i += 1;
    }
    assert(cache_view(r@) =~= cache_view(a@));
    r
}

/// The interface cached for an address: that of the first entry for it.
pub open spec fn cached(cache: Seq<CacheEntryView>, canister: Seq<u8>) -> Option<CanisterInfoView>
    decreases cache.len(),
{
    if cache.len() == 0 {
        None
    } else if cache[0].canister == canister {
        Some(cache[0].info)
    } else {
        cached(cache.drop_first(), canister)
    }
}

/// The interface cached for an address, where there is one.
pub fn cache_find<'a>(cache: &'a Vec<CacheEntry>, canister: &Principal) -> (r: Option<
    &'a CanisterInfo,
>)
    ensures
        match cached(cache_view(cache@), canister@) {
            Some(f) => r matches Some(x) && x@ == f,
            None => r is None,
        },
{
    let ghost all = cache_view(cache@);
    let mut i: usize = 0;
    assert(all.subrange(0, all.len() as int) =~= all);
    while i < cache.len()
        invariant
            i <= cache.len(),
            all == cache_view(cache@),
            cached(all, canister@) == cached(all.subrange(i as int, all.len() as int), canister@),
        decreases cache.len() - i,
    {
        let ghost rest = all.subrange(i as int, all.len() as int);
        assert(rest[0] == cache@[i as int]@);
        if cache[i].canister.same(canister) {
            return Some(&cache[i].info);
        }
        assert(rest.drop_first() =~= all.subrange(i + 1, all.len() as int));
        i += 1;
    }
    None
}

/// A variable and the value bound to it.
#[derive(Debug, PartialEq, Eq)]
pub struct Binding {
    pub name: String,
    pub value: Value,
}

pub struct BindingView {
    pub name: Seq<char>,
    pub value: ValueView,
}

impl View for Binding {
    type V = BindingView;

    open spec fn view(&self) -> BindingView {
        BindingView { name: self.name@, value: self.value@ }
    }
}

pub open spec fn bindings_view(s: Seq<Binding>) -> Seq<BindingView> {
    Seq::new(s.len(), |i: int| s[i]@)
}

/// A copy of a list of bindings.
pub fn bindings_copy(a: &Vec<Binding>) -> (r: Vec<Binding>)
    ensures
        bindings_view(r@) == bindings_view(a@),
{
    let mut r: Vec<Binding> = Vec::new();
    let mut i: usize = 0;
    while i < a.len()
        invariant
            i <= a.len(),
            r@.len() == i,
            forall|k: int| 0 <= k < i ==> r@[k]@ == a@[k]@,
        decreases a.len() - i,
    {
        r.push(Binding { name: text_copy(a[i].name.as_str()), value: a[i].value.duplicate() });
        i += 1;
    }
    assert(bindings_view(r@) =~= bindings_view(a@));
    r
}

/// The value of a variable: that of the last binding of its name, which in a
/// well-formed environment is the only one.
pub open spec fn lookup(env: Seq<BindingView>, name: Seq<char>) -> Option<ValueView>
    decreases env.len(),
{
    if env.len() == 0 {
        None
    } else if env.last().name == name {
        Some(env.last().value)
    } else {
        lookup(env.drop_last(), name)
    }
}

/// The value of a variable, where it is bound.
pub fn env_find<'a>(env: &'a Vec<Binding>, name: &str) -> (r: Option<&'a Value>)
    ensures
        match lookup(bindings_view(env@), name@) {
            Some(v) => r matches Some(x) && x@ == v,
            None => r is None,
        },
{
    let ghost all = bindings_view(env@);
    let mut i: usize = env.len();
    assert(all.subrange(0, i as int) =~= all);
    while i > 0
        invariant
            i <= env.len(),
            all == bindings_view(env@),
            lookup(all, name@) == lookup(all.subrange(0, i as int), name@),
        decreases i,
    {
        let ghost rest = all.subrange(0, i as int);
        assert(rest.last() == env@[i - 1]@);
        if text_eq(env[i - 1].name.as_str(), name) {
            return Some(&env[i - 1].value);
        }
        assert(rest.drop_last() =~= all.subrange(0, i - 1));
        i -= 1;
    }
    None
}

/// A function that a script has defined: its name and the names of its
/// parameters. Its body is kept by the host, which runs it when asked to.
#[derive(Debug, PartialEq, Eq)]
pub struct FuncDef {
    pub name: String,
    pub params: Vec<String>,
}

pub struct FuncDefView {
    pub name: Seq<char>,
    pub params: Seq<Seq<char>>,
}

impl View for FuncDef {
    type V = FuncDefView;

    open spec fn view(&self) -> FuncDefView {
        FuncDefView { name: self.name@, params: texts_view(self.params@) }
    }
}

pub open spec fn funcs_view(s: Seq<FuncDef>) -> Seq<FuncDefView> {
    Seq::new(s.len(), |i: int| s[i]@)
}

/// The parameters of the function of that name: those of the last definition
/// that bears it.
pub open spec fn find_func(funcs: Seq<FuncDefView>, name: Seq<char>) -> Option<Seq<Seq<char>>>
    decreases funcs.len(),
{
    if funcs.len() == 0 {
        None
    } else if funcs.last().name == name {
        Some(funcs.last().params)
    } else {
        find_func(funcs.drop_last(), name)
    }
}

/// The parameters of the function of that name, where it is defined.
pub fn func_find<'a>(funcs: &'a Vec<FuncDef>, name: &str) -> (r: Option<&'a Vec<String>>)
    ensures
        match find_func(funcs_view(funcs@), name@) {
            Some(v) => r matches Some(x) && texts_view(x@) == v,
            None => r is None,
        },
{
    let ghost all = funcs_view(funcs@);
    let mut i: usize = funcs.len();
    assert(all.subrange(0, i as int) =~= all);
    while i > 0
        invariant
            i <= funcs.len(),
            all == funcs_view(funcs@),
            find_func(all, name@) == find_func(all.subrange(0, i as int), name@),
        decreases i,
    {
        let ghost rest = all.subrange(0, i as int);
        assert(rest.last() == funcs@[i - 1]@);
        if text_eq(funcs[i - 1].name.as_str(), name) {
            return Some(&funcs[i - 1].params);
        }
        assert(rest.drop_last() =~= all.subrange(0, i - 1));
        i -= 1;
    }
    None
}

/// The environment of an evaluation: the variables, the functions that scripts
/// have defined, the interfaces known so far, and how calls are sent.
///
/// The variables, the functions and the interfaces are maps, kept as lists: in a
/// well-formed environment no variable is bound twice, no function is defined
/// twice, and no canister has two interfaces (`wf`). `new` makes such an
/// environment, and `bind`, `define` and `learn` keep it so.
#[derive(Debug, PartialEq, Eq)]
pub struct Helper {
    pub env: Vec<Binding>,
    pub func_env: Vec<FuncDef>,
    pub canister_map: Vec<CacheEntry>,
    pub agent_url: String,
    /// Requests are signed and logged, not sent.
    pub offline: bool,
    pub default_effective_canister_id: Principal,
}

pub struct HelperView {
    pub env: Seq<BindingView>,
    pub func_env: Seq<FuncDefView>,
    pub canister_map: Seq<CacheEntryView>,
    pub agent_url: Seq<char>,
    pub offline: bool,
    pub default_effective_canister_id: Seq<u8>,
}

impl View for Helper {
    type V = HelperView;

    open spec fn view(&self) -> HelperView {
        HelperView {
            env: bindings_view(self.env@),
            func_env: funcs_view(self.func_env@),
            canister_map: cache_view(self.canister_map@),
            agent_url: self.agent_url@,
            offline: self.offline,
            default_effective_canister_id: self.default_effective_canister_id@,
        }
    }
}

impl Clone for MethodDecl {
    fn clone(&self) -> (r: Self)
        ensures
            r@ == self@,
    {
        MethodDecl { name: text_copy(self.name.as_str()), func: self.func.clone() }
    }
}

impl Clone for MethodInfo {
    fn clone(&self) -> (r: Self)
        ensures
            r@ == self@,
    {
        MethodInfo {
            canister_id: self.canister_id.clone(),
            signature: match &self.signature {
                Some(s) => Some(s.clone()),
                None => None,
            },
            profiling: opt_names_copy(&self.profiling),
        }
    }
}

impl Clone for CacheEntry {
    fn clone(&self) -> (r: Self)
        ensures
            r@ == self@,
    {
        CacheEntry { canister: self.canister.clone(), info: self.info.clone() }
    }
}

impl Clone for Binding {
    fn clone(&self) -> (r: Self)
        ensures
            r@ == self@,
    {
        Binding { name: text_copy(self.name.as_str()), value: self.value.duplicate() }
    }
}

impl Clone for FuncDef {
    fn clone(&self) -> (r: Self)
        ensures
            r@ == self@,
    {
        FuncDef { name: text_copy(self.name.as_str()), params: texts_copy(&self.params) }
    }
}

fn funcs_copy(a: &Vec<FuncDef>) -> (r: Vec<FuncDef>)
    ensures
        funcs_view(r@) == funcs_view(a@),
{
    let mut r: Vec<FuncDef> = Vec::new();
    let mut i: usize = 0;
    while i < a.len()
        invariant
            i <= a.len(),
            r@.len() == i,
            forall|k: int| 0 <= k < i ==> r@[k]@ == a@[k]@,
        decreases a.len() - i,
    {
        r.push(a[i].clone());
        i += 1;
    }
    assert(funcs_view(r@) =~= funcs_view(a@));
    r
}

impl Clone for Helper {
    fn clone(&self) -> (r: Self)
        ensures
            r@ == self@,
    {
        Helper {
            env: bindings_copy(&self.env),
            func_env: funcs_copy(&self.func_env),
            canister_map: cache_copy(&self.canister_map),
            agent_url: text_copy(self.agent_url.as_str()),
            offline: self.offline,
            default_effective_canister_id: self.default_effective_canister_id.clone(),
        }
    }
}

/// No two bindings are of one name.
pub open spec fn distinct_names(s: Seq<BindingView>) -> bool {
    forall|i: int, j: int| 0 <= i < j < s.len() ==> s[i].name != s[j].name
}

/// Whether no two bindings are of one name.
pub fn names_are_distinct(a: &Vec<Binding>) -> (r: bool)
    ensures
        r == distinct_names(bindings_view(a@)),
{
    let ghost s = bindings_view(a@);
    let mut j: usize = 0;
    while j < a.len()
        invariant
            j <= a.len(),
            s == bindings_view(a@),
            forall|p: int, q: int| 0 <= p < q < j ==> s[p].name != s[q].name,
        decreases a.len() - j,
    {
        let mut i: usize = 0;
        while i < j
            invariant
                i <= j,
                j < a.len(),
                s == bindings_view(a@),
                forall|p: int, q: int| 0 <= p < q < j ==> s[p].name != s[q].name,
                forall|p: int| 0 <= p < i ==> s[p].name != s[j as int].name,
            decreases j - i,
        {
            assert(s[i as int] == a@[i as int]@);
            assert(s[j as int] == a@[j as int]@);
            if text_eq(a[i].name.as_str(), a[j].name.as_str()) {
                return false;
            }
            i += 1;
        }
        j += 1;
    }
    true
}

/// No two functions are of one name.
pub open spec fn distinct_funcs(s: Seq<FuncDefView>) -> bool {
    forall|i: int, j: int| 0 <= i < j < s.len() ==> s[i].name != s[j].name
}

/// Whether no two functions are of one name.
pub fn funcs_are_distinct(a: &Vec<FuncDef>) -> (r: bool)
    ensures
        r == distinct_funcs(funcs_view(a@)),
{
    let ghost s = funcs_view(a@);
    let mut j: usize = 0;
    while j < a.len()
        invariant
            j <= a.len(),
            s == funcs_view(a@),
            forall|p: int, q: int| 0 <= p < q < j ==> s[p].name != s[q].name,
        decreases a.len() - j,
    {
        let mut i: usize = 0;
        while i < j
            invariant
                i <= j,
                j < a.len(),
                s == funcs_view(a@),
                forall|p: int, q: int| 0 <= p < q < j ==> s[p].name != s[q].name,
                forall|p: int| 0 <= p < i ==> s[p].name != s[j as int].name,
            decreases j - i,
        {
            assert(s[i as int] == a@[i as int]@);
            assert(s[j as int] == a@[j as int]@);
            if text_eq(a[i].name.as_str(), a[j].name.as_str()) {
                return false;
            }
            i += 1;
        }
        j += 1;
    }
    true
}

/// No two methods are of one name.
pub open spec fn distinct_methods(s: Seq<MethodDeclView>) -> bool {
    forall|i: int, j: int| 0 <= i < j < s.len() ==> s[i].name != s[j].name
}

/// Whether no two methods are of one name.
pub fn methods_are_distinct(a: &Vec<MethodDecl>) -> (r: bool)
    ensures
        r == distinct_methods(decls_view(a@)),
{
    let ghost s = decls_view(a@);
    let mut j: usize = 0;
    while j < a.len()
        invariant
            j <= a.len(),
            s == decls_view(a@),
            forall|p: int, q: int| 0 <= p < q < j ==> s[p].name != s[q].name,
        decreases a.len() - j,
    {
        let mut i: usize = 0;
        while i < j
            invariant
                i <= j,
                j < a.len(),
                s == decls_view(a@),
                forall|p: int, q: int| 0 <= p < q < j ==> s[p].name != s[q].name,
                forall|p: int| 0 <= p < i ==> s[p].name != s[j as int].name,
            decreases j - i,
        {
            assert(s[i as int] == a@[i as int]@);
            assert(s[j as int] == a@[j as int]@);
            if text_eq(a[i].name.as_str(), a[j].name.as_str()) {
                return false;
            }
            i += 1;
        }
        j += 1;
    }
    true
}

/// No two interfaces are of one canister.
pub open spec fn distinct_canisters(s: Seq<CacheEntryView>) -> bool {
    forall|i: int, j: int| 0 <= i < j < s.len() ==> s[i].canister != s[j].canister
}

/// Whether no two interfaces are of one canister.
pub fn canisters_are_distinct(a: &Vec<CacheEntry>) -> (r: bool)
    ensures
        r == distinct_canisters(cache_view(a@)),
{
    let ghost s = cache_view(a@);
    let mut j: usize = 0;
    while j < a.len()
        invariant
            j <= a.len(),
            s == cache_view(a@),
            forall|p: int, q: int| 0 <= p < q < j ==> s[p].canister != s[q].canister,
        decreases a.len() - j,
    {
        let mut i: usize = 0;
        while i < j
            invariant
                i <= j,
                j < a.len(),
                s == cache_view(a@),
                forall|p: int, q: int| 0 <= p < q < j ==> s[p].canister != s[q].canister,
                forall|p: int| 0 <= p < i ==> s[p].canister != s[j as int].canister,
            decreases j - i,
        {
            assert(s[i as int] == a@[i as int]@);
            assert(s[j as int] == a@[j as int]@);
            if a[i].canister.same(&a[j].canister) {
                return false;
            }
            i += 1;
        }
        j += 1;
    }
    true
}

/// An interface is well formed where it declares no method twice.
pub open spec fn interface_wf(i: CanisterInfoView) -> bool {
    distinct_methods(i.methods)
}

/// The known interfaces are well formed where each of them is, and no canister
/// has two.
pub open spec fn cache_wf(s: Seq<CacheEntryView>) -> bool {
    &&& distinct_canisters(s)
    &&& forall|i: int| 0 <= i < s.len() ==> interface_wf(#[trigger] s[i].info)
}

/// An environment is well formed where no variable is bound twice, no function
/// is defined twice, and the known interfaces are well formed.
pub open spec fn helper_wf(h: HelperView) -> bool {
    &&& distinct_names(h.env)
    &&& distinct_funcs(h.func_env)
    &&& cache_wf(h.canister_map)
}

impl CanisterInfo {
    /// This interface is well formed.
    pub open spec fn wf(&self) -> bool {
        interface_wf(self@)
    }

    /// Whether this interface is well formed.
    pub fn is_wf(&self) -> (r: bool)
        ensures
            r == self.wf(),
    {
        methods_are_distinct(&self.methods)
    }
}

/// Whether the known interfaces are well formed.
pub fn cache_is_wf(a: &Vec<CacheEntry>) -> (r: bool)
    ensures
        r == cache_wf(cache_view(a@)),
{
    if !canisters_are_distinct(a) {
        return false;
    }
    let ghost s = cache_view(a@);
    let mut i: usize = 0;
    while i < a.len()
        invariant
            i <= a.len(),
            s == cache_view(a@),
            distinct_canisters(s),
            forall|k: int| 0 <= k < i ==> interface_wf(#[trigger] s[k].info),
        decreases a.len() - i,
    {
        assert(s[i as int] == a@[i as int]@);
        if !a[i].info.is_wf() {
            assert(!interface_wf(s[i as int].info));
            return false;
        }
        i += 1;
    }
    true
}

impl Helper {
    /// This environment is well formed.
    pub open spec fn wf(&self) -> bool {
        helper_wf(self@)
    }

    /// Whether this environment is well formed.
    pub fn is_wf(&self) -> (r: bool)
        ensures
            r == self.wf(),
    {
        names_are_distinct(&self.env) && funcs_are_distinct(&self.func_env) && cache_is_wf(
            &self.canister_map,
        )
    }

    /// An environment without variables, functions and interfaces.
    pub fn new(agent_url: String, offline: bool, default_effective_canister_id: Principal) -> (r:
        Helper)
        ensures
            r.wf(),
            r@.env.len() == 0,
            r@.func_env.len() == 0,
            r@.canister_map.len() == 0,
            r@.agent_url == agent_url@,
            r@.offline == offline,
            r@.default_effective_canister_id == default_effective_canister_id@,
    {
        Helper {
            env: Vec::new(),
            func_env: Vec::new(),
            canister_map: Vec::new(),
            agent_url,
            offline,
            default_effective_canister_id,
        }
    }

    /// Binds a variable to a value, in place of the value it was bound to before.
    /// Every other variable stays as it is.
    pub fn bind(&mut self, name: String, value: Value)
        requires
            old(self).wf(),
        ensures
            final(self).wf(),
            lookup(final(self)@.env, name@) == Some(value@),
            forall|other: Seq<char>|
                other != name@ ==> lookup(final(self)@.env, other) == lookup(old(self)@.env, other),
            final(self)@.func_env == old(self)@.func_env,
            final(self)@.canister_map == old(self)@.canister_map,
            final(self)@.agent_url == old(self)@.agent_url,
            final(self)@.offline == old(self)@.offline,
            final(self)@.default_effective_canister_id == old(self)@.default_effective_canister_id,
    {
        let ghost before = bindings_view(self.env@);
        let mut i: usize = 0;
        while i < self.env.len()
            invariant
                i <= self.env.len(),
                *self == *old(self),
                old(self).wf(),
                before == bindings_view(self.env@),
                forall|k: int| 0 <= k < i ==> before[k].name != name@,
            decreases self.env.len() - i,
        {
            assert(before[i as int] == self.env@[i as int]@);
            if text_eq(self.env[i].name.as_str(), name.as_str()) {
                let b = Binding { name, value };
                self.env[i] = b;
                let ghost after = bindings_view(self.env@);
                assert(after =~= before.update(i as int, b@));
                proof {
                    lemma_lookup_update(before, i as int, b@);
                }
                return ;
            }
            i += 1;
        }
        let b = Binding { name, value };
        self.env.push(b);
        let ghost after = bindings_view(self.env@);
        assert(after =~= before.push(b@));
        assert(after.drop_last() =~= before);
    }
}

/// Where a binding takes the place of one of its name, the variable has the
/// new value and every other variable the value it had.
proof fn lemma_lookup_update(env: Seq<BindingView>, i: int, b: BindingView)
    requires
        0 <= i < env.len(),
        env[i].name == b.name,
        distinct_names(env),
    ensures
        distinct_names(env.update(i, b)),
        lookup(env.update(i, b), b.name) == Some(b.value),
        forall|other: Seq<char>|
            other != b.name ==> lookup(env.update(i, b), other) == lookup(env, other),
    decreases env.len(),
{
    let after = env.update(i, b);
    if i == env.len() - 1 {
        assert(after.drop_last() =~= env.drop_last());
        assert forall|other: Seq<char>| other != b.name implies lookup(after, other) == lookup(
            env,
            other,
        ) by {}
    } else {
        assert(distinct_names(env.drop_last()));
        lemma_lookup_update(env.drop_last(), i, b);
        assert(after.drop_last() =~= env.drop_last().update(i, b));
        assert(after.last() == env.last());
        assert(env.last().name != b.name);
        let rest = env.drop_last().update(i, b);
        assert forall|other: Seq<char>| other != b.name implies lookup(after, other) == lookup(
            env,
            other,
        ) by {
            assert(lookup(rest, other) == lookup(env.drop_last(), other));
            assert(after.drop_last() == rest);
        }
        assert(lookup(rest, b.name) == Some(b.value));
        assert(after.drop_last() == rest);
    }
}

proof fn lemma_find_func_update(fs: Seq<FuncDefView>, i: int, f: FuncDefView)
    requires
        0 <= i < fs.len(),
        fs[i].name == f.name,
        distinct_funcs(fs),
    ensures
        distinct_funcs(fs.update(i, f)),
        find_func(fs.update(i, f), f.name) == Some(f.params),
        forall|other: Seq<char>|
            other != f.name ==> find_func(fs.update(i, f), other) == find_func(fs, other),
    decreases fs.len(),
{
    let after = fs.update(i, f);
    if i == fs.len() - 1 {
        assert(after.drop_last() =~= fs.drop_last());
        assert forall|other: Seq<char>| other != f.name implies find_func(after, other)
            == find_func(fs, other) by {}
    } else {
        assert(distinct_funcs(fs.drop_last()));
        lemma_find_func_update(fs.drop_last(), i, f);
        assert(after.last() == fs.last());
        assert(fs.last().name != f.name);
        let rest = fs.drop_last().update(i, f);
        assert(after.drop_last() =~= rest);
        assert forall|other: Seq<char>| other != f.name implies find_func(after, other)
            == find_func(fs, other) by {
            assert(find_func(rest, other) == find_func(fs.drop_last(), other));
        }
        assert(find_func(rest, f.name) == Some(f.params));
    }
}

/// What is cached after one more interface, for a canister that had none.
pub proof fn lemma_cached_push(cache: Seq<CacheEntryView>, e: CacheEntryView, c: Seq<u8>)
    ensures
        cached(cache.push(e), c) == (if cached(cache, c) is Some {
            cached(cache, c)
        } else if e.canister == c {
            Some(e.info)
        } else {
            None
        }),
        cached(cache, c) is None ==> forall|i: int|
            0 <= i < cache.len() ==> (#[trigger] cache[i]).canister != c,
    decreases cache.len(),
{
    if cache.len() == 0 {
        assert(cache.push(e).drop_first() =~= cache);
    } else {
        lemma_cached_push(cache.drop_first(), e, c);
        assert(cache.push(e).drop_first() =~= cache.drop_first().push(e));
        if cached(cache, c) is None {
            assert forall|i: int| 0 <= i < cache.len() implies (#[trigger] cache[i]).canister
                != c by {
                if i > 0 {
                    assert(cache.drop_first()[i - 1] == cache[i]);
                }
            }
        }
    }
}

proof fn lemma_cached_update(cache: Seq<CacheEntryView>, i: int, e: CacheEntryView)
    requires
        0 <= i < cache.len(),
        cache[i].canister == e.canister,
        distinct_canisters(cache),
    ensures
        distinct_canisters(cache.update(i, e)),
        cached(cache.update(i, e), e.canister) == Some(e.info),
        forall|other: Seq<u8>|
            other != e.canister ==> cached(cache.update(i, e), other) == cached(cache, other),
    decreases cache.len(),
{
    let after = cache.update(i, e);
    if i == 0 {
        assert(after.drop_first() =~= cache.drop_first());
        assert forall|other: Seq<u8>| other != e.canister implies cached(after, other) == cached(
            cache,
            other,
        ) by {}
    } else {
        let tail = cache.drop_first();
        assert(distinct_canisters(tail)) by {
            assert forall|p: int, q: int| 0 <= p < q < tail.len() implies tail[p].canister
                != tail[q].canister by {
                assert(tail[p] == cache[p + 1] && tail[q] == cache[q + 1]);
            }
        }
        assert(tail[i - 1] == cache[i]);
        lemma_cached_update(tail, i - 1, e);
        let rest = tail.update(i - 1, e);
        assert(after.drop_first() =~= rest);
        assert(after[0] == cache[0]);
        assert(cache[0].canister != e.canister);
        assert forall|other: Seq<u8>| other != e.canister implies cached(after, other) == cached(
            cache,
            other,
        ) by {
            assert(cached(rest, other) == cached(tail, other));
        }
        assert(cached(rest, e.canister) == Some(e.info));
    }
}

impl Helper {
    /// Defines a function, in place of the function of that name that was
    /// defined before. Every other function stays as it is.
    pub fn define(&mut self, name: String, params: Vec<String>)
        requires
            old(self).wf(),
        ensures
            final(self).wf(),
            find_func(final(self)@.func_env, name@) == Some(texts_view(params@)),
            forall|other: Seq<char>|
                other != name@ ==> find_func(final(self)@.func_env, other) == find_func(
                    old(self)@.func_env,
                    other,
                ),
            final(self)@.env == old(self)@.env,
            final(self)@.canister_map == old(self)@.canister_map,
            final(self)@.agent_url == old(self)@.agent_url,
            final(self)@.offline == old(self)@.offline,
            final(self)@.default_effective_canister_id == old(self)@.default_effective_canister_id,
    {
        let ghost before = funcs_view(self.func_env@);
        let mut i: usize = 0;
        while i < self.func_env.len()
            invariant
                i <= self.func_env.len(),
                *self == *old(self),
                old(self).wf(),
                before == funcs_view(self.func_env@),
                forall|k: int| 0 <= k < i ==> before[k].name != name@,
            decreases self.func_env.len() - i,
        {
            assert(before[i as int] == self.func_env@[i as int]@);
            if text_eq(self.func_env[i].name.as_str(), name.as_str()) {
                let f = FuncDef { name, params };
                self.func_env[i] = f;
                assert(funcs_view(self.func_env@) =~= before.update(i as int, f@));
                proof {
                    lemma_find_func_update(before, i as int, f@);
                }
                return ;
            }
            i += 1;
        }
        let f = FuncDef { name, params };
        self.func_env.push(f);
        let ghost after = funcs_view(self.func_env@);
        assert(after =~= before.push(f@));
        assert(after.drop_last() =~= before);
    }

    /// Takes note of the interface of a canister, in place of the interface
    /// that was known of it before. What is known of every other canister
    /// stays as it is.
    pub fn learn(&mut self, canister: Principal, info: CanisterInfo)
        requires
            old(self).wf(),
            info.wf(),
        ensures
            final(self).wf(),
            cached(final(self)@.canister_map, canister@) == Some(info@),
            forall|other: Seq<u8>|
                other != canister@ ==> cached(final(self)@.canister_map, other) == cached(
                    old(self)@.canister_map,
                    other,
                ),
            final(self)@.env == old(self)@.env,
            final(self)@.func_env == old(self)@.func_env,
            final(self)@.agent_url == old(self)@.agent_url,
            final(self)@.offline == old(self)@.offline,
            final(self)@.default_effective_canister_id == old(self)@.default_effective_canister_id,
    {
        let ghost before = cache_view(self.canister_map@);
        let mut i: usize = 0;
        while i < self.canister_map.len()
            invariant
                i <= self.canister_map.len(),
                *self == *old(self),
                old(self).wf(),
                info.wf(),
                before == cache_view(self.canister_map@),
                forall|k: int| 0 <= k < i ==> before[k].canister != canister@,
            decreases self.canister_map.len() - i,
        {
            assert(before[i as int] == self.canister_map@[i as int]@);
            if self.canister_map[i].canister.same(&canister) {
                let e = CacheEntry { canister, info };
                self.canister_map[i] = e;
                assert(cache_view(self.canister_map@) =~= before.update(i as int, e@));
                proof {
                    lemma_cached_update(before, i as int, e@);
                }
                return ;
            }
            i += 1;
        }
        let e = CacheEntry { canister, info };
        self.canister_map.push(e);
        let ghost after = cache_view(self.canister_map@);
        assert(after =~= before.push(e@));
        proof {
            assert forall|other: Seq<u8>| true implies cached(after, other) == (if cached(
                before,
                other,
            ) is Some {
                cached(before, other)
            } else if e@.canister == other {
                Some(e@.info)
            } else {
                None
            }) by {
                lemma_cached_push(before, e@, other);
            }
            lemma_cached_push(before, e@, canister@);
            if cached(before, canister@) is Some {
                lemma_cached_found(before, canister@);
            }
        }
    }
}

/// An interface that is cached for a canister is that of an entry for it.
pub proof fn lemma_cached_found(cache: Seq<CacheEntryView>, c: Seq<u8>)
    requires
        cached(cache, c) is Some,
    ensures
        exists|i: int|
            0 <= i < cache.len() && (#[trigger] cache[i]).canister == c && cached(cache, c) == Some(
                cache[i].info,
            ),
    decreases cache.len(),
{
    if cache[0].canister == c {
        assert(cache[0].canister == c);
    } else {
        lemma_cached_found(cache.drop_first(), c);
        let i = choose|i: int|
            0 <= i < cache.drop_first().len() && (#[trigger] cache.drop_first()[i]).canister == c
                && cached(cache.drop_first(), c) == Some(cache.drop_first()[i].info);
        assert(cache[i + 1] == cache.drop_first()[i]);
    }
}

} // verus!
