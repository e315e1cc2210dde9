//! From the name of a target to its address and the signature of a method.
use vstd::prelude::*;
use vstd::string::*;
use vstd::utf8::{decode_utf8, valid_utf8};
use crate::codec::utf8_text;
use crate::error::{plain_error, Error, ErrorKind, ErrorView};
use crate::host::{
    answers_view, ask, asked, protocol_error, protocol_failure, reached, settled, stopped, Answer,
    AnswerView, Halt, Request, RequestView, Run, RunView, Stage,
};
use crate::principal::{principal_of_text, Principal};
use crate::text::{text_copy, text_eq, texts_copy};
use crate::types::{
    interface_wf,
    cache_find, cache_view, cached, env_find, find_method, lookup, opt_names_copy, BindingView,
    CacheEntry, CacheEntryView, CanisterInfo, CanisterInfoView, Function, FunctionView, Helper,
    HelperView, Method, MethodInfo, MethodInfoView, MethodView, Signature, SignatureView,
};
use crate::value::{Value, ValueView};

verus! {

pub open spec fn address_error(name: Seq<char>) -> ErrorView {
    plain_error(ErrorKind::Resolution, name + " is not a canister id"@)
}

/// The address that a name stands for: the address that it writes, or else the
/// address that the variable of that name holds.
pub open spec fn resolve_address(env: Seq<BindingView>, name: Seq<char>) -> Result<
    Seq<u8>,
    ErrorView,
> {
    match principal_of_text(name) {
        Some(p) => Ok(p),
        None => match lookup(env, name) {
            Some(ValueView::Principal(p)) => Ok(p),
            _ => Err(address_error(name)),
        },
    }
}

/// Resolves the name of a target to its address.
pub fn str_to_principal(name: &str, helper: &Helper) -> (r: Result<Principal, Error>)
    requires
        helper.wf(),
    ensures
        match resolve_address(helper@.env, name@) {
            Ok(p) => r matches Ok(x) && x@ == p,
            Err(e) => r matches Err(x) && x@ == e,
        },
{
    match Principal::from_text(name) {
        Some(p) => Ok(p),
        None => match env_find(&helper.env, name) {
            Some(Value::Principal(p)) => Ok(p.clone()),
            _ => Err(Error::with_detail(ErrorKind::Resolution, name, " is not a canister id")),
        },
    }
}

/// The interface of a canister: the one that is known, or else the one that the
/// host fetches, which is known from then on. There is none where the host
/// cannot fetch it. An interface that is not well formed is no answer.
pub open spec fn interface_of(canister: Seq<u8>, answers: Seq<AnswerView>, run: RunView)
    -> Stage<Option<CanisterInfoView>> {
    match cached(run.cache, canister) {
        Some(info) => reached(Some(info), run),
        None => match asked(answers, run, RequestView::FetchInterface { canister }) {
            Err(h) => Stage { result: Err(h), run },
            Ok((AnswerView::Interface(info), next)) => if interface_wf(info) {
                reached(
                    Some(info),
                    RunView { cache: next.cache.push(CacheEntryView { canister, info }), ..next },
                )
            } else {
                stopped(protocol_error(), next)
            },
            Ok((AnswerView::Failed(_), next)) => reached(None, next),
            Ok((_, next)) => stopped(protocol_error(), next),
        },
    }
}

/// Looks up or fetches the interface of a canister.
pub fn interface(canister: &Principal, answers: &Vec<Answer>, run: &mut Run) -> (r: Result<
    Option<CanisterInfo>,
    Halt,
>)
    ensures
        final(run)@ == interface_of(canister@, answers_view(answers@), old(run)@).run,
        match interface_of(canister@, answers_view(answers@), old(run)@).result {
            Ok(Some(info)) => r matches Ok(Some(x)) && x@ == info,
            Ok(None) => r matches Ok(None),
            Err(h) => r matches Err(x) && x@ == h,
        },
{
    match cache_find(&run.cache, canister) {
        Some(info) => {
            return Ok(Some(info.clone()));
        },
        None => {},
    }
    match ask(answers, run, Request::FetchInterface { canister: canister.clone() })? {
        Answer::Interface(info) => {
            if !info.is_wf() {
                return Err(protocol_failure());
            }
            let ghost before = cache_view(run.cache@);
            let entry = CacheEntry { canister: canister.clone(), info: info.clone() };
            run.cache.push(entry);
            assert(cache_view(run.cache@) =~= before.push(entry@));
            Ok(Some(info.clone()))
        },
        Answer::Failed(_) => Ok(None),
        _ => Err(protocol_failure()),
    }
}

/// The signature of the constructor of an interface, where it declares the
/// types of its arguments.
pub open spec fn init_signature(info: CanisterInfoView) -> Option<SignatureView> {
    match info.init {
        Some(init) => Some(
            SignatureView {
                env: info.env,
                func: FunctionView { modes: Seq::empty(), args: init, rets: Seq::empty() },
            },
        ),
        None => None,
    }
}

/// The name that stands for the constructor of a canister.
pub open spec fn init_method() -> Seq<char> {
    "__init_args"@
}

/// The signature of a method in an interface: that of the constructor for the
/// name that stands for it, else that of the declared method of that name.
pub open spec fn method_signature(info: CanisterInfoView, method: Seq<char>) -> Option<
    SignatureView,
> {
    if method == init_method() {
        init_signature(info)
    } else {
        match find_method(info.methods, method) {
            Some(f) => Some(SignatureView { env: info.env, func: f }),
            None => None,
        }
    }
}

fn init_signature_of(info: &CanisterInfo) -> (r: Option<Signature>)
    ensures
        crate::types::opt_signature_view(r) == init_signature(info@),
{
    match &info.init {
        Some(init) => {
            let func = Function { modes: Vec::new(), args: texts_copy(init), rets: Vec::new() };
            assert(func@.modes =~= Seq::empty());
            assert(func@.rets =~= Seq::empty());
            Some(Signature { env: text_copy(info.env.as_str()), func })
        },
        None => None,
    }
}

fn method_signature_of(info: &CanisterInfo, method: &str) -> (r: Option<Signature>)
    ensures
        crate::types::opt_signature_view(r) == method_signature(info@, method@),
{
    if text_eq(method, "__init_args") {
        init_signature_of(info)
    } else {
        match info.method(method) {
            Some(f) => Some(Signature { env: text_copy(info.env.as_str()), func: f.clone() }),
            None => None,
        }
    }
}

/// A section of metadata in a module: the result of `ic_wasm::utils::parse_wasm`
/// on the module, and then of `ic_wasm::metadata::get_metadata` for the name; the
/// message of the error where the module cannot be parsed.
pub uninterp spec fn module_metadata(module: Seq<u8>, name: Seq<char>) -> Result<
    Option<Seq<u8>>,
    Seq<char>,
>;

/// Calls `ic_wasm::utils::parse_wasm` once, without the name section, and then
/// `ic_wasm::metadata::get_metadata` for each of the two names. The contract
/// claims that each section depends on the module and its name alone, and that
/// the error, where there is one, is that of the parser and so the same for
/// both names.
#[verifier::external_body]
fn wasm_metadata(module: &Vec<u8>, first: &str, second: &str) -> (r: Result<
    (Option<Vec<u8>>, Option<Vec<u8>>),
    String,
>)
    ensures
        match module_metadata(module@, first@) {
            Err(m) => r matches Err(x) && x@ == m,
            Ok(a) => r matches Ok((x, y)) && crate::host::opt_bytes_view(x) == a && module_metadata(
                module@,
                second@,
            ) == Ok::<Option<Seq<u8>>, Seq<char>>(crate::host::opt_bytes_view(y)),
        },
{
    let m = ic_wasm::utils::parse_wasm(module, false).map_err(|e| e.to_string())?;
    let a = ic_wasm::metadata::get_metadata(&m, first).map(|c| c.into_owned());
    let b = ic_wasm::metadata::get_metadata(&m, second).map(|c| c.into_owned());
    Ok((a, b))
}

/// The address of the anonymous identity.
pub open spec fn anonymous_address() -> Seq<u8> {
    seq![4u8]
}

/// What is known of a target of which only the address is known.
pub open spec fn bare_info(canister: Seq<u8>) -> MethodInfoView {
    MethodInfoView { canister_id: canister, signature: None, profiling: None }
}

pub open spec fn module_error(message: Seq<char>) -> ErrorView {
    plain_error(ErrorKind::Resolution, message)
}

pub open spec fn metadata_text_error() -> ErrorView {
    plain_error(ErrorKind::Resolution, "metadata is not valid utf-8"@)
}

pub open spec fn init_types_error() -> ErrorView {
    plain_error(ErrorKind::Resolution, "invalid init arg types"@)
}

/// The interface text that counts where a module embeds none.
pub open spec fn empty_service() -> Seq<char> {
    "service : {}"@
}

/// The interface text that a module embeds, or the empty interface.
pub open spec fn embedded_service(module: Seq<u8>) -> Result<Seq<char>, ErrorView> {
    match module_metadata(module, "candid:service"@) {
        Ok(Some(b)) => if valid_utf8(b) {
            Ok(decode_utf8(b))
        } else {
            Err(metadata_text_error())
        },
        _ => Ok(empty_service()),
    }
}

/// The type definitions and the constructor argument types that an interface
/// text and a constructor argument text give together: the result of
/// `candid_parser::utils::merge_init_args`, the definitions written out by
/// `candid::pretty::candid::compile` and each argument type by its `to_string`;
/// the message of the error where the texts cannot be merged.
pub uninterp spec fn merged_init(service: Seq<char>, args: Seq<char>) -> Result<
    (Seq<char>, Option<Seq<Seq<char>>>),
    Seq<char>,
>;

pub open spec fn merged_view(r: Result<(String, Option<Vec<String>>), String>) -> Result<
    (Seq<char>, Option<Seq<Seq<char>>>),
    Seq<char>,
> {
    match r {
        Ok((env, init)) => Ok((env@, crate::types::opt_texts_view(init))),
        Err(m) => Err(m@),
    }
}

/// Calls `candid_parser::utils::merge_init_args`, and writes the result as
/// texts: the type definitions with `candid::pretty::candid::compile`, and the
/// argument types of the class that comes out, each with `to_string`. The
/// contract claims that the outcome depends on the two texts alone.
#[verifier::external_body]
fn merge_init(service: &str, args: &str) -> (r: Result<(String, Option<Vec<String>>), String>)
    ensures
        merged_view(r) == merged_init(service@, args@),
{
    let (env, ty) = candid_parser::utils::merge_init_args(service, args).map_err(
        |e| e.to_string(),
    )?;
    let init = match ty.as_ref() {
        candid::types::TypeInner::Class(init, _) => Some(
            init.iter().map(|t| t.to_string()).collect(),
        ),
        _ => None,
    };
    Ok((candid::pretty::candid::compile(&env, &None), init))
}

/// The signature of a constructor with the given argument types.
pub open spec fn constructor(env: Seq<char>, init: Seq<Seq<char>>) -> SignatureView {
    SignatureView {
        env,
        func: FunctionView { modes: Seq::empty(), args: init, rets: Seq::empty() },
    }
}

/// What the merged texts of a module say of its constructor.
pub open spec fn merged_info(service: Seq<char>, args: Seq<char>) -> Result<
    MethodInfoView,
    ErrorView,
> {
    match merged_init(service, args) {
        Err(m) => Err(module_error(m)),
        Ok((env, Some(init))) => Ok(
            MethodInfoView {
                canister_id: anonymous_address(),
                signature: Some(constructor(env, init)),
                profiling: None,
            },
        ),
        Ok((_, None)) => Err(init_types_error()),
    }
}

/// The constructor of a module that is not installed yet, from the metadata
/// that the module embeds. Without metadata for the constructor arguments no
/// signature is known. The address is that of the anonymous identity.
pub open spec fn module_info(module: Seq<u8>) -> Result<MethodInfoView, ErrorView> {
    match module_metadata(module, "candid:args"@) {
        Err(m) => Err(module_error(m)),
        Ok(None) => Ok(bare_info(anonymous_address())),
        Ok(Some(args)) => match embedded_service(module) {
            Err(e) => Err(e),
            Ok(service) => if !valid_utf8(args) {
                Err(metadata_text_error())
            } else {
                merged_info(service, decode_utf8(args))
            },
        },
    }
}

/// Whether a method is resolved from a module: only when its arguments are to
/// be encoded, it is the constructor, and the variable of the target's name
/// holds a byte string.
pub open spec fn module_of(m: MethodView, h: HelperView, is_encode: bool) -> Option<Seq<u8>> {
    if is_encode && m.method == init_method() {
        match lookup(h.env, m.canister) {
            Some(ValueView::Blob(b)) => Some(b),
            _ => None,
        }
    } else {
        None
    }
}

/// What is known of a deployed target: its address, the signature of the
/// method where its interface is at hand and declares it, and its profiling
/// symbols.
pub open spec fn deployed_info(
    m: MethodView,
    h: HelperView,
    answers: Seq<AnswerView>,
    run: RunView,
) -> Stage<MethodInfoView> {
    match resolve_address(h.env, m.canister) {
        Err(e) => stopped(e, run),
        Ok(canister) => {
            let fetched = interface_of(canister, answers, run);
            match fetched.result {
                Err(x) => Stage { result: Err(x), run: fetched.run },
                Ok(None) => reached(bare_info(canister), fetched.run),
                Ok(Some(info)) => reached(
                    MethodInfoView {
                        canister_id: canister,
                        signature: method_signature(info, m.method),
                        profiling: info.profiling,
                    },
                    fetched.run,
                ),
            }
        },
    }
}

/// The address of a target and the signature of a method.
pub open spec fn get_info_spec(
    m: MethodView,
    h: HelperView,
    is_encode: bool,
    answers: Seq<AnswerView>,
    run: RunView,
) -> Stage<MethodInfoView> {
    match module_of(m, h, is_encode) {
        Some(module) => settled(module_info(module), run),
        None => deployed_info(m, h, answers, run),
    }
}

fn bare(canister: Principal) -> (r: MethodInfo)
    ensures
        r@ == bare_info(canister@),
{
    MethodInfo { canister_id: canister, signature: None, profiling: None }
}

fn service_text(section: &Option<Vec<u8>>) -> (r: Result<String, Error>)
    ensures
        match section {
            Some(b) => if valid_utf8(b@) {
                r matches Ok(x) && x@ == decode_utf8(b@)
            } else {
                r matches Err(x) && x@ == metadata_text_error()
            },
            None => r matches Ok(x) && x@ == empty_service(),
        },
{
    match section {
        Some(b) => match utf8_text(b) {
            Some(s) => Ok(s),
            None => Err(Error::new(ErrorKind::Resolution, "metadata is not valid utf-8")),
        },
        None => Ok(text_copy("service : {}")),
    }
}

fn merged_method_info(service: &str, args: &str) -> (r: Result<MethodInfo, Error>)
    ensures
        match merged_info(service@, args@) {
            Ok(info) => r matches Ok(x) && x@ == info,
            Err(e) => r matches Err(x) && x@ == e,
        },
{
    match merge_init(service, args) {
        Err(m) => Err(Error::new(ErrorKind::Resolution, m.as_str())),
        Ok((env, Some(init))) => {
            let func = Function { modes: Vec::new(), args: init, rets: Vec::new() };
            assert(func@.modes =~= Seq::empty());
            assert(func@.rets =~= Seq::empty());
            Ok(
                MethodInfo {
                    canister_id: Principal::anonymous(),
                    signature: Some(Signature { env, func }),
                    profiling: None,
                },
            )
        },
        Ok((_, None)) => Err(Error::new(ErrorKind::Resolution, "invalid init arg types")),
    }
}

fn module_method_info(module: &Vec<u8>) -> (r: Result<MethodInfo, Error>)
    ensures
        match module_info(module@) {
            Ok(info) => r matches Ok(x) && x@ == info,
            Err(e) => r matches Err(x) && x@ == e,
        },
{
    match wasm_metadata(module, "candid:args", "candid:service") {
        Err(m) => Err(Error::new(ErrorKind::Resolution, m.as_str())),
        Ok((None, _)) => Ok(bare(Principal::anonymous())),
        Ok((Some(args), service)) => {
            let service = service_text(&service)?;
            match utf8_text(&args) {
                None => Err(Error::new(ErrorKind::Resolution, "metadata is not valid utf-8")),
                Some(args) => merged_method_info(service.as_str(), args.as_str()),
            }
        },
    }
}

impl Method {
    /// Resolves this method: the address of its target and, where it is known,
    /// its signature.
    ///
    /// For the constructor of a module that a variable holds, when arguments are
    /// encoded, the signature comes from the metadata that the module embeds.
    /// Else the target is a deployed canister: its interface is looked up, and
    /// fetched where it is not known yet. Where no interface can be had, or it
    /// does not declare the method, there is no signature and no error.
    pub fn get_info(
        &self,
        helper: &Helper,
        is_encode: bool,
        answers: &Vec<Answer>,
        run: &mut Run,
    ) -> (r: Result<MethodInfo, Halt>)
        requires
            helper.wf(),
        ensures
            final(run)@ == get_info_spec(
                self@,
                helper@,
                is_encode,
                answers_view(answers@),
                old(run)@,
            ).run,
            match get_info_spec(self@, helper@, is_encode, answers_view(answers@), old(run)@).result {
                Ok(info) => r matches Ok(x) && x@ == info,
                Err(h) => r matches Err(x) && x@ == h,
            },
            crate::types::cache_wf(old(run)@.cache) ==> crate::types::cache_wf(final(run)@.cache),
    {
        proof {
            crate::replay::lemma_get_info(
                self@,
                helper@,
                is_encode,
                answers_view(answers@),
                Seq::empty(),
                run@,
            );
        }
        if is_encode && text_eq(self.method.as_str(), "__init_args") {
            match env_find(&helper.env, self.canister.as_str()) {
                Some(Value::Blob(module)) => {
                    return match module_method_info(module) {
                        Ok(info) => Ok(info),
                        Err(e) => Err(Halt::Failed(e)),
                    };
                },
                _ => {},
            }
        }
        let canister = match str_to_principal(self.canister.as_str(), helper) {
            Ok(p) => p,
            Err(e) => {
                return Err(Halt::Failed(e));
            },
        };
        match interface(&canister, answers, run)? {
            None => Ok(bare(canister)),
            Some(info) => {
                let signature = method_signature_of(&info, self.method.as_str());
                Ok(
                    MethodInfo {
                        canister_id: canister,
                        signature,
                        profiling: opt_names_copy(&info.profiling),
                    },
                )
            },
        }
    }
}

} // verus!
