//! The evaluator of a scripting language for calls to canisters.
//!
//! A script is a sequence of expressions: values, variables, applications of
//! builtin and user-defined functions, and calls of methods of canisters. This
//! library evaluates one expression in an environment. It does no input or
//! output. Where an evaluation needs the network, a file, a subprocess,
//! floating-point arithmetic or the codec of the wire format, it stops and says
//! what it needs; see `host`.
//!
//! - `value`, `label`, `principal`: the values that expressions evaluate to.
//! - `number`: integers of any size, as decimal texts.
//! - `equality`, `record`, `select`: type tags and equality, records, projections.
//! - `exp`: expressions.
//! - `types`: methods, signatures, interfaces, the environment.
//! - `host`: what the evaluator asks of its host.
//! - `builtin`, `effects`: the builtin functions.
//! - `resolve`, `call`, `invoke`, `batch`: resolving a method, sending a call,
//!   call and decode expressions, batches of calls.
//! - `eval`: evaluation.
//! - `laws`: what holds of evaluation in general.
//! - `replay`: why an evaluation may be run again after each answer.
pub mod batch;
pub mod builtin;
pub mod call;
pub mod codec;
pub mod effects;
pub mod equality;
pub mod error;
pub mod eval;
pub mod exp;
pub mod host;
pub mod invoke;
pub mod label;
pub mod laws;
pub mod number;
pub mod principal;
pub mod record;
pub mod replay;
pub mod resolve;
pub mod select;
pub mod text;
pub mod types;
pub mod value;
