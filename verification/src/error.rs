//! Errors of evaluation.
use vstd::prelude::*;
use vstd::string::*;
use crate::text::{text_copy, text_join};

verus! {

/// What went wrong, in broad terms.
#[derive(Debug, Clone, Copy, PartialEq, Eq)]
pub enum ErrorKind {
    /// A builtin was given the wrong number or the wrong kinds of arguments.
    Arguments,
    /// A variable, an alias, a function or a signature could not be found.
    Resolution,
    /// Work outside the evaluator failed: the network, a file, a subprocess.
    Transport,
    /// The values do not fit the operation: a repeated label, unequal type tags.
    Semantic,
    /// An evaluation that was expected to fail succeeded.
    Expectation,
    /// The host's answer is not of the kind that the request asks for.
    Protocol,
}

/// An error: its kind, its message, and the message of the error beneath it
/// where it wraps one.
#[derive(Debug, PartialEq, Eq)]
pub struct Error {
    pub kind: ErrorKind,
    pub message: String,
    pub cause: Option<String>,
}

pub struct ErrorView {
    pub kind: ErrorKind,
    pub message: Seq<char>,
    pub cause: Option<Seq<char>>,
}

impl View for Error {
    type V = ErrorView;

    open spec fn view(&self) -> ErrorView {
        ErrorView {
            kind: self.kind,
            message: self.message@,
            cause: match self.cause {
                Some(c) => Some(c@),
                None => None,
            },
        }
    }
}

/// An error without a cause.
pub open spec fn plain_error(kind: ErrorKind, message: Seq<char>) -> ErrorView {
    ErrorView { kind, message, cause: None }
}

impl Clone for Error {
    fn clone(&self) -> (r: Self)
        ensures
            r@ == self@,
    {
        Error {
            kind: self.kind,
            message: text_copy(self.message.as_str()),
            cause: match &self.cause {
                Some(c) => Some(text_copy(c.as_str())),
                None => None,
            },
        }
    }
}

impl Error {
    /// An error with the given message and no cause.
    pub fn new(kind: ErrorKind, message: &str) -> (r: Error)
        ensures
            r@ == plain_error(kind, message@),
    {
        Error { kind, message: text_copy(message), cause: None }
    }

    /// An error whose message is a fixed text followed by a detail.
    pub fn with_detail(kind: ErrorKind, head: &str, detail: &str) -> (r: Error)
        ensures
            r@ == plain_error(kind, head@ + detail@),
    {
        Error { kind, message: text_join(head, detail), cause: None }
    }
}

} // verus!
