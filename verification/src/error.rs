//! Errors raised toward Python: an exception class and its message.

use vstd::prelude::*;

verus! {

/// The Python exception class an error is raised as.
#[derive(Debug, Clone, Copy, PartialEq, Eq)]
pub enum PyErrorKind {
    ValueError,
    TypeError,
    RuntimeError,
    KeyError,
    OverflowError,
}

/// An error the SDK raises in Python: its exception class and message.
#[derive(Debug, Clone, PartialEq, Eq)]
pub struct SdkError {
    pub kind: PyErrorKind,
    pub message: String,
}

/// The mathematical form of an [`SdkError`].
pub struct ErrorView {
    pub kind: PyErrorKind,
    pub message: Seq<char>,
}

impl View for SdkError {
    type V = ErrorView;

    open spec fn view(&self) -> ErrorView {
        ErrorView { kind: self.kind, message: self.message@ }
    }
}

/// The error with exception class `kind` and message `message`.
pub open spec fn err_view(kind: PyErrorKind, message: Seq<char>) -> ErrorView {
    ErrorView { kind, message }
}

impl SdkError {
    /// A new error of class `kind` whose message is `message`.
    pub fn new(kind: PyErrorKind, message: String) -> (e: SdkError)
        ensures
            e.kind == kind,
            e.message == message,
    {
        SdkError { kind, message }
    }

    /// A `ValueError` with the given message.
    pub fn value_error(message: String) -> (e: SdkError)
        ensures
            e@ == err_view(PyErrorKind::ValueError, message@),
    {
        SdkError { kind: PyErrorKind::ValueError, message }
    }

    /// A `TypeError` with the given message.
    pub fn type_error(message: String) -> (e: SdkError)
        ensures
            e@ == err_view(PyErrorKind::TypeError, message@),
    {
        SdkError { kind: PyErrorKind::TypeError, message }
    }

    /// A `RuntimeError` with the given message.
    pub fn runtime_error(message: String) -> (e: SdkError)
        ensures
            e@ == err_view(PyErrorKind::RuntimeError, message@),
    {
        SdkError { kind: PyErrorKind::RuntimeError, message }
    }
}

} // verus!
