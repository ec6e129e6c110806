//! Error reporting for the binding layer.
//!
//! Every wrapped operation reports failure through one of two families,
//! [`ReadlineError`] for the line-editing half and [`HistoryError`] for the
//! history half.  Both carry the same shape: a category ([`ErrorKind`]) with
//! a fixed label, and a detail string captured at construction time.  No
//! operation of this crate panics on a null result or a malformed byte
//! sequence; such conditions become one of these values.

use vstd::prelude::*;

verus! {

/// The category of a failure.
#[derive(Clone, Copy, Debug, PartialEq, Eq, Structural)]
pub enum ErrorKind {
    /// A null pointer came back from a native call that was expected to
    /// produce a value.
    NullPointer,
    /// A host string holds an interior nul byte and cannot cross the
    /// boundary as a C string.
    NulByteInString,
    /// A byte sequence failed UTF-8 validation where valid text was
    /// required.
    InvalidUtf8,
    /// A host I/O failure, reported by the native history-file calls.
    IoError,
    /// An argument was rejected: an offset out of range, an unknown code.
    InvalidArgument,
    /// A native call reported a non-success status code.
    BindingFailed,
    /// One-time initialization could not complete.
    InitializationFailed,
}

impl ErrorKind {
    /// The fixed label of this category, as it appears in messages.
    pub open spec fn label_spec(self) -> Seq<char> {
        match self {
            ErrorKind::NullPointer => "Null Pointer"@,
            ErrorKind::NulByteInString => "Nul Byte In String"@,
            ErrorKind::InvalidUtf8 => "Invalid UTF-8"@,
            ErrorKind::IoError => "I/O Error"@,
            ErrorKind::InvalidArgument => "Invalid Argument"@,
            ErrorKind::BindingFailed => "Binding Failed"@,
            ErrorKind::InitializationFailed => "Initialization Failed"@,
        }
    }

    /// Return the fixed label of this category.
    pub fn label(&self) -> (r: &'static str)
        ensures
            r@ == self.label_spec(),
    {
        match self {
            ErrorKind::NullPointer => "Null Pointer",
            ErrorKind::NulByteInString => "Nul Byte In String",
            ErrorKind::InvalidUtf8 => "Invalid UTF-8",
            ErrorKind::IoError => "I/O Error",
            ErrorKind::InvalidArgument => "Invalid Argument",
            ErrorKind::BindingFailed => "Binding Failed",
            ErrorKind::InitializationFailed => "Initialization Failed",
        }
    }
}

/// An error raised within the line-editing half of the binding.
#[derive(Clone, Debug, PartialEq)]
pub struct ReadlineError {
    /// The category of the failure.
    pub kind: ErrorKind,
    /// The category label, captured when the error was built.
    pub desc: String,
    /// A human-readable account of the particular failure.
    pub detail: String,
}

impl ReadlineError {
    /// Build an error of the given category; the detail text is captured
    /// now, so later changes to its source cannot alter the message.
    pub fn new(kind: ErrorKind, detail: &str) -> (r: ReadlineError)
        ensures
            r.kind == kind,
            r.desc@ == kind.label_spec(),
            r.detail@ == detail@,
    {
        ReadlineError { kind, desc: String::from_str(kind.label()), detail: String::from_str(detail) }
    }

    /// The full message, `label: detail`.
    pub fn message(&self) -> (r: String)
        ensures
            r@ == self.desc@ + ": "@ + self.detail@,
    {
        let mut m = self.desc.clone();
        m.append(": ");
        m.append(self.detail.as_str());
        m
    }
}

/// An error raised within the history half of the binding.
#[derive(Clone, Debug, PartialEq)]
pub struct HistoryError {
    /// The category of the failure.
    pub kind: ErrorKind,
    /// The category label, captured when the error was built.
    pub desc: String,
    /// A human-readable account of the particular failure.
    pub detail: String,
}

impl HistoryError {
    /// Build an error of the given category; the detail text is captured
    /// now, so later changes to its source cannot alter the message.
    pub fn new(kind: ErrorKind, detail: &str) -> (r: HistoryError)
        ensures
            r.kind == kind,
            r.desc@ == kind.label_spec(),
            r.detail@ == detail@,
    {
        HistoryError { kind, desc: String::from_str(kind.label()), detail: String::from_str(detail) }
    }

    /// Carry a failure of the shared adapter over into the history family,
    /// keeping category and texts.
    pub fn from_readline(e: ReadlineError) -> (r: HistoryError)
        ensures
            r.kind == e.kind,
            r.desc@ == e.desc@,
            r.detail@ == e.detail@,
    {
        HistoryError { kind: e.kind, desc: e.desc, detail: e.detail }
    }

    /// The full message, `label: detail`.
    pub fn message(&self) -> (r: String)
        ensures
            r@ == self.desc@ + ": "@ + self.detail@,
    {
        let mut m = self.desc.clone();
        m.append(": ");
        m.append(self.detail.as_str());
        m
    }
}

} // verus!
