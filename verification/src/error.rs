//! The library's error type: a kind, a message and an optional retry hint.
use vstd::prelude::*;

use crate::text::{concat, concat3, owned};

verus! {

/// What part of the console an error comes from.
#[derive(Debug, Clone, Copy, PartialEq, Eq, Structural)]
pub enum DeliErrorKind {
    Configuration,
    Provider,
    Rendering,
    Runtime,
}

/// The word a kind of error is shown as.
pub open spec fn kind_label(kind: DeliErrorKind) -> Seq<char> {
    match kind {
        DeliErrorKind::Configuration => "configuration"@,
        DeliErrorKind::Provider => "provider"@,
        DeliErrorKind::Rendering => "rendering"@,
        DeliErrorKind::Runtime => "runtime"@,
    }
}

impl DeliErrorKind {
    /// The word this kind is shown as.
    pub fn label(&self) -> (res: String)
        ensures
            res@ == kind_label(*self),
    {
        match self {
            DeliErrorKind::Configuration => owned("configuration"),
            DeliErrorKind::Provider => owned("provider"),
            DeliErrorKind::Rendering => owned("rendering"),
            DeliErrorKind::Runtime => owned("runtime"),
        }
    }
}

/// An error with a kind, a message and, where the user can act on it, a hint.
#[derive(Debug, Clone, PartialEq, Eq)]
pub struct DeliError {
    pub kind: DeliErrorKind,
    pub message: String,
    pub retry_hint: Option<String>,
}

/// The text an error is shown as: `"<kind>: <message>"`.
pub open spec fn error_text(e: DeliError) -> Seq<char> {
    kind_label(e.kind) + ": "@ + e.message@
}

impl DeliError {
    /// An error of the given kind and message, without a hint.
    pub fn new(kind: DeliErrorKind, message: String) -> (res: Self)
        ensures
            res.kind == kind,
            res.message == message,
            res.retry_hint is None,
    {
        DeliError { kind, message, retry_hint: None }
    }

    /// The same error with the given retry hint.
    pub fn with_retry_hint(self, retry_hint: String) -> (res: Self)
        ensures
            res.kind == self.kind,
            res.message == self.message,
            res.retry_hint == Some(retry_hint),
    {
        DeliError { retry_hint: Some(retry_hint), ..self }
    }

    /// The error as it is shown: `"<kind>: <message>"`.
    pub fn to_text(&self) -> (res: String)
        ensures
            res@ == error_text(*self),
    {
        let label = self.kind.label();
        concat3(label.as_str(), ": ", self.message.as_str())
    }
}

/// An error whose message is a literal.
pub fn error_from(kind: DeliErrorKind, message: &str) -> (res: DeliError)
    ensures
        res.kind == kind,
        res.message@ == message@,
        res.retry_hint is None,
{
    DeliError::new(kind, owned(message))
}

/// An error whose message is `prefix + detail`.
pub fn error_with_detail(kind: DeliErrorKind, prefix: &str, detail: &str) -> (res: DeliError)
    ensures
        res.kind == kind,
        res.message@ == prefix@ + detail@,
        res.retry_hint is None,
{
    DeliError::new(kind, concat(prefix, detail))
}

} // verus!
