//! Error values reported by the bridge.
//!
//! Every failure the library reports carries one of a small set of kinds, a
//! human-readable message and, optionally, a label that points at the input
//! that caused it.

use vstd::prelude::*;
use vstd::string::*;

verus! {

/// The kinds of failure the bridge distinguishes.
#[derive(Debug, Clone, Copy, PartialEq, Eq, Structural)]
pub enum ErrorKind {
    /// An operation was attempted while no client handle was current.
    NotConnected,
    /// The client library reported a failure while performing an operation.
    Transport,
    /// A value could not be coerced to the shape an operation needs.
    Encoding,
    /// A structured input lacked a required field or had the wrong shape.
    Protocol,
    /// A key was looked up and the store holds no value for it.
    NotFound,
    /// A background task failed unexpectedly.
    InternalTaskFailure,
}

/// Where in the host's source a value came from: a range of positions.
#[derive(Debug, Clone, Copy, PartialEq, Eq, Structural)]
pub struct Origin {
    pub start: usize,
    pub end: usize,
}

/// A failure: its kind, its message, an optional label, and the place that the
/// label points at where the failure is about a value of the input.
#[derive(Debug, Clone, PartialEq, Eq)]
pub struct BridgeError {
    pub kind: ErrorKind,
    pub message: String,
    pub label: Option<String>,
    pub at: Option<Origin>,
}

/// The mathematical content of a [`BridgeError`].
pub struct ErrorView {
    pub kind: ErrorKind,
    pub message: Seq<char>,
    pub label: Option<Seq<char>>,
    pub at: Option<Origin>,
}

impl View for BridgeError {
    type V = ErrorView;

    open spec fn view(&self) -> ErrorView {
        ErrorView {
            kind: self.kind,
            message: self.message@,
            label: match self.label {
                Some(l) => Some(l@),
                None => None,
            },
            at: self.at,
        }
    }
}

/// The failure reported when an operation needs a client and none is current.
pub open spec fn not_connected_view() -> ErrorView {
    ErrorView {
        kind: ErrorKind::NotConnected,
        message: "Not connected to NATS server. Call `nuts connect` first"@,
        label: None,
        at: None,
    }
}

/// A failure of the given kind and message, without a label.
pub open spec fn plain_error(kind: ErrorKind, message: Seq<char>) -> ErrorView {
    ErrorView { kind, message, label: None, at: None }
}

/// A failure of the given kind and message with a label that points nowhere.
pub open spec fn labeled_error(kind: ErrorKind, message: Seq<char>, label: Seq<char>) -> ErrorView {
    ErrorView { kind, message, label: Some(label), at: None }
}

/// A failure of the given kind and message whose label points at a value of
/// the input.
pub open spec fn located_error(
    kind: ErrorKind,
    message: Seq<char>,
    label: Seq<char>,
    at: Origin,
) -> ErrorView {
    ErrorView { kind, message, label: Some(label), at: Some(at) }
}

impl BridgeError {
    /// Builds a failure without a label.
    pub fn new(kind: ErrorKind, message: String) -> (e: BridgeError)
        ensures
            e@ == plain_error(kind, message@),
    {
        BridgeError { kind, message, label: None, at: None }
    }

    /// Builds a failure with a label that points nowhere.
    pub fn with_label(kind: ErrorKind, message: String, label: String) -> (e: BridgeError)
        ensures
            e@ == labeled_error(kind, message@, label@),
    {
        BridgeError { kind, message, label: Some(label), at: None }
    }

    /// Builds a failure whose label points at a value of the input.
    pub fn located(kind: ErrorKind, message: String, label: String, at: Origin) -> (e: BridgeError)
        ensures
            e@ == located_error(kind, message@, label@, at),
    {
        BridgeError { kind, message, label: Some(label), at: Some(at) }
    }

    /// The failure for an operation attempted before any connection was made.
    pub fn not_connected() -> (e: BridgeError)
        ensures
            e@ == not_connected_view(),
    {
        BridgeError {
            kind: ErrorKind::NotConnected,
            message: String::from_str("Not connected to NATS server. Call `nuts connect` first"),
            label: None,
            at: None,
        }
    }

    /// A failure reported by the client library, carried verbatim.
    pub fn transport(message: String) -> (e: BridgeError)
        ensures
            e@ == plain_error(ErrorKind::Transport, message@),
    {
        BridgeError { kind: ErrorKind::Transport, message, label: None, at: None }
    }

    /// A failure inside a background task.
    pub fn task_failure(message: String) -> (e: BridgeError)
        ensures
            e@ == plain_error(ErrorKind::InternalTaskFailure, message@),
    {
        BridgeError { kind: ErrorKind::InternalTaskFailure, message, label: None, at: None }
    }

    /// The kind of this failure.
    pub fn kind(&self) -> (k: ErrorKind)
        ensures
            k == self@.kind,
    {
        self.kind
    }

    /// The message, followed by the label in parentheses where there is one.
    pub fn describe(&self) -> (text: String)
        ensures
            text@ == describe_view(self@),
    {
        let mut text = self.message.clone();
        match &self.label {
            Some(label) => {
                text.append(" (");
                text.append(label.as_str());
                text.append(")");
            },
            None => {},
        }
        text
    }

    /// An independent copy of this failure.
    pub fn duplicate(&self) -> (e: BridgeError)
        ensures
            e@ == self@,
    {
        let label = match &self.label {
            Some(l) => Some(l.clone()),
            None => None,
        };
        BridgeError { kind: self.kind, message: self.message.clone(), label, at: self.at }
    }
}

/// The text by which a failure is shown: message, then the label in parentheses.
pub open spec fn describe_view(e: ErrorView) -> Seq<char> {
    match e.label {
        Some(label) => e.message + " ("@ + label + ")"@,
        None => e.message,
    }
}

} // verus!
