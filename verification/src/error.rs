//! The errors that the lifecycle manager reports to its callers.

use vstd::prelude::*;
use vstd::string::*;

verus! {

/// The four kinds of failure, each carrying a human-readable message.
#[derive(Debug)]
pub enum NodeError {
    /// Directory or logging set-up failed before the worker was constructed.
    Initialization(String),
    /// The caller's configuration could not be resolved.
    Configuration(String),
    /// The worker could not be constructed, or an operation was requested in the wrong state.
    Runtime(String),
    /// The worker did not shut down cleanly.
    Shutdown(String),
}

/// Which of the four kinds an error belongs to.
#[derive(Debug, Clone, Copy, PartialEq, Eq, Structural)]
pub enum ErrorKind {
    Initialization,
    Configuration,
    Runtime,
    Shutdown,
}

/// An error as contracts see it: its kind and the characters of its message.
pub struct ErrorView {
    pub kind: ErrorKind,
    pub message: Seq<char>,
}

impl View for NodeError {
    type V = ErrorView;

    open spec fn view(&self) -> ErrorView {
        ErrorView { kind: self.kind_spec(), message: self.message_spec() }
    }
}

impl ErrorKind {
    /// The words that open the rendering of an error of this kind.
    pub open spec fn heading(self) -> Seq<char> {
        match self {
            ErrorKind::Initialization => "Initialization Error: "@,
            ErrorKind::Configuration => "Configuration Error: "@,
            ErrorKind::Runtime => "Runtime Error: "@,
            ErrorKind::Shutdown => "Shutdown Error: "@,
        }
    }
}

impl NodeError {
    /// The kind of this error.
    pub open spec fn kind_spec(&self) -> ErrorKind {
        match self {
            NodeError::Initialization(_) => ErrorKind::Initialization,
            NodeError::Configuration(_) => ErrorKind::Configuration,
            NodeError::Runtime(_) => ErrorKind::Runtime,
            NodeError::Shutdown(_) => ErrorKind::Shutdown,
        }
    }

    /// The message the error carries, without its heading.
    pub open spec fn message_spec(&self) -> Seq<char> {
        match self {
            NodeError::Initialization(msg) => msg@,
            NodeError::Configuration(msg) => msg@,
            NodeError::Runtime(msg) => msg@,
            NodeError::Shutdown(msg) => msg@,
        }
    }

    /// The rendering of the error: the heading of its kind, then its message.
    pub open spec fn rendered(&self) -> Seq<char> {
        self.kind_spec().heading() + self.message_spec()
    }

    /// The kind of this error.
    #[verifier::when_used_as_spec(kind_spec)]
    pub fn kind(&self) -> (k: ErrorKind)
        ensures
            k == self.kind_spec(),
    {
        match self {
            NodeError::Initialization(_) => ErrorKind::Initialization,
            NodeError::Configuration(_) => ErrorKind::Configuration,
            NodeError::Runtime(_) => ErrorKind::Runtime,
            NodeError::Shutdown(_) => ErrorKind::Shutdown,
        }
    }

    /// The message the error carries, without its heading.
    pub fn message(&self) -> (msg: &String)
        ensures
            msg@ == self.message_spec(),
    {
        match self {
            NodeError::Initialization(msg) => msg,
            NodeError::Configuration(msg) => msg,
            NodeError::Runtime(msg) => msg,
            NodeError::Shutdown(msg) => msg,
        }
    }

    /// Renders the error for display: `"<Kind> Error: <message>"`.
    pub fn to_string(&self) -> (s: String)
        ensures
            s@ == self.rendered(),
    {
        match self {
            NodeError::Initialization(msg) => "Initialization Error: ".to_owned().concat(
                msg.as_str(),
            ),
            NodeError::Configuration(msg) => "Configuration Error: ".to_owned().concat(
                msg.as_str(),
            ),
            NodeError::Runtime(msg) => "Runtime Error: ".to_owned().concat(msg.as_str()),
            NodeError::Shutdown(msg) => "Shutdown Error: ".to_owned().concat(msg.as_str()),
        }
    }
}

} // verus!
