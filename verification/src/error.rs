//! What can go wrong between a request and its response.

use vstd::prelude::*;
use vstd::string::StringExecFns;

verus! {

/// The kinds of failure. Each has one status code.
#[derive(Clone, Copy, Debug, PartialEq, Eq, Structural)]
pub enum ErrorKind {
    /// No handler is registered under the requested name.
    CommandNotFound,
    /// The request has fewer positional arguments than the handler takes.
    InvalidArgs,
    /// The body, or one argument in it, could not be read.
    DeserializationError,
    /// What the handler returned could not be written as JSON.
    SerializationError,
    /// The webview that sent the request is no longer there.
    ResourceNotFound,
}

/// A failure: its kind, and a detail that the message ends with.
#[derive(Clone, Debug, PartialEq, Eq)]
pub enum Error {
    /// No handler is registered under this name.
    CommandNotFound(String),
    /// The arguments do not fit the handler, for this reason.
    InvalidArgs(String),
    /// The body, or one argument in it, could not be read, for this reason.
    DeserializationError(String),
    /// What the handler returned could not be written, for this reason.
    SerializationError(String),
    /// No webview with this label is open.
    ResourceNotFound(String),
}

/// The result of a step that can fail with an [`Error`].
pub type Result<T> = core::result::Result<T, Error>;

/// An [`Error`] as specifications see it: its kind and its detail.
pub type ErrorView = (ErrorKind, Seq<char>);

/// The status code of a kind: 404 where something was not found, 400 where
/// the request is at fault, 500 where the answer could not be written.
pub open spec fn status_of(kind: ErrorKind) -> u16 {
    match kind {
        ErrorKind::CommandNotFound => 404,
        ErrorKind::InvalidArgs => 400,
        ErrorKind::DeserializationError => 400,
        ErrorKind::SerializationError => 500,
        ErrorKind::ResourceNotFound => 404,
    }
}

/// The name under which a kind goes over the wire.
pub open spec fn name_of(kind: ErrorKind) -> Seq<char> {
    match kind {
        ErrorKind::CommandNotFound => "CommandNotFound"@,
        ErrorKind::InvalidArgs => "InvalidArgs"@,
        ErrorKind::DeserializationError => "DeserializationError"@,
        ErrorKind::SerializationError => "SerializationError"@,
        ErrorKind::ResourceNotFound => "ResourceNotFound"@,
    }
}

/// What the message of a kind begins with.
pub open spec fn prefix_of(kind: ErrorKind) -> Seq<char> {
    match kind {
        ErrorKind::CommandNotFound => "command not found: "@,
        ErrorKind::InvalidArgs => "invalid arguments: "@,
        ErrorKind::DeserializationError => "deserialization error: "@,
        ErrorKind::SerializationError => "serialization error: "@,
        ErrorKind::ResourceNotFound => "webview not found: "@,
    }
}

/// The message of an error: the prefix of its kind, then its detail.
pub open spec fn message_of(error: ErrorView) -> Seq<char> {
    prefix_of(error.0) + error.1
}

impl ErrorKind {
    /// The status code of this kind.
    pub fn status_code(self) -> (code: u16)
        ensures
            code == status_of(self),
    {
        match self {
            ErrorKind::CommandNotFound => 404,
            ErrorKind::InvalidArgs => 400,
            ErrorKind::DeserializationError => 400,
            ErrorKind::SerializationError => 500,
            ErrorKind::ResourceNotFound => 404,
        }
    }

    /// The name of this kind on the wire.
    pub fn name(self) -> (name: &'static str)
        ensures
            name@ == name_of(self),
    {
        match self {
            ErrorKind::CommandNotFound => "CommandNotFound",
            ErrorKind::InvalidArgs => "InvalidArgs",
            ErrorKind::DeserializationError => "DeserializationError",
            ErrorKind::SerializationError => "SerializationError",
            ErrorKind::ResourceNotFound => "ResourceNotFound",
        }
    }

    /// What a message of this kind begins with.
    pub fn prefix(self) -> (prefix: &'static str)
        ensures
            prefix@ == prefix_of(self),
    {
        match self {
            ErrorKind::CommandNotFound => "command not found: ",
            ErrorKind::InvalidArgs => "invalid arguments: ",
            ErrorKind::DeserializationError => "deserialization error: ",
            ErrorKind::SerializationError => "serialization error: ",
            ErrorKind::ResourceNotFound => "webview not found: ",
        }
    }
}

impl View for Error {
    type V = ErrorView;

    open spec fn view(&self) -> ErrorView {
        match *self {
            Error::CommandNotFound(detail) => (ErrorKind::CommandNotFound, detail@),
            Error::InvalidArgs(detail) => (ErrorKind::InvalidArgs, detail@),
            Error::DeserializationError(detail) => (ErrorKind::DeserializationError, detail@),
            Error::SerializationError(detail) => (ErrorKind::SerializationError, detail@),
            Error::ResourceNotFound(detail) => (ErrorKind::ResourceNotFound, detail@),
        }
    }
}

impl Error {
    /// The kind of this error.
    pub fn kind(&self) -> (kind: ErrorKind)
        ensures
            kind == self@.0,
    {
        match self {
            Error::CommandNotFound(_) => ErrorKind::CommandNotFound,
            Error::InvalidArgs(_) => ErrorKind::InvalidArgs,
            Error::DeserializationError(_) => ErrorKind::DeserializationError,
            Error::SerializationError(_) => ErrorKind::SerializationError,
            Error::ResourceNotFound(_) => ErrorKind::ResourceNotFound,
        }
    }

    /// The detail that this error was made with.
    pub fn detail(&self) -> (detail: &String)
        ensures
            detail@ == self@.1,
    {
        match self {
            Error::CommandNotFound(detail) => detail,
            Error::InvalidArgs(detail) => detail,
            Error::DeserializationError(detail) => detail,
            Error::SerializationError(detail) => detail,
            Error::ResourceNotFound(detail) => detail,
        }
    }

    /// The status code that a response for this error carries.
    pub fn status_code(&self) -> (code: u16)
        ensures
            code == status_of(self@.0),
    {
        self.kind().status_code()
    }

    /// The message of this error, for a reader.
    pub fn to_string(&self) -> (message: String)
        ensures
            message@ == message_of(self@),
    {
        let mut message = String::from_str(self.kind().prefix());
        message.append(self.detail().as_str());
        message
    }
}

} // verus!
