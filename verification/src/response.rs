//! Turning what a handler returns, or an error, into a response.

use crate::error::{message_of, name_of, status_of, Error, ErrorKind, ErrorView};
use crate::http::{HeaderMap, HeaderView, ResponseView};
use crate::json::{string_literal, write_string};
use vstd::prelude::*;
use vstd::string::{StrSliceExecFns, StringExecFns};
use vstd::utf8::encode_utf8;

verus! {

/// The headers of a response whose body is of the given content type.
pub open spec fn content_type(value: Seq<char>) -> Seq<HeaderView> {
    seq![("Content-Type"@, value)]
}

/// The response for a handler's value written as JSON: status 200, the JSON
/// content type, and the text as the body.
pub open spec fn json_response(body: Seq<u8>) -> ResponseView {
    ResponseView { status: 200, headers: content_type("application/json"@), body }
}

/// The response for raw bytes: status 200, the content type of arbitrary
/// bytes, and the bytes as they are.
pub open spec fn bytes_response(body: Seq<u8>) -> ResponseView {
    ResponseView { status: 200, headers: content_type("application/octet-stream"@), body }
}

/// The JSON text of an error: an object that holds the name of its kind
/// under `type` and its message under `message`.
pub open spec fn error_text(error: ErrorView) -> Seq<char> {
    "{\"type\":\""@ + name_of(error.0) + "\",\"message\":"@ + string_literal(message_of(error))
        + "}"@
}

/// The response for an error: the status code of its kind, the JSON content
/// type, and its JSON text as the body.
pub open spec fn error_response(error: ErrorView) -> ResponseView {
    ResponseView {
        status: status_of(error.0),
        headers: content_type("application/json"@),
        body: encode_utf8(error_text(error)),
    }
}

/// What writing a handler's value as JSON came to: the bytes, or why there
/// are none.
pub type Encoded = Result<Vec<u8>, String>;

/// The response for the outcome of writing a handler's value as JSON. A
/// failure becomes the response of a `SerializationError`.
pub open spec fn encoded_response(encoded: Result<Seq<u8>, Seq<char>>) -> ResponseView {
    match encoded {
        Ok(body) => json_response(body),
        Err(detail) => error_response(
            (ErrorKind::SerializationError, "Failed to serialize response: "@ + detail),
        ),
    }
}

/// A value that can be turned into a response.
pub trait IntoResponse: Sized {
    /// Whether `response` is what this value may be turned into. A type that
    /// says nothing here admits every response.
    open spec fn yields(self, response: crate::http::Response) -> bool {
        true
    }

    /// Turns the value into a response.
    fn into_response(self) -> (response: crate::http::Response)
        ensures
            self.yields(response),
    ;
}

/// A response that a handler made itself. It goes out as it is.
pub struct Response(pub crate::http::Response);

impl IntoResponse for Response {
    open spec fn yields(self, response: crate::http::Response) -> bool {
        response == self.0
    }

    fn into_response(self) -> (response: crate::http::Response) {
        self.0
    }
}

/// A handler's value written as JSON, or the reason why it could not be
/// written.
pub struct Json(pub Encoded);

impl Json {
    /// What was written, as specifications see it.
    pub open spec fn outcome(self) -> Result<Seq<u8>, Seq<char>> {
        match self.0 {
            Ok(body) => Ok(body@),
            Err(detail) => Err(detail@),
        }
    }
}

impl IntoResponse for Json {
    open spec fn yields(self, response: crate::http::Response) -> bool {
        response@ == encoded_response(self.outcome())
    }

    fn into_response(self) -> (response: crate::http::Response) {
        match self.0 {
            Ok(body) => {
                let mut headers = HeaderMap::new();
                headers.append("Content-Type", "application/json");
                crate::http::Response { status: 200, headers, body }
            },
            Err(detail) => {
                let mut text = String::from_str("Failed to serialize response: ");
                text.append(detail.as_str());
                error(Error::SerializationError(text))
            },
        }
    }
}

/// The response that tells the caller of an error.
pub fn error(failure: Error) -> (response: crate::http::Response)
    ensures
        response@ == error_response(failure@),
{
    let mut text = String::from_str("{\"type\":\"");
    text.append(failure.kind().name());
    text.append("\",\"message\":");
    let message = failure.to_string();
    let written = write_string(message.as_str());
    text.append(written.as_str());
    text.append("}");
    let mut headers = HeaderMap::new();
    headers.append("Content-Type", "application/json");
    crate::http::Response {
        status: failure.status_code(),
        headers,
        body: text.as_str().as_bytes_vec(),
    }
}

} // verus!
