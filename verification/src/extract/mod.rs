//! Extractors: how one argument of a handler is produced from a request.
//!
//! An extractor of the first kind reads the parts of the request and the
//! context, and leaves the body to those that follow. One of the second kind
//! takes the whole request, body included, so only the last argument of a
//! handler can be produced by it.

use crate::context::{outcome_view, taken, CommandContext};
use crate::error::{Error, ErrorKind, ErrorView};
use crate::http::Parts;
use serde_json::Value;
use vstd::prelude::*;
use vstd::string::StringExecFns;

mod app_handle;
mod bytes;
mod header_map;
mod request;
mod webview;
mod webview_window;
mod window;

pub use app_handle::AppHandle;
pub use bytes::Bytes;
pub use header_map::HeaderMap;
pub use request::Request;
pub use webview::Webview;
pub use webview_window::WebviewWindow;
pub use window::Window;

verus! {

/// Marks an extractor that is used as the last one and reads the parts only.
/// Only the type is used.
pub enum ViaParts {
    Marker,
}

/// Marks an extractor that takes the whole request. Only the type is used.
pub enum ViaRequest {
    Marker,
}

/// How an extraction from the parts ended: what it gave, and the parts and
/// the context as it left them.
pub struct Extraction<T, H> {
    pub value: Result<T, Error>,
    pub parts: Parts,
    pub ctx: CommandContext<H>,
}

/// How an extraction from the whole request ended: what it gave, and the
/// context as it left it.
pub struct Consumption<T, H> {
    pub value: Result<T, Error>,
    pub ctx: CommandContext<H>,
}

/// Trait for types that can be extracted from the request parts (method,
/// path, headers) and the context.
///
/// Such an extractor sees the body but leaves it to the next one. All
/// arguments of a handler but the last are produced this way.
pub trait FromRequestParts<H>: Sized {
    /// Whether `after` is a way in which extraction from these parts, this
    /// body and this context may end. A type that says nothing here admits
    /// every outcome.
    open spec fn extracts(
        parts: Parts,
        body: Seq<u8>,
        ctx: CommandContext<H>,
        after: Extraction<Self, H>,
    ) -> bool {
        true
    }

    /// Extract this type from the request parts.
    fn from_request_parts(parts: &mut Parts, body: &[u8], ctx: &mut CommandContext<H>) -> (outcome:
        Result<Self, Error>)
        ensures
            Self::extracts(
                *old(parts),
                body@,
                *old(ctx),
                (Extraction { value: outcome, parts: *final(parts), ctx: *final(ctx) }),
            ),
    ;
}

/// Trait for types that can be extracted from the complete request
/// (including body).
///
/// Only the last argument of a handler can be produced this way, as the
/// extraction takes the body.
pub trait FromRequest<H, M = ViaRequest>: Sized {
    /// Whether `after` is a way in which extraction from this request and
    /// this context may end. A type that says nothing here admits every
    /// outcome.
    open spec fn consumes(
        request: crate::http::Request,
        ctx: CommandContext<H>,
        after: Consumption<Self, H>,
    ) -> bool {
        true
    }

    /// Extract this type from the request.
    fn from_request(request: crate::http::Request, ctx: &mut CommandContext<H>) -> (outcome:
        Result<Self, Error>)
        ensures
            Self::consumes(request, *old(ctx), (Consumption { value: outcome, ctx: *final(ctx) })),
    ;
}

/// Every extractor from the parts can stand last: it takes the request and
/// makes no use of having the body to itself.
impl<H, T: FromRequestParts<H>> FromRequest<H, ViaParts> for T {
    open spec fn consumes(
        request: crate::http::Request,
        ctx: CommandContext<H>,
        after: Consumption<Self, H>,
    ) -> bool {
        exists|from_parts: Extraction<T, H>|
            {
                &&& #[trigger] T::extracts(request.parts(), request.body@, ctx, from_parts)
                &&& from_parts.value == after.value
                &&& from_parts.ctx == after.ctx
            }
    }

    fn from_request(request: crate::http::Request, ctx: &mut CommandContext<H>) -> (outcome:
        Result<Self, Error>) {
        let (mut parts, body) = request.into_parts();
        T::from_request_parts(&mut parts, body.as_slice(), ctx)
    }
}

/// A JSON value is the next positional argument of the request: the body is
/// a JSON array, and each extraction hands out the first value that is left.
impl<H> FromRequestParts<H> for Value {
    open spec fn extracts(
        parts: Parts,
        body: Seq<u8>,
        ctx: CommandContext<H>,
        after: Extraction<Self, H>,
    ) -> bool {
        &&& after.parts == parts
        &&& outcome_view(after.value) == taken(ctx@, body).0
        &&& after.ctx@ == taken(ctx@, body).1
    }

    fn from_request_parts(parts: &mut Parts, body: &[u8], ctx: &mut CommandContext<H>) -> (outcome:
        Result<Self, Error>) {
        ctx.take_json_arg(body)
    }
}

/// What reading one positional argument as a value of its type comes to: the
/// value, or a `DeserializationError` that holds the text of the failure.
pub open spec fn decoded_view<T>(decoded: Result<T, String>) -> Result<T, ErrorView> {
    match decoded {
        Ok(value) => Ok(value),
        Err(detail) => Err(
            (ErrorKind::DeserializationError, "JSON deserialization error: "@ + detail@),
        ),
    }
}

/// Ends the extraction of a positional argument of type `T`: takes what
/// reading the JSON value as a `T` gave, the value or the text of the
/// failure, and makes the failure a `DeserializationError`.
pub fn deserialized<T>(decoded: Result<T, String>) -> (outcome: Result<T, Error>)
    ensures
        outcome_view(outcome) == decoded_view(decoded),
{
    match decoded {
        Ok(value) => Ok(value),
        Err(detail) => {
            let mut text = String::from_str("JSON deserialization error: ");
            text.append(detail.as_str());
            Err(Error::DeserializationError(text))
        },
    }
}

/// Extracts a positional argument of type `T`: takes the next JSON value of
/// the request and reads it with `decode`. A value that `decode` turns down
/// gives a `DeserializationError`; the value is used up all the same.
pub fn positional<H, T, D>(ctx: &mut CommandContext<H>, body: &[u8], decode: D) -> (outcome: Result<
    T,
    Error,
>) where D: FnOnce(Value) -> Result<T, String>
    requires
        forall|value: Value| call_requires(decode, (value,)),
    ensures
        final(ctx)@ == taken(old(ctx)@, body@).1,
        match taken(old(ctx)@, body@).0 {
            Ok(value) => exists|decoded: Result<T, String>|
                #[trigger] call_ensures(decode, (value,), decoded) && outcome_view(outcome)
                    == decoded_view(decoded),
            Err(error) => outcome_view(outcome) == Err::<T, ErrorView>(error),
        },
{
    match ctx.take_json_arg(body) {
        Ok(value) => {
            assert(taken(old(ctx)@, body@).0->Ok_0 == value);
            deserialized(decode(value))
        },
        Err(error) => Err(error),
    }
}

} // verus!
