//! A router for commands that a webview invokes in the host application.
//!
//! A [`Router`] maps command names to handlers. A handler is an ordinary
//! function: each of its arguments is produced by an extractor from the
//! request, and what it returns is turned into the response.

pub mod context;
pub mod error;
pub mod extract;
pub mod handler;
pub mod http;
pub mod json;
pub mod laws;
pub mod response;
pub mod router;
pub mod transport;

pub use context::{CommandContext, Host};
pub use error::{Error, ErrorKind, Result};
pub use extract::{
    deserialized, positional, AppHandle, Bytes, FromRequest, FromRequestParts, HeaderMap, Request,
    ViaParts, ViaRequest, Webview, WebviewWindow, Window,
};
pub use handler::{CommandHandler, ViaSync};
pub use response::{IntoResponse, Json, Response};
pub use router::Router;
pub use transport::serve;
