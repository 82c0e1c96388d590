use crate::context::{webview_window_of, CommandContext, Host};
use crate::error::Error;
use crate::extract::{Extraction, FromRequestParts};
use crate::http::Parts;
use vstd::prelude::*;

verus! {

/// A webview window Extractor: the webview window that the request came from, as the host
/// knows it when the argument is produced.
pub struct WebviewWindow<H: Host>(pub H::WebviewWindow);

impl<H: Host> FromRequestParts<H> for WebviewWindow<H> {
    open spec fn extracts(
        parts: Parts,
        body: Seq<u8>,
        ctx: CommandContext<H>,
        after: Extraction<Self, H>,
    ) -> bool {
        &&& after.parts == parts
        &&& after.ctx == ctx
        &&& webview_window_of(
            ctx@.app_handle,
            ctx@.webview_label,
            match after.value {
                Ok(found) => Ok(found.0),
                Err(error) => Err(error@),
            },
        )
    }

    fn from_request_parts(parts: &mut Parts, body: &[u8], ctx: &mut CommandContext<H>) -> (outcome:
        Result<Self, Error>) {
        match ctx.webview_window() {
            Ok(found) => Ok(WebviewWindow(found)),
            Err(error) => Err(error),
        }
    }
}

impl<H: Host> core::ops::Deref for WebviewWindow<H> {
    type Target = H::WebviewWindow;

    fn deref(&self) -> (found: &H::WebviewWindow)
        ensures
            *found == self.0,
    {
        &self.0
    }
}

} // verus!
