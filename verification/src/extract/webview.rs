use crate::context::{webview_of, CommandContext, Host};
use crate::error::Error;
use crate::extract::{Extraction, FromRequestParts};
use crate::http::Parts;
use vstd::prelude::*;

verus! {

/// A webview Extractor: the webview that the request came from, as the host
/// knows it when the argument is produced.
pub struct Webview<H: Host>(pub H::Webview);

impl<H: Host> FromRequestParts<H> for Webview<H> {
    open spec fn extracts(
        parts: Parts,
        body: Seq<u8>,
        ctx: CommandContext<H>,
        after: Extraction<Self, H>,
    ) -> bool {
        &&& after.parts == parts
        &&& after.ctx == ctx
        &&& webview_of(
            ctx@.app_handle,
            ctx@.webview_label,
            match after.value {
                Ok(found) => Ok(found.0),
                Err(error) => Err(error@),
            },
        )
    }

    fn from_request_parts(parts: &mut Parts, body: &[u8], ctx: &mut CommandContext<H>) -> (outcome:
        Result<Self, Error>) {
        match ctx.webview() {
            Ok(found) => Ok(Webview(found)),
            Err(error) => Err(error),
        }
    }
}

impl<H: Host> core::ops::Deref for Webview<H> {
    type Target = H::Webview;

    fn deref(&self) -> (found: &H::Webview)
        ensures
            *found == self.0,
    {
        &self.0
    }
}

} // verus!
