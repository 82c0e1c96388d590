use crate::context::{window_of, CommandContext, Host};
use crate::error::Error;
use crate::extract::{Extraction, FromRequestParts};
use crate::http::Parts;
use vstd::prelude::*;

verus! {

/// A window Extractor: the window that the request came from, as the host
/// knows it when the argument is produced.
pub struct Window<H: Host>(pub H::Window);

impl<H: Host> FromRequestParts<H> for Window<H> {
    open spec fn extracts(
        parts: Parts,
        body: Seq<u8>,
        ctx: CommandContext<H>,
        after: Extraction<Self, H>,
    ) -> bool {
        &&& after.parts == parts
        &&& after.ctx == ctx
        &&& window_of(
            ctx@.app_handle,
            ctx@.webview_label,
            match after.value {
                Ok(found) => Ok(found.0),
                Err(error) => Err(error@),
            },
        )
    }

    fn from_request_parts(parts: &mut Parts, body: &[u8], ctx: &mut CommandContext<H>) -> (outcome:
        Result<Self, Error>) {
        match ctx.window() {
            Ok(found) => Ok(Window(found)),
            Err(error) => Err(error),
        }
    }
}

impl<H: Host> core::ops::Deref for Window<H> {
    type Target = H::Window;

    fn deref(&self) -> (found: &H::Window)
        ensures
            *found == self.0,
    {
        &self.0
    }
}

} // verus!
