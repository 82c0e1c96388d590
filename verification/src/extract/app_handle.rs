use crate::context::CommandContext;
use crate::error::Error;
use crate::extract::{Extraction, FromRequestParts};
use crate::http::Parts;
use vstd::prelude::*;

verus! {

/// An application handle Extractor: a clone of the handle that the request
/// came with.
pub struct AppHandle<H>(pub H);

impl<H: Clone> FromRequestParts<H> for AppHandle<H> {
    open spec fn extracts(
        parts: Parts,
        body: Seq<u8>,
        ctx: CommandContext<H>,
        after: Extraction<Self, H>,
    ) -> bool {
        &&& after.parts == parts
        &&& after.ctx == ctx
        &&& after.value matches Ok(handle)
        &&& cloned(ctx@.app_handle, handle.0)
    }

    fn from_request_parts(parts: &mut Parts, body: &[u8], ctx: &mut CommandContext<H>) -> (outcome:
        Result<Self, Error>) {
        Ok(AppHandle(ctx.app_handle().clone()))
    }
}

impl<H> core::ops::Deref for AppHandle<H> {
    type Target = H;

    fn deref(&self) -> (handle: &H)
        ensures
            *handle == self.0,
    {
        &self.0
    }
}

} // verus!
