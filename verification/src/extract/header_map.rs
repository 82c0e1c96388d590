use crate::context::CommandContext;
use crate::error::Error;
use crate::extract::{Extraction, FromRequestParts};
use crate::http::Parts;
use vstd::prelude::*;

verus! {

/// A header collection Extractor: a copy of the headers of the request.
pub struct HeaderMap(pub crate::http::HeaderMap);

impl<H> FromRequestParts<H> for HeaderMap {
    open spec fn extracts(
        parts: Parts,
        body: Seq<u8>,
        ctx: CommandContext<H>,
        after: Extraction<Self, H>,
    ) -> bool {
        &&& after.parts == parts
        &&& after.ctx == ctx
        &&& after.value matches Ok(headers)
        &&& headers.0@ == parts.headers@
    }

    fn from_request_parts(parts: &mut Parts, body: &[u8], ctx: &mut CommandContext<H>) -> (outcome:
        Result<Self, Error>) {
        Ok(HeaderMap(parts.headers.duplicate()))
    }
}

} // verus!
