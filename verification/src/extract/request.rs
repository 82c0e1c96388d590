use crate::context::CommandContext;
use crate::error::Error;
use crate::extract::{Consumption, FromRequest, ViaRequest};
use vstd::prelude::*;

verus! {

/// A request Extractor: the whole request as it arrived.
pub struct Request(pub crate::http::Request);

impl<H> FromRequest<H, ViaRequest> for Request {
    open spec fn consumes(
        request: crate::http::Request,
        ctx: CommandContext<H>,
        after: Consumption<Self, H>,
    ) -> bool {
        &&& after.value == Ok::<Request, Error>(Request(request))
        &&& after.ctx == ctx
    }

    fn from_request(request: crate::http::Request, ctx: &mut CommandContext<H>) -> (outcome: Result<
        Self,
        Error,
    >) {
        Ok(Request(request))
    }
}

impl core::ops::Deref for Request {
    type Target = crate::http::Request;

    fn deref(&self) -> (request: &crate::http::Request)
        ensures
            *request == self.0,
    {
        &self.0
    }
}

} // verus!
