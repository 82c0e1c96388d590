use crate::context::CommandContext;
use crate::error::Error;
use crate::extract::{Consumption, FromRequest, ViaRequest};
use crate::http::{HeaderMap, Request, Response};
use crate::response::{bytes_response, IntoResponse};
use vstd::prelude::*;

verus! {

/// A bytes Extractor / Response.
///
/// As an argument it is the body of the request as it was received. As a
/// return value it is the body of the response, sent as it is.
pub struct Bytes(pub Vec<u8>);

impl<H> FromRequest<H, ViaRequest> for Bytes {
    open spec fn consumes(
        request: Request,
        ctx: CommandContext<H>,
        after: Consumption<Self, H>,
    ) -> bool {
        &&& after.value == Ok::<Bytes, Error>(Bytes(request.body))
        &&& after.ctx == ctx
    }

    fn from_request(request: Request, ctx: &mut CommandContext<H>) -> (outcome: Result<
        Self,
        Error,
    >) {
        Ok(Bytes(request.into_body()))
    }
}

impl IntoResponse for Bytes {
    open spec fn yields(self, response: Response) -> bool {
        response@ == bytes_response(self.0@)
    }

    fn into_response(self) -> (response: Response) {
        let mut headers = HeaderMap::new();
        headers.append("Content-Type", "application/octet-stream");
        Response { status: 200, headers, body: self.0 }
    }
}

impl core::ops::Deref for Bytes {
    type Target = Vec<u8>;

    fn deref(&self) -> (bytes: &Vec<u8>)
        ensures
            *bytes == self.0,
    {
        &self.0
    }
}

} // verus!
