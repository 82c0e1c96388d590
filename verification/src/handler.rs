//! Handlers: functions whose arguments are produced by extractors and whose
//! return value becomes the response.
//!
//! A function of up to sixteen arguments is a handler if every argument but
//! the last can be extracted from the parts of a request, the last from the
//! whole request, and the return value can be turned into a response. The
//! arguments are produced from left to right. The first extraction that
//! fails ends the chain, and its error becomes the response.

use crate::context::CommandContext;
use crate::extract::{Consumption, Extraction, FromRequest, FromRequestParts};
use crate::http::{Parts, Request, Response};
use crate::response::{error_response, IntoResponse};
use vstd::prelude::*;

verus! {

/// Marks a handler that returns its value directly. Only the type is used.
pub enum ViaSync {
    Marker,
}

/// Trait to convert a function into a command handler.
///
/// `T` tells the shapes of functions apart, so that each function type is a
/// handler in one way only.
pub trait CommandHandler<H, T>: Sized {
    /// Whether the handler can be called. For a function: it may be called
    /// with every list of arguments of its types.
    open spec fn accepts(&self) -> bool {
        true
    }

    /// Whether `response` is a way in which this handler may answer the
    /// request in this context. A type that says nothing here admits every
    /// response.
    open spec fn responds(
        &self,
        request: Request,
        ctx: CommandContext<H>,
        response: Response,
    ) -> bool {
        true
    }

    /// Produces the arguments, calls the function, and turns what it returns
    /// into the response.
    fn call(&self, request: Request, ctx: CommandContext<H>) -> (response: Response)
        requires
            self.accepts(),
        ensures
            self.responds(request, ctx, response),
    ;
}

/// One argument that is not the last: `T` is extracted from the parts. If
/// that fails, the response is that of the error. If it gives a value, the
/// chain goes on as `next` says, with the parts and the context as the
/// extraction left them.
pub open spec fn argument<H, T: FromRequestParts<H>>(
    parts: Parts,
    body: Vec<u8>,
    ctx: CommandContext<H>,
    response: Response,
    next: spec_fn(T, Parts, CommandContext<H>) -> bool,
) -> bool {
    exists|after: Extraction<T, H>|
        {
            &&& #[trigger] T::extracts(parts, body@, ctx, after)
            &&& match after.value {
                Ok(value) => next(value, after.parts, after.ctx),
                Err(error) => response@ == error_response(error@),
            }
        }
}

/// The last argument: `T` is extracted from the request, put together again
/// from the parts and the body. If that fails, the response is that of the
/// error. If it gives a value, the function is called as `done` says.
pub open spec fn last_argument<H, M, T: FromRequest<H, M>>(
    parts: Parts,
    body: Vec<u8>,
    ctx: CommandContext<H>,
    response: Response,
    done: spec_fn(T) -> bool,
) -> bool {
    exists|after: Consumption<T, H>|
        {
            &&& #[trigger] T::consumes(Request::assembled(parts, body), ctx, after)
            &&& match after.value {
                Ok(value) => done(value),
                Err(error) => response@ == error_response(error@),
            }
        }
}

impl<H, F, Res> CommandHandler<H, (ViaSync,)> for F where F: Fn() -> Res, Res: IntoResponse {
    open spec fn accepts(&self) -> bool {
        call_requires(*self, ())
    }

    open spec fn responds(
        &self,
        request: Request,
        ctx: CommandContext<H>,
        response: Response,
    ) -> bool {
        exists|out: Res| #[trigger] call_ensures(*self, (), out) && out.yields(response)
    }

    fn call(&self, request: Request, ctx: CommandContext<H>) -> (response: Response) {
        self().into_response()
    }
}

impl<H, F, Res, M, T1> CommandHandler<H, (ViaSync, M, T1)> for F where
    F: Fn(T1) -> Res,
    Res: IntoResponse,
    T1: FromRequest<H, M>,
 {
    open spec fn accepts(&self) -> bool {
        forall|t1: T1| call_requires(*self, (t1,))
    }

    open spec fn responds(
        &self,
        request: Request,
        ctx: CommandContext<H>,
        response: Response,
    ) -> bool {
        last_argument::<H, M, T1>(request.parts(), request.body, ctx, response, |t1|
        exists|out: Res|
            #[trigger] call_ensures(*self, (t1,), out)
                && out.yields(response))
    }

    fn call(&self, request: Request, ctx: CommandContext<H>) -> (response: Response) {
        let mut ctx = ctx;
        let (parts, body) = request.into_parts();
        let request = Request::from_parts(parts, body);
        let t1 = match T1::from_request(request, &mut ctx) {
            Ok(value) => value,
            Err(error) => return crate::response::error(error),
        };
        self(t1).into_response()
    }
}

impl<H, F, Res, M, T1, T2> CommandHandler<H, (ViaSync, M, T1, T2)> for F where
    F: Fn(T1, T2) -> Res,
    Res: IntoResponse,
    T1: FromRequestParts<H>,
    T2: FromRequest<H, M>,
 {
    open spec fn accepts(&self) -> bool {
        forall|t1: T1, t2: T2| call_requires(*self, (t1, t2))
    }

    open spec fn responds(
        &self,
        request: Request,
        ctx: CommandContext<H>,
        response: Response,
    ) -> bool {
        argument::<H, T1>(request.parts(), request.body, ctx, response, |t1, parts1, ctx1|
        last_argument::<H, M, T2>(parts1, request.body, ctx1, response, |t2|
        exists|out: Res|
            #[trigger] call_ensures(*self, (t1, t2), out)
                && out.yields(response)))
    }

    fn call(&self, request: Request, ctx: CommandContext<H>) -> (response: Response) {
        let mut ctx = ctx;
        let (mut parts, body) = request.into_parts();
        let t1 = match T1::from_request_parts(&mut parts, body.as_slice(), &mut ctx) {
            Ok(value) => value,
            Err(error) => return crate::response::error(error),
        };
        let request = Request::from_parts(parts, body);
        let t2 = match T2::from_request(request, &mut ctx) {
            Ok(value) => value,
            Err(error) => return crate::response::error(error),
        };
        self(t1, t2).into_response()
    }
}

impl<H, F, Res, M, T1, T2, T3> CommandHandler<H, (ViaSync, M, T1, T2, T3)> for F where
    F: Fn(T1, T2, T3) -> Res,
    Res: IntoResponse,
    T1: FromRequestParts<H>,
    T2: FromRequestParts<H>,
    T3: FromRequest<H, M>,
 {
    open spec fn accepts(&self) -> bool {
        forall|t1: T1, t2: T2, t3: T3| call_requires(*self, (t1, t2, t3))
    }

    open spec fn responds(
        &self,
        request: Request,
        ctx: CommandContext<H>,
        response: Response,
    ) -> bool {
        argument::<H, T1>(request.parts(), request.body, ctx, response, |t1, parts1, ctx1|
        argument::<H, T2>(parts1, request.body, ctx1, response, |t2, parts2, ctx2|
        last_argument::<H, M, T3>(parts2, request.body, ctx2, response, |t3|
        exists|out: Res|
            #[trigger] call_ensures(*self, (t1, t2, t3), out)
                && out.yields(response))))
    }

    fn call(&self, request: Request, ctx: CommandContext<H>) -> (response: Response) {
        let mut ctx = ctx;
        let (mut parts, body) = request.into_parts();
        let t1 = match T1::from_request_parts(&mut parts, body.as_slice(), &mut ctx) {
            Ok(value) => value,
            Err(error) => return crate::response::error(error),
        };
        let t2 = match T2::from_request_parts(&mut parts, body.as_slice(), &mut ctx) {
            Ok(value) => value,
            Err(error) => return crate::response::error(error),
        };
        let request = Request::from_parts(parts, body);
        let t3 = match T3::from_request(request, &mut ctx) {
            Ok(value) => value,
            Err(error) => return crate::response::error(error),
        };
        self(t1, t2, t3).into_response()
    }
}

impl<H, F, Res, M, T1, T2, T3, T4> CommandHandler<H, (ViaSync, M, T1, T2, T3, T4)> for F where
    F: Fn(T1, T2, T3, T4) -> Res,
    Res: IntoResponse,
    T1: FromRequestParts<H>,
    T2: FromRequestParts<H>,
    T3: FromRequestParts<H>,
    T4: FromRequest<H, M>,
 {
    open spec fn accepts(&self) -> bool {
        forall|t1: T1, t2: T2, t3: T3, t4: T4| call_requires(*self, (t1, t2, t3, t4))
    }

    open spec fn responds(
        &self,
        request: Request,
        ctx: CommandContext<H>,
        response: Response,
    ) -> bool {
        argument::<H, T1>(request.parts(), request.body, ctx, response, |t1, parts1, ctx1|
        argument::<H, T2>(parts1, request.body, ctx1, response, |t2, parts2, ctx2|
        argument::<H, T3>(parts2, request.body, ctx2, response, |t3, parts3, ctx3|
        last_argument::<H, M, T4>(parts3, request.body, ctx3, response, |t4|
        exists|out: Res|
            #[trigger] call_ensures(*self, (t1, t2, t3, t4), out)
                && out.yields(response)))))
    }

    fn call(&self, request: Request, ctx: CommandContext<H>) -> (response: Response) {
        let mut ctx = ctx;
        let (mut parts, body) = request.into_parts();
        let t1 = match T1::from_request_parts(&mut parts, body.as_slice(), &mut ctx) {
            Ok(value) => value,
            Err(error) => return crate::response::error(error),
        };
        let t2 = match T2::from_request_parts(&mut parts, body.as_slice(), &mut ctx) {
            Ok(value) => value,
            Err(error) => return crate::response::error(error),
        };
        let t3 = match T3::from_request_parts(&mut parts, body.as_slice(), &mut ctx) {
            Ok(value) => value,
            Err(error) => return crate::response::error(error),
        };
        let request = Request::from_parts(parts, body);
        let t4 = match T4::from_request(request, &mut ctx) {
            Ok(value) => value,
            Err(error) => return crate::response::error(error),
        };
        self(t1, t2, t3, t4).into_response()
    }
}

impl<H, F, Res, M, T1, T2, T3, T4, T5> CommandHandler<
    H,
    (ViaSync, M, T1, T2, T3, T4, T5),
> for F where
    F: Fn(T1, T2, T3, T4, T5) -> Res,
    Res: IntoResponse,
    T1: FromRequestParts<H>,
    T2: FromRequestParts<H>,
    T3: FromRequestParts<H>,
    T4: FromRequestParts<H>,
    T5: FromRequest<H, M>,
 {
    open spec fn accepts(&self) -> bool {
        forall|t1: T1, t2: T2, t3: T3, t4: T4, t5: T5| call_requires(*self, (t1, t2, t3, t4, t5))
    }

    open spec fn responds(
        &self,
        request: Request,
        ctx: CommandContext<H>,
        response: Response,
    ) -> bool {
        argument::<H, T1>(request.parts(), request.body, ctx, response, |t1, parts1, ctx1|
        argument::<H, T2>(parts1, request.body, ctx1, response, |t2, parts2, ctx2|
        argument::<H, T3>(parts2, request.body, ctx2, response, |t3, parts3, ctx3|
        argument::<H, T4>(parts3, request.body, ctx3, response, |t4, parts4, ctx4|
        last_argument::<H, M, T5>(parts4, request.body, ctx4, response, |t5|
        exists|out: Res|
            #[trigger] call_ensures(*self, (t1, t2, t3, t4, t5), out)
                && out.yields(response))))))
    }

    fn call(&self, request: Request, ctx: CommandContext<H>) -> (response: Response) {
        let mut ctx = ctx;
        let (mut parts, body) = request.into_parts();
        let t1 = match T1::from_request_parts(&mut parts, body.as_slice(), &mut ctx) {
            Ok(value) => value,
            Err(error) => return crate::response::error(error),
        };
        let t2 = match T2::from_request_parts(&mut parts, body.as_slice(), &mut ctx) {
            Ok(value) => value,
            Err(error) => return crate::response::error(error),
        };
        let t3 = match T3::from_request_parts(&mut parts, body.as_slice(), &mut ctx) {
            Ok(value) => value,
            Err(error) => return crate::response::error(error),
        };
        let t4 = match T4::from_request_parts(&mut parts, body.as_slice(), &mut ctx) {
            Ok(value) => value,
            Err(error) => return crate::response::error(error),
        };
        let request = Request::from_parts(parts, body);
        let t5 = match T5::from_request(request, &mut ctx) {
            Ok(value) => value,
            Err(error) => return crate::response::error(error),
        };
        self(t1, t2, t3, t4, t5).into_response()
    }
}

impl<H, F, Res, M, T1, T2, T3, T4, T5, T6> CommandHandler<
    H,
    (ViaSync, M, T1, T2, T3, T4, T5, T6),
> for F where
    F: Fn(T1, T2, T3, T4, T5, T6) -> Res,
    Res: IntoResponse,
    T1: FromRequestParts<H>,
    T2: FromRequestParts<H>,
    T3: FromRequestParts<H>,
    T4: FromRequestParts<H>,
    T5: FromRequestParts<H>,
    T6: FromRequest<H, M>,
 {
    open spec fn accepts(&self) -> bool {
        forall|
            t1: T1, t2: T2, t3: T3, t4: T4, t5: T5, t6: T6,
        |
            call_requires(*self, (t1, t2, t3, t4, t5, t6))
    }

    open spec fn responds(
        &self,
        request: Request,
        ctx: CommandContext<H>,
        response: Response,
    ) -> bool {
        argument::<H, T1>(request.parts(), request.body, ctx, response, |t1, parts1, ctx1|
        argument::<H, T2>(parts1, request.body, ctx1, response, |t2, parts2, ctx2|
        argument::<H, T3>(parts2, request.body, ctx2, response, |t3, parts3, ctx3|
        argument::<H, T4>(parts3, request.body, ctx3, response, |t4, parts4, ctx4|
        argument::<H, T5>(parts4, request.body, ctx4, response, |t5, parts5, ctx5|
        last_argument::<H, M, T6>(parts5, request.body, ctx5, response, |t6|
        exists|out: Res|
            #[trigger] call_ensures(*self, (t1, t2, t3, t4, t5, t6), out)
                && out.yields(response)))))))
    }

    fn call(&self, request: Request, ctx: CommandContext<H>) -> (response: Response) {
        let mut ctx = ctx;
        let (mut parts, body) = request.into_parts();
        let t1 = match T1::from_request_parts(&mut parts, body.as_slice(), &mut ctx) {
            Ok(value) => value,
            Err(error) => return crate::response::error(error),
        };
        let t2 = match T2::from_request_parts(&mut parts, body.as_slice(), &mut ctx) {
            Ok(value) => value,
            Err(error) => return crate::response::error(error),
        };
        let t3 = match T3::from_request_parts(&mut parts, body.as_slice(), &mut ctx) {
            Ok(value) => value,
            Err(error) => return crate::response::error(error),
        };
        let t4 = match T4::from_request_parts(&mut parts, body.as_slice(), &mut ctx) {
            Ok(value) => value,
            Err(error) => return crate::response::error(error),
        };
        let t5 = match T5::from_request_parts(&mut parts, body.as_slice(), &mut ctx) {
            Ok(value) => value,
            Err(error) => return crate::response::error(error),
        };
        let request = Request::from_parts(parts, body);
        let t6 = match T6::from_request(request, &mut ctx) {
            Ok(value) => value,
            Err(error) => return crate::response::error(error),
        };
        self(t1, t2, t3, t4, t5, t6).into_response()
    }
}

impl<H, F, Res, M, T1, T2, T3, T4, T5, T6, T7> CommandHandler<
    H,
    (ViaSync, M, T1, T2, T3, T4, T5, T6, T7),
> for F where
    F: Fn(T1, T2, T3, T4, T5, T6, T7) -> Res,
    Res: IntoResponse,
    T1: FromRequestParts<H>,
    T2: FromRequestParts<H>,
    T3: FromRequestParts<H>,
    T4: FromRequestParts<H>,
    T5: FromRequestParts<H>,
    T6: FromRequestParts<H>,
    T7: FromRequest<H, M>,
 {
    open spec fn accepts(&self) -> bool {
        forall|
            t1: T1, t2: T2, t3: T3, t4: T4, t5: T5, t6: T6, t7: T7,
        |
            call_requires(*self, (t1, t2, t3, t4, t5, t6, t7))
    }

    open spec fn responds(
        &self,
        request: Request,
        ctx: CommandContext<H>,
        response: Response,
    ) -> bool {
        argument::<H, T1>(request.parts(), request.body, ctx, response, |t1, parts1, ctx1|
        argument::<H, T2>(parts1, request.body, ctx1, response, |t2, parts2, ctx2|
        argument::<H, T3>(parts2, request.body, ctx2, response, |t3, parts3, ctx3|
        argument::<H, T4>(parts3, request.body, ctx3, response, |t4, parts4, ctx4|
        argument::<H, T5>(parts4, request.body, ctx4, response, |t5, parts5, ctx5|
        argument::<H, T6>(parts5, request.body, ctx5, response, |t6, parts6, ctx6|
        last_argument::<H, M, T7>(parts6, request.body, ctx6, response, |t7|
        exists|out: Res|
            #[trigger] call_ensures(*self, (t1, t2, t3, t4, t5, t6, t7), out)
                && out.yields(response))))))))
    }

    fn call(&self, request: Request, ctx: CommandContext<H>) -> (response: Response) {
        let mut ctx = ctx;
        let (mut parts, body) = request.into_parts();
        let t1 = match T1::from_request_parts(&mut parts, body.as_slice(), &mut ctx) {
            Ok(value) => value,
            Err(error) => return crate::response::error(error),
        };
        let t2 = match T2::from_request_parts(&mut parts, body.as_slice(), &mut ctx) {
            Ok(value) => value,
            Err(error) => return crate::response::error(error),
        };
        let t3 = match T3::from_request_parts(&mut parts, body.as_slice(), &mut ctx) {
            Ok(value) => value,
            Err(error) => return crate::response::error(error),
        };
        let t4 = match T4::from_request_parts(&mut parts, body.as_slice(), &mut ctx) {
            Ok(value) => value,
            Err(error) => return crate::response::error(error),
        };
        let t5 = match T5::from_request_parts(&mut parts, body.as_slice(), &mut ctx) {
            Ok(value) => value,
            Err(error) => return crate::response::error(error),
        };
        let t6 = match T6::from_request_parts(&mut parts, body.as_slice(), &mut ctx) {
            Ok(value) => value,
            Err(error) => return crate::response::error(error),
        };
        let request = Request::from_parts(parts, body);
        let t7 = match T7::from_request(request, &mut ctx) {
            Ok(value) => value,
            Err(error) => return crate::response::error(error),
        };
        self(t1, t2, t3, t4, t5, t6, t7).into_response()
    }
}

impl<H, F, Res, M, T1, T2, T3, T4, T5, T6, T7, T8> CommandHandler<
    H,
    (ViaSync, M, T1, T2, T3, T4, T5, T6, T7, T8),
> for F where
    F: Fn(T1, T2, T3, T4, T5, T6, T7, T8) -> Res,
    Res: IntoResponse,
    T1: FromRequestParts<H>,
    T2: FromRequestParts<H>,
    T3: FromRequestParts<H>,
    T4: FromRequestParts<H>,
    T5: FromRequestParts<H>,
    T6: FromRequestParts<H>,
    T7: FromRequestParts<H>,
    T8: FromRequest<H, M>,
 {
    open spec fn accepts(&self) -> bool {
        forall|
            t1: T1, t2: T2, t3: T3, t4: T4, t5: T5, t6: T6, t7: T7, t8: T8,
        |
            call_requires(*self, (t1, t2, t3, t4, t5, t6, t7, t8))
    }

    open spec fn responds(
        &self,
        request: Request,
        ctx: CommandContext<H>,
        response: Response,
    ) -> bool {
        argument::<H, T1>(request.parts(), request.body, ctx, response, |t1, parts1, ctx1|
        argument::<H, T2>(parts1, request.body, ctx1, response, |t2, parts2, ctx2|
        argument::<H, T3>(parts2, request.body, ctx2, response, |t3, parts3, ctx3|
        argument::<H, T4>(parts3, request.body, ctx3, response, |t4, parts4, ctx4|
        argument::<H, T5>(parts4, request.body, ctx4, response, |t5, parts5, ctx5|
        argument::<H, T6>(parts5, request.body, ctx5, response, |t6, parts6, ctx6|
        argument::<H, T7>(parts6, request.body, ctx6, response, |t7, parts7, ctx7|
        last_argument::<H, M, T8>(parts7, request.body, ctx7, response, |t8|
        exists|out: Res|
            #[trigger] call_ensures(*self, (t1, t2, t3, t4, t5, t6, t7, t8), out)
                && out.yields(response)))))))))
    }

    fn call(&self, request: Request, ctx: CommandContext<H>) -> (response: Response) {
        let mut ctx = ctx;
        let (mut parts, body) = request.into_parts();
        let t1 = match T1::from_request_parts(&mut parts, body.as_slice(), &mut ctx) {
            Ok(value) => value,
            Err(error) => return crate::response::error(error),
        };
        let t2 = match T2::from_request_parts(&mut parts, body.as_slice(), &mut ctx) {
            Ok(value) => value,
            Err(error) => return crate::response::error(error),
        };
        let t3 = match T3::from_request_parts(&mut parts, body.as_slice(), &mut ctx) {
            Ok(value) => value,
            Err(error) => return crate::response::error(error),
        };
        let t4 = match T4::from_request_parts(&mut parts, body.as_slice(), &mut ctx) {
            Ok(value) => value,
            Err(error) => return crate::response::error(error),
        };
        let t5 = match T5::from_request_parts(&mut parts, body.as_slice(), &mut ctx) {
            Ok(value) => value,
            Err(error) => return crate::response::error(error),
        };
        let t6 = match T6::from_request_parts(&mut parts, body.as_slice(), &mut ctx) {
            Ok(value) => value,
            Err(error) => return crate::response::error(error),
        };
        let t7 = match T7::from_request_parts(&mut parts, body.as_slice(), &mut ctx) {
            Ok(value) => value,
            Err(error) => return crate::response::error(error),
        };
        let request = Request::from_parts(parts, body);
        let t8 = match T8::from_request(request, &mut ctx) {
            Ok(value) => value,
            Err(error) => return crate::response::error(error),
        };
        self(t1, t2, t3, t4, t5, t6, t7, t8).into_response()
    }
}

impl<H, F, Res, M, T1, T2, T3, T4, T5, T6, T7, T8, T9> CommandHandler<
    H,
    (ViaSync, M, T1, T2, T3, T4, T5, T6, T7, T8, T9),
> for F where
    F: Fn(T1, T2, T3, T4, T5, T6, T7, T8, T9) -> Res,
    Res: IntoResponse,
    T1: FromRequestParts<H>,
    T2: FromRequestParts<H>,
    T3: FromRequestParts<H>,
    T4: FromRequestParts<H>,
    T5: FromRequestParts<H>,
    T6: FromRequestParts<H>,
    T7: FromRequestParts<H>,
    T8: FromRequestParts<H>,
    T9: FromRequest<H, M>,
 {
    open spec fn accepts(&self) -> bool {
        forall|
            t1: T1, t2: T2, t3: T3, t4: T4, t5: T5, t6: T6, t7: T7, t8: T8, t9: T9,
        |
            call_requires(*self, (t1, t2, t3, t4, t5, t6, t7, t8, t9))
    }

    open spec fn responds(
        &self,
        request: Request,
        ctx: CommandContext<H>,
        response: Response,
    ) -> bool {
        argument::<H, T1>(request.parts(), request.body, ctx, response, |t1, parts1, ctx1|
        argument::<H, T2>(parts1, request.body, ctx1, response, |t2, parts2, ctx2|
        argument::<H, T3>(parts2, request.body, ctx2, response, |t3, parts3, ctx3|
        argument::<H, T4>(parts3, request.body, ctx3, response, |t4, parts4, ctx4|
        argument::<H, T5>(parts4, request.body, ctx4, response, |t5, parts5, ctx5|
        argument::<H, T6>(parts5, request.body, ctx5, response, |t6, parts6, ctx6|
        argument::<H, T7>(parts6, request.body, ctx6, response, |t7, parts7, ctx7|
        argument::<H, T8>(parts7, request.body, ctx7, response, |t8, parts8, ctx8|
        last_argument::<H, M, T9>(parts8, request.body, ctx8, response, |t9|
        exists|out: Res|
            #[trigger] call_ensures(*self, (t1, t2, t3, t4, t5, t6, t7, t8, t9), out)
                && out.yields(response))))))))))
    }

    fn call(&self, request: Request, ctx: CommandContext<H>) -> (response: Response) {
        let mut ctx = ctx;
        let (mut parts, body) = request.into_parts();
        let t1 = match T1::from_request_parts(&mut parts, body.as_slice(), &mut ctx) {
            Ok(value) => value,
            Err(error) => return crate::response::error(error),
        };
        let t2 = match T2::from_request_parts(&mut parts, body.as_slice(), &mut ctx) {
            Ok(value) => value,
            Err(error) => return crate::response::error(error),
        };
        let t3 = match T3::from_request_parts(&mut parts, body.as_slice(), &mut ctx) {
            Ok(value) => value,
            Err(error) => return crate::response::error(error),
        };
        let t4 = match T4::from_request_parts(&mut parts, body.as_slice(), &mut ctx) {
            Ok(value) => value,
            Err(error) => return crate::response::error(error),
        };
        let t5 = match T5::from_request_parts(&mut parts, body.as_slice(), &mut ctx) {
            Ok(value) => value,
            Err(error) => return crate::response::error(error),
        };
        let t6 = match T6::from_request_parts(&mut parts, body.as_slice(), &mut ctx) {
            Ok(value) => value,
            Err(error) => return crate::response::error(error),
        };
        let t7 = match T7::from_request_parts(&mut parts, body.as_slice(), &mut ctx) {
            Ok(value) => value,
            Err(error) => return crate::response::error(error),
        };
        let t8 = match T8::from_request_parts(&mut parts, body.as_slice(), &mut ctx) {
            Ok(value) => value,
            Err(error) => return crate::response::error(error),
        };
        let request = Request::from_parts(parts, body);
        let t9 = match T9::from_request(request, &mut ctx) {
            Ok(value) => value,
            Err(error) => return crate::response::error(error),
        };
        self(t1, t2, t3, t4, t5, t6, t7, t8, t9).into_response()
    }
}

impl<H, F, Res, M, T1, T2, T3, T4, T5, T6, T7, T8, T9, T10> CommandHandler<
    H,
    (ViaSync, M, T1, T2, T3, T4, T5, T6, T7, T8, T9, T10),
> for F where
    F: Fn(T1, T2, T3, T4, T5, T6, T7, T8, T9, T10) -> Res,
    Res: IntoResponse,
    T1: FromRequestParts<H>,
    T2: FromRequestParts<H>,
    T3: FromRequestParts<H>,
    T4: FromRequestParts<H>,
    T5: FromRequestParts<H>,
    T6: FromRequestParts<H>,
    T7: FromRequestParts<H>,
    T8: FromRequestParts<H>,
    T9: FromRequestParts<H>,
    T10: FromRequest<H, M>,
 {
    open spec fn accepts(&self) -> bool {
        forall|
            t1: T1, t2: T2, t3: T3, t4: T4, t5: T5, t6: T6, t7: T7, t8: T8, t9: T9, t10: T10,
        |
            call_requires(*self, (t1, t2, t3, t4, t5, t6, t7, t8, t9, t10))
    }

    open spec fn responds(
        &self,
        request: Request,
        ctx: CommandContext<H>,
        response: Response,
    ) -> bool {
        argument::<H, T1>(request.parts(), request.body, ctx, response, |t1, parts1, ctx1|
        argument::<H, T2>(parts1, request.body, ctx1, response, |t2, parts2, ctx2|
        argument::<H, T3>(parts2, request.body, ctx2, response, |t3, parts3, ctx3|
        argument::<H, T4>(parts3, request.body, ctx3, response, |t4, parts4, ctx4|
        argument::<H, T5>(parts4, request.body, ctx4, response, |t5, parts5, ctx5|
        argument::<H, T6>(parts5, request.body, ctx5, response, |t6, parts6, ctx6|
        argument::<H, T7>(parts6, request.body, ctx6, response, |t7, parts7, ctx7|
        argument::<H, T8>(parts7, request.body, ctx7, response, |t8, parts8, ctx8|
        argument::<H, T9>(parts8, request.body, ctx8, response, |t9, parts9, ctx9|
        last_argument::<H, M, T10>(parts9, request.body, ctx9, response, |t10|
        exists|out: Res|
            #[trigger] call_ensures(*self, (t1, t2, t3, t4, t5, t6, t7, t8, t9, t10), out)
                && out.yields(response)))))))))))
    }

    fn call(&self, request: Request, ctx: CommandContext<H>) -> (response: Response) {
        let mut ctx = ctx;
        let (mut parts, body) = request.into_parts();
        let t1 = match T1::from_request_parts(&mut parts, body.as_slice(), &mut ctx) {
            Ok(value) => value,
            Err(error) => return crate::response::error(error),
        };
        let t2 = match T2::from_request_parts(&mut parts, body.as_slice(), &mut ctx) {
            Ok(value) => value,
            Err(error) => return crate::response::error(error),
        };
        let t3 = match T3::from_request_parts(&mut parts, body.as_slice(), &mut ctx) {
            Ok(value) => value,
            Err(error) => return crate::response::error(error),
        };
        let t4 = match T4::from_request_parts(&mut parts, body.as_slice(), &mut ctx) {
            Ok(value) => value,
            Err(error) => return crate::response::error(error),
        };
        let t5 = match T5::from_request_parts(&mut parts, body.as_slice(), &mut ctx) {
            Ok(value) => value,
            Err(error) => return crate::response::error(error),
        };
        let t6 = match T6::from_request_parts(&mut parts, body.as_slice(), &mut ctx) {
            Ok(value) => value,
            Err(error) => return crate::response::error(error),
        };
        let t7 = match T7::from_request_parts(&mut parts, body.as_slice(), &mut ctx) {
            Ok(value) => value,
            Err(error) => return crate::response::error(error),
        };
        let t8 = match T8::from_request_parts(&mut parts, body.as_slice(), &mut ctx) {
            Ok(value) => value,
            Err(error) => return crate::response::error(error),
        };
        let t9 = match T9::from_request_parts(&mut parts, body.as_slice(), &mut ctx) {
            Ok(value) => value,
            Err(error) => return crate::response::error(error),
        };
        let request = Request::from_parts(parts, body);
        let t10 = match T10::from_request(request, &mut ctx) {
            Ok(value) => value,
            Err(error) => return crate::response::error(error),
        };
        self(t1, t2, t3, t4, t5, t6, t7, t8, t9, t10).into_response()
    }
}

impl<H, F, Res, M, T1, T2, T3, T4, T5, T6, T7, T8, T9, T10, T11> CommandHandler<
    H,
    (ViaSync, M, T1, T2, T3, T4, T5, T6, T7, T8, T9, T10, T11),
> for F where
    F: Fn(T1, T2, T3, T4, T5, T6, T7, T8, T9, T10, T11) -> Res,
    Res: IntoResponse,
    T1: FromRequestParts<H>,
    T2: FromRequestParts<H>,
    T3: FromRequestParts<H>,
    T4: FromRequestParts<H>,
    T5: FromRequestParts<H>,
    T6: FromRequestParts<H>,
    T7: FromRequestParts<H>,
    T8: FromRequestParts<H>,
    T9: FromRequestParts<H>,
    T10: FromRequestParts<H>,
    T11: FromRequest<H, M>,
 {
    open spec fn accepts(&self) -> bool {
        forall|
            t1: T1, t2: T2, t3: T3, t4: T4, t5: T5, t6: T6, t7: T7, t8: T8, t9: T9, t10: T10,
            t11: T11,
        |
            call_requires(*self, (t1, t2, t3, t4, t5, t6, t7, t8, t9, t10, t11))
    }

    open spec fn responds(
        &self,
        request: Request,
        ctx: CommandContext<H>,
        response: Response,
    ) -> bool {
        argument::<H, T1>(request.parts(), request.body, ctx, response, |t1, parts1, ctx1|
        argument::<H, T2>(parts1, request.body, ctx1, response, |t2, parts2, ctx2|
        argument::<H, T3>(parts2, request.body, ctx2, response, |t3, parts3, ctx3|
        argument::<H, T4>(parts3, request.body, ctx3, response, |t4, parts4, ctx4|
        argument::<H, T5>(parts4, request.body, ctx4, response, |t5, parts5, ctx5|
        argument::<H, T6>(parts5, request.body, ctx5, response, |t6, parts6, ctx6|
        argument::<H, T7>(parts6, request.body, ctx6, response, |t7, parts7, ctx7|
        argument::<H, T8>(parts7, request.body, ctx7, response, |t8, parts8, ctx8|
        argument::<H, T9>(parts8, request.body, ctx8, response, |t9, parts9, ctx9|
        argument::<H, T10>(parts9, request.body, ctx9, response, |t10, parts10, ctx10|
        last_argument::<H, M, T11>(parts10, request.body, ctx10, response, |t11|
        exists|out: Res|
            #[trigger] call_ensures(*self, (t1, t2, t3, t4, t5, t6, t7, t8, t9, t10, t11), out)
                && out.yields(response))))))))))))
    }

    fn call(&self, request: Request, ctx: CommandContext<H>) -> (response: Response) {
        let mut ctx = ctx;
        let (mut parts, body) = request.into_parts();
        let t1 = match T1::from_request_parts(&mut parts, body.as_slice(), &mut ctx) {
            Ok(value) => value,
            Err(error) => return crate::response::error(error),
        };
        let t2 = match T2::from_request_parts(&mut parts, body.as_slice(), &mut ctx) {
            Ok(value) => value,
            Err(error) => return crate::response::error(error),
        };
        let t3 = match T3::from_request_parts(&mut parts, body.as_slice(), &mut ctx) {
            Ok(value) => value,
            Err(error) => return crate::response::error(error),
        };
        let t4 = match T4::from_request_parts(&mut parts, body.as_slice(), &mut ctx) {
            Ok(value) => value,
            Err(error) => return crate::response::error(error),
        };
        let t5 = match T5::from_request_parts(&mut parts, body.as_slice(), &mut ctx) {
            Ok(value) => value,
            Err(error) => return crate::response::error(error),
        };
        let t6 = match T6::from_request_parts(&mut parts, body.as_slice(), &mut ctx) {
            Ok(value) => value,
            Err(error) => return crate::response::error(error),
        };
        let t7 = match T7::from_request_parts(&mut parts, body.as_slice(), &mut ctx) {
            Ok(value) => value,
            Err(error) => return crate::response::error(error),
        };
        let t8 = match T8::from_request_parts(&mut parts, body.as_slice(), &mut ctx) {
            Ok(value) => value,
            Err(error) => return crate::response::error(error),
        };
        let t9 = match T9::from_request_parts(&mut parts, body.as_slice(), &mut ctx) {
            Ok(value) => value,
            Err(error) => return crate::response::error(error),
        };
        let t10 = match T10::from_request_parts(&mut parts, body.as_slice(), &mut ctx) {
            Ok(value) => value,
            Err(error) => return crate::response::error(error),
        };
        let request = Request::from_parts(parts, body);
        let t11 = match T11::from_request(request, &mut ctx) {
            Ok(value) => value,
            Err(error) => return crate::response::error(error),
        };
        self(t1, t2, t3, t4, t5, t6, t7, t8, t9, t10, t11).into_response()
    }
}

impl<H, F, Res, M, T1, T2, T3, T4, T5, T6, T7, T8, T9, T10, T11, T12> CommandHandler<
    H,
    (ViaSync, M, T1, T2, T3, T4, T5, T6, T7, T8, T9, T10, T11, T12),
> for F where
    F: Fn(T1, T2, T3, T4, T5, T6, T7, T8, T9, T10, T11, T12) -> Res,
    Res: IntoResponse,
    T1: FromRequestParts<H>,
    T2: FromRequestParts<H>,
    T3: FromRequestParts<H>,
    T4: FromRequestParts<H>,
    T5: FromRequestParts<H>,
    T6: FromRequestParts<H>,
    T7: FromRequestParts<H>,
    T8: FromRequestParts<H>,
    T9: FromRequestParts<H>,
    T10: FromRequestParts<H>,
    T11: FromRequestParts<H>,
    T12: FromRequest<H, M>,
 {
    open spec fn accepts(&self) -> bool {
        forall|
            t1: T1, t2: T2, t3: T3, t4: T4, t5: T5, t6: T6, t7: T7, t8: T8, t9: T9, t10: T10,
            t11: T11, t12: T12,
        |
            call_requires(*self, (t1, t2, t3, t4, t5, t6, t7, t8, t9, t10, t11, t12))
    }

    open spec fn responds(
        &self,
        request: Request,
        ctx: CommandContext<H>,
        response: Response,
    ) -> bool {
        argument::<H, T1>(request.parts(), request.body, ctx, response, |t1, parts1, ctx1|
        argument::<H, T2>(parts1, request.body, ctx1, response, |t2, parts2, ctx2|
        argument::<H, T3>(parts2, request.body, ctx2, response, |t3, parts3, ctx3|
        argument::<H, T4>(parts3, request.body, ctx3, response, |t4, parts4, ctx4|
        argument::<H, T5>(parts4, request.body, ctx4, response, |t5, parts5, ctx5|
        argument::<H, T6>(parts5, request.body, ctx5, response, |t6, parts6, ctx6|
        argument::<H, T7>(parts6, request.body, ctx6, response, |t7, parts7, ctx7|
        argument::<H, T8>(parts7, request.body, ctx7, response, |t8, parts8, ctx8|
        argument::<H, T9>(parts8, request.body, ctx8, response, |t9, parts9, ctx9|
        argument::<H, T10>(parts9, request.body, ctx9, response, |t10, parts10, ctx10|
        argument::<H, T11>(parts10, request.body, ctx10, response, |t11, parts11, ctx11|
        last_argument::<H, M, T12>(parts11, request.body, ctx11, response, |t12|
        exists|out: Res|
            #[trigger] call_ensures(*self, (t1, t2, t3, t4, t5, t6, t7, t8, t9, t10, t11, t12), out)
                && out.yields(response)))))))))))))
    }

    fn call(&self, request: Request, ctx: CommandContext<H>) -> (response: Response) {
        let mut ctx = ctx;
        let (mut parts, body) = request.into_parts();
        let t1 = match T1::from_request_parts(&mut parts, body.as_slice(), &mut ctx) {
            Ok(value) => value,
            Err(error) => return crate::response::error(error),
        };
        let t2 = match T2::from_request_parts(&mut parts, body.as_slice(), &mut ctx) {
            Ok(value) => value,
            Err(error) => return crate::response::error(error),
        };
        let t3 = match T3::from_request_parts(&mut parts, body.as_slice(), &mut ctx) {
            Ok(value) => value,
            Err(error) => return crate::response::error(error),
        };
        let t4 = match T4::from_request_parts(&mut parts, body.as_slice(), &mut ctx) {
            Ok(value) => value,
            Err(error) => return crate::response::error(error),
        };
        let t5 = match T5::from_request_parts(&mut parts, body.as_slice(), &mut ctx) {
            Ok(value) => value,
            Err(error) => return crate::response::error(error),
        };
        let t6 = match T6::from_request_parts(&mut parts, body.as_slice(), &mut ctx) {
            Ok(value) => value,
            Err(error) => return crate::response::error(error),
        };
        let t7 = match T7::from_request_parts(&mut parts, body.as_slice(), &mut ctx) {
            Ok(value) => value,
            Err(error) => return crate::response::error(error),
        };
        let t8 = match T8::from_request_parts(&mut parts, body.as_slice(), &mut ctx) {
            Ok(value) => value,
            Err(error) => return crate::response::error(error),
        };
        let t9 = match T9::from_request_parts(&mut parts, body.as_slice(), &mut ctx) {
            Ok(value) => value,
            Err(error) => return crate::response::error(error),
        };
        let t10 = match T10::from_request_parts(&mut parts, body.as_slice(), &mut ctx) {
            Ok(value) => value,
            Err(error) => return crate::response::error(error),
        };
        let t11 = match T11::from_request_parts(&mut parts, body.as_slice(), &mut ctx) {
            Ok(value) => value,
            Err(error) => return crate::response::error(error),
        };
        let request = Request::from_parts(parts, body);
        let t12 = match T12::from_request(request, &mut ctx) {
            Ok(value) => value,
            Err(error) => return crate::response::error(error),
        };
        self(t1, t2, t3, t4, t5, t6, t7, t8, t9, t10, t11, t12).into_response()
    }
}

impl<H, F, Res, M, T1, T2, T3, T4, T5, T6, T7, T8, T9, T10, T11, T12, T13> CommandHandler<
    H,
    (ViaSync, M, T1, T2, T3, T4, T5, T6, T7, T8, T9, T10, T11, T12, T13),
> for F where
    F: Fn(T1, T2, T3, T4, T5, T6, T7, T8, T9, T10, T11, T12, T13) -> Res,
    Res: IntoResponse,
    T1: FromRequestParts<H>,
    T2: FromRequestParts<H>,
    T3: FromRequestParts<H>,
    T4: FromRequestParts<H>,
    T5: FromRequestParts<H>,
    T6: FromRequestParts<H>,
    T7: FromRequestParts<H>,
    T8: FromRequestParts<H>,
    T9: FromRequestParts<H>,
    T10: FromRequestParts<H>,
    T11: FromRequestParts<H>,
    T12: FromRequestParts<H>,
    T13: FromRequest<H, M>,
 {
    open spec fn accepts(&self) -> bool {
        forall|
            t1: T1, t2: T2, t3: T3, t4: T4, t5: T5, t6: T6, t7: T7, t8: T8, t9: T9, t10: T10,
            t11: T11, t12: T12, t13: T13,
        |
            call_requires(*self, (t1, t2, t3, t4, t5, t6, t7, t8, t9, t10, t11, t12, t13))
    }

    open spec fn responds(
        &self,
        request: Request,
        ctx: CommandContext<H>,
        response: Response,
    ) -> bool {
        argument::<H, T1>(request.parts(), request.body, ctx, response, |t1, parts1, ctx1|
        argument::<H, T2>(parts1, request.body, ctx1, response, |t2, parts2, ctx2|
        argument::<H, T3>(parts2, request.body, ctx2, response, |t3, parts3, ctx3|
        argument::<H, T4>(parts3, request.body, ctx3, response, |t4, parts4, ctx4|
        argument::<H, T5>(parts4, request.body, ctx4, response, |t5, parts5, ctx5|
        argument::<H, T6>(parts5, request.body, ctx5, response, |t6, parts6, ctx6|
        argument::<H, T7>(parts6, request.body, ctx6, response, |t7, parts7, ctx7|
        argument::<H, T8>(parts7, request.body, ctx7, response, |t8, parts8, ctx8|
        argument::<H, T9>(parts8, request.body, ctx8, response, |t9, parts9, ctx9|
        argument::<H, T10>(parts9, request.body, ctx9, response, |t10, parts10, ctx10|
        argument::<H, T11>(parts10, request.body, ctx10, response, |t11, parts11, ctx11|
        argument::<H, T12>(parts11, request.body, ctx11, response, |t12, parts12, ctx12|
        last_argument::<H, M, T13>(parts12, request.body, ctx12, response, |t13|
        exists|out: Res|
            #[trigger] call_ensures(*self, (
                t1, t2, t3, t4, t5, t6, t7, t8, t9, t10, t11, t12, t13,
            ), out)
                && out.yields(response))))))))))))))
    }

    fn call(&self, request: Request, ctx: CommandContext<H>) -> (response: Response) {
        let mut ctx = ctx;
        let (mut parts, body) = request.into_parts();
        let t1 = match T1::from_request_parts(&mut parts, body.as_slice(), &mut ctx) {
            Ok(value) => value,
            Err(error) => return crate::response::error(error),
        };
        let t2 = match T2::from_request_parts(&mut parts, body.as_slice(), &mut ctx) {
            Ok(value) => value,
            Err(error) => return crate::response::error(error),
        };
        let t3 = match T3::from_request_parts(&mut parts, body.as_slice(), &mut ctx) {
            Ok(value) => value,
            Err(error) => return crate::response::error(error),
        };
        let t4 = match T4::from_request_parts(&mut parts, body.as_slice(), &mut ctx) {
            Ok(value) => value,
            Err(error) => return crate::response::error(error),
        };
        let t5 = match T5::from_request_parts(&mut parts, body.as_slice(), &mut ctx) {
            Ok(value) => value,
            Err(error) => return crate::response::error(error),
        };
        let t6 = match T6::from_request_parts(&mut parts, body.as_slice(), &mut ctx) {
            Ok(value) => value,
            Err(error) => return crate::response::error(error),
        };
        let t7 = match T7::from_request_parts(&mut parts, body.as_slice(), &mut ctx) {
            Ok(value) => value,
            Err(error) => return crate::response::error(error),
        };
        let t8 = match T8::from_request_parts(&mut parts, body.as_slice(), &mut ctx) {
            Ok(value) => value,
            Err(error) => return crate::response::error(error),
        };
        let t9 = match T9::from_request_parts(&mut parts, body.as_slice(), &mut ctx) {
            Ok(value) => value,
            Err(error) => return crate::response::error(error),
        };
        let t10 = match T10::from_request_parts(&mut parts, body.as_slice(), &mut ctx) {
            Ok(value) => value,
            Err(error) => return crate::response::error(error),
        };
        let t11 = match T11::from_request_parts(&mut parts, body.as_slice(), &mut ctx) {
            Ok(value) => value,
            Err(error) => return crate::response::error(error),
        };
        let t12 = match T12::from_request_parts(&mut parts, body.as_slice(), &mut ctx) {
            Ok(value) => value,
            Err(error) => return crate::response::error(error),
        };
        let request = Request::from_parts(parts, body);
        let t13 = match T13::from_request(request, &mut ctx) {
            Ok(value) => value,
            Err(error) => return crate::response::error(error),
        };
        self(t1, t2, t3, t4, t5, t6, t7, t8, t9, t10, t11, t12, t13).into_response()
    }
}

impl<H, F, Res, M, T1, T2, T3, T4, T5, T6, T7, T8, T9, T10, T11, T12, T13, T14> CommandHandler<
    H,
    (ViaSync, M, T1, T2, T3, T4, T5, T6, T7, T8, T9, T10, T11, T12, T13, T14),
> for F where
    F: Fn(T1, T2, T3, T4, T5, T6, T7, T8, T9, T10, T11, T12, T13, T14) -> Res,
    Res: IntoResponse,
    T1: FromRequestParts<H>,
    T2: FromRequestParts<H>,
    T3: FromRequestParts<H>,
    T4: FromRequestParts<H>,
    T5: FromRequestParts<H>,
    T6: FromRequestParts<H>,
    T7: FromRequestParts<H>,
    T8: FromRequestParts<H>,
    T9: FromRequestParts<H>,
    T10: FromRequestParts<H>,
    T11: FromRequestParts<H>,
    T12: FromRequestParts<H>,
    T13: FromRequestParts<H>,
    T14: FromRequest<H, M>,
 {
    open spec fn accepts(&self) -> bool {
        forall|
            t1: T1, t2: T2, t3: T3, t4: T4, t5: T5, t6: T6, t7: T7, t8: T8, t9: T9, t10: T10,
            t11: T11, t12: T12, t13: T13, t14: T14,
        |
            call_requires(*self, (t1, t2, t3, t4, t5, t6, t7, t8, t9, t10, t11, t12, t13, t14))
    }

    open spec fn responds(
        &self,
        request: Request,
        ctx: CommandContext<H>,
        response: Response,
    ) -> bool {
        argument::<H, T1>(request.parts(), request.body, ctx, response, |t1, parts1, ctx1|
        argument::<H, T2>(parts1, request.body, ctx1, response, |t2, parts2, ctx2|
        argument::<H, T3>(parts2, request.body, ctx2, response, |t3, parts3, ctx3|
        argument::<H, T4>(parts3, request.body, ctx3, response, |t4, parts4, ctx4|
        argument::<H, T5>(parts4, request.body, ctx4, response, |t5, parts5, ctx5|
        argument::<H, T6>(parts5, request.body, ctx5, response, |t6, parts6, ctx6|
        argument::<H, T7>(parts6, request.body, ctx6, response, |t7, parts7, ctx7|
        argument::<H, T8>(parts7, request.body, ctx7, response, |t8, parts8, ctx8|
        argument::<H, T9>(parts8, request.body, ctx8, response, |t9, parts9, ctx9|
        argument::<H, T10>(parts9, request.body, ctx9, response, |t10, parts10, ctx10|
        argument::<H, T11>(parts10, request.body, ctx10, response, |t11, parts11, ctx11|
        argument::<H, T12>(parts11, request.body, ctx11, response, |t12, parts12, ctx12|
        argument::<H, T13>(parts12, request.body, ctx12, response, |t13, parts13, ctx13|
        last_argument::<H, M, T14>(parts13, request.body, ctx13, response, |t14|
        exists|out: Res|
            #[trigger] call_ensures(*self, (
                t1, t2, t3, t4, t5, t6, t7, t8, t9, t10, t11, t12, t13, t14,
            ), out)
                && out.yields(response)))))))))))))))
    }

    fn call(&self, request: Request, ctx: CommandContext<H>) -> (response: Response) {
        let mut ctx = ctx;
        let (mut parts, body) = request.into_parts();
        let t1 = match T1::from_request_parts(&mut parts, body.as_slice(), &mut ctx) {
            Ok(value) => value,
            Err(error) => return crate::response::error(error),
        };
        let t2 = match T2::from_request_parts(&mut parts, body.as_slice(), &mut ctx) {
            Ok(value) => value,
            Err(error) => return crate::response::error(error),
        };
        let t3 = match T3::from_request_parts(&mut parts, body.as_slice(), &mut ctx) {
            Ok(value) => value,
            Err(error) => return crate::response::error(error),
        };
        let t4 = match T4::from_request_parts(&mut parts, body.as_slice(), &mut ctx) {
            Ok(value) => value,
            Err(error) => return crate::response::error(error),
        };
        let t5 = match T5::from_request_parts(&mut parts, body.as_slice(), &mut ctx) {
            Ok(value) => value,
            Err(error) => return crate::response::error(error),
        };
        let t6 = match T6::from_request_parts(&mut parts, body.as_slice(), &mut ctx) {
            Ok(value) => value,
            Err(error) => return crate::response::error(error),
        };
        let t7 = match T7::from_request_parts(&mut parts, body.as_slice(), &mut ctx) {
            Ok(value) => value,
            Err(error) => return crate::response::error(error),
        };
        let t8 = match T8::from_request_parts(&mut parts, body.as_slice(), &mut ctx) {
            Ok(value) => value,
            Err(error) => return crate::response::error(error),
        };
        let t9 = match T9::from_request_parts(&mut parts, body.as_slice(), &mut ctx) {
            Ok(value) => value,
            Err(error) => return crate::response::error(error),
        };
        let t10 = match T10::from_request_parts(&mut parts, body.as_slice(), &mut ctx) {
            Ok(value) => value,
            Err(error) => return crate::response::error(error),
        };
        let t11 = match T11::from_request_parts(&mut parts, body.as_slice(), &mut ctx) {
            Ok(value) => value,
            Err(error) => return crate::response::error(error),
        };
        let t12 = match T12::from_request_parts(&mut parts, body.as_slice(), &mut ctx) {
            Ok(value) => value,
            Err(error) => return crate::response::error(error),
        };
        let t13 = match T13::from_request_parts(&mut parts, body.as_slice(), &mut ctx) {
            Ok(value) => value,
            Err(error) => return crate::response::error(error),
        };
        let request = Request::from_parts(parts, body);
        let t14 = match T14::from_request(request, &mut ctx) {
            Ok(value) => value,
            Err(error) => return crate::response::error(error),
        };
        self(t1, t2, t3, t4, t5, t6, t7, t8, t9, t10, t11, t12, t13, t14).into_response()
    }
}

impl<H, F, Res, M, T1, T2, T3, T4, T5, T6, T7, T8, T9, T10, T11, T12, T13, T14, T15> CommandHandler<
    H,
    (ViaSync, M, T1, T2, T3, T4, T5, T6, T7, T8, T9, T10, T11, T12, T13, T14, T15),
> for F where
    F: Fn(T1, T2, T3, T4, T5, T6, T7, T8, T9, T10, T11, T12, T13, T14, T15) -> Res,
    Res: IntoResponse,
    T1: FromRequestParts<H>,
    T2: FromRequestParts<H>,
    T3: FromRequestParts<H>,
    T4: FromRequestParts<H>,
    T5: FromRequestParts<H>,
    T6: FromRequestParts<H>,
    T7: FromRequestParts<H>,
    T8: FromRequestParts<H>,
    T9: FromRequestParts<H>,
    T10: FromRequestParts<H>,
    T11: FromRequestParts<H>,
    T12: FromRequestParts<H>,
    T13: FromRequestParts<H>,
    T14: FromRequestParts<H>,
    T15: FromRequest<H, M>,
 {
    open spec fn accepts(&self) -> bool {
        forall|
            t1: T1, t2: T2, t3: T3, t4: T4, t5: T5, t6: T6, t7: T7, t8: T8, t9: T9, t10: T10,
            t11: T11, t12: T12, t13: T13, t14: T14, t15: T15,
        |
            call_requires(*self, (t1, t2, t3, t4, t5, t6, t7, t8, t9, t10, t11, t12, t13, t14, t15))
    }

    open spec fn responds(
        &self,
        request: Request,
        ctx: CommandContext<H>,
        response: Response,
    ) -> bool {
        argument::<H, T1>(request.parts(), request.body, ctx, response, |t1, parts1, ctx1|
        argument::<H, T2>(parts1, request.body, ctx1, response, |t2, parts2, ctx2|
        argument::<H, T3>(parts2, request.body, ctx2, response, |t3, parts3, ctx3|
        argument::<H, T4>(parts3, request.body, ctx3, response, |t4, parts4, ctx4|
        argument::<H, T5>(parts4, request.body, ctx4, response, |t5, parts5, ctx5|
        argument::<H, T6>(parts5, request.body, ctx5, response, |t6, parts6, ctx6|
        argument::<H, T7>(parts6, request.body, ctx6, response, |t7, parts7, ctx7|
        argument::<H, T8>(parts7, request.body, ctx7, response, |t8, parts8, ctx8|
        argument::<H, T9>(parts8, request.body, ctx8, response, |t9, parts9, ctx9|
        argument::<H, T10>(parts9, request.body, ctx9, response, |t10, parts10, ctx10|
        argument::<H, T11>(parts10, request.body, ctx10, response, |t11, parts11, ctx11|
        argument::<H, T12>(parts11, request.body, ctx11, response, |t12, parts12, ctx12|
        argument::<H, T13>(parts12, request.body, ctx12, response, |t13, parts13, ctx13|
        argument::<H, T14>(parts13, request.body, ctx13, response, |t14, parts14, ctx14|
        last_argument::<H, M, T15>(parts14, request.body, ctx14, response, |t15|
        exists|out: Res|
            #[trigger] call_ensures(*self, (
                t1, t2, t3, t4, t5, t6, t7, t8, t9, t10, t11, t12, t13, t14, t15,
            ), out)
                && out.yields(response))))))))))))))))
    }

    fn call(&self, request: Request, ctx: CommandContext<H>) -> (response: Response) {
        let mut ctx = ctx;
        let (mut parts, body) = request.into_parts();
        let t1 = match T1::from_request_parts(&mut parts, body.as_slice(), &mut ctx) {
            Ok(value) => value,
            Err(error) => return crate::response::error(error),
        };
        let t2 = match T2::from_request_parts(&mut parts, body.as_slice(), &mut ctx) {
            Ok(value) => value,
            Err(error) => return crate::response::error(error),
        };
        let t3 = match T3::from_request_parts(&mut parts, body.as_slice(), &mut ctx) {
            Ok(value) => value,
            Err(error) => return crate::response::error(error),
        };
        let t4 = match T4::from_request_parts(&mut parts, body.as_slice(), &mut ctx) {
            Ok(value) => value,
            Err(error) => return crate::response::error(error),
        };
        let t5 = match T5::from_request_parts(&mut parts, body.as_slice(), &mut ctx) {
            Ok(value) => value,
            Err(error) => return crate::response::error(error),
        };
        let t6 = match T6::from_request_parts(&mut parts, body.as_slice(), &mut ctx) {
            Ok(value) => value,
            Err(error) => return crate::response::error(error),
        };
        let t7 = match T7::from_request_parts(&mut parts, body.as_slice(), &mut ctx) {
            Ok(value) => value,
            Err(error) => return crate::response::error(error),
        };
        let t8 = match T8::from_request_parts(&mut parts, body.as_slice(), &mut ctx) {
            Ok(value) => value,
            Err(error) => return crate::response::error(error),
        };
        let t9 = match T9::from_request_parts(&mut parts, body.as_slice(), &mut ctx) {
            Ok(value) => value,
            Err(error) => return crate::response::error(error),
        };
        let t10 = match T10::from_request_parts(&mut parts, body.as_slice(), &mut ctx) {
            Ok(value) => value,
            Err(error) => return crate::response::error(error),
        };
        let t11 = match T11::from_request_parts(&mut parts, body.as_slice(), &mut ctx) {
            Ok(value) => value,
            Err(error) => return crate::response::error(error),
        };
        let t12 = match T12::from_request_parts(&mut parts, body.as_slice(), &mut ctx) {
            Ok(value) => value,
            Err(error) => return crate::response::error(error),
        };
        let t13 = match T13::from_request_parts(&mut parts, body.as_slice(), &mut ctx) {
            Ok(value) => value,
            Err(error) => return crate::response::error(error),
        };
        let t14 = match T14::from_request_parts(&mut parts, body.as_slice(), &mut ctx) {
            Ok(value) => value,
            Err(error) => return crate::response::error(error),
        };
        let request = Request::from_parts(parts, body);
        let t15 = match T15::from_request(request, &mut ctx) {
            Ok(value) => value,
            Err(error) => return crate::response::error(error),
        };
        self(t1, t2, t3, t4, t5, t6, t7, t8, t9, t10, t11, t12, t13, t14, t15).into_response()
    }
}

impl<
    H, F, Res, M, T1, T2, T3, T4, T5, T6, T7, T8, T9, T10, T11, T12, T13, T14, T15, T16,
> CommandHandler<
    H,
    (ViaSync, M, T1, T2, T3, T4, T5, T6, T7, T8, T9, T10, T11, T12, T13, T14, T15, T16),
> for F where
    F: Fn(T1, T2, T3, T4, T5, T6, T7, T8, T9, T10, T11, T12, T13, T14, T15, T16) -> Res,
    Res: IntoResponse,
    T1: FromRequestParts<H>,
    T2: FromRequestParts<H>,
    T3: FromRequestParts<H>,
    T4: FromRequestParts<H>,
    T5: FromRequestParts<H>,
    T6: FromRequestParts<H>,
    T7: FromRequestParts<H>,
    T8: FromRequestParts<H>,
    T9: FromRequestParts<H>,
    T10: FromRequestParts<H>,
    T11: FromRequestParts<H>,
    T12: FromRequestParts<H>,
    T13: FromRequestParts<H>,
    T14: FromRequestParts<H>,
    T15: FromRequestParts<H>,
    T16: FromRequest<H, M>,
 {
    open spec fn accepts(&self) -> bool {
        forall|
            t1: T1, t2: T2, t3: T3, t4: T4, t5: T5, t6: T6, t7: T7, t8: T8, t9: T9, t10: T10,
            t11: T11, t12: T12, t13: T13, t14: T14, t15: T15, t16: T16,
        |
            call_requires(*self, (
                t1, t2, t3, t4, t5, t6, t7, t8, t9, t10, t11, t12, t13, t14, t15, t16,
            ))
    }

    open spec fn responds(
        &self,
        request: Request,
        ctx: CommandContext<H>,
        response: Response,
    ) -> bool {
        argument::<H, T1>(request.parts(), request.body, ctx, response, |t1, parts1, ctx1|
        argument::<H, T2>(parts1, request.body, ctx1, response, |t2, parts2, ctx2|
        argument::<H, T3>(parts2, request.body, ctx2, response, |t3, parts3, ctx3|
        argument::<H, T4>(parts3, request.body, ctx3, response, |t4, parts4, ctx4|
        argument::<H, T5>(parts4, request.body, ctx4, response, |t5, parts5, ctx5|
        argument::<H, T6>(parts5, request.body, ctx5, response, |t6, parts6, ctx6|
        argument::<H, T7>(parts6, request.body, ctx6, response, |t7, parts7, ctx7|
        argument::<H, T8>(parts7, request.body, ctx7, response, |t8, parts8, ctx8|
        argument::<H, T9>(parts8, request.body, ctx8, response, |t9, parts9, ctx9|
        argument::<H, T10>(parts9, request.body, ctx9, response, |t10, parts10, ctx10|
        argument::<H, T11>(parts10, request.body, ctx10, response, |t11, parts11, ctx11|
        argument::<H, T12>(parts11, request.body, ctx11, response, |t12, parts12, ctx12|
        argument::<H, T13>(parts12, request.body, ctx12, response, |t13, parts13, ctx13|
        argument::<H, T14>(parts13, request.body, ctx13, response, |t14, parts14, ctx14|
        argument::<H, T15>(parts14, request.body, ctx14, response, |t15, parts15, ctx15|
        last_argument::<H, M, T16>(parts15, request.body, ctx15, response, |t16|
        exists|out: Res|
            #[trigger] call_ensures(*self, (
                t1, t2, t3, t4, t5, t6, t7, t8, t9, t10, t11, t12, t13, t14, t15, t16,
            ), out)
                && out.yields(response)))))))))))))))))
    }

    fn call(&self, request: Request, ctx: CommandContext<H>) -> (response: Response) {
        let mut ctx = ctx;
        let (mut parts, body) = request.into_parts();
        let t1 = match T1::from_request_parts(&mut parts, body.as_slice(), &mut ctx) {
            Ok(value) => value,
            Err(error) => return crate::response::error(error),
        };
        let t2 = match T2::from_request_parts(&mut parts, body.as_slice(), &mut ctx) {
            Ok(value) => value,
            Err(error) => return crate::response::error(error),
        };
        let t3 = match T3::from_request_parts(&mut parts, body.as_slice(), &mut ctx) {
            Ok(value) => value,
            Err(error) => return crate::response::error(error),
        };
        let t4 = match T4::from_request_parts(&mut parts, body.as_slice(), &mut ctx) {
            Ok(value) => value,
            Err(error) => return crate::response::error(error),
        };
        let t5 = match T5::from_request_parts(&mut parts, body.as_slice(), &mut ctx) {
            Ok(value) => value,
            Err(error) => return crate::response::error(error),
        };
        let t6 = match T6::from_request_parts(&mut parts, body.as_slice(), &mut ctx) {
            Ok(value) => value,
            Err(error) => return crate::response::error(error),
        };
        let t7 = match T7::from_request_parts(&mut parts, body.as_slice(), &mut ctx) {
            Ok(value) => value,
            Err(error) => return crate::response::error(error),
        };
        let t8 = match T8::from_request_parts(&mut parts, body.as_slice(), &mut ctx) {
            Ok(value) => value,
            Err(error) => return crate::response::error(error),
        };
        let t9 = match T9::from_request_parts(&mut parts, body.as_slice(), &mut ctx) {
            Ok(value) => value,
            Err(error) => return crate::response::error(error),
        };
        let t10 = match T10::from_request_parts(&mut parts, body.as_slice(), &mut ctx) {
            Ok(value) => value,
            Err(error) => return crate::response::error(error),
        };
        let t11 = match T11::from_request_parts(&mut parts, body.as_slice(), &mut ctx) {
            Ok(value) => value,
            Err(error) => return crate::response::error(error),
        };
        let t12 = match T12::from_request_parts(&mut parts, body.as_slice(), &mut ctx) {
            Ok(value) => value,
            Err(error) => return crate::response::error(error),
        };
        let t13 = match T13::from_request_parts(&mut parts, body.as_slice(), &mut ctx) {
            Ok(value) => value,
            Err(error) => return crate::response::error(error),
        };
        let t14 = match T14::from_request_parts(&mut parts, body.as_slice(), &mut ctx) {
            Ok(value) => value,
            Err(error) => return crate::response::error(error),
        };
        let t15 = match T15::from_request_parts(&mut parts, body.as_slice(), &mut ctx) {
            Ok(value) => value,
            Err(error) => return crate::response::error(error),
        };
        let request = Request::from_parts(parts, body);
        let t16 = match T16::from_request(request, &mut ctx) {
            Ok(value) => value,
            Err(error) => return crate::response::error(error),
        };
        self(t1, t2, t3, t4, t5, t6, t7, t8, t9, t10, t11, t12, t13, t14, t15, t16).into_response()
    }
}

} // verus!
