//! What holds of the router as a whole, stated over the specifications of
//! its parts and proved from them.

use crate::context::{arguments, taken, CommandContext, ContextView};
use crate::error::{ErrorKind, ErrorView};
use crate::extract::{Bytes, ViaParts, ViaRequest};
use crate::handler::{argument, last_argument, CommandHandler, ViaSync};
use crate::http::{first_value, Parts, Request, Response};
use crate::json::{parsed_array, string_literal};
use crate::response::{bytes_response, content_type, error_response, IntoResponse};
use crate::router::{command_name, fresh, Router};
use crate::transport::{
    allowing_all_origins, lemma_with_cors_sets_both, method_not_allowed_response, serves,
};
use serde_json::Value;
use vstd::prelude::*;
use vstd::utf8::encode_utf8;

verus! {

/// A request for a name under which no handler is registered is answered
/// with status 404 and the JSON content type, and the body is the object
/// `{"type":"CommandNotFound","message":...}` whose message is
/// `command not found: ` and the name, written as a JSON string.
pub proof fn unknown_command_is_not_found<H: Clone>(
    router: &Router<H>,
    app_handle: H,
    label: Seq<char>,
    request: Request,
    response: Response,
)
    requires
        router.dispatches(app_handle, label, request, response),
        !router.has_command(command_name(request.path@)),
    ensures
        response@.status == 404,
        response@.headers == content_type("application/json"@),
        response@.body == encode_utf8(
            "{\"type\":\"CommandNotFound\",\"message\":"@ + string_literal(
                "command not found: "@ + command_name(request.path@),
            ) + "}"@,
        ),
{
    reveal_strlit("{\"type\":\"");
    reveal_strlit("CommandNotFound");
    reveal_strlit("\",\"message\":");
    reveal_strlit("{\"type\":\"CommandNotFound\",\"message\":");
    assert("{\"type\":\""@ + "CommandNotFound"@ + "\",\"message\":"@
        =~= "{\"type\":\"CommandNotFound\",\"message\":"@);
}

/// The status codes of the kinds: 404 for what was not found, 400 for a
/// request that cannot be read, 500 for an answer that cannot be written.
pub proof fn every_error_has_its_status(error: ErrorView)
    ensures
        error.0 == ErrorKind::CommandNotFound || error.0 == ErrorKind::ResourceNotFound
            ==> error_response(error).status == 404,
        error.0 == ErrorKind::InvalidArgs || error.0 == ErrorKind::DeserializationError
            ==> error_response(error).status == 400,
        error.0 == ErrorKind::SerializationError ==> error_response(error).status == 500,
        error_response(error).headers == content_type("application/json"@),
{
}

/// In a context that is new, a body that is no JSON array gives a
/// `DeserializationError` when the first positional argument is asked for,
/// and the context stays as it was.
pub proof fn malformed_body_is_rejected<H>(ctx: ContextView<H>, body: Seq<u8>)
    requires
        ctx.json_args is None,
        parsed_array(body) is Err,
    ensures
        taken(ctx, body).0 == Err::<Value, ErrorView>(
            (
                ErrorKind::DeserializationError,
                "Failed to parse request body: "@ + parsed_array(body)->Err_0,
            ),
        ),
        taken(ctx, body).1 == ctx,
        error_response(taken(ctx, body).0->Err_0).status == 400,
{
}

/// Wherever in the chain of a handler the first positional argument is
/// asked for, a body that is no JSON array ends the chain there: the
/// response is that of a `DeserializationError`, with status 400, and what
/// follows in the chain has no say.
pub proof fn malformed_body_stops_the_chain<H>(
    parts: Parts,
    body: Vec<u8>,
    ctx: CommandContext<H>,
    response: Response,
    next: spec_fn(Value, Parts, CommandContext<H>) -> bool,
)
    requires
        argument::<H, Value>(parts, body, ctx, response, next),
        ctx@.json_args is None,
        parsed_array(body@) is Err,
    ensures
        response@ == error_response(
            (
                ErrorKind::DeserializationError,
                "Failed to parse request body: "@ + parsed_array(body@)->Err_0,
            ),
        ),
        response@.status == 400,
{
}

/// The same where the first positional argument is the last argument of the
/// handler.
pub proof fn malformed_body_stops_the_last_argument<H>(
    parts: Parts,
    body: Vec<u8>,
    ctx: CommandContext<H>,
    response: Response,
    done: spec_fn(Value) -> bool,
)
    requires
        last_argument::<H, ViaParts, Value>(parts, body, ctx, response, done),
        ctx@.json_args is None,
        parsed_array(body@) is Err,
    ensures
        response@ == error_response(
            (
                ErrorKind::DeserializationError,
                "Failed to parse request body: "@ + parsed_array(body@)->Err_0,
            ),
        ),
        response@.status == 400,
{
}

/// Wherever in the chain of a handler a positional argument is asked for
/// when none is left, the chain ends there: the response is that of
/// `InvalidArgs`, with status 400.
pub proof fn missing_argument_stops_the_chain<H>(
    parts: Parts,
    body: Vec<u8>,
    ctx: CommandContext<H>,
    response: Response,
    next: spec_fn(Value, Parts, CommandContext<H>) -> bool,
)
    requires
        argument::<H, Value>(parts, body, ctx, response, next),
        arguments(ctx@.json_args, body@) == Ok::<Seq<Value>, Seq<char>>(Seq::empty()),
    ensures
        response@ == error_response((ErrorKind::InvalidArgs, "no more arguments available"@)),
        response@.status == 400,
{
}

/// The same where the argument that is missing is the last argument of the
/// handler.
pub proof fn missing_argument_stops_the_last_argument<H>(
    parts: Parts,
    body: Vec<u8>,
    ctx: CommandContext<H>,
    response: Response,
    done: spec_fn(Value) -> bool,
)
    requires
        last_argument::<H, ViaParts, Value>(parts, body, ctx, response, done),
        arguments(ctx@.json_args, body@) == Ok::<Seq<Value>, Seq<char>>(Seq::empty()),
    ensures
        response@ == error_response((ErrorKind::InvalidArgs, "no more arguments available"@)),
        response@.status == 400,
{
}

/// A handler of two positional arguments, called in a context that is new
/// with a body that is a JSON array: if the array holds fewer than two
/// values, the response is that of `InvalidArgs`; else the function is
/// called with the first two values in their order, and the response is
/// what its return value yields.
pub proof fn two_positional_arguments<H, F, Res>(
    handler: F,
    request: Request,
    ctx: CommandContext<H>,
    response: Response,
) where F: Fn(Value, Value) -> Res, Res: IntoResponse
    requires
        CommandHandler::<H, (ViaSync, ViaParts, Value, Value)>::responds(
            &handler,
            request,
            ctx,
            response,
        ),
        ctx@.json_args is None,
        parsed_array(request.body@) is Ok,
    ensures
        parsed_array(request.body@)->Ok_0.len() < 2 ==> response@ == error_response(
            (ErrorKind::InvalidArgs, "no more arguments available"@),
        ),
        parsed_array(request.body@)->Ok_0.len() >= 2 ==> exists|out: Res|
            #[trigger] call_ensures(
                handler,
                (parsed_array(request.body@)->Ok_0[0], parsed_array(request.body@)->Ok_0[1]),
                out,
            ) && out.yields(response),
{
    let args = parsed_array(request.body@)->Ok_0;
    if args.len() >= 2 {
        assert(args.skip(1)[0] == args[1]);
    }
}

/// The context after `n` positional arguments have been asked for, one
/// after the other.
pub open spec fn after_taking<H>(ctx: ContextView<H>, body: Seq<u8>, n: nat) -> ContextView<H>
    decreases n,
{
    if n == 0 {
        ctx
    } else {
        taken(after_taking(ctx, body, (n - 1) as nat), body).1
    }
}

/// The positional arguments are the values of the body's array in their
/// order, and asking for one more than the array holds gives `InvalidArgs`,
/// whose response has status 400.
pub proof fn arguments_come_in_order_and_run_out<H>(ctx: ContextView<H>, body: Seq<u8>, n: nat)
    requires
        ctx.json_args is None,
        parsed_array(body) is Ok,
        n <= parsed_array(body)->Ok_0.len(),
    ensures
        n < parsed_array(body)->Ok_0.len() ==> taken(after_taking(ctx, body, n), body).0 == Ok::<
            Value,
            ErrorView,
        >(parsed_array(body)->Ok_0[n as int]),
        n == parsed_array(body)->Ok_0.len() ==> taken(after_taking(ctx, body, n), body).0 == Err::<
            Value,
            ErrorView,
        >((ErrorKind::InvalidArgs, "no more arguments available"@)),
        error_response((ErrorKind::InvalidArgs, "no more arguments available"@)).status == 400,
        n > 0 ==> after_taking(ctx, body, n).json_args == Some(
            parsed_array(body)->Ok_0.skip(n as int),
        ),
    decreases n,
{
    let args = parsed_array(body)->Ok_0;
    if n == 1 {
        assert(after_taking(ctx, body, 0) == ctx);
    } else if n > 1 {
        arguments_come_in_order_and_run_out(ctx, body, (n - 1) as nat);
        assert(args.skip(n - 1).skip(1) =~= args.skip(n as int));
    }
}

/// Dispatching a body that is no JSON array to a handler of one positional
/// argument, registered under the name that the request asks for, is
/// answered with the response of a `DeserializationError`, which has status
/// 400.
pub proof fn dispatch_of_a_malformed_body<H: Clone, F, Res>(
    before: &Router<H>,
    handler: F,
    router: &Router<H>,
    app_handle: H,
    label: Seq<char>,
    request: Request,
    response: Response,
) where F: Fn(Value) -> Res, Res: IntoResponse
    requires
        before.registers::<F, (ViaSync, ViaParts, Value)>(
            command_name(request.path@),
            handler,
            router,
        ),
        router.dispatches(app_handle, label, request, response),
        parsed_array(request.body@) is Err,
    ensures
        response@ == error_response(
            (
                ErrorKind::DeserializationError,
                "Failed to parse request body: "@ + parsed_array(request.body@)->Err_0,
            ),
        ),
        response@.status == 400,
{
}

/// Dispatching a JSON array of fewer than two values to a handler of two
/// positional arguments, registered under the name that the request asks
/// for, is answered with the response of `InvalidArgs`, which has status
/// 400.
pub proof fn dispatch_with_too_few_arguments<H: Clone, F, Res>(
    before: &Router<H>,
    handler: F,
    router: &Router<H>,
    app_handle: H,
    label: Seq<char>,
    request: Request,
    response: Response,
) where F: Fn(Value, Value) -> Res, Res: IntoResponse
    requires
        before.registers::<F, (ViaSync, ViaParts, Value, Value)>(
            command_name(request.path@),
            handler,
            router,
        ),
        router.dispatches(app_handle, label, request, response),
        parsed_array(request.body@) is Ok,
        parsed_array(request.body@)->Ok_0.len() < 2,
    ensures
        response@ == error_response((ErrorKind::InvalidArgs, "no more arguments available"@)),
        response@.status == 400,
{
    let ctx = choose|ctx: CommandContext<H>|
        fresh(ctx, app_handle, label) && #[trigger] router.command_responds(
            command_name(request.path@),
            request,
            ctx,
            response,
        );
    two_positional_arguments::<H, F, Res>(handler, request, ctx, response);
}

/// Once the body has been read it is not read again: what is handed out
/// next, and what is left then, is the same whatever is given as the body.
pub proof fn body_is_read_once<H>(ctx: ContextView<H>, body: Seq<u8>, other_body: Seq<u8>)
    requires
        ctx.json_args is Some,
    ensures
        taken(ctx, body) == taken(ctx, other_body),
{
}

/// A context that has no argument left stays so: every further positional
/// argument is turned down with `InvalidArgs`.
pub proof fn exhausted_context_stays_exhausted<H>(ctx: ContextView<H>, body: Seq<u8>)
    requires
        ctx.json_args == Some(Seq::<Value>::empty()),
    ensures
        taken(ctx, body).0 == Err::<Value, ErrorView>(
            (ErrorKind::InvalidArgs, "no more arguments available"@),
        ),
        taken(ctx, body).1 == ctx,
{
}

/// A handler without arguments answers every request alike: what it may
/// answer to one request in one context, it may answer to any other, and
/// the answer is what its function returned, whatever the body holds.
pub proof fn handler_without_arguments_ignores_the_request<H, F, Res>(
    handler: F,
    request: Request,
    ctx: CommandContext<H>,
    other_request: Request,
    other_ctx: CommandContext<H>,
    response: Response,
) where F: Fn() -> Res, Res: IntoResponse
    requires
        CommandHandler::<H, (ViaSync,)>::responds(&handler, request, ctx, response),
    ensures
        CommandHandler::<H, (ViaSync,)>::responds(&handler, other_request, other_ctx, response),
        exists|out: Res| call_ensures(handler, (), out) && out.yields(response),
{
}

/// A handler that takes the body as bytes and returns the bytes it was
/// given answers every request with the body of the request, unchanged, as
/// a response of status 200 with the content type of arbitrary bytes.
pub proof fn bytes_come_back_as_they_went<H, F>(
    handler: F,
    request: Request,
    ctx: CommandContext<H>,
    response: Response,
) where F: Fn(Bytes) -> Bytes
    requires
        CommandHandler::<H, (ViaSync, ViaRequest, Bytes)>::responds(
            &handler,
            request,
            ctx,
            response,
        ),
        forall|given: Bytes, out: Bytes|
            call_ensures(handler, (given,), out) ==> out.0@ == given.0@,
    ensures
        response@ == bytes_response(request.body@),
        response@.status == 200,
        response@.headers == content_type("application/octet-stream"@),
{
}

/// Registering a second handler under a name replaces the first: the name
/// is answered by the second handler alone, and the router is the one that
/// registering the second handler at once would have given.
pub proof fn registering_again_replaces<H, C1, T1, C2, T2>(
    router: &Router<H>,
    cmd: Seq<char>,
    first: C1,
    once: &Router<H>,
    second: C2,
    twice: &Router<H>,
) where C1: CommandHandler<H, T1>, C2: CommandHandler<H, T2>
    requires
        router.registers::<C1, T1>(cmd, first, once),
        once.registers::<C2, T2>(cmd, second, twice),
    ensures
        forall|request: Request, ctx: CommandContext<H>, response: Response|
            #[trigger] twice.command_responds(cmd, request, ctx, response) == second.responds(
                request,
                ctx,
                response,
            ),
        router.registers::<C2, T2>(cmd, second, twice),
{
}

/// What a request gets as its positional arguments is decided by its own
/// body: two contexts that are new hand out the same argument for the same
/// body, whatever webview and whatever application handle they were made for.
pub proof fn new_contexts_read_the_body_alike<H>(
    ctx: ContextView<H>,
    other: ContextView<H>,
    body: Seq<u8>,
)
    requires
        ctx.json_args is None,
        other.json_args is None,
    ensures
        taken(ctx, body).0 == taken(other, body).0,
        taken(ctx, body).1.json_args == taken(other, body).1.json_args,
{
}

/// Every answer of the transport allows every origin and every request
/// header, whatever the method was and whatever the handler put in its
/// headers.
pub proof fn every_answer_allows_all_origins<H: Clone>(
    router: &Router<H>,
    app_handle: H,
    label: Seq<char>,
    request: Request,
    response: Response,
)
    requires
        serves(router, app_handle, label, request, response),
    ensures
        first_value(response@.headers, "Access-Control-Allow-Origin"@) == Some("*"@),
        first_value(response@.headers, "Access-Control-Allow-Headers"@) == Some("*"@),
{
    if request.method@ == "OPTIONS"@ {
        lemma_with_cors_sets_both(Seq::empty());
    } else if request.method@ == "POST"@ {
        let dispatched = choose|dispatched: Response|
            #[trigger] router.dispatches(app_handle, label, request, dispatched) && response@
                == allowing_all_origins(dispatched@);
        lemma_with_cors_sets_both(dispatched@.headers);
    } else {
        lemma_with_cors_sets_both(content_type("application/json"@));
    }
}

/// A method other than `POST` and `OPTIONS` never reaches a handler: the
/// answer is the same whatever is registered.
pub proof fn other_methods_are_turned_away<H: Clone>(
    router: &Router<H>,
    app_handle: H,
    label: Seq<char>,
    request: Request,
    response: Response,
)
    requires
        serves(router, app_handle, label, request, response),
        request.method@ != "OPTIONS"@,
        request.method@ != "POST"@,
    ensures
        response@.status == 405,
        response@ == method_not_allowed_response(),
{
}

} // verus!
