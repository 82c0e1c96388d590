//! What the transport does with an invocation before and after the router
//! sees it: it answers a preflight itself, lets only `POST` through, and
//! puts the cross-origin headers on every response.

use crate::http::{
    first_value, lemma_first_value_skips, lemma_replaced_is_found, lemma_without_keeps_lack,
    lemma_without_lacks, replaced, same_name, same_text, without, HeaderMap, HeaderView, Request,
    Response, ResponseView,
};
use crate::response::content_type;
use crate::router::Router;
use vstd::prelude::*;
use vstd::string::StrSliceExecFns;
use vstd::utf8::encode_utf8;

verus! {

/// Headers with the two cross-origin headers set: every origin and every
/// request header is allowed.
pub open spec fn with_cors(headers: Seq<HeaderView>) -> Seq<HeaderView> {
    replaced(
        replaced(headers, "Access-Control-Allow-Origin"@, "*"@),
        "Access-Control-Allow-Headers"@,
        "*"@,
    )
}

/// Headers with the cross-origin headers set hold `*` under both names,
/// whatever they held before.
pub proof fn lemma_with_cors_sets_both(headers: Seq<HeaderView>)
    ensures
        first_value(with_cors(headers), "Access-Control-Allow-Origin"@) == Some("*"@),
        first_value(with_cors(headers), "Access-Control-Allow-Headers"@) == Some("*"@),
{
    let origin = "Access-Control-Allow-Origin"@;
    let allowed = "Access-Control-Allow-Headers"@;
    let any = "*"@;
    // The header that is set last is found.
    lemma_replaced_is_found(replaced(headers, origin, any), allowed, any);
    // The one that is set first is not taken out by the second, as the two
    // names differ in length.
    assert(!same_name(origin, allowed)) by {
        reveal_strlit("Access-Control-Allow-Origin");
        reveal_strlit("Access-Control-Allow-Headers");
        vstd::utf8::is_ascii_chars_encode_utf8(origin);
        vstd::utf8::is_ascii_chars_encode_utf8(allowed);
    }
    let kept = without(headers, origin);
    let rest = without(kept, allowed);
    let set = seq![(origin, any), (allowed, any)];
    assert(kept.push((origin, any)).drop_last() =~= kept);
    assert(with_cors(headers) =~= rest + set);
    lemma_without_lacks(headers, origin);
    lemma_without_keeps_lack(kept, allowed, origin);
    lemma_first_value_skips(rest, set, origin);
    assert(same_name(origin, origin));
}

/// The answer to a preflight: status 200, the cross-origin headers, no body.
pub open spec fn preflight_response() -> ResponseView {
    ResponseView { status: 200, headers: with_cors(Seq::empty()), body: Seq::empty() }
}

/// The answer to a method that is neither `POST` nor `OPTIONS`: status 405
/// and a text that says so, with the cross-origin headers.
pub open spec fn method_not_allowed_response() -> ResponseView {
    ResponseView {
        status: 405,
        headers: with_cors(content_type("application/json"@)),
        body: encode_utf8("only POST and OPTIONS are allowed"@),
    }
}

/// A response with the cross-origin headers set, and as it was otherwise.
pub open spec fn allowing_all_origins(response: ResponseView) -> ResponseView {
    ResponseView { headers: with_cors(response.headers), ..response }
}

/// Whether `response` is a way in which the invocation may be answered.
///
/// `OPTIONS` is answered without the router. `POST` is dispatched, and the
/// cross-origin headers are set on what comes back. Any other method is
/// turned away.
pub open spec fn serves<H: Clone>(
    router: &Router<H>,
    app_handle: H,
    label: Seq<char>,
    request: Request,
    response: Response,
) -> bool {
    if request.method@ == "OPTIONS"@ {
        response@ == preflight_response()
    } else if request.method@ == "POST"@ {
        exists|dispatched: Response|
            #[trigger] router.dispatches(app_handle, label, request, dispatched) && response@
                == allowing_all_origins(dispatched@)
    } else {
        response@ == method_not_allowed_response()
    }
}

/// Sets the two cross-origin headers.
pub fn allow_all_origins(headers: &mut HeaderMap)
    ensures
        final(headers)@ == with_cors(old(headers)@),
{
    headers.insert("Access-Control-Allow-Origin", "*");
    headers.insert("Access-Control-Allow-Headers", "*");
}

/// Answers one invocation that came from the webview `webview_label`.
pub fn serve<H: Clone>(
    router: &Router<H>,
    app_handle: &H,
    webview_label: &str,
    request: Request,
) -> (response: Response)
    ensures
        serves(router, *app_handle, webview_label@, request, response),
{
    if same_text(request.method.as_str(), "OPTIONS") {
        let mut headers = HeaderMap::new();
        allow_all_origins(&mut headers);
        Response { status: 200, headers, body: Vec::new() }
    } else if same_text(request.method.as_str(), "POST") {
        let dispatched = router.handle_request(app_handle, webview_label, request);
        let Response { status, headers, body } = dispatched;
        let mut headers = headers;
        allow_all_origins(&mut headers);
        Response { status, headers, body }
    } else {
        let mut headers = HeaderMap::new();
        headers.append("Content-Type", "application/json");
        allow_all_origins(&mut headers);
        Response { status: 405, headers, body: "only POST and OPTIONS are allowed".as_bytes_vec() }
    }
}

} // verus!
