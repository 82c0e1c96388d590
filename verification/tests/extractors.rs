use tauri_plugin_router::http;
use tauri_plugin_router::{
    AppHandle, Bytes, CommandContext, CommandHandler, Error, FromRequest, FromRequestParts,
    HeaderMap, Host, IntoResponse, Json, Request, Router, ViaParts, ViaRequest, ViaSync, Webview,
    WebviewWindow, Window,
};

/// A host that knows which webviews are open.
#[derive(Clone, Debug, PartialEq)]
struct MockApp {
    name: &'static str,
    open: Vec<&'static str>,
}

impl Host for MockApp {
    type WebviewWindow = String;
    type Webview = String;
    type Window = String;

    fn get_webview_window(&self, label: &str) -> Option<String> {
        if self.open.contains(&label) {
            Some(format!("webview window {}", label))
        } else {
            None
        }
    }

    fn get_webview(&self, label: &str) -> Option<String> {
        if self.open.contains(&label) {
            Some(format!("webview {}", label))
        } else {
            None
        }
    }

    fn window_of(webview: &String) -> String {
        format!("window of {}", webview)
    }
}

fn app() -> MockApp {
    MockApp { name: "mock", open: vec!["main", "side"] }
}

fn context(label: &str) -> CommandContext<MockApp> {
    CommandContext::new(app(), String::from(label))
}

fn request(body: &[u8]) -> http::Request {
    let mut headers = http::HeaderMap::new();
    headers.append("Accept", "application/json");
    headers.append("X-Trace", "abc");
    http::Request {
        method: String::from("POST"),
        path: String::from("/command"),
        headers,
        body: body.to_vec(),
    }
}

fn text(response: http::Response) -> String {
    String::from_utf8(response.body).unwrap()
}

fn json<T: serde::Serialize>(value: T) -> Json {
    Json(serde_json::to_vec(&value).map_err(|e| e.to_string()))
}

#[test]
fn app_handle_is_a_clone_of_the_handle() {
    let (mut parts, body) = request(b"[1]").into_parts();
    let mut ctx = context("main");
    let AppHandle(handle) = AppHandle::from_request_parts(&mut parts, &body, &mut ctx).unwrap();
    assert_eq!(handle, app());
    // Nothing was taken from the arguments.
    assert!(ctx.take_json_arg(&body).is_ok());
}

#[test]
fn header_map_is_a_copy_of_the_headers() {
    let (mut parts, body) = request(b"").into_parts();
    let mut ctx = context("main");
    let HeaderMap(headers) = HeaderMap::from_request_parts(&mut parts, &body, &mut ctx).unwrap();
    assert_eq!(headers.entries, parts.headers.entries);
    assert_eq!(headers.get("x-trace").map(|v| v.as_str()), Some("abc"));
}

#[test]
fn webview_window_of_an_open_webview() {
    let (mut parts, body) = request(b"").into_parts();
    let mut ctx = context("side");
    let found = WebviewWindow::<MockApp>::from_request_parts(&mut parts, &body, &mut ctx);
    assert_eq!(found.map(|w| w.0), Ok(String::from("webview window side")));
    assert_eq!(ctx.webview_window(), Ok(String::from("webview window side")));
}

#[test]
fn webview_window_of_a_closed_webview() {
    let (mut parts, body) = request(b"").into_parts();
    let mut ctx = context("gone");
    let found = WebviewWindow::<MockApp>::from_request_parts(&mut parts, &body, &mut ctx);
    assert_eq!(found.map(|w| w.0), Err(Error::ResourceNotFound(String::from("gone"))));
    assert_eq!(ctx.webview_window(), Err(Error::ResourceNotFound(String::from("gone"))));
}

#[test]
fn webview_and_window() {
    let (mut parts, body) = request(b"").into_parts();
    let mut ctx = context("main");
    let webview = Webview::<MockApp>::from_request_parts(&mut parts, &body, &mut ctx);
    assert_eq!(webview.map(|w| w.0), Ok(String::from("webview main")));
    let window = Window::<MockApp>::from_request_parts(&mut parts, &body, &mut ctx);
    assert_eq!(window.map(|w| w.0), Ok(String::from("window of webview main")));
    assert_eq!(ctx.webview(), Ok(String::from("webview main")));
    assert_eq!(ctx.window(), Ok(String::from("window of webview main")));

    let mut ctx = context("gone");
    let webview = Webview::<MockApp>::from_request_parts(&mut parts, &body, &mut ctx);
    assert_eq!(webview.map(|w| w.0), Err(Error::ResourceNotFound(String::from("gone"))));
    let window = Window::<MockApp>::from_request_parts(&mut parts, &body, &mut ctx);
    assert_eq!(window.map(|w| w.0), Err(Error::ResourceNotFound(String::from("gone"))));
    assert_eq!(ctx.webview(), Err(Error::ResourceNotFound(String::from("gone"))));
    assert_eq!(ctx.window(), Err(Error::ResourceNotFound(String::from("gone"))));
}

#[test]
fn bytes_are_the_body() {
    let mut ctx = context("main");
    let taken: Result<Bytes, Error> =
        <Bytes as FromRequest<MockApp, ViaRequest>>::from_request(request(b"\x00raw\xff"), &mut ctx);
    assert_eq!(taken.map(|b| b.0), Ok(b"\x00raw\xff".to_vec()));
}

#[test]
fn request_is_the_request() {
    let mut ctx = context("main");
    let taken = <Request as FromRequest<MockApp, ViaRequest>>::from_request(request(b"body"), &mut ctx);
    let Request(whole) = taken.unwrap();
    assert_eq!(whole.method, "POST");
    assert_eq!(whole.path, "/command");
    assert_eq!(whole.headers.len(), 2);
    assert_eq!(whole.body, b"body".to_vec());
}

#[test]
fn an_extractor_from_the_parts_can_stand_last() {
    let mut ctx = context("main");
    let taken = <HeaderMap as FromRequest<MockApp, ViaParts>>::from_request(request(b""), &mut ctx);
    assert_eq!(taken.unwrap().0.len(), 2);

    let mut ctx = context("main");
    let body = b"[\"first\", \"second\"]";
    let first = <serde_json::Value as FromRequest<MockApp, ViaParts>>::from_request(request(body), &mut ctx);
    assert_eq!(first, Ok(serde_json::Value::String(String::from("first"))));
    let second = <serde_json::Value as FromRequest<MockApp, ViaParts>>::from_request(request(body), &mut ctx);
    assert_eq!(second, Ok(serde_json::Value::String(String::from("second"))));
}

fn dispatch(router: &Router<MockApp>, label: &str, command: &str, body: &[u8]) -> http::Response {
    let mut request = request(body);
    request.path = format!("/{}", command);
    router.handle_request(&app(), label, request)
}

#[test]
fn built_in_extractors_in_a_handler() {
    fn describe(
        AppHandle(handle): AppHandle<MockApp>,
        HeaderMap(headers): HeaderMap,
        window: WebviewWindow<MockApp>,
        first: serde_json::Value,
        Bytes(body): Bytes,
    ) -> Json {
        json((handle.name, headers.len(), window.0, first, body.len()))
    }
    let router = Router::new().command("describe", describe);
    let response = dispatch(&router, "main", "describe", b"[\"x\", 2]");
    assert_eq!(response.status, 200);
    assert_eq!(text(response), "[\"mock\",2,\"webview window main\",\"x\",8]");
}

#[test]
fn closed_webview_stops_the_chain() {
    fn never(_window: WebviewWindow<MockApp>, _first: serde_json::Value) -> Json {
        unreachable!()
    }
    let router = Router::new().command("never", never);
    // The body is no JSON array, but the chain ends before it is read.
    let response = dispatch(&router, "gone", "never", b"oops");
    assert_eq!(response.status, 404);
    assert_eq!(
        text(response),
        "{\"type\":\"ResourceNotFound\",\"message\":\"webview not found: gone\"}"
    );
}

#[test]
fn earlier_failure_wins_over_a_later_one() {
    fn never(_first: serde_json::Value, _window: WebviewWindow<MockApp>) -> Json {
        unreachable!()
    }
    let router = Router::new().command("never", never);
    let response = dispatch(&router, "gone", "never", b"oops");
    assert_eq!(response.status, 400);
    let response = dispatch(&router, "gone", "never", b"[1]");
    assert_eq!(response.status, 404);
}

/// An extractor that a user of the library wrote: the value of one header.
struct Trace(String);

impl<H> FromRequestParts<H> for Trace {
    fn from_request_parts(
        parts: &mut http::Parts,
        _body: &[u8],
        _ctx: &mut CommandContext<H>,
    ) -> Result<Self, Error> {
        match parts.headers.get("x-trace") {
            Some(value) => Ok(Trace(value.clone())),
            None => Err(Error::InvalidArgs(String::from("no trace"))),
        }
    }
}

/// A return type that a user of the library wrote.
struct Created(String);

impl IntoResponse for Created {
    fn into_response(self) -> http::Response {
        http::Response { status: 201, headers: http::HeaderMap::new(), body: self.0.into_bytes() }
    }
}

#[test]
fn extractors_and_return_types_of_a_user() {
    fn traced(Trace(trace): Trace, Bytes(body): Bytes) -> Created {
        Created(format!("{}:{}", trace, body.len()))
    }
    let router = Router::new().command("traced", traced);
    let response = dispatch(&router, "main", "traced", b"12345");
    assert_eq!(response.status, 201);
    assert_eq!(text(response), "abc:5");

    let request = http::Request {
        method: String::from("POST"),
        path: String::from("/traced"),
        headers: http::HeaderMap::new(),
        body: Vec::new(),
    };
    let response = router.handle_request(&app(), "main", request);
    assert_eq!(response.status, 400);
    assert_eq!(
        text(response),
        "{\"type\":\"InvalidArgs\",\"message\":\"invalid arguments: no trace\"}"
    );
}

/// A handler that a user of the library wrote without a function.
struct Fixed(u16);

impl<H> CommandHandler<H, ()> for Fixed {
    fn call(&self, request: http::Request, ctx: CommandContext<H>) -> http::Response {
        http::Response {
            status: self.0,
            headers: http::HeaderMap::new(),
            body: format!("{} from {}", request.path, ctx.webview_label()).into_bytes(),
        }
    }
}

#[test]
fn handler_of_a_user() {
    let router: Router<MockApp> = Router::new().command("fixed", Fixed(202));
    let response = dispatch(&router, "side", "fixed", b"");
    assert_eq!(response.status, 202);
    assert_eq!(text(response), "/fixed from side");
}

#[test]
fn handler_is_called_directly() {
    fn shout(Bytes(body): Bytes) -> Bytes {
        Bytes(body.to_ascii_uppercase())
    }
    let response = CommandHandler::<MockApp, (ViaSync, ViaRequest, Bytes)>::call(
        &shout,
        request(b"quiet"),
        context("main"),
    );
    assert_eq!(text(response), "QUIET");
}

#[test]
fn closures_are_handlers() {
    let prefix = String::from("re: ");
    let router: Router<MockApp> = Router::new().command("reply", move |Bytes(body): Bytes| {
        let mut answer = prefix.clone().into_bytes();
        answer.extend_from_slice(&body);
        Bytes(answer)
    });
    assert_eq!(text(dispatch(&router, "main", "reply", b"hello")), "re: hello");
    assert_eq!(text(dispatch(&router, "main", "reply", b"again")), "re: again");
}
