use serde_json::Value;
use std::sync::{Arc, Mutex};
use tauri_plugin_router::http;
use tauri_plugin_router::{
    positional, AppHandle, Bytes, CommandContext, Error, FromRequestParts, Host, Json, Request,
    Response, Router,
};

/// A host that knows one open webview.
#[derive(Clone)]
struct MockApp {
    open: &'static str,
}

impl Host for MockApp {
    type WebviewWindow = String;
    type Webview = String;
    type Window = String;

    fn get_webview_window(&self, label: &str) -> Option<String> {
        if label == self.open {
            Some(format!("window of {}", label))
        } else {
            None
        }
    }

    fn get_webview(&self, label: &str) -> Option<String> {
        if label == self.open {
            Some(format!("webview {}", label))
        } else {
            None
        }
    }

    fn window_of(webview: &String) -> String {
        format!("window around {}", webview)
    }
}

/// A positional argument read as a value of type `T`.
struct Arg<T>(T);

impl<H, T: serde::de::DeserializeOwned> FromRequestParts<H> for Arg<T> {
    fn from_request_parts(
        _parts: &mut http::Parts,
        body: &[u8],
        ctx: &mut CommandContext<H>,
    ) -> Result<Self, Error> {
        positional(ctx, body, |value| serde_json::from_value::<T>(value).map_err(|e| e.to_string()))
            .map(Arg)
    }
}

fn json<T: serde::Serialize>(value: T) -> Json {
    Json(serde_json::to_vec(&value).map_err(|e| e.to_string()))
}

fn post(command: &str, body: Vec<u8>) -> http::Request {
    http::Request {
        method: String::from("POST"),
        path: format!("/{}", command),
        headers: http::HeaderMap::new(),
        body,
    }
}

fn call_raw(router: &Router<MockApp>, command: &str, body: Vec<u8>) -> http::Response {
    let app = MockApp { open: "test_webview" };
    router.handle_request(&app, "test_webview", post(command, body))
}

fn call_json<T: serde::Serialize>(router: &Router<MockApp>, command: &str, args: T) -> http::Response {
    call_raw(router, command, serde_json::to_vec(&args).unwrap())
}

fn body_as_string(response: http::Response) -> String {
    String::from_utf8(response.body).unwrap()
}

fn content_type(response: &http::Response) -> Option<String> {
    response.headers.get("content-type").cloned()
}

fn greet(Arg(name): Arg<String>) -> Json {
    json(format!("Hello, {}!", name))
}

fn add(Arg(a): Arg<u32>, Arg(b): Arg<u32>) -> Json {
    json(a + b)
}

fn calc(Arg(a): Arg<f64>, Arg(b): Arg<f64>, Arg(operation): Arg<String>) -> Json {
    let outcome: Result<f64, String> = match operation.as_str() {
        "Add" => Ok(a + b),
        "Subtract" => Ok(a - b),
        "Multiply" => Ok(a * b),
        _ => {
            if b == 0.0 {
                Err(String::from("Division by zero"))
            } else {
                Ok(a / b)
            }
        }
    };
    json(outcome)
}

fn no_args() -> Json {
    json("Hello from no args!")
}

fn unit_return(_x: Arg<u32>) -> Json {
    json(())
}

fn with_app(_app: AppHandle<MockApp>, Arg(name): Arg<String>) -> Json {
    json(format!("With App, {}!", name))
}

fn message(content: &str) -> Value {
    let mut fields = serde_json::Map::new();
    fields.insert(String::from("content"), Value::String(String::from(content)));
    Value::Object(fields)
}

fn raw_to_json(Bytes(bytes): Bytes) -> Json {
    json(message(&format!("Raw to json, received {} bytes", bytes.len())))
}

fn json_to_raw(Arg(data): Arg<Value>) -> Bytes {
    Bytes(serde_json::to_vec(&data).unwrap())
}

fn request_response(Request(req): Request) -> Response {
    let mut headers = http::HeaderMap::new();
    headers.append("Content-Type", "application/octet-stream");
    Response(http::Response { status: 200, headers, body: req.into_body() })
}

fn with_result(Arg(value): Arg<i32>) -> Json {
    let outcome: Result<i32, String> = if value < 0 {
        Err(String::from("Negative value not allowed"))
    } else {
        Ok(value * 2)
    };
    json(outcome)
}

fn echo(bytes: Bytes) -> Bytes {
    bytes
}

#[test]
fn it_works() {
    let router = Router::new()
        .command("greet", greet)
        .command("add", add)
        .command("calc", calc)
        .command("no_args", no_args)
        .command("unit_return", unit_return)
        .command("with_app", with_app)
        .command("raw_to_json", raw_to_json)
        .command("json_to_raw", json_to_raw)
        .command("request_response", request_response)
        .command("with_result", with_result);

    let response = call_json(&router, "greet", ["Tauri"]);
    assert_eq!(body_as_string(response), "\"Hello, Tauri!\"");

    let response = call_json(&router, "add", [3, 5]);
    assert_eq!(body_as_string(response), "8");

    let response = call_json(&router, "calc", (10.0, 2.0, "Multiply"));
    assert_eq!(body_as_string(response), "{\"Ok\":20.0}");

    let response = call_json(&router, "no_args", ());
    assert_eq!(body_as_string(response), "\"Hello from no args!\"");

    let response = call_json(&router, "unit_return", [42]);
    assert_eq!(body_as_string(response), "null");

    let response = call_json(&router, "with_app", ["Tauri"]);
    assert_eq!(body_as_string(response), "\"With App, Tauri!\"");

    let response = call_raw(&router, "raw_to_json", b"hello world".to_vec());
    let received: Value = serde_json::from_slice(&response.body).unwrap();
    assert_eq!(received["content"], "Raw to json, received 11 bytes");

    let sent = message("Hello, JSON!");
    let response = call_json(&router, "json_to_raw", [sent.clone()]);
    assert_eq!(response.body, serde_json::to_vec(&sent).unwrap());

    let response = call_raw(&router, "request_response", b"echo this".to_vec());
    assert_eq!(response.body, b"echo this".to_vec());

    let response = call_json(&router, "with_result", [5]);
    assert_eq!(body_as_string(response), "{\"Ok\":10}");

    let response = call_json(&router, "with_result", [-5]);
    assert_eq!(body_as_string(response), "{\"Err\":\"Negative value not allowed\"}");
}

#[test]
fn unknown_command_is_answered_with_404() {
    let router = Router::new().command("greet", greet).command("add", add);
    let response = call_json(&router, "missing", ["Tauri"]);
    assert_eq!(response.status, 404);
    assert_eq!(content_type(&response).as_deref(), Some("application/json"));
    assert_eq!(
        body_as_string(response),
        "{\"type\":\"CommandNotFound\",\"message\":\"command not found: missing\"}"
    );
}

#[test]
fn empty_router_knows_no_command() {
    let router: Router<MockApp> = Router::new();
    let response = call_json(&router, "greet", ["Tauri"]);
    assert_eq!(response.status, 404);
    assert_eq!(
        body_as_string(response),
        "{\"type\":\"CommandNotFound\",\"message\":\"command not found: greet\"}"
    );
}

#[test]
fn default_router_is_empty() {
    let router: Router<MockApp> = Router::default();
    let response = call_json(&router, "anything", ());
    assert_eq!(response.status, 404);
}

#[test]
fn command_names_are_case_sensitive() {
    let router = Router::new().command("greet", greet);
    let response = call_json(&router, "Greet", ["Tauri"]);
    assert_eq!(response.status, 404);
    assert_eq!(
        body_as_string(response),
        "{\"type\":\"CommandNotFound\",\"message\":\"command not found: Greet\"}"
    );
}

#[test]
fn name_in_the_message_is_escaped() {
    let router: Router<MockApp> = Router::new();
    let response = call_raw(&router, "say \"hi\"\\now", Vec::new());
    assert_eq!(response.status, 404);
    assert_eq!(
        body_as_string(response),
        "{\"type\":\"CommandNotFound\",\"message\":\"command not found: say \\\"hi\\\"\\\\now\"}"
    );
}

#[test]
fn every_leading_separator_is_stripped() {
    let router = Router::new().command("add", add);
    let app = MockApp { open: "main" };
    for path in ["add", "/add", "//add", "////add"] {
        let request = http::Request {
            method: String::from("POST"),
            path: String::from(path),
            headers: http::HeaderMap::new(),
            body: b"[20, 22]".to_vec(),
        };
        let response = router.handle_request(&app, "main", request);
        assert_eq!(response.status, 200);
        assert_eq!(body_as_string(response), "42");
    }
}

#[test]
fn separators_inside_the_name_stay() {
    let router = Router::new().command("math/add", add).command("add", greet);
    let response = call_json(&router, "math/add", [1, 2]);
    assert_eq!(body_as_string(response), "3");
    let response = call_json(&router, "add/", [1, 2]);
    assert_eq!(response.status, 404);
    assert_eq!(
        body_as_string(response),
        "{\"type\":\"CommandNotFound\",\"message\":\"command not found: add/\"}"
    );
}

#[test]
fn empty_path_names_the_empty_command() {
    let router = Router::new().command("add", add);
    let app = MockApp { open: "main" };
    for path in ["", "/", "///"] {
        let request = http::Request {
            method: String::from("POST"),
            path: String::from(path),
            headers: http::HeaderMap::new(),
            body: Vec::new(),
        };
        let response = router.handle_request(&app, "main", request);
        assert_eq!(response.status, 404);
        assert_eq!(
            body_as_string(response),
            "{\"type\":\"CommandNotFound\",\"message\":\"command not found: \"}"
        );
    }
}

#[test]
fn name_with_characters_beyond_ascii() {
    let router = Router::new().command("grüße", greet);
    let response = call_json(&router, "grüße", ["Welt"]);
    assert_eq!(body_as_string(response), "\"Hello, Welt!\"");
}

#[test]
fn add_round_trip() {
    let router = Router::new().command("add", add);
    let response = call_raw(&router, "add", b"[3, 5]".to_vec());
    assert_eq!(response.status, 200);
    assert_eq!(content_type(&response).as_deref(), Some("application/json"));
    assert_eq!(response.headers.len(), 1);
    assert_eq!(response.body, b"8".to_vec());
}

#[test]
fn bytes_round_trip() {
    let router = Router::new().command("echo", echo);
    let body: Vec<u8> = vec![0, 159, 146, 150, 255, 10, 13, 0];
    let response = call_raw(&router, "echo", body.clone());
    assert_eq!(response.status, 200);
    assert_eq!(content_type(&response).as_deref(), Some("application/octet-stream"));
    assert_eq!(response.body, body);

    let again = call_raw(&router, "echo", response.body);
    assert_eq!(again.body, body);

    let empty = call_raw(&router, "echo", Vec::new());
    assert_eq!(empty.status, 200);
    assert_eq!(empty.body, Vec::<u8>::new());
}

#[test]
fn result_of_a_handler_is_written_as_it_is() {
    let router = Router::new().command("with_result", with_result);
    let ok = call_json(&router, "with_result", [21]);
    assert_eq!(ok.status, 200);
    assert_eq!(content_type(&ok).as_deref(), Some("application/json"));
    assert_eq!(body_as_string(ok), "{\"Ok\":42}");

    let err = call_json(&router, "with_result", [-1]);
    assert_eq!(err.status, 200);
    assert_eq!(content_type(&err).as_deref(), Some("application/json"));
    assert_eq!(body_as_string(err), "{\"Err\":\"Negative value not allowed\"}");
}

#[test]
fn body_that_is_no_array_is_rejected() {
    let router = Router::new().command("greet", greet).command("add", add);
    for body in [&b"not json"[..], &b"{\"name\":\"Tauri\"}"[..], &b"\"Tauri\""[..], &b""[..], &b"[1, 2"[..]] {
        let response = call_raw(&router, "greet", body.to_vec());
        assert_eq!(response.status, 400);
        assert_eq!(content_type(&response).as_deref(), Some("application/json"));
        let error: Value = serde_json::from_slice(&response.body).unwrap();
        assert_eq!(error["type"], "DeserializationError");
        let text = error["message"].as_str().unwrap();
        assert!(text.starts_with("deserialization error: Failed to parse request body: "));

        let response = call_raw(&router, "add", body.to_vec());
        assert_eq!(response.status, 400);
    }
}

#[test]
fn exact_text_for_an_empty_body() {
    let router = Router::new().command("greet", greet);
    let response = call_raw(&router, "greet", Vec::new());
    assert_eq!(
        body_as_string(response),
        "{\"type\":\"DeserializationError\",\"message\":\"deserialization error: Failed to \
         parse request body: EOF while parsing a value at line 1 column 0\"}"
    );
}

#[test]
fn too_few_arguments_are_rejected() {
    let router = Router::new().command("add", add).command("greet", greet);
    let response = call_json(&router, "add", [3]);
    assert_eq!(response.status, 400);
    assert_eq!(content_type(&response).as_deref(), Some("application/json"));
    assert_eq!(
        body_as_string(response),
        "{\"type\":\"InvalidArgs\",\"message\":\"invalid arguments: no more arguments available\"}"
    );

    let response = call_raw(&router, "greet", b"[]".to_vec());
    assert_eq!(response.status, 400);
    assert_eq!(
        body_as_string(response),
        "{\"type\":\"InvalidArgs\",\"message\":\"invalid arguments: no more arguments available\"}"
    );
}

#[test]
fn arguments_that_are_left_over_are_ignored() {
    let router = Router::new().command("add", add);
    let response = call_json(&router, "add", [3, 5, 7, 9]);
    assert_eq!(response.status, 200);
    assert_eq!(body_as_string(response), "8");
}

#[test]
fn argument_of_the_wrong_type_is_rejected() {
    let router = Router::new().command("add", add);
    let response = call_json(&router, "add", ["three", "five"]);
    assert_eq!(response.status, 400);
    let error: Value = serde_json::from_slice(&response.body).unwrap();
    assert_eq!(error["type"], "DeserializationError");
    assert_eq!(
        error["message"],
        "deserialization error: JSON deserialization error: invalid type: string \"three\", \
         expected u32"
    );
}

#[test]
fn first_failing_argument_decides() {
    let router = Router::new().command("add", add);
    // The first argument cannot be read and the second is missing: the
    // first one is reported.
    let response = call_json(&router, "add", ["three"]);
    let error: Value = serde_json::from_slice(&response.body).unwrap();
    assert_eq!(error["type"], "DeserializationError");

    // The first argument is fine and the second cannot be read.
    let response = call_json(&router, "add", (3, "five"));
    let error: Value = serde_json::from_slice(&response.body).unwrap();
    assert_eq!(error["type"], "DeserializationError");
    assert_eq!(
        error["message"],
        "deserialization error: JSON deserialization error: invalid type: string \"five\", \
         expected u32"
    );
}

#[test]
fn handler_without_arguments_ignores_the_body() {
    let router = Router::new().command("no_args", no_args);
    for body in [&b""[..], &b"not json"[..], &b"[1, 2, 3]"[..], &b"{}"[..], &[0u8, 255, 7][..]] {
        let response = call_raw(&router, "no_args", body.to_vec());
        assert_eq!(response.status, 200);
        assert_eq!(content_type(&response).as_deref(), Some("application/json"));
        assert_eq!(body_as_string(response), "\"Hello from no args!\"");
    }
}

#[test]
fn registering_again_replaces_the_handler() {
    fn first() -> Json {
        json("first")
    }
    fn second(Arg(n): Arg<u32>) -> Json {
        json(format!("second {}", n))
    }
    let router = Router::new().command("greet", greet).command("pick", first);
    let response = call_json(&router, "pick", [7]);
    assert_eq!(body_as_string(response), "\"first\"");

    let router = router.command("pick", second);
    let response = call_json(&router, "pick", [7]);
    assert_eq!(body_as_string(response), "\"second 7\"");
    let response = call_json(&router, "pick", [8]);
    assert_eq!(body_as_string(response), "\"second 8\"");

    // What was registered under another name is still there.
    let response = call_json(&router, "greet", ["Tauri"]);
    assert_eq!(body_as_string(response), "\"Hello, Tauri!\"");
}

#[test]
fn replaced_handler_is_never_called_again() {
    let old_calls = Arc::new(Mutex::new(0usize));
    let new_calls = Arc::new(Mutex::new(0usize));
    let old_counter = Arc::clone(&old_calls);
    let new_counter = Arc::clone(&new_calls);

    let router: Router<MockApp> = Router::new().command("count", move || {
        *old_counter.lock().unwrap() += 1;
        json("old")
    });
    call_json(&router, "count", ());
    assert_eq!(*old_calls.lock().unwrap(), 1);

    let router = router.command("count", move || {
        *new_counter.lock().unwrap() += 1;
        json("new")
    });
    for _ in 0..3 {
        let response = call_json(&router, "count", ());
        assert_eq!(body_as_string(response), "\"new\"");
    }
    assert_eq!(*old_calls.lock().unwrap(), 1);
    assert_eq!(*new_calls.lock().unwrap(), 3);
}

#[test]
fn dispatches_do_not_share_their_arguments() {
    let router = Router::new().command("add", add);
    let first = call_json(&router, "add", [1, 2]);
    let short = call_json(&router, "add", [10]);
    let second = call_json(&router, "add", [100, 200]);
    let broken = call_raw(&router, "add", b"oops".to_vec());
    let third = call_json(&router, "add", [1, 2]);
    assert_eq!(body_as_string(first), "3");
    assert_eq!(short.status, 400);
    assert_eq!(body_as_string(second), "300");
    assert_eq!(broken.status, 400);
    assert_eq!(body_as_string(third), "3");
}

#[test]
fn handler_of_sixteen_arguments() {
    #[allow(clippy::too_many_arguments)]
    fn sum(
        Arg(a): Arg<u32>,
        Arg(b): Arg<u32>,
        Arg(c): Arg<u32>,
        Arg(d): Arg<u32>,
        Arg(e): Arg<u32>,
        Arg(f): Arg<u32>,
        Arg(g): Arg<u32>,
        Arg(h): Arg<u32>,
        Arg(i): Arg<u32>,
        Arg(j): Arg<u32>,
        Arg(k): Arg<u32>,
        Arg(l): Arg<u32>,
        Arg(m): Arg<u32>,
        Arg(n): Arg<u32>,
        Arg(o): Arg<u32>,
        Arg(p): Arg<String>,
    ) -> Json {
        let total = a + b + c + d + e + f + g + h + i + j + k + l + m + n + o;
        json(format!("{} {}", p, total))
    }
    let router = Router::new().command("sum", sum);
    let response = call_raw(
        &router,
        "sum",
        b"[1,2,3,4,5,6,7,8,9,10,11,12,13,14,15,\"total\"]".to_vec(),
    );
    assert_eq!(body_as_string(response), "\"total 120\"");

    let response = call_raw(&router, "sum", b"[1,2,3,4,5,6,7,8,9,10,11,12,13,14,15]".to_vec());
    assert_eq!(response.status, 400);
    let error: Value = serde_json::from_slice(&response.body).unwrap();
    assert_eq!(error["type"], "InvalidArgs");
}

#[test]
fn untyped_values_are_positional_arguments() {
    fn swap(first: Value, second: Value) -> Json {
        json([second, first])
    }
    let router = Router::new().command("swap", swap);
    let response = call_raw(&router, "swap", b"[{\"a\":1}, [true, null]]".to_vec());
    assert_eq!(body_as_string(response), "[[true,null],{\"a\":1}]");
}
