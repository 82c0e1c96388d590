use tauri_plugin_router::http;
use tauri_plugin_router::transport::allow_all_origins;
use tauri_plugin_router::{serve, Bytes, Json, Response, Router};

fn request(method: &str, path: &str, body: &[u8]) -> http::Request {
    http::Request {
        method: String::from(method),
        path: String::from(path),
        headers: http::HeaderMap::new(),
        body: body.to_vec(),
    }
}

fn entries(headers: &http::HeaderMap) -> Vec<(&str, &str)> {
    headers.entries.iter().map(|(n, v)| (n.as_str(), v.as_str())).collect()
}

fn echo(bytes: Bytes) -> Bytes {
    bytes
}

fn router() -> Router<()> {
    Router::new().command("echo", echo)
}

#[test]
fn preflight_is_answered_without_the_router() {
    let called = std::sync::Arc::new(std::sync::Mutex::new(false));
    let flag = std::sync::Arc::clone(&called);
    let router: Router<()> = Router::new().command("echo", move || {
        *flag.lock().unwrap() = true;
        Json(Ok(b"1".to_vec()))
    });
    let response = serve(&router, &(), "main", request("OPTIONS", "/echo", b"[1]"));
    assert_eq!(response.status, 200);
    assert_eq!(
        entries(&response.headers),
        vec![("Access-Control-Allow-Origin", "*"), ("Access-Control-Allow-Headers", "*")]
    );
    assert!(response.body.is_empty());
    assert!(!*called.lock().unwrap());

    // A preflight for a name that nobody registered is answered alike.
    let response = serve(&router, &(), "main", request("OPTIONS", "/missing", b""));
    assert_eq!(response.status, 200);
    assert!(response.body.is_empty());
}

#[test]
fn post_is_dispatched() {
    let response = serve(&router(), &(), "main", request("POST", "/echo", b"ping"));
    assert_eq!(response.status, 200);
    assert_eq!(
        entries(&response.headers),
        vec![
            ("Content-Type", "application/octet-stream"),
            ("Access-Control-Allow-Origin", "*"),
            ("Access-Control-Allow-Headers", "*"),
        ]
    );
    assert_eq!(response.body, b"ping".to_vec());
}

#[test]
fn error_of_a_dispatch_allows_all_origins_too() {
    let response = serve(&router(), &(), "main", request("POST", "/missing", b"[]"));
    assert_eq!(response.status, 404);
    assert_eq!(
        entries(&response.headers),
        vec![
            ("Content-Type", "application/json"),
            ("Access-Control-Allow-Origin", "*"),
            ("Access-Control-Allow-Headers", "*"),
        ]
    );
    assert_eq!(
        String::from_utf8(response.body).unwrap(),
        "{\"type\":\"CommandNotFound\",\"message\":\"command not found: missing\"}"
    );
}

#[test]
fn other_methods_are_not_allowed() {
    for method in ["GET", "PUT", "DELETE", "HEAD", "PATCH", "post", "options", "Post", ""] {
        let response = serve(&router(), &(), "main", request(method, "/echo", b"ping"));
        assert_eq!(response.status, 405);
        assert_eq!(
            entries(&response.headers),
            vec![
                ("Content-Type", "application/json"),
                ("Access-Control-Allow-Origin", "*"),
                ("Access-Control-Allow-Headers", "*"),
            ]
        );
        assert_eq!(
            String::from_utf8(response.body).unwrap(),
            "only POST and OPTIONS are allowed"
        );
    }
}

#[test]
fn cross_origin_headers_of_a_handler_are_replaced() {
    fn narrow() -> Response {
        let mut headers = http::HeaderMap::new();
        headers.append("access-control-allow-origin", "https://example.org");
        headers.append("X-Kept", "yes");
        headers.append("Access-Control-Allow-Headers", "content-type");
        headers.append("ACCESS-CONTROL-ALLOW-ORIGIN", "null");
        Response(http::Response { status: 201, headers, body: b"made".to_vec() })
    }
    let router: Router<()> = Router::new().command("narrow", narrow);
    let response = serve(&router, &(), "main", request("POST", "/narrow", b""));
    assert_eq!(response.status, 201);
    assert_eq!(
        entries(&response.headers),
        vec![
            ("X-Kept", "yes"),
            ("Access-Control-Allow-Origin", "*"),
            ("Access-Control-Allow-Headers", "*"),
        ]
    );
    assert_eq!(response.body, b"made".to_vec());
}

#[test]
fn setting_the_headers_twice_changes_nothing() {
    let mut headers = http::HeaderMap::new();
    headers.append("Content-Type", "text/plain");
    allow_all_origins(&mut headers);
    let once: Vec<(String, String)> = headers.entries.clone();
    allow_all_origins(&mut headers);
    assert_eq!(headers.entries, once);
    assert_eq!(headers.get("access-control-allow-origin").map(|v| v.as_str()), Some("*"));
    assert_eq!(headers.get("access-control-allow-headers").map(|v| v.as_str()), Some("*"));
}
