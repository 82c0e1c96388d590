use tauri_plugin_router::http::{names_match, same_text, HeaderMap, Parts, Request};

fn entries(headers: &HeaderMap) -> Vec<(&str, &str)> {
    headers.entries.iter().map(|(n, v)| (n.as_str(), v.as_str())).collect()
}

#[test]
fn new_collection_is_empty() {
    let headers = HeaderMap::new();
    assert_eq!(headers.len(), 0);
    assert_eq!(headers.get("content-type"), None);
}

#[test]
fn append_keeps_what_is_there() {
    let mut headers = HeaderMap::new();
    headers.append("Accept", "text/html");
    headers.append("accept", "application/json");
    headers.append("Host", "localhost");
    assert_eq!(headers.len(), 3);
    assert_eq!(
        entries(&headers),
        vec![("Accept", "text/html"), ("accept", "application/json"), ("Host", "localhost")]
    );
    assert_eq!(headers.get("ACCEPT").map(|v| v.as_str()), Some("text/html"));
    assert_eq!(headers.get("host").map(|v| v.as_str()), Some("localhost"));
    assert_eq!(headers.get("hos"), None);
}

#[test]
fn insert_replaces_every_header_of_the_name() {
    let mut headers = HeaderMap::new();
    headers.append("Accept", "text/html");
    headers.append("Host", "localhost");
    headers.append("accept", "application/json");
    headers.insert("ACCEPT", "*/*");
    assert_eq!(entries(&headers), vec![("Host", "localhost"), ("ACCEPT", "*/*")]);
    headers.insert("Origin", "tauri://localhost");
    assert_eq!(
        entries(&headers),
        vec![("Host", "localhost"), ("ACCEPT", "*/*"), ("Origin", "tauri://localhost")]
    );
    headers.insert("host", "example.org");
    assert_eq!(
        entries(&headers),
        vec![("ACCEPT", "*/*"), ("Origin", "tauri://localhost"), ("host", "example.org")]
    );
}

#[test]
fn duplicate_holds_the_same_headers() {
    let mut headers = HeaderMap::new();
    headers.append("Accept", "text/html");
    headers.append("Host", "localhost");
    let copy = headers.duplicate();
    headers.insert("Host", "changed");
    assert_eq!(entries(&copy), vec![("Accept", "text/html"), ("Host", "localhost")]);
}

#[test]
fn names_differ_by_ascii_case_only() {
    assert!(names_match("Content-Type", "content-type"));
    assert!(names_match("CONTENT-TYPE", "content-type"));
    assert!(names_match("", ""));
    assert!(!names_match("Content-Type", "Content-Typ"));
    assert!(!names_match("Content-Type", "Content_Type"));
    assert!(!names_match("a", ""));
    // `@` and `` ` `` stand next to the letters and are no letters.
    assert!(!names_match("@", "`"));
    assert!(!names_match("[", "{"));
    assert!(names_match("Z", "z"));
    assert!(names_match("A", "a"));
    // Letters beyond ASCII are compared as they are.
    assert!(names_match("é", "é"));
    assert!(!names_match("É", "é"));
}

#[test]
fn texts_are_the_same_or_not() {
    assert!(same_text("POST", "POST"));
    assert!(!same_text("POST", "post"));
    assert!(!same_text("POST", "POS"));
    assert!(!same_text("POST", "POSTS"));
    assert!(same_text("", ""));
    assert!(same_text("grüße", "grüße"));
    assert!(!same_text("grüße", "grusse"));
}

#[test]
fn request_splits_and_comes_together() {
    let mut headers = HeaderMap::new();
    headers.append("Accept", "text/html");
    let request = Request {
        method: String::from("POST"),
        path: String::from("/greet"),
        headers,
        body: b"[1]".to_vec(),
    };
    let (parts, body) = request.into_parts();
    assert_eq!(parts.method, "POST");
    assert_eq!(parts.path, "/greet");
    assert_eq!(entries(&parts.headers), vec![("Accept", "text/html")]);
    assert_eq!(body, b"[1]".to_vec());

    let again = Request::from_parts(
        Parts { method: parts.method, path: parts.path, headers: parts.headers },
        body,
    );
    assert_eq!(again.method, "POST");
    assert_eq!(again.path, "/greet");
    assert_eq!(entries(&again.headers), vec![("Accept", "text/html")]);
    assert_eq!(again.into_body(), b"[1]".to_vec());
}
