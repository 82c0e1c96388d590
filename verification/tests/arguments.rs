use serde_json::Value;
use tauri_plugin_router::context::require_found;
use tauri_plugin_router::{deserialized, positional, CommandContext, Error};

fn context() -> CommandContext<()> {
    CommandContext::new((), String::from("main"))
}

fn number(n: u64) -> Value {
    Value::Number(serde_json::Number::from(n))
}

#[test]
fn context_knows_who_sent_the_request() {
    let ctx = CommandContext::new(7u8, String::from("side panel"));
    assert_eq!(*ctx.app_handle(), 7);
    assert_eq!(ctx.webview_label(), "side panel");
}

#[test]
fn arguments_come_in_their_order() {
    let mut ctx = context();
    let body = b"[1, \"two\", [3], {\"four\": 4}, null]";
    assert_eq!(ctx.take_json_arg(body), Ok(number(1)));
    assert_eq!(ctx.take_json_arg(body), Ok(Value::String(String::from("two"))));
    assert_eq!(ctx.take_json_arg(body), Ok(Value::Array(vec![number(3)])));
    let mut four = serde_json::Map::new();
    four.insert(String::from("four"), number(4));
    assert_eq!(ctx.take_json_arg(body), Ok(Value::Object(four)));
    assert_eq!(ctx.take_json_arg(body), Ok(Value::Null));
    assert_eq!(
        ctx.take_json_arg(body),
        Err(Error::InvalidArgs(String::from("no more arguments available")))
    );
    assert_eq!(
        ctx.take_json_arg(body),
        Err(Error::InvalidArgs(String::from("no more arguments available")))
    );
}

#[test]
fn body_is_read_once() {
    let mut ctx = context();
    assert_eq!(ctx.take_json_arg(b"[1, 2]"), Ok(number(1)));
    // What is handed in later is not looked at.
    assert_eq!(ctx.take_json_arg(b"[10, 20, 30]"), Ok(number(2)));
    assert_eq!(
        ctx.take_json_arg(b"not even json"),
        Err(Error::InvalidArgs(String::from("no more arguments available")))
    );
}

#[test]
fn empty_array_has_no_argument() {
    let mut ctx = context();
    assert_eq!(
        ctx.take_json_arg(b"[]"),
        Err(Error::InvalidArgs(String::from("no more arguments available")))
    );
    assert_eq!(
        ctx.take_json_arg(b"[1]"),
        Err(Error::InvalidArgs(String::from("no more arguments available")))
    );
}

#[test]
fn body_that_is_no_array_is_an_error() {
    let mut ctx = context();
    assert_eq!(
        ctx.take_json_arg(b"{\"a\": 1}"),
        Err(Error::DeserializationError(String::from(
            "Failed to parse request body: invalid type: map, expected a sequence at line 1 column 0"
        )))
    );
    assert_eq!(
        ctx.take_json_arg(b""),
        Err(Error::DeserializationError(String::from(
            "Failed to parse request body: EOF while parsing a value at line 1 column 0"
        )))
    );
    assert_eq!(
        ctx.take_json_arg(b"[1, 2] trailing"),
        Err(Error::DeserializationError(String::from(
            "Failed to parse request body: trailing characters at line 1 column 8"
        )))
    );
}

#[test]
fn context_is_as_new_after_a_body_that_is_no_array() {
    let mut ctx = context();
    assert!(ctx.take_json_arg(b"oops").is_err());
    assert_eq!(ctx.take_json_arg(b"[5]"), Ok(number(5)));
}

#[test]
fn two_contexts_do_not_share_arguments() {
    let mut first = context();
    let mut second = context();
    assert_eq!(first.take_json_arg(b"[1, 2]"), Ok(number(1)));
    assert_eq!(second.take_json_arg(b"[7, 8]"), Ok(number(7)));
    assert_eq!(first.take_json_arg(b"[1, 2]"), Ok(number(2)));
    assert_eq!(second.take_json_arg(b"[7, 8]"), Ok(number(8)));
}

#[test]
fn read_value_is_handed_on() {
    assert_eq!(deserialized(Ok::<u32, String>(7)), Ok(7));
    assert_eq!(deserialized(Ok::<String, String>(String::from("x"))), Ok(String::from("x")));
}

#[test]
fn failure_to_read_is_a_deserialization_error() {
    assert_eq!(
        deserialized(Err::<u32, String>(String::from("invalid type: null, expected u32"))),
        Err(Error::DeserializationError(String::from(
            "JSON deserialization error: invalid type: null, expected u32"
        )))
    );
    assert_eq!(
        deserialized(Err::<u32, String>(String::new())),
        Err(Error::DeserializationError(String::from("JSON deserialization error: ")))
    );
}

fn as_u32(value: Value) -> Result<u32, String> {
    serde_json::from_value::<u32>(value).map_err(|e| e.to_string())
}

#[test]
fn positional_argument_is_taken_and_read() {
    let mut ctx = context();
    let body = b"[3, \"five\", 7]";
    assert_eq!(positional(&mut ctx, body, as_u32), Ok(3));
    assert_eq!(
        positional(&mut ctx, body, as_u32),
        Err(Error::DeserializationError(String::from(
            "JSON deserialization error: invalid type: string \"five\", expected u32"
        )))
    );
    // The value that could not be read is used up.
    assert_eq!(positional(&mut ctx, body, as_u32), Ok(7));
    assert_eq!(
        positional(&mut ctx, body, as_u32),
        Err(Error::InvalidArgs(String::from("no more arguments available")))
    );
}

#[test]
fn positional_argument_of_a_body_that_is_no_array() {
    let mut ctx = context();
    assert_eq!(
        positional(&mut ctx, b"3", as_u32),
        Err(Error::DeserializationError(String::from(
            "Failed to parse request body: invalid type: integer `3`, expected a sequence at line 1 column 1"
        )))
    );
}

#[test]
fn lookup_in_the_host_is_found_or_missing() {
    assert_eq!(require_found(Some(5u8), "main"), Ok(5));
    assert_eq!(
        require_found(None::<u8>, "main"),
        Err(Error::ResourceNotFound(String::from("main")))
    );
    assert_eq!(require_found(None::<u8>, ""), Err(Error::ResourceNotFound(String::new())));
}
