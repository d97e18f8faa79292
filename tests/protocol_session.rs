use mcedit::config::Config;
use mcedit::handler::{Action, McpHandler};
use mcedit::json::JsonValue;
use mcedit::mcedit::McEdit;
use mcedit::protocol::{Error, JsonRpcErrorCode, Message, ToolCall};

fn handler() -> McpHandler {
    let m = McEdit::new(Config::default_config(), "/tmp/project", true).unwrap();
    McpHandler::new(m)
}

fn request(id: u64, method: &str, params: Option<JsonValue>) -> Result<Message, Error> {
    Ok(Message::Request { jsonrpc: "2.0".into(), method: method.into(), id, params })
}

fn error_code(a: &Action) -> Option<i64> {
    match a {
        Action::Reply(Message::Response { error: Some(e), .. }) => match e.get("code") {
            Some(JsonValue::NegInt(c)) => Some(*c),
            _ => None,
        },
        _ => None,
    }
}

fn object_of(fields: Vec<(&str, JsonValue)>) -> JsonValue {
    JsonValue::Object(fields.into_iter().map(|(k, v)| (k.to_string(), v)).collect())
}

#[test]
fn request_before_initialize_is_refused_then_served() {
    let mut h = handler();
    let a = h.handle_message(request(1, "tools/list", None));
    assert_eq!(error_code(&a), Some(JsonRpcErrorCode::InvalidRequest.code()));
    assert!(!h.initialized);
    let init = h.handle_message(request(2, "initialize", None));
    assert!(matches!(init, Action::Reply(Message::Response { id: 2, error: None, .. })));
    assert!(h.initialized);
    let again = h.handle_message(request(3, "tools/list", None));
    assert!(matches!(again, Action::ReplyToolCatalog { id: 3 }));
}

#[test]
fn transport_error_does_not_end_session() {
    let mut h = handler();
    h.handle_message(request(1, "initialize", None));
    let a = h.handle_message(Err(Error::Serialization("JSON parse error".into())));
    assert!(matches!(a, Action::Log));
    let b = h.handle_message(request(7, "resources/list", None));
    match b {
        Action::Reply(Message::Response { id: 7, result: Some(r), error: None, .. }) => {
            assert!(matches!(r.get("resources"), Some(JsonValue::Array(v)) if v.is_empty()));
        }
        other => panic!("unexpected {:?}", other),
    }
}

#[test]
fn unknown_method_and_tool() {
    let mut h = handler();
    h.handle_message(request(1, "initialize", None));
    assert_eq!(error_code(&h.handle_message(request(2, "nope", None))), Some(-32601));
    let p = object_of(vec![("name", JsonValue::Str("fly".into()))]);
    assert_eq!(error_code(&h.handle_message(request(3, "tools/call", Some(p)))), Some(-32601));
}

#[test]
fn tool_arguments_are_validated() {
    let mut h = handler();
    h.handle_message(request(1, "initialize", None));
    let p = object_of(vec![("name", JsonValue::Str("write_file".into())), ("arguments", object_of(vec![("path", JsonValue::Str("a.txt".into()))]))]);
    let a = h.handle_message(request(2, "tools/call", Some(p)));
    assert_eq!(error_code(&a), Some(-32602));
    match a {
        Action::Reply(Message::Response { error: Some(e), .. }) => {
            assert!(matches!(e.get("message"), Some(JsonValue::Str(m)) if m == "Missing required parameter: content"));
        }
        _ => panic!(),
    }
    let ok = object_of(vec![("name", JsonValue::Str("read_file".into())), ("arguments", object_of(vec![("path", JsonValue::Str("a.txt".into()))]))]);
    match h.handle_message(request(4, "tools/call", Some(ok))) {
        Action::RunTool { id: 4, call: ToolCall::ReadFile { path } } => assert_eq!(path, "a.txt"),
        other => panic!("unexpected {:?}", other),
    }
}

#[test]
fn error_codes_on_the_wire() {
    assert_eq!(JsonRpcErrorCode::ParseError.code(), -32700);
    assert_eq!(JsonRpcErrorCode::InvalidParams.code(), -32602);
    assert_eq!(JsonRpcErrorCode::DiffError.code(), -32003);
}

#[test]
fn normalization_of_lines() {
    assert_eq!(mcedit::stdio::normalize_json_line("a\tb\\\\c\\\"d"), "a b\\c\"d");
}
