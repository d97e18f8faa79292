//! The session: `Uninitialized` until an `initialize` request, then
//! `Initialized` for good. Each inbound item is answered by an `Action` that the
//! serving loop carries out.
use vstd::prelude::*;
use crate::json::{JsonValue, get_spec, str_spec, entry, lemma_field_at};
use crate::lines::{copy_str, push_str};
use crate::protocol::{Message, Error, JsonRpcErrorCode, ToolCall, code_value, call_rejection, call_fits, parse_tool_call};
use crate::json::str_eq;
use crate::mcedit::McEdit;

verus! {

/// What the serving loop does with one inbound item.
#[derive(Debug)]
pub enum Action {
    /// Nothing to send: the item is only logged.
    Log,
    /// Send this response.
    Reply(Message),
    /// Send the static catalog of tools as the result of request `id`.
    ReplyToolCatalog { id: u64 },
    /// Run this tool and answer request `id` with its outcome.
    RunTool { id: u64, call: ToolCall },
}

/// The answer to one inbound item, as the session logic sees it.
pub enum Answer {
    Silent,
    Initialized { id: u64 },
    Refused { id: u64, code: JsonRpcErrorCode, message: Seq<char> },
    Catalog { id: u64 },
    Run { id: u64, params: JsonValue },
    EmptyList { id: u64, key: Seq<char> },
}

/// The response to request `id` is the error `code` with `text`.
pub open spec fn is_error_reply(m: Message, id: u64, code: JsonRpcErrorCode, text: Seq<char>) -> bool {
    match m {
        Message::Response { jsonrpc, id: i, result: None, error: Some(e) } => jsonrpc@ == "2.0"@ && i == id
            && get_spec(e, "code"@) == Some(JsonValue::NegInt(code_value(code) as i64))
            && str_spec(get_spec(e, "message"@)) == Some(text),
        _ => false,
    }
}

/// The response to request `id` is a success carrying `result`.
pub open spec fn is_result_reply(m: Message, id: u64, result: JsonValue) -> bool {
    match m {
        Message::Response { jsonrpc, id: i, result: Some(r), error: None } => jsonrpc@ == "2.0"@ && i == id && r == result,
        _ => false,
    }
}

/// An object whose field `key` is an empty array.
pub open spec fn is_empty_list(v: JsonValue, key: Seq<char>) -> bool {
    get_spec(v, key) matches Some(JsonValue::Array(items)) && items@.len() == 0
}

/// The result of `initialize`: the protocol version, the server's identity and
/// its capabilities.
pub open spec fn is_initialize_result(v: JsonValue) -> bool {
    &&& str_spec(get_spec(v, "protocolVersion"@)) == Some("2024-11-05"@)
    &&& get_spec(v, "serverInfo"@) matches Some(info) && str_spec(get_spec(info, "name"@)) == Some("mcedit"@)
        && str_spec(get_spec(info, "version"@)) == Some("0.1.0"@)
    &&& get_spec(v, "capabilities"@) matches Some(caps) && is_capabilities(caps)
}

/// `{experimental: {}, prompts: {listChanged: false}, resources: {listChanged:
/// false, subscribe: false}, tools: {listChanged: false}}`.
pub open spec fn is_capabilities(caps: JsonValue) -> bool {
    &&& get_spec(caps, "experimental"@) matches Some(JsonValue::Object(f)) && f@.len() == 0
    &&& get_spec(caps, "prompts"@) matches Some(p) && get_spec(p, "listChanged"@) == Some(JsonValue::Bool(false))
    &&& get_spec(caps, "resources"@) matches Some(r) && get_spec(r, "listChanged"@) == Some(JsonValue::Bool(false))
        && get_spec(r, "subscribe"@) == Some(JsonValue::Bool(false))
    &&& get_spec(caps, "tools"@) matches Some(t) && get_spec(t, "listChanged"@) == Some(JsonValue::Bool(false))
}

/// The result of a tool that succeeded: one text item holding `text`.
pub open spec fn is_text_result(v: JsonValue, text: Seq<char>) -> bool {
    get_spec(v, "content"@) matches Some(JsonValue::Array(items)) && items@.len() == 1
        && str_spec(get_spec(items@[0], "type"@)) == Some("text"@)
        && str_spec(get_spec(items@[0], "text"@)) == Some(text)
}

/// `a` carries out the answer `ans`.
pub open spec fn action_answers(a: Action, ans: Answer) -> bool {
    match ans {
        Answer::Silent => a is Log,
        Answer::Initialized { id } => a matches Action::Reply(m) && (m matches Message::Response { jsonrpc, id: i, result: Some(r), error: None }
            && jsonrpc@ == "2.0"@ && i == id && is_initialize_result(r)),
        Answer::Refused { id, code, message } => a matches Action::Reply(m) && is_error_reply(m, id, code, message),
        Answer::Catalog { id } => a matches Action::ReplyToolCatalog { id: i } && i == id,
        Answer::Run { id, params } => a matches Action::RunTool { id: i, call } && i == id && call_fits(call, params),
        Answer::EmptyList { id, key } => a matches Action::Reply(m) && (m matches Message::Response { jsonrpc, id: i, result: Some(r), error: None }
            && jsonrpc@ == "2.0"@ && i == id && is_empty_list(r, key)),
    }
}

pub open spec fn not_initialized_text() -> Seq<char> {
    "Server not initialized. Send 'initialize' request first."@
}

/// How an initialized session answers request `id` for `method`: through the
/// routing table, or `MethodNotFound`.
pub open spec fn route(id: u64, method: Seq<char>, params: Option<JsonValue>) -> Answer {
    if method == "initialize"@ {
        Answer::Initialized { id }
    } else if method == "tools/list"@ {
        Answer::Catalog { id }
    } else if method == "tools/call"@ {
        match params {
            None => Answer::Refused { id, code: JsonRpcErrorCode::InvalidParams, message: "Missing params"@ },
            Some(p) => match call_rejection(p) {
                None => Answer::Run { id, params: p },
                Some((code, message)) => Answer::Refused { id, code, message },
            },
        }
    } else if method == "resources/list"@ {
        Answer::EmptyList { id, key: "resources"@ }
    } else if method == "prompts/list"@ {
        Answer::EmptyList { id, key: "prompts"@ }
    } else {
        Answer::Refused { id, code: JsonRpcErrorCode::MethodNotFound, message: "Method not found: "@ + method }
    }
}

/// One step of the session: the state after the item, and the answer to it.
pub open spec fn step(initialized: bool, item: Result<Message, Error>) -> (bool, Answer) {
    match item {
        Ok(Message::Request { method, id, params, .. }) => {
            if method@ == "initialize"@ {
                (true, Answer::Initialized { id })
            } else if !initialized {
                (false, Answer::Refused { id, code: JsonRpcErrorCode::InvalidRequest, message: not_initialized_text() })
            } else {
                (true, route(id, method@, params))
            }
        },
        _ => (initialized, Answer::Silent),
    }
}

/// The error response to request `id`.
pub fn error_response(id: u64, code: JsonRpcErrorCode, message: String) -> (r: Message)
    ensures
        is_error_reply(r, id, code, message@),
{
    let mut fields: Vec<(String, JsonValue)> = Vec::new();
    fields.push(entry("code", JsonValue::NegInt(code.code())));
    fields.push(entry("message", JsonValue::Str(message)));
    proof {
        reveal_strlit("code");
        reveal_strlit("message");
        assert("code"@.len() != "message"@.len());
        lemma_field_at(fields@, 0, "code"@);
        lemma_field_at(fields@, 1, "message"@);
    }
    let r = Message::Response { jsonrpc: copy_str("2.0"), id, result: None, error: Some(JsonValue::Object(fields)) };
    r
}

/// The success response to request `id`.
pub fn result_response(id: u64, result: JsonValue) -> (r: Message)
    ensures
        is_result_reply(r, id, result),
{
    Message::Response { jsonrpc: copy_str("2.0"), id, result: Some(result), error: None }
}

/// The result of a tool that succeeded: one text item holding `text`.
pub fn text_result(text: String) -> (r: JsonValue)
    ensures
        is_text_result(r, text@),
{
    let mut item: Vec<(String, JsonValue)> = Vec::new();
    item.push(entry("type", JsonValue::string("text")));
    item.push(entry("text", JsonValue::Str(text)));
    let mut items: Vec<JsonValue> = Vec::new();
    items.push(JsonValue::Object(item));
    let mut fields: Vec<(String, JsonValue)> = Vec::new();
    fields.push(entry("content", JsonValue::Array(items)));
    proof {
        reveal_strlit("type");
        reveal_strlit("text");
        assert("type"@[1] != "text"@[1]);
        lemma_field_at(item@, 0, "type"@);
        lemma_field_at(item@, 1, "text"@);
        lemma_field_at(fields@, 0, "content"@);
        lemma_field_at(items@[0]->Object_0@, 0, "type"@);
    }
    JsonValue::Object(fields)
}

/// The response to request `id` for a tool that produced `text`.
pub fn text_response(id: u64, text: String) -> (r: Message)
    ensures
        r matches Message::Response { jsonrpc, id: i, result: Some(v), error: None } && jsonrpc@ == "2.0"@ && i == id
            && is_text_result(v, text@),
{
    result_response(id, text_result(text))
}

fn object1(key: &str, value: JsonValue) -> (r: JsonValue)
    ensures
        get_spec(r, key@) == Some(value),
{
    let mut fields: Vec<(String, JsonValue)> = Vec::new();
    fields.push(entry(key, value));
    JsonValue::Object(fields)
}

fn flag_object(key: &str, value: bool) -> (r: JsonValue)
    ensures
        get_spec(r, key@) == Some(JsonValue::Bool(value)),
{
    object1(key, JsonValue::Bool(value))
}

fn initialize_result() -> (r: JsonValue)
    ensures
        is_initialize_result(r),
{
    let mut resources: Vec<(String, JsonValue)> = Vec::new();
    resources.push(entry("listChanged", JsonValue::Bool(false)));
    resources.push(entry("subscribe", JsonValue::Bool(false)));
    let ghost resources_fields = resources@;
    let mut caps: Vec<(String, JsonValue)> = Vec::new();
    caps.push(entry("experimental", JsonValue::Object(Vec::new())));
    caps.push(entry("prompts", flag_object("listChanged", false)));
    caps.push(entry("resources", JsonValue::Object(resources)));
    caps.push(entry("tools", flag_object("listChanged", false)));
    let mut info: Vec<(String, JsonValue)> = Vec::new();
    info.push(entry("name", JsonValue::string("mcedit")));
    info.push(entry("version", JsonValue::string("0.1.0")));
    let mut fields: Vec<(String, JsonValue)> = Vec::new();
    fields.push(entry("protocolVersion", JsonValue::string("2024-11-05")));
    fields.push(entry("serverInfo", JsonValue::Object(info)));
    fields.push(entry("capabilities", JsonValue::Object(caps)));
    proof {
        reveal_strlit("protocolVersion");
        reveal_strlit("serverInfo");
        reveal_strlit("capabilities");
        reveal_strlit("name");
        reveal_strlit("version");
        reveal_strlit("2024-11-05");
        assert("protocolVersion"@.len() != "serverInfo"@.len());
        assert("protocolVersion"@.len() != "capabilities"@.len());
        assert("serverInfo"@.len() != "capabilities"@.len());
        assert("name"@.len() != "version"@.len());
        lemma_field_at(fields@, 0, "protocolVersion"@);
        lemma_field_at(fields@, 1, "serverInfo"@);
        lemma_field_at(fields@, 2, "capabilities"@);
        lemma_field_at(info@, 0, "name"@);
        lemma_field_at(info@, 1, "version"@);
        reveal_strlit("experimental");
        reveal_strlit("prompts");
        reveal_strlit("resources");
        reveal_strlit("tools");
        reveal_strlit("listChanged");
        reveal_strlit("subscribe");
        assert("experimental"@.len() != "prompts"@.len());
        assert("experimental"@.len() != "resources"@.len());
        assert("experimental"@.len() != "tools"@.len());
        assert("prompts"@.len() != "resources"@.len());
        assert("prompts"@.len() != "tools"@.len());
        assert("resources"@.len() != "tools"@.len());
        assert("listChanged"@.len() != "subscribe"@.len());
        lemma_field_at(caps@, 0, "experimental"@);
        lemma_field_at(caps@, 1, "prompts"@);
        lemma_field_at(caps@, 2, "resources"@);
        lemma_field_at(caps@, 3, "tools"@);
        lemma_field_at(resources_fields, 0, "listChanged"@);
        lemma_field_at(resources_fields, 1, "subscribe"@);
    }
    JsonValue::Object(fields)
}

fn empty_list_reply(id: u64, key: &str) -> (r: Message)
    ensures
        r matches Message::Response { jsonrpc, id: i, result: Some(v), error: None } && jsonrpc@ == "2.0"@ && i == id
            && is_empty_list(v, key@),
{
    result_response(id, object1(key, JsonValue::Array(Vec::new())))
}

/// The session: the editor it drives, and whether `initialize` has been
/// received.
pub struct McpHandler {
    pub mcedit: McEdit,
    pub initialized: bool,
}

impl McpHandler {
    /// A session over `mcedit` that has not been initialized.
    pub fn new(mcedit: McEdit) -> (r: Self)
        ensures
            !r.initialized,
            r.mcedit == mcedit,
    {
        McpHandler { mcedit, initialized: false }
    }

    /// How an initialized session answers request `id`.
    fn handle_request(&self, id: u64, method: &str, params: &Option<JsonValue>) -> (r: Action)
        ensures
            action_answers(r, route(id, method@, *params)),
    {
        if str_eq(method, "initialize") {
            let result = initialize_result();
            Action::Reply(result_response(id, result))
        } else if str_eq(method, "tools/list") {
            Action::ReplyToolCatalog { id }
        } else if str_eq(method, "tools/call") {
            match params {
                None => Action::Reply(error_response(id, JsonRpcErrorCode::InvalidParams, copy_str("Missing params"))),
                Some(p) => match parse_tool_call(p) {
                    Ok(call) => Action::RunTool { id, call },
                    Err(e) => Action::Reply(error_response(id, e.code, e.message)),
                },
            }
        } else if str_eq(method, "resources/list") {
            Action::Reply(empty_list_reply(id, "resources"))
        } else if str_eq(method, "prompts/list") {
            Action::Reply(empty_list_reply(id, "prompts"))
        } else {
            let mut m = copy_str("Method not found: ");
            push_str(&mut m, method);
            Action::Reply(error_response(id, JsonRpcErrorCode::MethodNotFound, m))
        }
    }

    /// Decides the answer to one inbound item and moves the session on.
    /// Transport errors, notifications and responses are only logged; no item
    /// ends the session.
    pub fn handle_message(&mut self, item: Result<Message, Error>) -> (r: Action)
        ensures
            final(self).initialized == step(old(self).initialized, item).0,
            final(self).mcedit == old(self).mcedit,
            action_answers(r, step(old(self).initialized, item).1),
    {
        match item {
            Ok(Message::Request { method, id, params, .. }) => {
                if str_eq(method.as_str(), "initialize") {
                    self.initialized = true;
                    let result = initialize_result();
                    Action::Reply(result_response(id, result))
                } else if !self.initialized {
                    Action::Reply(error_response(id, JsonRpcErrorCode::InvalidRequest,
                        copy_str("Server not initialized. Send 'initialize' request first.")))
                } else {
                    self.handle_request(id, method.as_str(), &params)
                }
            },
            _ => Action::Log,
        }
    }
}

/// Before `initialize`, any other request is refused with `InvalidRequest` and
/// the session stays uninitialized; once initialized, the same request is
/// routed instead.
pub proof fn request_before_initialize_is_refused(jsonrpc: String, method: String, id: u64, params: Option<JsonValue>)
    requires
        method@ != "initialize"@,
    ensures
        step(false, Ok(Message::Request { jsonrpc, method, id, params }))
            == (false, Answer::Refused { id, code: JsonRpcErrorCode::InvalidRequest, message: not_initialized_text() }),
        step(true, Ok(Message::Request { jsonrpc, method, id, params })) == (true, route(id, method@, params)),
        !(route(id, method@, params) matches Answer::Refused { code: JsonRpcErrorCode::InvalidRequest, .. }),
{
    let p = params;
    if method@ == "tools/call"@ {
        match p {
            Some(q) => {
                match call_rejection(q) {
                    Some((code, message)) => {
                        assert(code != JsonRpcErrorCode::InvalidRequest);
                    },
                    None => {},
                }
            },
            None => {},
        }
    }
}

/// An `initialize` request moves the session to `Initialized`, whatever its
/// state.
pub proof fn initialize_initializes(initialized: bool, jsonrpc: String, method: String, id: u64, params: Option<JsonValue>)
    requires
        method@ == "initialize"@,
    ensures
        step(initialized, Ok(Message::Request { jsonrpc, method, id, params })) == (true, Answer::Initialized { id }),
{
}

/// A transport error (such as a line that is not a message) is only logged: the
/// session keeps its state, so the next item is answered exactly as it would
/// have been without it.
pub proof fn transport_error_keeps_serving(initialized: bool, e: Error, next: Result<Message, Error>)
    ensures
        step(initialized, Err(e)) == (initialized, Answer::Silent),
        step(step(initialized, Err(e)).0, next) == step(initialized, next),
{
}

} // verus!
