//! The protocol engine: messages, error codes, validation of tool calls, and the
//! session state machine that decides how each inbound item is answered.
use vstd::prelude::*;
use crate::json::{JsonValue, get_spec, str_spec, str_eq, get_str};
use crate::lines::{copy_str, push_str};

verus! {

/// A protocol message, as carried on one line of the wire.
#[derive(Debug)]
pub enum Message {
    Request { jsonrpc: String, method: String, id: u64, params: Option<JsonValue> },
    Notification { jsonrpc: String, method: String, params: Option<JsonValue> },
    Response { jsonrpc: String, id: u64, result: Option<JsonValue>, error: Option<JsonValue> },
}

/// A failure of the transport.
#[derive(Debug, Clone, PartialEq, Eq)]
pub enum Error {
    Io(String),
    Serialization(String),
    Other(String),
}

/// The error codes that responses carry.
#[derive(Debug, Clone, Copy, PartialEq, Eq, Structural)]
pub enum JsonRpcErrorCode {
    ParseError,
    InvalidRequest,
    MethodNotFound,
    InvalidParams,
    InternalError,
    FileNotFound,
    PermissionDenied,
    InvalidPath,
    DiffError,
}

/// The number on the wire for each code.
pub open spec fn code_value(c: JsonRpcErrorCode) -> int {
    match c {
        JsonRpcErrorCode::ParseError => -32700,
        JsonRpcErrorCode::InvalidRequest => -32600,
        JsonRpcErrorCode::MethodNotFound => -32601,
        JsonRpcErrorCode::InvalidParams => -32602,
        JsonRpcErrorCode::InternalError => -32603,
        JsonRpcErrorCode::FileNotFound => -32000,
        JsonRpcErrorCode::PermissionDenied => -32001,
        JsonRpcErrorCode::InvalidPath => -32002,
        JsonRpcErrorCode::DiffError => -32003,
    }
}

impl JsonRpcErrorCode {
    /// The number on the wire.
    pub fn code(&self) -> (r: i64)
        ensures
            r == code_value(*self),
    {
        match self {
            JsonRpcErrorCode::ParseError => -32700,
            JsonRpcErrorCode::InvalidRequest => -32600,
            JsonRpcErrorCode::MethodNotFound => -32601,
            JsonRpcErrorCode::InvalidParams => -32602,
            JsonRpcErrorCode::InternalError => -32603,
            JsonRpcErrorCode::FileNotFound => -32000,
            JsonRpcErrorCode::PermissionDenied => -32001,
            JsonRpcErrorCode::InvalidPath => -32002,
            JsonRpcErrorCode::DiffError => -32003,
        }
    }
}

/// A validated call of one of the eleven tools, with its typed arguments.
#[derive(Debug)]
pub enum ToolCall {
    ReadFile { path: String },
    WriteFile { path: String, content: String },
    ListFiles { pattern: Option<String> },
    SearchFiles { query: String },
    AnalyzeProject,
    ApplySuggestion { path: String, suggestion: String },
    GenerateDiff { original: String, modified: String },
    ChangeDirectory { directory: String },
    CreateFile { path: String, content: String },
    RenameFile { from_path: String, to_path: String },
    DeleteFile { path: String },
}

/// Why a tool call was refused before any work: the code and the message.
#[derive(Debug)]
pub struct CallError {
    pub code: JsonRpcErrorCode,
    pub message: String,
}

/// The `name` of a `tools/call`, or the empty text.
pub open spec fn tool_name(params: JsonValue) -> Seq<char> {
    match str_spec(get_spec(params, "name"@)) {
        Some(n) => n,
        None => Seq::empty(),
    }
}

/// The `arguments` object of a `tools/call`, if present.
pub open spec fn arguments(params: JsonValue) -> Option<JsonValue> {
    get_spec(params, "arguments"@)
}

/// The string argument `key`.
pub open spec fn arg(params: JsonValue, key: Seq<char>) -> Option<Seq<char>> {
    match arguments(params) {
        Some(a) => str_spec(get_spec(a, key)),
        None => None,
    }
}

pub open spec fn missing(key: Seq<char>) -> Option<(JsonRpcErrorCode, Seq<char>)> {
    Some((JsonRpcErrorCode::InvalidParams, "Missing required parameter: "@ + key))
}

pub open spec fn no_arguments() -> Option<(JsonRpcErrorCode, Seq<char>)> {
    Some((JsonRpcErrorCode::InvalidParams, "Missing required arguments"@))
}

/// The first of the arguments `k1` and `k2` that is missing (or the whole
/// `arguments` object), reported as such.
pub open spec fn first_missing(params: JsonValue, k1: Seq<char>, k2: Seq<char>) -> Option<(JsonRpcErrorCode, Seq<char>)> {
    if arguments(params) is None {
        no_arguments()
    } else if arg(params, k1) is None {
        missing(k1)
    } else if arg(params, k2) is None {
        missing(k2)
    } else {
        None
    }
}

/// Why a `tools/call` with these parameters is refused before any work, or
/// nothing where it is valid.
pub open spec fn call_rejection(params: JsonValue) -> Option<(JsonRpcErrorCode, Seq<char>)> {
    let name = tool_name(params);
    if name == "read_file"@ {
        if arg(params, "path"@) is None { missing("path"@) } else { None }
    } else if name == "write_file"@ {
        first_missing(params, "path"@, "content"@)
    } else if name == "list_files"@ {
        None
    } else if name == "search_files"@ {
        if arg(params, "query"@) is None { missing("query"@) } else { None }
    } else if name == "analyze_project"@ {
        None
    } else if name == "apply_suggestion"@ {
        first_missing(params, "path"@, "suggestion"@)
    } else if name == "generate_diff"@ {
        first_missing(params, "original"@, "modified"@)
    } else if name == "change_directory"@ {
        if arg(params, "directory"@) is None { missing("directory"@) } else { None }
    } else if name == "create_file"@ {
        first_missing(params, "path"@, "content"@)
    } else if name == "rename_file"@ {
        first_missing(params, "from_path"@, "to_path"@)
    } else if name == "delete_file"@ {
        if arg(params, "path"@) is None { missing("path"@) } else { None }
    } else {
        Some((JsonRpcErrorCode::MethodNotFound, "Tool not found: "@ + name))
    }
}

/// `call` is the tool named in `params`, with the arguments given there.
pub open spec fn call_fits(call: ToolCall, params: JsonValue) -> bool {
    let name = tool_name(params);
    match call {
        ToolCall::ReadFile { path } => name == "read_file"@ && arg(params, "path"@) == Some(path@),
        ToolCall::WriteFile { path, content } => name == "write_file"@ && arg(params, "path"@) == Some(path@)
            && arg(params, "content"@) == Some(content@),
        ToolCall::ListFiles { pattern } => name == "list_files"@ && match pattern {
            Some(p) => arg(params, "pattern"@) == Some(p@),
            None => arg(params, "pattern"@) is None,
        },
        ToolCall::SearchFiles { query } => name == "search_files"@ && arg(params, "query"@) == Some(query@),
        ToolCall::AnalyzeProject => name == "analyze_project"@,
        ToolCall::ApplySuggestion { path, suggestion } => name == "apply_suggestion"@ && arg(params, "path"@) == Some(path@)
            && arg(params, "suggestion"@) == Some(suggestion@),
        ToolCall::GenerateDiff { original, modified } => name == "generate_diff"@ && arg(params, "original"@) == Some(original@)
            && arg(params, "modified"@) == Some(modified@),
        ToolCall::ChangeDirectory { directory } => name == "change_directory"@ && arg(params, "directory"@) == Some(directory@),
        ToolCall::CreateFile { path, content } => name == "create_file"@ && arg(params, "path"@) == Some(path@)
            && arg(params, "content"@) == Some(content@),
        ToolCall::RenameFile { from_path, to_path } => name == "rename_file"@ && arg(params, "from_path"@) == Some(from_path@)
            && arg(params, "to_path"@) == Some(to_path@),
        ToolCall::DeleteFile { path } => name == "delete_file"@ && arg(params, "path"@) == Some(path@),
    }
}

fn call_error(code: JsonRpcErrorCode, text: &str) -> (r: CallError)
    ensures
        r.code == code,
        r.message@ == text@,
{
    CallError { code, message: copy_str(text) }
}

fn missing_param(key: &str) -> (r: CallError)
    ensures
        Some((r.code, r.message@)) == missing(key@),
{
    let mut m = copy_str("Missing required parameter: ");
    push_str(&mut m, key);
    CallError { code: JsonRpcErrorCode::InvalidParams, message: m }
}

/// The string argument `key` of a `tools/call`.
fn get_arg(params: &JsonValue, key: &str) -> (r: Option<String>)
    ensures
        match r {
            Some(s) => arg(*params, key@) == Some(s@),
            None => arg(*params, key@) is None,
        },
{
    match params.get("arguments") {
        Some(a) => get_str(a, key),
        None => None,
    }
}

/// The two string arguments `k1` and `k2`, or the reason why they are not there.
fn two_args(params: &JsonValue, k1: &str, k2: &str) -> (r: Result<(String, String), CallError>)
    ensures
        match r {
            Ok((a, b)) => first_missing(*params, k1@, k2@) is None && arg(*params, k1@) == Some(a@)
                && arg(*params, k2@) == Some(b@),
            Err(e) => first_missing(*params, k1@, k2@) == Some((e.code, e.message@)),
        },
{
    if params.get("arguments").is_none() {
        return Err(call_error(JsonRpcErrorCode::InvalidParams, "Missing required arguments"));
    }
    let a = match get_arg(params, k1) {
        Some(a) => a,
        None => { return Err(missing_param(k1)); },
    };
    let b = match get_arg(params, k2) {
        Some(b) => b,
        None => { return Err(missing_param(k2)); },
    };
    Ok((a, b))
}

/// One string argument `key`, or the reason why it is not there.
fn one_arg(params: &JsonValue, key: &str) -> (r: Result<String, CallError>)
    ensures
        match r {
            Ok(a) => arg(*params, key@) == Some(a@),
            Err(e) => arg(*params, key@) is None && missing(key@) == Some((e.code, e.message@)),
        },
{
    match get_arg(params, key) {
        Some(a) => Ok(a),
        None => Err(missing_param(key)),
    }
}

/// Validates the parameters of a `tools/call` into a typed call, before any
/// work is done.
pub fn parse_tool_call(params: &JsonValue) -> (r: Result<ToolCall, CallError>)
    ensures
        match r {
            Ok(call) => call_rejection(*params) is None && call_fits(call, *params),
            Err(e) => call_rejection(*params) == Some((e.code, e.message@)),
        },
{
    let name = match get_str(params, "name") {
        Some(n) => n,
        None => String::new(),
    };
    let n = name.as_str();
    if str_eq(n, "read_file") {
        let path = one_arg(params, "path")?;
        Ok(ToolCall::ReadFile { path })
    } else if str_eq(n, "write_file") {
        let (path, content) = two_args(params, "path", "content")?;
        Ok(ToolCall::WriteFile { path, content })
    } else if str_eq(n, "list_files") {
        Ok(ToolCall::ListFiles { pattern: get_arg(params, "pattern") })
    } else if str_eq(n, "search_files") {
        let query = one_arg(params, "query")?;
        Ok(ToolCall::SearchFiles { query })
    } else if str_eq(n, "analyze_project") {
        Ok(ToolCall::AnalyzeProject)
    } else if str_eq(n, "apply_suggestion") {
        let (path, suggestion) = two_args(params, "path", "suggestion")?;
        Ok(ToolCall::ApplySuggestion { path, suggestion })
    } else if str_eq(n, "generate_diff") {
        let (original, modified) = two_args(params, "original", "modified")?;
        Ok(ToolCall::GenerateDiff { original, modified })
    } else if str_eq(n, "change_directory") {
        let directory = one_arg(params, "directory")?;
        Ok(ToolCall::ChangeDirectory { directory })
    } else if str_eq(n, "create_file") {
        let (path, content) = two_args(params, "path", "content")?;
        Ok(ToolCall::CreateFile { path, content })
    } else if str_eq(n, "rename_file") {
        let (from_path, to_path) = two_args(params, "from_path", "to_path")?;
        Ok(ToolCall::RenameFile { from_path, to_path })
    } else if str_eq(n, "delete_file") {
        let path = one_arg(params, "path")?;
        Ok(ToolCall::DeleteFile { path })
    } else {
        let mut m = copy_str("Tool not found: ");
        push_str(&mut m, n);
        Err(CallError { code: JsonRpcErrorCode::MethodNotFound, message: m })
    }
}

} // verus!
