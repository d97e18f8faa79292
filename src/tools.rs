//! The results of the tools, as structured values, and the messages of their
//! failures.
use vstd::prelude::*;
use crate::json::{JsonValue, entry, get_spec, str_spec, lemma_field_at};
use crate::lines::{copy_str, push_str};
use crate::protocol::ToolCall;
use crate::suggestions::EditOp;

verus! {

/// The catalog of the eleven tools that `tools/list` returns: each tool's
/// name, description, and input and output schemas.
pub const TOOLS_JSON: &'static str = r#"{
  "tools": [
    {
      "name": "read_file",
      "description": "Read the content of a file",
      "inputSchema": {
        "type": "object",
        "properties": {
          "path": {
            "type": "string",
            "description": "Path to the file to read"
          }
        },
        "required": ["path"]
      },
      "outputSchema": {
        "type": "object",
        "properties": {
          "content": {
            "type": "string",
            "description": "Content of the file"
          },
          "path": {
            "type": "string",
            "description": "Path to the file that was read"
          }
        },
        "required": ["content", "path"]
      }
    },
    {
      "name": "write_file",
      "description": "Write content to a file",
      "inputSchema": {
        "type": "object",
        "properties": {
          "path": {
            "type": "string",
            "description": "Path to the file to write"
          },
          "content": {
            "type": "string",
            "description": "Content to write to the file"
          }
        },
        "required": ["path", "content"]
      },
      "outputSchema": {
        "type": "object",
        "properties": {
          "success": {
            "type": "boolean",
            "description": "Whether the write operation was successful"
          },
          "path": {
            "type": "string",
            "description": "Path to the file that was written"
          }
        },
        "required": ["success", "path"]
      }
    },
    {
      "name": "list_files",
      "description": "List files in the project directory that match a pattern",
      "inputSchema": {
        "type": "object",
        "properties": {
          "pattern": {
            "type": "string",
            "description": "Pattern to match files against (regex)"
          }
        }
      },
      "outputSchema": {
        "type": "object",
        "properties": {
          "files": {
            "type": "array",
            "items": {
              "type": "string"
            },
            "description": "List of file paths matching the pattern"
          }
        },
        "required": ["files"]
      }
    },
    {
      "name": "search_files",
      "description": "Search for text in files in the project",
      "inputSchema": {
        "type": "object",
        "properties": {
          "query": {
            "type": "string",
            "description": "Text to search for"
          }
        },
        "required": ["query"]
      },
      "outputSchema": {
        "type": "object",
        "properties": {
          "results": {
            "type": "array",
            "items": {
              "type": "object",
              "properties": {
                "file": {
                  "type": "string",
                  "description": "File path where match was found"
                },
                "matches": {
                  "type": "array",
                  "items": {
                    "type": "object",
                    "properties": {
                      "line_number": {
                        "type": "integer",
                        "description": "Line number where match was found"
                      },
                      "line": {
                        "type": "string",
                        "description": "Content of the line containing the match"
                      }
                    }
                  }
                }
              }
            },
            "description": "List of matches found"
          }
        },
        "required": ["results"]
      }
    },
    {
      "name": "analyze_project",
      "description": "Analyze the structure of the project",
      "inputSchema": {
        "type": "object",
        "properties": {}
      },
      "outputSchema": {
        "type": "object",
        "properties": {
          "project_directory": {
            "type": "string",
            "description": "Base directory of the project"
          },
          "project_type": {
            "type": "array",
            "items": {
              "type": "string"
            },
            "description": "Detected project types"
          },
          "stats": {
            "type": "object",
            "description": "Project statistics"
          },
          "languages": {
            "type": "array",
            "description": "Programming languages used in the project"
          },
          "key_files": {
            "type": "array",
            "description": "Important files in the project"
          }
        },
        "required": ["project_directory", "project_type"]
      }
    },
    {
      "name": "apply_suggestion",
      "description": "Apply suggested changes to a file",
      "inputSchema": {
        "type": "object",
        "properties": {
          "path": {
            "type": "string",
            "description": "Path to the file to modify"
          },
          "suggestion": {
            "type": "string",
            "description": "Suggestion text describing the changes"
          }
        },
        "required": ["path", "suggestion"]
      },
      "outputSchema": {
        "type": "object",
        "properties": {
          "success": {
            "type": "boolean",
            "description": "Whether the suggestion was applied successfully"
          },
          "action": {
            "type": "string",
            "description": "Type of action performed"
          },
          "path": {
            "type": "string",
            "description": "Path to the file that was modified"
          }
        },
        "required": ["success", "action", "path"]
      }
    },
    {
      "name": "generate_diff",
      "description": "Generate diff between original and modified text",
      "inputSchema": {
        "type": "object",
        "properties": {
          "original": {
            "type": "string",
            "description": "Original text"
          },
          "modified": {
            "type": "string",
            "description": "Modified text"
          }
        },
        "required": ["original", "modified"]
      },
      "outputSchema": {
        "type": "object",
        "properties": {
          "diff": {
            "type": "string",
            "description": "Unified diff between original and modified text"
          }
        },
        "required": ["diff"]
      }
    },
    {
      "name": "change_directory",
      "description": "Change the current working directory",
      "inputSchema": {
        "type": "object",
        "properties": {
          "directory": {
            "type": "string",
            "description": "New directory path"
          }
        },
        "required": ["directory"]
      },
      "outputSchema": {
        "type": "object",
        "properties": {
          "success": {
            "type": "boolean",
            "description": "Whether the directory change was successful"
          },
          "directory": {
            "type": "string",
            "description": "New current directory"
          }
        },
        "required": ["success", "directory"]
      }
    },
    {
      "name": "create_file",
      "description": "Create a new file with the specified content",
      "inputSchema": {
        "type": "object",
        "properties": {
          "path": {
            "type": "string",
            "description": "Path to the file to create"
          },
          "content": {
            "type": "string",
            "description": "Content to write to the file"
          }
        },
        "required": ["path", "content"]
      },
      "outputSchema": {
        "type": "object",
        "properties": {
          "success": {
            "type": "boolean",
            "description": "Whether the file was created successfully"
          },
          "path": {
            "type": "string",
            "description": "Path to the created file"
          }
        },
        "required": ["success", "path"]
      }
    },
    {
      "name": "rename_file",
      "description": "Rename or move a file",
      "inputSchema": {
        "type": "object",
        "properties": {
          "from_path": {
            "type": "string",
            "description": "Original path of the file"
          },
          "to_path": {
            "type": "string",
            "description": "New path for the file"
          }
        },
        "required": ["from_path", "to_path"]
      },
      "outputSchema": {
        "type": "object",
        "properties": {
          "success": {
            "type": "boolean",
            "description": "Whether the file was renamed successfully"
          },
          "from_path": {
            "type": "string",
            "description": "Original path of the file"
          },
          "to_path": {
            "type": "string",
            "description": "New path of the file"
          }
        },
        "required": ["success", "from_path", "to_path"]
      }
    },
    {
      "name": "delete_file",
      "description": "Delete a file",
      "inputSchema": {
        "type": "object",
        "properties": {
          "path": {
            "type": "string",
            "description": "Path to the file to delete"
          }
        },
        "required": ["path"]
      },
      "outputSchema": {
        "type": "object",
        "properties": {
          "success": {
            "type": "boolean",
            "description": "Whether the file was deleted successfully"
          },
          "path": {
            "type": "string",
            "description": "Path to the deleted file"
          }
        },
        "required": ["success", "path"]
      }
    }
  ]
}"#;

/// `{"success": true, key: value}`.
pub fn success_payload(key: &str, value: &str) -> (r: JsonValue)
    ensures
        key@ != "success"@ ==> get_spec(r, "success"@) == Some(JsonValue::Bool(true)) && str_spec(get_spec(r, key@)) == Some(value@),
{
    let mut fields: Vec<(String, JsonValue)> = Vec::new();
    fields.push(entry("success", JsonValue::Bool(true)));
    fields.push(entry(key, JsonValue::string(value)));
    proof {
        if key@ != "success"@ {
            lemma_field_at(fields@, 0, "success"@);
            lemma_field_at(fields@, 1, key@);
        }
    }
    JsonValue::Object(fields)
}

/// `{key1: value1, key2: value2}` with two distinct keys.
pub fn pair_payload(key1: &str, value1: JsonValue, key2: &str, value2: JsonValue) -> (r: JsonValue)
    ensures
        key1@ != key2@ ==> get_spec(r, key1@) == Some(value1) && get_spec(r, key2@) == Some(value2),
{
    let mut fields: Vec<(String, JsonValue)> = Vec::new();
    fields.push(entry(key1, value1));
    fields.push(entry(key2, value2));
    proof {
        if key1@ != key2@ {
            lemma_field_at(fields@, 0, key1@);
            lemma_field_at(fields@, 1, key2@);
        }
    }
    JsonValue::Object(fields)
}

/// The result of `read_file`: `{"content": ..., "path": ...}`.
pub fn read_payload(content: &str, path: &str) -> (r: JsonValue)
    ensures
        str_spec(get_spec(r, "content"@)) == Some(content@),
        str_spec(get_spec(r, "path"@)) == Some(path@),
{
    proof {
        reveal_strlit("content");
        reveal_strlit("path");
        assert("content"@.len() != "path"@.len());
    }
    let c = JsonValue::string(content);
    let p = JsonValue::string(path);
    assert(str_spec(Some(c)) == Some(content@));
    assert(str_spec(Some(p)) == Some(path@));
    pair_payload("content", c, "path", p)
}

/// The result of `rename_file`.
pub fn rename_payload(from_path: &str, to_path: &str) -> (r: JsonValue)
    ensures
        get_spec(r, "success"@) == Some(JsonValue::Bool(true)),
        str_spec(get_spec(r, "from_path"@)) == Some(from_path@),
        str_spec(get_spec(r, "to_path"@)) == Some(to_path@),
{
    let mut fields: Vec<(String, JsonValue)> = Vec::new();
    fields.push(entry("success", JsonValue::Bool(true)));
    fields.push(entry("from_path", JsonValue::string(from_path)));
    fields.push(entry("to_path", JsonValue::string(to_path)));
    proof {
        reveal_strlit("success");
        reveal_strlit("from_path");
        reveal_strlit("to_path");
        assert("success"@.len() != "from_path"@.len());
        assert("success"@[0] != "to_path"@[0]);
        assert("from_path"@.len() != "to_path"@.len());
        lemma_field_at(fields@, 0, "success"@);
        lemma_field_at(fields@, 1, "from_path"@);
        lemma_field_at(fields@, 2, "to_path"@);
    }
    JsonValue::Object(fields)
}

/// The result of `generate_diff`: `{"diff": ...}`.
pub fn diff_payload(diff: &str) -> (r: JsonValue)
    ensures
        str_spec(get_spec(r, "diff"@)) == Some(diff@),
{
    let mut fields: Vec<(String, JsonValue)> = Vec::new();
    fields.push(entry("diff", JsonValue::string(diff)));
    proof {
        lemma_field_at(fields@, 0, "diff"@);
    }
    JsonValue::Object(fields)
}

/// The result of `list_files`: `{"files": [...]}`.
pub fn files_payload(files: &Vec<String>) -> (r: JsonValue)
    ensures
        get_spec(r, "files"@) matches Some(JsonValue::Array(items)) && items@.len() == files@.len()
            && forall|i: int| 0 <= i < files@.len() ==> str_spec(Some(items@[i])) == Some(files@[i]@),
{
    let mut items: Vec<JsonValue> = Vec::new();
    let mut i: usize = 0;
    while i < files.len()
        invariant
            i <= files@.len(),
            items@.len() == i,
            forall|j: int| 0 <= j < i ==> str_spec(Some(items@[j])) == Some(files@[j]@),
        decreases files.len() - i,
    {
        items.push(JsonValue::string(files[i].as_str()));
        i = i + 1;
    }
    let mut fields: Vec<(String, JsonValue)> = Vec::new();
    fields.push(entry("files", JsonValue::Array(items)));
    proof {
        lemma_field_at(fields@, 0, "files"@);
    }
    JsonValue::Object(fields)
}

/// `"success"` or `"error"`.
pub open spec fn status_text(applied: bool) -> Seq<char> {
    if applied { "success"@ } else { "error"@ }
}

/// The report of one edit operation: whether it applied, what it was, and on
/// failure why.
pub fn op_report(op: &EditOp, applied: bool) -> (r: JsonValue)
    ensures
        str_spec(get_spec(r, "status"@)) == Some(status_text(applied)),
{
    let mut fields: Vec<(String, JsonValue)> = Vec::new();
    let status = if applied { JsonValue::string("success") } else { JsonValue::string("error") };
    fields.push(entry("status", status));
    proof {
        lemma_field_at(fields@, 0, "status"@);
    }
    match op {
        EditOp::Insert { line, .. } => {
            fields.push(entry("action", JsonValue::string("insert")));
            fields.push(entry("line", JsonValue::UInt(*line as u64)));
        },
        EditOp::ReplaceLine { line, .. } => {
            fields.push(entry("action", JsonValue::string("replace")));
            fields.push(entry("line", JsonValue::UInt(*line as u64)));
        },
        EditOp::DeleteLine { line } => {
            fields.push(entry("action", JsonValue::string("delete")));
            fields.push(entry("line", JsonValue::UInt(*line as u64)));
        },
        EditOp::Region { start, end, .. } => {
            fields.push(entry("action", JsonValue::string("region")));
            fields.push(entry("start", JsonValue::UInt(*start as u64)));
            fields.push(entry("end", JsonValue::UInt(*end as u64)));
        },
        EditOp::Unknown { action } => {
            fields.push(entry("action", JsonValue::string(action.as_str())));
        },
    }
    if !applied {
        let why = match op {
            EditOp::Unknown { .. } => "Unknown edit action",
            EditOp::Region { .. } => "Invalid line range",
            _ => "Line number out of range",
        };
        fields.push(entry("message", JsonValue::string(why)));
    }
    proof {
        lemma_field_at(fields@, 0, "status"@);
    }
    JsonValue::Object(fields)
}

/// The result of `apply_suggestion`: `{"success": true, "action": ..., "path":
/// ...}`, and for an `Edit`, one report per operation saying whether it applied.
pub fn suggestion_payload(action: &str, path: &str, ops: &Vec<EditOp>, applied: &Vec<bool>) -> (r: JsonValue)
    requires
        ops@.len() == applied@.len(),
    ensures
        get_spec(r, "success"@) == Some(JsonValue::Bool(true)),
        str_spec(get_spec(r, "action"@)) == Some(action@),
        str_spec(get_spec(r, "path"@)) == Some(path@),
        ops@.len() > 0 ==> (get_spec(r, "results"@) matches Some(JsonValue::Array(items)) && items@.len() == ops@.len()
            && forall|i: int| 0 <= i < ops@.len() ==> str_spec(get_spec(#[trigger] items@[i], "status"@)) == Some(status_text(applied@[i]))),
{
    let mut fields: Vec<(String, JsonValue)> = Vec::new();
    fields.push(entry("success", JsonValue::Bool(true)));
    fields.push(entry("action", JsonValue::string(action)));
    fields.push(entry("path", JsonValue::string(path)));
    if ops.len() > 0 {
        let mut reports: Vec<JsonValue> = Vec::new();
        let mut i: usize = 0;
        while i < ops.len()
            invariant
                i <= ops@.len() == applied@.len(),
                reports@.len() == i,
                forall|j: int| 0 <= j < i ==> str_spec(get_spec(#[trigger] reports@[j], "status"@)) == Some(status_text(applied@[j])),
            decreases ops.len() - i,
        {
            reports.push(op_report(&ops[i], applied[i]));
            i = i + 1;
        }
        fields.push(entry("results", JsonValue::Array(reports)));
        proof {
            reveal_strlit("success");
            reveal_strlit("action");
            reveal_strlit("path");
            reveal_strlit("results");
            assert("success"@[0] != "results"@[0]);
            assert("action"@.len() != "results"@.len());
            assert("path"@.len() != "results"@.len());
            lemma_field_at(fields@, 3, "results"@);
        }
    }
    proof {
        reveal_strlit("success");
        reveal_strlit("action");
        reveal_strlit("path");
        assert("success"@.len() != "action"@.len());
        assert("success"@.len() != "path"@.len());
        assert("action"@.len() != "path"@.len());
        lemma_field_at(fields@, 0, "success"@);
        lemma_field_at(fields@, 1, "action"@);
        lemma_field_at(fields@, 2, "path"@);
    }
    JsonValue::Object(fields)
}

/// What a suggestion that cannot be read as an instruction reports.
pub fn parse_failure_message(error: &str) -> (r: String)
    ensures
        r@ == "Failed to parse suggestion: "@ + error@,
{
    let mut out = copy_str("Failed to parse suggestion: ");
    push_str(&mut out, error);
    out
}

/// What the failure of each tool is called.
pub open spec fn failure_prefix(call: ToolCall) -> Seq<char> {
    match call {
        ToolCall::ReadFile { .. } => "Failed to read file"@,
        ToolCall::WriteFile { .. } => "Failed to write file"@,
        ToolCall::ListFiles { .. } => "Failed to list files"@,
        ToolCall::SearchFiles { .. } => "Failed to search files"@,
        ToolCall::AnalyzeProject => "Failed to analyze project"@,
        ToolCall::ApplySuggestion { .. } => "Failed to apply suggestion"@,
        ToolCall::GenerateDiff { .. } => "Failed to generate diff"@,
        ToolCall::ChangeDirectory { .. } => "Failed to change directory"@,
        ToolCall::CreateFile { .. } => "Failed to create file"@,
        ToolCall::RenameFile { .. } => "Failed to rename file"@,
        ToolCall::DeleteFile { .. } => "Failed to delete file"@,
    }
}

/// What a tool's failure reports: `Failed to <what the tool does>: <error>`.
pub fn failure_message(call: &ToolCall, error: &str) -> (r: String)
    ensures
        r@ == failure_prefix(*call) + ": "@ + error@,
{
    let what = match call {
        ToolCall::ReadFile { .. } => "Failed to read file",
        ToolCall::WriteFile { .. } => "Failed to write file",
        ToolCall::ListFiles { .. } => "Failed to list files",
        ToolCall::SearchFiles { .. } => "Failed to search files",
        ToolCall::AnalyzeProject => "Failed to analyze project",
        ToolCall::ApplySuggestion { .. } => "Failed to apply suggestion",
        ToolCall::GenerateDiff { .. } => "Failed to generate diff",
        ToolCall::ChangeDirectory { .. } => "Failed to change directory",
        ToolCall::CreateFile { .. } => "Failed to create file",
        ToolCall::RenameFile { .. } => "Failed to rename file",
        ToolCall::DeleteFile { .. } => "Failed to delete file",
    };
    let mut out = copy_str(what);
    push_str(&mut out, ": ");
    push_str(&mut out, error);
    out
}

} // verus!
