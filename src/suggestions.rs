//! Structured edit instructions and their application. An `Edit` instruction
//! applies its operations in order, each against the text as the earlier ones
//! left it; an operation that fails is reported and skipped, and the others
//! still apply.
use vstd::prelude::*;
use crate::lines::lines_of;
use crate::editor::{FileEditor, EditorError, inserted_text, replaced_text, deleted_text, region_text};
use crate::json::{JsonValue, str_eq, get_spec, str_spec, u64_spec, bool_spec};
use crate::lines::{copy_str, push_str};

verus! {

/// One line or region edit; line numbers are zero-based.
#[derive(Debug)]
pub enum EditOp {
    Insert { line: usize, content: String },
    ReplaceLine { line: usize, content: String },
    DeleteLine { line: usize },
    Region { start: usize, end: usize, content: String },
    Unknown { action: String },
}

/// A structured description of a file mutation.
#[derive(Debug)]
pub enum EditInstruction {
    Replace { content: String },
    Edit { ops: Vec<EditOp> },
    Create { content: String, overwrite: bool },
}

/// Why a suggestion could not be applied.
#[derive(Debug, Clone, PartialEq, Eq)]
pub enum SuggestionApplyError {
    InvalidFormat(String),
    ApplicationFailed(String),
    FileError(String),
    IoError(String),
}

/// Why a suggestion could not be parsed.
#[derive(Debug, Clone, PartialEq, Eq)]
pub enum SuggestionParseError {
    InvalidFormat(String),
    MissingField(String),
    InvalidJson(String),
    UnsupportedType(String),
}

/// Turns free text into edit instructions.
pub struct SuggestionParser;

/// Applies edit instructions to texts.
pub struct SuggestionApplier {
    pub editor: FileEditor,
}

/// The text after one operation, or why it failed.
pub open spec fn op_outcome(text: Seq<char>, op: EditOp) -> Result<Seq<char>, EditorError> {
    match op {
        EditOp::Insert { line, content } => if line <= lines_of(text).len() {
            Ok(inserted_text(text, line as int, content@))
        } else {
            Err(EditorError::LineOutOfRange(line))
        },
        EditOp::ReplaceLine { line, content } => if line < lines_of(text).len() {
            Ok(replaced_text(text, line as int, content@))
        } else {
            Err(EditorError::LineOutOfRange(line))
        },
        EditOp::DeleteLine { line } => if line < lines_of(text).len() {
            Ok(deleted_text(text, line as int))
        } else {
            Err(EditorError::LineOutOfRange(line))
        },
        EditOp::Region { start, end, content } => if start > end {
            Err(EditorError::InvalidRange { start, end })
        } else if start >= lines_of(text).len() {
            Err(EditorError::LineOutOfRange(start))
        } else {
            Ok(region_text(text, start as int, end as int, content@))
        },
        EditOp::Unknown { action } => Err(EditorError::UnknownAction(action)),
    }
}

/// The text after the operations, in order, each applied to what the earlier
/// ones left; a failed operation leaves the text as it was.
pub open spec fn run_ops(text: Seq<char>, ops: Seq<EditOp>) -> Seq<char>
    decreases ops.len(),
{
    if ops.len() == 0 {
        text
    } else {
        let before = run_ops(text, ops.drop_last());
        match op_outcome(before, ops.last()) {
            Ok(t) => t,
            Err(_) => before,
        }
    }
}

/// Whether the `i`-th operation applied.
pub open spec fn op_applied(text: Seq<char>, ops: Seq<EditOp>, i: int) -> bool {
    op_outcome(run_ops(text, ops.subrange(0, i)), ops[i]) is Ok
}

impl FileEditor {
    /// Applies one operation to a text.
    pub fn apply_op(&self, text: &str, op: &EditOp) -> (r: Result<String, EditorError>)
        ensures
            match r {
                Ok(t) => op_outcome(text@, *op) == Ok::<Seq<char>, EditorError>(t@),
                Err(e) => op_outcome(text@, *op) == Err::<Seq<char>, EditorError>(e),
            },
    {
        match op {
            EditOp::Insert { line, content } => self.insert_line(text, *line, content.as_str()),
            EditOp::ReplaceLine { line, content } => self.replace_line(text, *line, content.as_str()),
            EditOp::DeleteLine { line } => self.delete_line(text, *line),
            EditOp::Region { start, end, content } => self.edit_region(text, *start, *end, content.as_str()),
            EditOp::Unknown { action } => Err(EditorError::UnknownAction(action.clone())),
        }
    }

    /// Applies the operations in order; each reports whether it applied, and a
    /// failed one does not stop the others.
    pub fn apply_edits(&self, text: &str, ops: &Vec<EditOp>) -> (r: (String, Vec<bool>))
        ensures
            r.0@ == run_ops(text@, ops@),
            r.1@.len() == ops@.len(),
            forall|i: int| 0 <= i < ops@.len() ==> r.1@[i] == op_applied(text@, ops@, i),
    {
        let mut cur = copy_str(text);
        let mut applied: Vec<bool> = Vec::new();
        let mut i: usize = 0;
        while i < ops.len()
            invariant
                i <= ops@.len(),
                applied@.len() == i,
                cur@ == run_ops(text@, ops@.subrange(0, i as int)),
                forall|j: int| 0 <= j < i ==> applied@[j] == op_applied(text@, ops@, j),
            decreases ops.len() - i,
        {
            proof {
                assert(ops@.subrange(0, i + 1).drop_last() == ops@.subrange(0, i as int));
                assert(ops@.subrange(0, i + 1).last() == ops@[i as int]);
            }
            match self.apply_op(cur.as_str(), &ops[i]) {
                Ok(t) => {
                    cur = t;
                    applied.push(true);
                },
                Err(_) => {
                    applied.push(false);
                },
            }
            i = i + 1;
        }
        assert(ops@.subrange(0, ops@.len() as int) == ops@);
        (cur, applied)
    }
}

/// The kind of an instruction as its `type` field names it.
pub open spec fn type_of(v: JsonValue) -> Seq<char> {
    match str_spec(get_spec(v, "type"@)) {
        Some(t) => t,
        None => "unknown"@,
    }
}

/// A string field, or the empty text.
pub open spec fn str_or_empty(v: JsonValue, key: Seq<char>) -> Seq<char> {
    match str_spec(get_spec(v, key)) {
        Some(s) => s,
        None => Seq::empty(),
    }
}

/// A non-negative integer field, or 0.
pub open spec fn u64_or_zero(v: JsonValue, key: Seq<char>) -> u64 {
    match u64_spec(get_spec(v, key)) {
        Some(n) => n,
        None => 0,
    }
}

/// The operation that a JSON edit describes: its `action`, with `line`,
/// `start`, `end` defaulting to 0 and `content` to the empty text.
pub open spec fn op_of(v: JsonValue, op: EditOp) -> bool {
    let action = match str_spec(get_spec(v, "action"@)) {
        Some(a) => a,
        None => "unknown"@,
    };
    if action == "insert"@ {
        op matches EditOp::Insert { line, content } && line == u64_or_zero(v, "line"@) as usize && content@ == str_or_empty(v, "content"@)
    } else if action == "replace"@ {
        op matches EditOp::ReplaceLine { line, content } && line == u64_or_zero(v, "line"@) as usize && content@ == str_or_empty(v, "content"@)
    } else if action == "delete"@ {
        op matches EditOp::DeleteLine { line } && line == u64_or_zero(v, "line"@) as usize
    } else if action == "region"@ {
        op matches EditOp::Region { start, end, content } && start == u64_or_zero(v, "start"@) as usize
            && end == u64_or_zero(v, "end"@) as usize && content@ == str_or_empty(v, "content"@)
    } else {
        op matches EditOp::Unknown { action: a } && a@ == action
    }
}

fn str_field_or_empty(v: &JsonValue, key: &str) -> (r: String)
    ensures
        r@ == str_or_empty(*v, key@),
{
    match crate::json::get_str(v, key) {
        Some(s) => s,
        None => String::new(),
    }
}

fn index_field(v: &JsonValue, key: &str) -> (r: usize)
    ensures
        r == u64_or_zero(*v, key@) as usize,
{
    match v.get(key) {
        Some(x) => match x.as_u64() {
            Some(n) => n as usize,
            None => 0,
        },
        None => 0,
    }
}

impl EditOp {
    /// The operation that a JSON edit describes.
    pub fn from_json(v: &JsonValue) -> (r: EditOp)
        ensures
            op_of(*v, r),
    {
        let action = match crate::json::get_str(v, "action") {
            Some(a) => a,
            None => copy_str("unknown"),
        };
        let a = action.as_str();
        if str_eq(a, "insert") {
            EditOp::Insert { line: index_field(v, "line"), content: str_field_or_empty(v, "content") }
        } else if str_eq(a, "replace") {
            EditOp::ReplaceLine { line: index_field(v, "line"), content: str_field_or_empty(v, "content") }
        } else if str_eq(a, "delete") {
            EditOp::DeleteLine { line: index_field(v, "line") }
        } else if str_eq(a, "region") {
            EditOp::Region { start: index_field(v, "start"), end: index_field(v, "end"), content: str_field_or_empty(v, "content") }
        } else {
            EditOp::Unknown { action }
        }
    }
}

/// The instruction that a JSON suggestion describes, or why it describes none.
pub open spec fn instruction_of(v: JsonValue, r: Result<EditInstruction, SuggestionApplyError>) -> bool {
    let t = type_of(v);
    if t == "replace"@ {
        match str_spec(get_spec(v, "content"@)) {
            Some(c) => r matches Ok(EditInstruction::Replace { content }) && content@ == c,
            None => r matches Err(SuggestionApplyError::InvalidFormat(_)),
        }
    } else if t == "edit"@ {
        match get_spec(v, "edits"@) {
            Some(JsonValue::Array(items)) => r matches Ok(EditInstruction::Edit { ops }) && ops@.len() == items@.len()
                && forall|i: int| 0 <= i < items@.len() ==> op_of(items@[i], ops@[i]),
            _ => r matches Err(SuggestionApplyError::InvalidFormat(_)),
        }
    } else if t == "create"@ {
        match str_spec(get_spec(v, "content"@)) {
            Some(c) => r matches Ok(EditInstruction::Create { content, overwrite }) && content@ == c
                && overwrite == (bool_spec(get_spec(v, "overwrite"@)) == Some(true)),
            None => r matches Err(SuggestionApplyError::InvalidFormat(_)),
        }
    } else {
        r matches Err(SuggestionApplyError::InvalidFormat(m)) && m@ == "Unknown suggestion type: "@ + t
    }
}

impl EditInstruction {
    /// The instruction that a JSON suggestion describes: its `type` is
    /// `replace`, `edit` or `create`, with the fields that type needs.
    pub fn from_json(v: &JsonValue) -> (r: Result<EditInstruction, SuggestionApplyError>)
        ensures
            instruction_of(*v, r),
    {
        let t = match crate::json::get_str(v, "type") {
            Some(t) => t,
            None => copy_str("unknown"),
        };
        let ts = t.as_str();
        if str_eq(ts, "replace") {
            match crate::json::get_str(v, "content") {
                Some(content) => Ok(EditInstruction::Replace { content }),
                None => Err(SuggestionApplyError::InvalidFormat(copy_str("Missing 'content' field in replace suggestion"))),
            }
        } else if str_eq(ts, "edit") {
            match v.get("edits") {
                Some(JsonValue::Array(items)) => {
                    let mut ops: Vec<EditOp> = Vec::new();
                    let mut i: usize = 0;
                    while i < items.len()
                        invariant
                            i <= items@.len(),
                            ops@.len() == i,
                            forall|j: int| 0 <= j < i ==> op_of(items@[j], ops@[j]),
                        decreases items.len() - i,
                    {
                        ops.push(EditOp::from_json(&items[i]));
                        i = i + 1;
                    }
                    Ok(EditInstruction::Edit { ops })
                },
                _ => Err(SuggestionApplyError::InvalidFormat(copy_str("Missing or invalid 'edits' field in edit suggestion"))),
            }
        } else if str_eq(ts, "create") {
            match crate::json::get_str(v, "content") {
                Some(content) => {
                    let overwrite = match v.get("overwrite") {
                        Some(o) => match o.as_bool() {
                            Some(b) => b,
                            None => false,
                        },
                        None => false,
                    };
                    Ok(EditInstruction::Create { content, overwrite })
                },
                None => Err(SuggestionApplyError::InvalidFormat(copy_str("Missing 'content' field in create suggestion"))),
            }
        } else {
            let mut m = copy_str("Unknown suggestion type: ");
            push_str(&mut m, ts);
            Err(SuggestionApplyError::InvalidFormat(m))
        }
    }
}

impl SuggestionParser {
    /// A one-based line number as a zero-based index (0 stays 0).
    pub fn normalize_line_number(line: usize) -> (r: usize)
        ensures
            r == if line > 0 { (line - 1) as usize } else { 0 },
    {
        if line > 0 {
            line - 1
        } else {
            0
        }
    }
}

/// The text that an instruction leaves, with whether each operation applied,
/// given the current text (absent where the file does not exist).
pub open spec fn applied_spec(current: Option<Seq<char>>, instruction: EditInstruction,
    r: Result<(String, Vec<bool>), SuggestionApplyError>) -> bool
{
    match instruction {
        EditInstruction::Replace { content } => r matches Ok((t, flags)) && t@ == content@ && flags@.len() == 0,
        EditInstruction::Create { content, overwrite } => if current is Some && !overwrite {
            r matches Err(SuggestionApplyError::FileError(_))
        } else {
            r matches Ok((t, flags)) && t@ == content@ && flags@.len() == 0
        },
        EditInstruction::Edit { ops } => match current {
            None => r matches Err(SuggestionApplyError::FileError(_)),
            Some(c) => r matches Ok((t, flags)) && t@ == run_ops(c, ops@) && flags@.len() == ops@.len()
                && forall|i: int| 0 <= i < ops@.len() ==> flags@[i] == op_applied(c, ops@, i),
        },
    }
}

impl SuggestionApplier {
    pub fn new() -> (r: Self) {
        SuggestionApplier { editor: FileEditor::new() }
    }

    /// The text after applying `instruction` to `current` (absent where the
    /// file does not exist): `Replace` gives its content; `Create` too, over an
    /// existing file only with `overwrite`; `Edit` needs an existing file and
    /// applies its operations in order, a failed one being skipped.
    pub fn apply_suggestion(&self, current: &Option<String>, instruction: &EditInstruction) -> (r: Result<(String, Vec<bool>), SuggestionApplyError>)
        ensures
            applied_spec(crate::lines::opt_view(*current), *instruction, r),
    {
        match instruction {
            EditInstruction::Replace { content } => Ok((copy_str(content.as_str()), Vec::new())),
            EditInstruction::Create { content, overwrite } => {
                if current.is_some() && !*overwrite {
                    return Err(SuggestionApplyError::FileError(copy_str("File already exists and overwrite not specified")));
                }
                Ok((copy_str(content.as_str()), Vec::new()))
            },
            EditInstruction::Edit { ops } => match current {
                None => Err(SuggestionApplyError::FileError(copy_str("File does not exist"))),
                Some(c) => Ok(self.editor.apply_edits(c.as_str(), ops)),
            },
        }
    }
}

} // verus!
