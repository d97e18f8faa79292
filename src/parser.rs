//! Free-text suggestions into edit instructions. A suggestion is taken, in
//! order, as a JSON instruction; as a JSON instruction in a fenced code block;
//! as a phrase such as "replace lines 3-5 with", "insert at line 2" or
//! "delete lines 4-6"; as "replace the file with" or "create a new file with";
//! and otherwise as the new content of the whole file.
use vstd::prelude::*;
use crate::json::{JsonValue, get_spec, str_spec, str_eq};
use crate::lines::{copy_str, opt_view};
use crate::suggestions::{EditInstruction, EditOp, SuggestionApplyError, SuggestionParser, instruction_of};

verus! {

/// The groups of the leftmost match of `pattern` in `text` (group 0 is the whole
/// match; a group that took no part is absent), or nothing.
pub uninterp spec fn regex_captures(pattern: Seq<char>, text: Seq<char>) -> Option<Seq<Option<Seq<char>>>>;

pub open spec fn groups_view(r: Option<Vec<Option<String>>>) -> Option<Seq<Option<Seq<char>>>> {
    match r {
        Some(v) => Some(v@.map_values(|g: Option<String>| opt_view(g))),
        None => None,
    }
}

/// Relies on `regex::Regex::new` and `Regex::captures`: the groups of the
/// leftmost-first match, which depend on the pattern and the text alone; nothing
/// where the pattern does not compile or does not match.
#[verifier::external_body]
fn captures(pattern: &str, text: &str) -> (r: Option<Vec<Option<String>>>)
    ensures
        groups_view(r) == regex_captures(pattern@, text@),
{
    let re = regex::Regex::new(pattern).ok()?;
    let caps = re.captures(text)?;
    Some(caps.iter().map(|m| m.map(|m| m.as_str().to_string())).collect())
}

/// A text without leading and trailing white space.
pub open spec fn trimmed(s: Seq<char>) -> Seq<char> {
    crate::diff::trimmed_start(crate::diff::trimmed_end(s))
}

/// Relies on `str::trim`, which removes the leading and trailing characters
/// with the `White_Space` property.
#[verifier::external_body]
fn trim(s: &str) -> (r: String)
    ensures
        r@ == trimmed(s@),
{
    s.trim().to_string()
}

pub const REPLACE_LINES: &'static str = r"(?i)(?:replace|change|modify)\s+lines?\s+(\d+)(?:\s*-\s*|\s+to\s+)(\d+)(?:\s+with)?:?\s*\n([\s\S]+)";
pub const INSERT_AT_LINE: &'static str = r"(?i)(?:insert|add)\s+(?:at|after|before)\s+lines?\s+(\d+):?\s*\n([\s\S]+)";
pub const DELETE_LINES: &'static str = r"(?i)(?:delete|remove)\s+lines?\s+(\d+)(?:\s*-\s*|\s+to\s+)?(\d+)?";
pub const REPLACE_FILE: &'static str = r"(?i)(?:replace the (?:file|content)|update the entire file)(?:\s+with|\s+to)?:?\s*\n([\s\S]+)";
pub const CREATE_FILE: &'static str = r"(?i)(?:create a new file|make a file)(?:\s+with|\s+containing)?:?\s*\n([\s\S]+)";
pub const JSON_BLOCK: &'static str = r"```(?:json|javascript)\s*\n([\s\S]*?)\n\s*```";
pub const ANY_BLOCK: &'static str = r"```\s*\n([\s\S]*?)\n\s*```";

/// Group `i`, where it took part in the match.
pub open spec fn group_of(c: Seq<Option<Seq<char>>>, i: int) -> Option<Seq<char>> {
    if 0 <= i < c.len() { c[i] } else { None }
}

/// A group's text, or the empty text.
pub open spec fn group_text(c: Seq<Option<Seq<char>>>, i: int) -> Seq<char> {
    match group_of(c, i) {
        Some(t) => t,
        None => Seq::empty(),
    }
}

fn group(c: &Vec<Option<String>>, i: usize) -> (r: String)
    ensures
        r@ == group_text(c@.map_values(|g: Option<String>| opt_view(g)), i as int),
{
    if i < c.len() {
        match &c[i] {
            Some(s) => copy_str(s.as_str()),
            None => String::new(),
        }
    } else {
        String::new()
    }
}

pub open spec fn is_digit(c: char) -> bool {
    '0' <= c && c <= '9'
}

/// The value of a sequence of decimal digits.
pub open spec fn digits_value(s: Seq<char>) -> nat
    decreases s.len(),
{
    if s.len() == 0 {
        0
    } else {
        digits_value(s.drop_last()) * 10 + (s.last() as nat - '0' as nat) as nat
    }
}

/// The digits of an unsigned decimal, after an optional `+`.
pub open spec fn unsigned_digits(s: Seq<char>) -> Seq<char> {
    if s.len() > 0 && s[0] == '+' { s.drop_first() } else { s }
}

/// `s` as `usize::from_str` reads it: an optional `+` and at least one decimal
/// digit, with a value that fits.
pub open spec fn parse_usize_spec(s: Seq<char>) -> Option<usize> {
    let d = unsigned_digits(s);
    if d.len() > 0 && (forall|i: int| 0 <= i < d.len() ==> is_digit(d[i])) && digits_value(d) <= usize::MAX {
        Some(digits_value(d) as usize)
    } else {
        None
    }
}

proof fn lemma_digits_value_grows(s: Seq<char>, k: int)
    requires
        0 <= k <= s.len(),
        forall|i: int| 0 <= i < s.len() ==> is_digit(s[i]),
    ensures
        digits_value(s.subrange(0, k)) <= digits_value(s),
    decreases s.len() - k,
{
    if k < s.len() {
        lemma_digits_value_grows(s, k + 1);
        let p = s.subrange(0, k + 1);
        assert(p.drop_last() == s.subrange(0, k));
        assert(digits_value(p) == digits_value(s.subrange(0, k)) * 10 + (p.last() as nat - '0' as nat) as nat);
    } else {
        assert(s.subrange(0, k) == s);
    }
}

/// Reads an unsigned decimal, as `usize::from_str` does.
pub fn parse_usize(s: &str) -> (r: Option<usize>)
    ensures
        r == parse_usize_spec(s@),
{
    let cs = crate::lines::chars_of(s);
    let start: usize = if cs.len() > 0 && cs[0] == '+' { 1 } else { 0 };
    let ghost d = unsigned_digits(s@);
    assert(d == cs@.subrange(start as int, cs@.len() as int));
    if start >= cs.len() {
        return None;
    }
    let mut v: usize = 0;
    let mut i = start;
    while i < cs.len()
        invariant
            cs@ == s@,
            start <= i <= cs@.len(),
            d == cs@.subrange(start as int, cs@.len() as int),
            d == unsigned_digits(s@),
            forall|j: int| 0 <= j < i - start ==> is_digit(d[j]),
            v as nat == digits_value(d.subrange(0, i - start)),
        decreases cs.len() - i,
    {
        let c = cs[i];
        if !('0' <= c && c <= '9') {
            proof {
                assert(!is_digit(d[i - start]));
                assert(!(forall|j: int| 0 <= j < d.len() ==> is_digit(d[j])));
                assert(parse_usize_spec(s@) is None);
            }
            return None;
        }
        let digit = (c as u32 - '0' as u32) as usize;
        let ghost p = d.subrange(0, i - start + 1);
        assert(p.drop_last() == d.subrange(0, i - start));
        assert(p.last() == c);
        if v > (usize::MAX - digit) / 10 {
            proof {
                assert(v * 10 + digit > usize::MAX) by (nonlinear_arith)
                    requires v > (usize::MAX - digit) / 10, digit <= 9;
                assert(digits_value(p) == v * 10 + digit);
                if forall|j: int| 0 <= j < d.len() ==> is_digit(d[j]) {
                    lemma_digits_value_grows(d, i - start + 1);
                    assert(digits_value(d) > usize::MAX);
                }
                assert(parse_usize_spec(s@) is None);
            }
            return None;
        }
        proof {
            assert(v * 10 + digit <= usize::MAX) by (nonlinear_arith)
                requires v <= (usize::MAX - digit) / 10, digit <= 9;
        }
        v = v * 10 + digit;
        i = i + 1;
    }
    assert(d.subrange(0, d.len() as int) == d);
    Some(v)
}

/// `t` read as a number, or `default`.
pub open spec fn number_or(t: Seq<char>, default: usize) -> usize {
    match parse_usize_spec(t) {
        Some(n) => n,
        None => default,
    }
}

fn number_or_default(t: &str, default: usize) -> (r: usize)
    ensures
        r == number_or(t@, default),
{
    match parse_usize(t) {
        Some(n) => n,
        None => default,
    }
}

/// The instruction that a phrase about lines asks for: "replace lines a-b
/// with" (a region), "insert at line n" (an insertion), "delete lines a-b" (a
/// region emptied, or one line deleted where a = b); nothing where none
/// appears.
pub open spec fn edit_phrase(text: Seq<char>, r: Option<EditInstruction>) -> bool {
    match regex_captures(REPLACE_LINES@, text) {
        Some(c) => r matches Some(EditInstruction::Edit { ops }) && ops@.len() == 1
            && (ops@[0] matches EditOp::Region { start, end, content } && start == number_or(group_text(c, 1), 0)
            && end == number_or(group_text(c, 2), 0) && content@ == trimmed(group_text(c, 3))),
        None => match regex_captures(INSERT_AT_LINE@, text) {
            Some(c) => r matches Some(EditInstruction::Edit { ops }) && ops@.len() == 1
                && (ops@[0] matches EditOp::Insert { line, content } && line == number_or(group_text(c, 1), 0)
                && content@ == trimmed(group_text(c, 2))),
            None => match regex_captures(DELETE_LINES@, text) {
                Some(c) => {
                    let start = number_or(group_text(c, 1), 0);
                    let end = if group_text(c, 2).len() > 0 { number_or(group_text(c, 2), start) } else { start };
                    r matches Some(EditInstruction::Edit { ops }) && ops@.len() == 1 && (if start != end {
                        ops@[0] matches EditOp::Region { start: s, end: e, content } && s == start && e == end && content@.len() == 0
                    } else {
                        ops@[0] matches EditOp::DeleteLine { line } && line == start
                    })
                },
                None => r is None,
            },
        },
    }
}

/// The instruction that a whole-file phrase asks for: "replace the file with"
/// or "create a new file with", followed by the content.
pub open spec fn file_phrase(text: Seq<char>, r: Option<EditInstruction>) -> bool {
    match regex_captures(REPLACE_FILE@, text) {
        Some(c) => r matches Some(EditInstruction::Replace { content }) && content@ == trimmed(group_text(c, 1)),
        None => match regex_captures(CREATE_FILE@, text) {
            Some(c) => r matches Some(EditInstruction::Create { content, overwrite }) && content@ == trimmed(group_text(c, 1))
                && !overwrite,
            None => r is None,
        },
    }
}

/// The body of the first fenced block marked `json` or `javascript`, else of
/// the first fenced block.
pub open spec fn code_block(text: Seq<char>) -> Option<Seq<char>> {
    match regex_captures(JSON_BLOCK@, text) {
        Some(c) => Some(group_text(c, 1)),
        None => match regex_captures(ANY_BLOCK@, text) {
            Some(c) => Some(group_text(c, 1)),
            None => None,
        },
    }
}

/// A JSON value that is an instruction: an object whose `type` is `replace` or
/// `create` with a `content`, or `edit` with an `edits` array.
pub open spec fn is_instruction(v: JsonValue) -> bool {
    v is Object && match str_spec(get_spec(v, "type"@)) {
        Some(t) => if t == "replace"@ || t == "create"@ {
            get_spec(v, "content"@) is Some
        } else if t == "edit"@ {
            get_spec(v, "edits"@) matches Some(JsonValue::Array(_))
        } else {
            false
        },
        None => false,
    }
}

pub open spec fn has_edit_phrase(text: Seq<char>) -> bool {
    regex_captures(REPLACE_LINES@, text) is Some || regex_captures(INSERT_AT_LINE@, text) is Some
        || regex_captures(DELETE_LINES@, text) is Some
}

pub open spec fn has_file_phrase(text: Seq<char>) -> bool {
    regex_captures(REPLACE_FILE@, text) is Some || regex_captures(CREATE_FILE@, text) is Some
}

fn single(op: EditOp) -> (r: EditInstruction)
    ensures
        r matches EditInstruction::Edit { ops } && ops@.len() == 1 && ops@[0] == op,
{
    let mut ops: Vec<EditOp> = Vec::new();
    ops.push(op);
    EditInstruction::Edit { ops }
}

impl SuggestionParser {
    /// The body of the first fenced code block, preferring one marked `json` or
    /// `javascript`.
    pub fn extract_code_blocks(text: &str) -> (r: Option<String>)
        ensures
            opt_view(r) == code_block(text@),
    {
        match captures(JSON_BLOCK, text) {
            Some(c) => Some(group(&c, 1)),
            None => match captures(ANY_BLOCK, text) {
                Some(c) => Some(group(&c, 1)),
                None => None,
            },
        }
    }

    /// The instruction that a phrase about lines asks for.
    pub fn parse_file_edit_format(text: &str) -> (r: Option<EditInstruction>)
        ensures
            edit_phrase(text@, r),
    {
        match captures(REPLACE_LINES, text) {
            Some(c) => {
                let start = number_or_default(group(&c, 1).as_str(), 0);
                let end = number_or_default(group(&c, 2).as_str(), 0);
                let content = trim(group(&c, 3).as_str());
                Some(single(EditOp::Region { start, end, content }))
            },
            None => match captures(INSERT_AT_LINE, text) {
                Some(c) => {
                    let line = number_or_default(group(&c, 1).as_str(), 0);
                    let content = trim(group(&c, 2).as_str());
                    Some(single(EditOp::Insert { line, content }))
                },
                None => match captures(DELETE_LINES, text) {
                    Some(c) => {
                        let start = number_or_default(group(&c, 1).as_str(), 0);
                        let second = group(&c, 2);
                        let end = if second.as_str().unicode_len() > 0 {
                            number_or_default(second.as_str(), start)
                        } else {
                            start
                        };
                        if start != end {
                            Some(single(EditOp::Region { start, end, content: String::new() }))
                        } else {
                            Some(single(EditOp::DeleteLine { line: start }))
                        }
                    },
                    None => None,
                },
            },
        }
    }

    /// The instruction that a whole-file phrase asks for.
    pub fn parse_simple_replacement(text: &str) -> (r: Option<EditInstruction>)
        ensures
            file_phrase(text@, r),
    {
        match captures(REPLACE_FILE, text) {
            Some(c) => Some(EditInstruction::Replace { content: trim(group(&c, 1).as_str()) }),
            None => match captures(CREATE_FILE, text) {
                Some(c) => Some(EditInstruction::Create { content: trim(group(&c, 1).as_str()), overwrite: false }),
                None => None,
            },
        }
    }

    /// Whether a JSON value is an instruction.
    pub fn is_valid_json_suggestion(v: &JsonValue) -> (r: bool)
        ensures
            r == is_instruction(*v),
    {
        match v {
            JsonValue::Object(_) => {},
            _ => {
                return false;
            },
        }
        let t = match crate::json::get_str(v, "type") {
            Some(t) => t,
            None => {
                return false;
            },
        };
        if str_eq(t.as_str(), "replace") || str_eq(t.as_str(), "create") {
            v.get("content").is_some()
        } else if str_eq(t.as_str(), "edit") {
            match v.get("edits") {
                Some(JsonValue::Array(_)) => true,
                _ => false,
            }
        } else {
            false
        }
    }

    /// The instruction that a suggestion describes. `direct` is the suggestion
    /// read as JSON and `block` the body of its code block read as JSON, where
    /// they are JSON: the first of them that is an instruction is taken; else a
    /// phrase about lines; else a whole-file phrase; else the whole suggestion
    /// replaces the file.
    pub fn parse_suggestion(suggestion: &str, direct: &Option<JsonValue>, block: &Option<JsonValue>) -> (r: Result<EditInstruction, SuggestionApplyError>)
        ensures
            if *direct matches Some(v) && is_instruction(v) {
                instruction_of(direct->0, r)
            } else if *block matches Some(v) && is_instruction(v) {
                instruction_of(block->0, r)
            } else if has_edit_phrase(suggestion@) {
                r matches Ok(i) && edit_phrase(suggestion@, Some(i))
            } else if has_file_phrase(suggestion@) {
                r matches Ok(i) && file_phrase(suggestion@, Some(i))
            } else {
                r matches Ok(EditInstruction::Replace { content }) && content@ == suggestion@
            },
    {
        if let Some(v) = direct {
            if SuggestionParser::is_valid_json_suggestion(v) {
                return EditInstruction::from_json(v);
            }
        }
        if let Some(v) = block {
            if SuggestionParser::is_valid_json_suggestion(v) {
                return EditInstruction::from_json(v);
            }
        }
        if let Some(i) = SuggestionParser::parse_file_edit_format(suggestion) {
            return Ok(i);
        }
        if let Some(i) = SuggestionParser::parse_simple_replacement(suggestion) {
            return Ok(i);
        }
        Ok(EditInstruction::Replace { content: copy_str(suggestion) })
    }
}

} // verus!
