use mcedit::editor::{EditorError, FileEditor};
use mcedit::lines::{split_lines, write_lines};
use mcedit::suggestions::{EditInstruction, EditOp, SuggestionParser};
use mcedit::json::JsonValue;

fn lines(text: &str) -> Vec<String> {
    split_lines(text)
}

#[test]
fn split_follows_line_endings() {
    assert_eq!(lines("a\nb\r\nc"), vec!["a", "b", "c"]);
    assert_eq!(lines("a\nb\n"), vec!["a", "b"]);
    assert_eq!(lines(""), Vec::<String>::new());
    assert_eq!(lines("\n"), vec![""]);
    assert_eq!(lines("x\r"), vec!["x\r"]);
}

#[test]
fn write_ends_every_line() {
    let v = vec!["a".to_string(), "b".to_string(), "".to_string()];
    assert_eq!(write_lines(&v), "a\nb\n\n");
    assert_eq!(write_lines(&Vec::new()), "");
}

#[test]
fn edit_region_replaces_half_open_span() {
    let ed = FileEditor::new();
    let out = ed.edit_region("a\nb\nc\nd\ne", 0, 2, "X").unwrap();
    assert_eq!(lines(&out), vec!["X", "c", "d", "e"]);
    assert_eq!(out, "X\nc\nd\ne\n");
}

#[test]
fn edit_region_clamps_end_and_checks_range() {
    let ed = FileEditor::new();
    assert_eq!(ed.edit_region("a\nb\nc", 1, 99, "Z").unwrap(), "a\nZ\n");
    assert_eq!(ed.edit_region("a\nb\nc", 2, 1, "Z"), Err(EditorError::InvalidRange { start: 2, end: 1 }));
    assert_eq!(ed.edit_region("a\nb\nc", 3, 5, "Z"), Err(EditorError::LineOutOfRange(3)));
    assert_eq!(ed.edit_region("a\nb\nc", 1, 2, "Y\n").unwrap(), "a\nY\nc\n");
}

#[test]
fn line_count_boundaries() {
    let ed = FileEditor::new();
    let text = "one\ntwo\nthree";
    assert_eq!(ed.replace_line(text, 3, "x"), Err(EditorError::LineOutOfRange(3)));
    assert_eq!(ed.delete_line(text, 3), Err(EditorError::LineOutOfRange(3)));
    assert_eq!(ed.insert_line(text, 3, "four").unwrap(), "one\ntwo\nthree\nfour\n");
    assert_eq!(ed.insert_line(text, 4, "five"), Err(EditorError::LineOutOfRange(4)));
}

#[test]
fn single_line_edits() {
    let ed = FileEditor::new();
    let text = "one\ntwo\nthree\n";
    assert_eq!(ed.insert_line(text, 0, "zero").unwrap(), "zero\none\ntwo\nthree\n");
    assert_eq!(ed.replace_line(text, 1, "TWO").unwrap(), "one\nTWO\nthree\n");
    assert_eq!(ed.delete_line(text, 0).unwrap(), "two\nthree\n");
}

#[test]
fn batch_applies_in_order_and_skips_failures() {
    let ed = FileEditor::new();
    let ops = vec![
        EditOp::Insert { line: 0, content: "head".to_string() },
        EditOp::DeleteLine { line: 10 },
        EditOp::ReplaceLine { line: 1, content: "A".to_string() },
        EditOp::Unknown { action: "frobnicate".to_string() },
        EditOp::Region { start: 2, end: 3, content: "R".to_string() },
    ];
    let (text, applied) = ed.apply_edits("a\nb\nc", &ops);
    assert_eq!(applied, vec![true, false, true, false, true]);
    assert_eq!(text, "head\nA\nR\nc\n");
}

#[test]
fn normalize_line_number_is_zero_based() {
    assert_eq!(SuggestionParser::normalize_line_number(0), 0);
    assert_eq!(SuggestionParser::normalize_line_number(1), 0);
    assert_eq!(SuggestionParser::normalize_line_number(10), 9);
}

fn json_object(fields: Vec<(&str, JsonValue)>) -> JsonValue {
    JsonValue::Object(fields.into_iter().map(|(k, v)| (k.to_string(), v)).collect())
}

#[test]
fn instruction_from_json() {
    let v = json_object(vec![("type", JsonValue::Str("edit".into())), ("edits", JsonValue::Array(vec![
        json_object(vec![("action", JsonValue::Str("insert".into())), ("line", JsonValue::UInt(2)), ("content", JsonValue::Str("x".into()))]),
        json_object(vec![("action", JsonValue::Str("region".into())), ("start", JsonValue::UInt(1)), ("end", JsonValue::UInt(3))]),
        json_object(vec![("action", JsonValue::Str("swap".into()))]),
    ]))]);
    match EditInstruction::from_json(&v).unwrap() {
        EditInstruction::Edit { ops } => {
            assert_eq!(ops.len(), 3);
            assert!(matches!(&ops[0], EditOp::Insert { line: 2, content } if content == "x"));
            assert!(matches!(&ops[1], EditOp::Region { start: 1, end: 3, content } if content.is_empty()));
            assert!(matches!(&ops[2], EditOp::Unknown { action } if action == "swap"));
        }
        other => panic!("unexpected {:?}", other),
    }
    let c = json_object(vec![("type", JsonValue::Str("create".into())), ("content", JsonValue::Str("hi".into())), ("overwrite", JsonValue::Bool(true))]);
    assert!(matches!(EditInstruction::from_json(&c).unwrap(), EditInstruction::Create { overwrite: true, .. }));
    let bad = json_object(vec![("type", JsonValue::Str("move".into()))]);
    assert!(matches!(EditInstruction::from_json(&bad), Err(mcedit::suggestions::SuggestionApplyError::InvalidFormat(m)) if m == "Unknown suggestion type: move"));
    let missing = json_object(vec![("type", JsonValue::Str("replace".into()))]);
    assert!(EditInstruction::from_json(&missing).is_err());
}

#[test]
fn edits_read_back_as_the_edited_lines() {
    let ed = FileEditor::new();
    assert_eq!(lines(&ed.edit_region("a\nb", 0, 1, "").unwrap()), vec!["b"]);
    assert_eq!(lines(&ed.insert_line("a", 1, "").unwrap()), vec!["a", ""]);
    assert_eq!(lines(&ed.replace_line("a\nb", 1, "").unwrap()), vec!["a", ""]);
    assert_eq!(lines(&ed.delete_line("a\n\n", 0).unwrap()), vec![""]);
    assert_eq!(lines(&ed.edit_region("a\nb\nc", 1, 2, "x\ny").unwrap()), vec!["a", "x", "y", "c"]);
    let (text, _) = ed.apply_edits("a\nb", &vec![EditOp::Region { start: 0, end: 1, content: String::new() }]);
    assert_eq!(lines(&text), vec!["b"]);
}
