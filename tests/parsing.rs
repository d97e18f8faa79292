use mcedit::json::JsonValue;
use mcedit::parser::parse_usize;
use mcedit::suggestions::{EditInstruction, EditOp, SuggestionParser};

fn parse(text: &str) -> EditInstruction {
    SuggestionParser::parse_suggestion(text, &None, &None).unwrap()
}

#[test]
fn numbers_as_usize_reads_them() {
    assert_eq!(parse_usize("42"), Some(42));
    assert_eq!(parse_usize("+7"), Some(7));
    assert_eq!(parse_usize(""), None);
    assert_eq!(parse_usize("4x"), None);
    assert_eq!(parse_usize("99999999999999999999999"), None);
    assert_eq!(parse_usize("18446744073709551615"), Some(usize::MAX));
}

#[test]
fn line_phrases() {
    match parse("Replace lines 3-5 with:\n  new body  \n") {
        EditInstruction::Edit { ops } => {
            assert!(matches!(&ops[0], EditOp::Region { start: 3, end: 5, content } if content == "new body"));
        }
        other => panic!("{:?}", other),
    }
    match parse("insert at line 2:\nhello") {
        EditInstruction::Edit { ops } => assert!(matches!(&ops[0], EditOp::Insert { line: 2, content } if content == "hello")),
        other => panic!("{:?}", other),
    }
    match parse("please delete lines 4 to 6") {
        EditInstruction::Edit { ops } => assert!(matches!(&ops[0], EditOp::Region { start: 4, end: 6, content } if content.is_empty())),
        other => panic!("{:?}", other),
    }
    match parse("remove line 9") {
        EditInstruction::Edit { ops } => assert!(matches!(&ops[0], EditOp::DeleteLine { line: 9 })),
        other => panic!("{:?}", other),
    }
}

#[test]
fn whole_file_phrases_and_fallback() {
    assert!(matches!(parse("Replace the file with:\nabc\n"), EditInstruction::Replace { content } if content == "abc"));
    assert!(matches!(parse("create a new file containing\nxyz"), EditInstruction::Create { content, overwrite: false } if content == "xyz"));
    assert!(matches!(parse("just some text"), EditInstruction::Replace { content } if content == "just some text"));
}

#[test]
fn code_blocks_and_json() {
    let text = "Here:\n```json\n{\"type\":\"replace\",\"content\":\"x\"}\n```\n";
    assert_eq!(SuggestionParser::extract_code_blocks(text).as_deref(), Some("{\"type\":\"replace\",\"content\":\"x\"}"));
    let v = JsonValue::Object(vec![("type".into(), JsonValue::Str("replace".into())), ("content".into(), JsonValue::Str("x".into()))]);
    assert!(SuggestionParser::is_valid_json_suggestion(&v));
    let r = SuggestionParser::parse_suggestion(text, &None, &Some(v)).unwrap();
    assert!(matches!(r, EditInstruction::Replace { content } if content == "x"));
    let not_instruction = JsonValue::Object(vec![("type".into(), JsonValue::Str("edit".into()))]);
    assert!(!SuggestionParser::is_valid_json_suggestion(&not_instruction));
}
