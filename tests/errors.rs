use mcedit::backup::{BackupEntry, BackupError};
use mcedit::config::Config;
use mcedit::editor::EditorError;
use mcedit::file_service::{FileService, FileServiceError, FsAction};
use mcedit::handler::{error_response, text_response};
use mcedit::json::JsonValue;
use mcedit::logging;
use mcedit::mcedit::{McEdit, McEditError};
use mcedit::protocol::{JsonRpcErrorCode, Message, ToolCall};
use mcedit::suggestions::{EditInstruction, EditOp, SuggestionApplier, SuggestionApplyError};
use mcedit::tools::{failure_message, parse_failure_message, read_payload, suggestion_payload};

fn srv_service() -> FileService {
    FileService::new("/srv/p", true).unwrap()
}

#[test]
fn service_errors() {
    let fs = srv_service();
    assert!(matches!(FileService::new("/nope", false), Err(FileServiceError::InvalidPath(_))));
    assert!(matches!(fs.resolve_path("a", Some("/srv/p/a".into()), None), Err(FileServiceError::IoError(_))));
    assert!(matches!(fs.restore_backup("/srv/p/a", &Vec::new()), Err(FileServiceError::BackupError(BackupError::NoBackupAvailable(_)))));
    assert_eq!(
        fs.edit_region("/srv/p/a", &Some("x\ny".into()), 2, 1, "z").unwrap_err(),
        FileServiceError::Editor(EditorError::InvalidRange { start: 2, end: 1 })
    );
    assert!(matches!(fs.delete_line("/srv/p/a", &None, 0), Err(FileServiceError::FileNotFound(p)) if p == "/srv/p/a"));
}

#[test]
fn restore_uses_newest_backup() {
    let fs = srv_service();
    let listed = vec![
        BackupEntry { path: "/b/a_2.bak".into(), name: "a_2.bak".into(), modified: 2 },
        BackupEntry { path: "/b/a_1.bak".into(), name: "a_1.bak".into(), modified: 1 },
    ];
    let plan = fs.restore_backup("/srv/p/a", &listed).unwrap();
    assert_eq!(plan.len(), 1);
    assert!(matches!(&plan[0], FsAction::Restore { backup, target } if backup == "/b/a_2.bak" && target == "/srv/p/a"));
}

#[test]
fn suggestion_application() {
    let ap = SuggestionApplier::new();
    let create = EditInstruction::Create { content: "c".into(), overwrite: false };
    assert!(matches!(ap.apply_suggestion(&Some("old".into()), &create), Err(SuggestionApplyError::FileError(_))));
    assert_eq!(ap.apply_suggestion(&None, &create).unwrap().0, "c");
    let edit = EditInstruction::Edit { ops: vec![EditOp::DeleteLine { line: 0 }, EditOp::DeleteLine { line: 5 }] };
    assert!(matches!(ap.apply_suggestion(&None, &edit), Err(SuggestionApplyError::FileError(_))));
    let (text, applied) = ap.apply_suggestion(&Some("a\nb".into()), &edit).unwrap();
    assert_eq!(text, "b\n");
    assert_eq!(applied, vec![true, false]);
    let fs = srv_service();
    let (plan, _) = fs.apply_suggestion("/srv/p/f", &Some("a\nb".into()), &edit).unwrap();
    assert!(matches!(&plan[0], FsAction::Backup { path } if path == "/srv/p/f"));
    assert!(matches!(&plan[1], FsAction::Write { content, .. } if content == "b\n"));
    assert!(matches!(fs.apply_suggestion("/srv/p/f", &Some("a".into()), &create), Err(FileServiceError::FileAlreadyExists(_))));
    let (plan, _) = fs.apply_suggestion("/srv/p/new", &None, &create).unwrap();
    assert_eq!(plan.len(), 1);
}

#[test]
fn editor_directory_changes() {
    assert!(matches!(McEdit::new(Config::default_config(), "/nowhere", false), Err(McEditError::InvalidDirectory(_))));
    let mut m = McEdit::new(Config::default_config(), "/srv/p", true).unwrap();
    assert_eq!(m.get_current_directory(), "/srv/p");
    assert_eq!(m.directory_target("sub"), "/srv/p/sub");
    assert_eq!(m.directory_target("/abs"), "/abs");
    assert!(m.change_current_directory("/srv/q", false).is_err());
    assert_eq!(m.get_current_directory(), "/srv/p");
    m.change_current_directory("/srv/q", true).unwrap();
    assert_eq!(m.get_current_directory(), "/srv/q");
    assert_eq!(m.file_service.base_directory, "/srv/q");
    assert_eq!(m.file_service.backup_manager.backup_dir, "/srv/q/.backups");
}

#[test]
fn project_directory_priority() {
    let c = Config::default_config();
    assert_eq!(McEdit::project_directory(Some("rel".into()), Some("/env".into()), &c, "/work", None), "/work/rel");
    assert_eq!(McEdit::project_directory(None, Some("/env".into()), &c, "/work", None), "/env");
    assert_eq!(McEdit::project_directory(None, None, &c, "/work", None), "/work");
    assert_eq!(McEdit::project_directory(None, None, &c, "/", Some("/home/x".into())), "/home/x/project");
    assert_eq!(c.max_backups(), 10);
}

#[test]
fn responses_and_payloads() {
    match error_response(9, JsonRpcErrorCode::InternalError, "boom".into()) {
        Message::Response { id: 9, result: None, error: Some(e), .. } => {
            assert!(matches!(e.get("code"), Some(JsonValue::NegInt(-32603))));
        }
        _ => panic!(),
    }
    match text_response(3, "{}".into()) {
        Message::Response { id: 3, result: Some(r), error: None, .. } => match r.get("content") {
            Some(JsonValue::Array(items)) => {
                assert!(matches!(items[0].get("text"), Some(JsonValue::Str(t)) if t == "{}"));
            }
            _ => panic!(),
        },
        _ => panic!(),
    }
    let call = ToolCall::ReadFile { path: "a".into() };
    assert_eq!(failure_message(&call, "File not found"), "Failed to read file: File not found");
    let p = read_payload("body", "a.txt");
    assert!(matches!(p.get("content"), Some(JsonValue::Str(s)) if s == "body"));
}

#[test]
fn log_lines() {
    assert_eq!(logging::warn("careful").line("T"), "[T] [warning] careful");
    assert_eq!(logging::debug("d").line("T"), "[T] [debug] d");
    assert_eq!(logging::info("i").level, logging::LogLevel::Info);
    assert_eq!(logging::error("e").message, "e");
}

#[test]
fn edit_results_report_each_operation() {
    let ops = vec![EditOp::DeleteLine { line: 0 }, EditOp::DeleteLine { line: 9 }];
    let p = suggestion_payload("edit", "/srv/p/a", &ops, &vec![true, false]);
    match p.get("results") {
        Some(JsonValue::Array(items)) => {
            assert_eq!(items.len(), 2);
            assert!(matches!(items[0].get("status"), Some(JsonValue::Str(s)) if s == "success"));
            assert!(matches!(items[1].get("status"), Some(JsonValue::Str(s)) if s == "error"));
        }
        _ => panic!(),
    }
    assert_eq!(parse_failure_message("bad"), "Failed to parse suggestion: bad");
}
