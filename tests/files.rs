use mcedit::backup::{BackupEntry, BackupManager};
use mcedit::file_service::{FileService, FileServiceError, FsAction};
use mcedit::paths::{file_name, join};

fn project_service() -> FileService {
    FileService::new("/home/u/proj", true).unwrap()
}

#[test]
fn resolve_rejects_escapes() {
    let fs = project_service();
    let r = fs.resolve_path("../../etc/passwd", Some("/etc/passwd".into()), Some("/home/u/proj".into()));
    assert!(matches!(r, Err(FileServiceError::PermissionDenied(_))));
    let r = fs.resolve_path("/etc/passwd", None, Some("/home/u/proj".into()));
    assert!(matches!(r, Err(FileServiceError::PermissionDenied(_))));
    let r = fs.resolve_path("/home/u/projector/x", Some("/home/u/projector/x".into()), Some("/home/u/proj".into()));
    assert!(matches!(r, Err(FileServiceError::PermissionDenied(_))));
}

#[test]
fn resolve_inside_and_new_files() {
    let fs = project_service();
    assert_eq!(fs.resolve_path("src/a.rs", Some("/home/u/proj/src/a.rs".into()), Some("/home/u/proj".into())).unwrap(), "/home/u/proj/src/a.rs");
    assert_eq!(fs.resolve_path("new/b.rs", None, Some("/home/u/proj".into())).unwrap(), "/home/u/proj/new/b.rs");
    assert_eq!(fs.joined_path("x.txt").unwrap(), "/home/u/proj/x.txt");
}

#[test]
fn mutations_back_up_existing_files_first() {
    let fs = project_service();
    let plan = fs.write_file("/home/u/proj/a", true, "new");
    assert!(matches!(&plan[0], FsAction::Backup { path } if path == "/home/u/proj/a"));
    assert!(matches!(&plan[1], FsAction::Write { content, .. } if content == "new"));
    let plan = fs.write_file("/home/u/proj/b", false, "x");
    assert_eq!(plan.len(), 1);
    let plan = fs.insert_line("/home/u/proj/a", &Some("l0\nl1".into()), 2, "l2").unwrap();
    assert!(matches!(&plan[0], FsAction::Backup { .. }));
    assert!(matches!(&plan[1], FsAction::Write { content, .. } if content == "l0\nl1\nl2\n"));
    assert!(matches!(fs.replace_line("/p", &Some("l0\nl1".into()), 2, "x"), Err(FileServiceError::LineNumberOutOfRange(2))));
    assert!(matches!(fs.create_file("/p", true, "x"), Err(FileServiceError::FileAlreadyExists(_))));
    assert!(matches!(fs.append_to_file("/p", false, "x"), Err(FileServiceError::FileNotFound(_))));
    assert!(matches!(fs.rename_file("/a", true, "/b", true), Err(FileServiceError::FileAlreadyExists(_))));
    assert!(matches!(fs.delete_file("/a", true, false), Err(FileServiceError::InvalidPath(_))));
}

fn entry(name: &str, modified: u64) -> BackupEntry {
    BackupEntry { path: format!("/b/{}", name), name: name.to_string(), modified }
}

#[test]
fn listing_is_newest_first_and_pruned() {
    let bm = BackupManager::new("/home/u/proj");
    assert_eq!(bm.backup_dir, "/home/u/proj/.backups");
    let mut entries = Vec::new();
    for i in 0..13u64 {
        entries.push(entry(&format!("a.txt_{}.bak", i), 1000 + i));
    }
    entries.push(entry("b.txt_1.bak", 5000));
    entries.push(entry("a.txt_notes", 6000));
    let listed = bm.list_backups("a.txt", entries);
    assert_eq!(listed.len(), 13);
    assert_eq!(listed[0].modified, 1012);
    assert_eq!(listed[12].modified, 1000);
    let gone = bm.backups_to_remove(&listed);
    assert_eq!(gone, vec!["/b/a.txt_2.bak", "/b/a.txt_1.bak", "/b/a.txt_0.bak"]);
    assert!(BackupManager::latest_backup("/x", &Vec::new()).is_err());
}

#[test]
fn backup_names() {
    assert_eq!(BackupManager::backup_file_name("a.txt", "20240101_000000.000"), "a.txt_20240101_000000.000.bak");
    let bm = BackupManager::new("/p");
    let p = bm.generate_backup_filename("/p/dir/a.txt", "/p/dir/a.txt", "T").unwrap();
    assert!(p.starts_with("/p/.backups/"));
    assert!(p.ends_with("/a.txt_T.bak"));
    let bucket = &p["/p/.backups/".len().."/p/.backups/".len() + 16];
    assert!(bucket.chars().all(|c| c.is_ascii_hexdigit() && !c.is_ascii_uppercase()));
    assert!(bm.generate_backup_filename("/", "/", "T").is_err());
}

#[test]
fn path_helpers() {
    assert_eq!(file_name("/a/b/c.txt").as_deref(), Some("c.txt"));
    assert_eq!(file_name("/a/b/").as_deref(), Some("b"));
    assert_eq!(file_name("/a/.."), None);
    assert_eq!(join("/a", "b"), "/a/b");
    assert_eq!(join("/a/", "b"), "/a/b");
    assert_eq!(join("/a", "/c"), "/c");
}

#[test]
fn restoring_a_given_backup() {
    let bm = BackupManager::new("/p");
    assert!(matches!(bm.restore_specific_backup("/p/.backups/x/a_1.bak", false, "/p/a"), Err(mcedit::backup::BackupError::FileNotFound(_))));
    let plan = bm.restore_specific_backup("/p/.backups/x/a_1.bak", true, "/p/b").unwrap();
    assert!(matches!(&plan[0], FsAction::Restore { backup, target } if backup == "/p/.backups/x/a_1.bak" && target == "/p/b"));
}
