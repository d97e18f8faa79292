//! The file service: resolves user paths inside the project directory and
//! decides, for each operation, the steps to perform on disk. Every step list
//! that mutates an existing file begins with a backup of it, and the caller
//! performs the steps in order, stopping at the first that fails.
use vstd::prelude::*;
use crate::backup::{BackupManager, BackupEntry, BackupError};
use crate::editor::{FileEditor, EditorError};
use crate::lines::copy_str;
use crate::paths::{is_absolute, join_path, has_prefix, descends_from, is_absolute_path, starts_with, is_descendant, join, concat};
use crate::suggestions::{EditInstruction, EditOp, SuggestionApplier, run_ops, op_applied};
use crate::lines::lines_of;
use crate::editor::{inserted_text, replaced_text, deleted_text, region_text};

verus! {

/// Why a file operation was refused or failed.
#[derive(Debug, Clone, PartialEq, Eq)]
pub enum FileServiceError {
    FileNotFound(String),
    PermissionDenied(String),
    InvalidPath(String),
    IoError(String),
    LineNumberOutOfRange(usize),
    FileAlreadyExists(String),
    BackupError(BackupError),
    Editor(EditorError),
}

/// One step on disk.
#[derive(Debug)]
pub enum FsAction {
    /// Copy the file into its backup bucket, then prune the bucket.
    Backup { path: String },
    /// Create the parent directories, then replace the file's content.
    Write { path: String, content: String },
    /// Add to the end of an existing file.
    Append { path: String, content: String },
    /// Delete the file.
    Remove { path: String },
    /// Create the parent directories of `to`, then move `from` there.
    Rename { from: String, to: String },
    /// Overwrite `target` with the bytes of `backup`, taking no backup.
    Restore { backup: String, target: String },
}

/// A step, over texts.
pub enum Effect {
    Backup(Seq<char>),
    Write(Seq<char>, Seq<char>),
    Append(Seq<char>, Seq<char>),
    Remove(Seq<char>),
    Rename(Seq<char>, Seq<char>),
    Restore(Seq<char>, Seq<char>),
}

pub open spec fn effect(a: FsAction) -> Effect {
    match a {
        FsAction::Backup { path } => Effect::Backup(path@),
        FsAction::Write { path, content } => Effect::Write(path@, content@),
        FsAction::Append { path, content } => Effect::Append(path@, content@),
        FsAction::Remove { path } => Effect::Remove(path@),
        FsAction::Rename { from, to } => Effect::Rename(from@, to@),
        FsAction::Restore { backup, target } => Effect::Restore(backup@, target@),
    }
}

pub open spec fn effects(plan: Seq<FsAction>) -> Seq<Effect> {
    plan.map_values(|a: FsAction| effect(a))
}

/// A backup of `target` when it exists, then `last`.
pub open spec fn guarded(target: Seq<char>, exists: bool, last: Effect) -> Seq<Effect> {
    if exists { seq![Effect::Backup(target), last] } else { seq![last] }
}

/// Files and, for each file, its backups newest first.
pub struct Disk {
    pub files: Map<Seq<char>, Seq<char>>,
    pub backups: Map<Seq<char>, Seq<Seq<char>>>,
}

pub open spec fn backups_of(d: Disk, p: Seq<char>) -> Seq<Seq<char>> {
    if d.backups.contains_key(p) { d.backups[p] } else { Seq::empty() }
}

/// Keeps the newest `max`.
pub open spec fn keep_newest(s: Seq<Seq<char>>, max: nat) -> Seq<Seq<char>> {
    if s.len() <= max { s } else { s.subrange(0, max as int) }
}

/// The disk after one step, or nothing where the step fails.
pub open spec fn perform(d: Disk, e: Effect, max: nat) -> Option<Disk> {
    match e {
        Effect::Backup(p) => if d.files.contains_key(p) {
            Some(Disk { backups: d.backups.insert(p, keep_newest(seq![d.files[p]] + backups_of(d, p), max)), ..d })
        } else {
            None
        },
        Effect::Write(p, c) => Some(Disk { files: d.files.insert(p, c), ..d }),
        Effect::Append(p, c) => if d.files.contains_key(p) {
            Some(Disk { files: d.files.insert(p, d.files[p] + c), ..d })
        } else {
            None
        },
        Effect::Remove(p) => if d.files.contains_key(p) {
            Some(Disk { files: d.files.remove(p), ..d })
        } else {
            None
        },
        Effect::Rename(a, b) => if d.files.contains_key(a) {
            Some(Disk { files: d.files.remove(a).insert(b, d.files[a]), ..d })
        } else {
            None
        },
        Effect::Restore(b, t) => if d.files.contains_key(b) {
            Some(Disk { files: d.files.insert(t, d.files[b]), ..d })
        } else {
            None
        },
    }
}

/// The disk after the steps in order, or nothing where one fails.
pub open spec fn perform_all(d: Disk, plan: Seq<Effect>, max: nat) -> Option<Disk>
    decreases plan.len(),
{
    if plan.len() == 0 {
        Some(d)
    } else {
        match perform(d, plan[0], max) {
            Some(d2) => perform_all(d2, plan.drop_first(), max),
            None => None,
        }
    }
}

proof fn lemma_no_backup_keeps_backups(d: Disk, plan: Seq<Effect>, max: nat)
    requires
        forall|i: int| 0 <= i < plan.len() ==> !(plan[i] is Backup),
        perform_all(d, plan, max) is Some,
    ensures
        perform_all(d, plan, max)->0.backups == d.backups,
    decreases plan.len(),
{
    if plan.len() > 0 {
        let d2 = perform(d, plan[0], max)->0;
        assert forall|i: int| 0 <= i < plan.drop_first().len() implies !(plan.drop_first()[i] is Backup) by {
            assert(plan.drop_first()[i] == plan[i + 1]);
        }
        lemma_no_backup_keeps_backups(d2, plan.drop_first(), max);
    }
}

/// Backup before mutation: where a step list begins with a backup of an
/// existing file and takes no other, carrying it out to the end leaves that
/// file with at least one backup, the newest of which is its content from
/// before the steps.
pub proof fn mutation_keeps_prior_content(d: Disk, plan: Seq<Effect>, target: Seq<char>, max: nat)
    requires
        max >= 1,
        d.files.contains_key(target),
        plan.len() > 0,
        plan[0] == Effect::Backup(target),
        forall|i: int| 1 <= i < plan.len() ==> !(plan[i] is Backup),
        perform_all(d, plan, max) is Some,
    ensures
        backups_of(perform_all(d, plan, max)->0, target).len() > 0,
        backups_of(perform_all(d, plan, max)->0, target)[0] == d.files[target],
{
    let d1 = perform(d, plan[0], max)->0;
    assert forall|i: int| 0 <= i < plan.drop_first().len() implies !(plan.drop_first()[i] is Backup) by {
        assert(plan.drop_first()[i] == plan[i + 1]);
    }
    lemma_no_backup_keeps_backups(d1, plan.drop_first(), max);
    assert(backups_of(d1, target) == keep_newest(seq![d.files[target]] + backups_of(d, target), max));
    assert((seq![d.files[target]] + backups_of(d, target))[0] == d.files[target]);
}

/// Every mutation of an existing file keeps its prior content: the steps that
/// the service plans for it are a backup of the file followed by one step that
/// is not a backup, and once they are carried out the file's newest backup is
/// its content from before.
pub proof fn backed_up_mutation_keeps_prior_content(d: Disk, target: Seq<char>, last: Effect, max: nat)
    requires
        max >= 1,
        d.files.contains_key(target),
        !(last is Backup),
        perform_all(d, guarded(target, true, last), max) is Some,
    ensures
        backups_of(perform_all(d, guarded(target, true, last), max)->0, target).len() > 0,
        backups_of(perform_all(d, guarded(target, true, last), max)->0, target)[0] == d.files[target],
{
    mutation_keeps_prior_content(d, guarded(target, true, last), target, max);
}

/// After `n` backups of a file whose content was `c_1, ..., c_n` in turn, it
/// keeps exactly the `max` most recent, newest first.
pub open spec fn backups_after(start: Seq<Seq<char>>, contents: Seq<Seq<char>>, max: nat) -> Seq<Seq<char>>
    decreases contents.len(),
{
    if contents.len() == 0 {
        start
    } else {
        keep_newest(seq![contents.last()] + backups_after(start, contents.drop_last(), max), max)
    }
}

/// Retention: after `max + k` backups of one file, it has exactly the `max`
/// most recent, newest first.
pub proof fn retention_keeps_most_recent(start: Seq<Seq<char>>, contents: Seq<Seq<char>>, max: nat)
    requires
        contents.len() >= max,
        start.len() <= max,
    ensures
        backups_after(start, contents, max) == contents.subrange(contents.len() - max, contents.len() as int).reverse(),
    decreases contents.len(),
{
    lemma_backups_after_shape(start, contents, max);
}

proof fn lemma_backups_after_shape(start: Seq<Seq<char>>, contents: Seq<Seq<char>>, max: nat)
    requires
        start.len() <= max,
    ensures
        contents.len() >= max ==> backups_after(start, contents, max) == contents.subrange(contents.len() - max, contents.len() as int).reverse(),
        contents.len() < max ==> backups_after(start, contents, max) == keep_newest(contents.reverse() + start, max),
    decreases contents.len(),
{
    if contents.len() > 0 {
        let prev = contents.drop_last();
        lemma_backups_after_shape(start, prev, max);
        let n = contents.len() as int;
        let m = max as int;
        if prev.len() >= max {
            let p = prev.subrange(prev.len() - m, prev.len() as int).reverse();
            assert(backups_after(start, contents, max) == keep_newest(seq![contents.last()] + p, max));
            if m > 0 {
                assert((seq![contents.last()] + p).subrange(0, m) =~= contents.subrange(n - m, n).reverse());
            } else {
                assert(contents.subrange(n, n).reverse() =~= Seq::<Seq<char>>::empty());
            }
        } else {
            let q = keep_newest(prev.reverse() + start, max);
            assert(contents.reverse() =~= seq![contents.last()] + prev.reverse());
            assert(backups_after(start, contents, max) == keep_newest(seq![contents.last()] + q, max));
            if prev.reverse().len() + start.len() <= max {
                assert(seq![contents.last()] + q =~= contents.reverse() + start);
            } else {
                assert((seq![contents.last()] + q).subrange(0, m) =~= (contents.reverse() + start).subrange(0, m));
            }
            if contents.len() >= max {
                assert(contents.len() == max);
                assert(keep_newest(contents.reverse() + start, max) =~= contents.subrange(n - m, n).reverse());
            }
        }
    } else {
        assert(contents.reverse() + start =~= start);
    }
}

/// Resolves paths within the project directory and plans file operations.
pub struct FileService {
    pub base_directory: String,
    pub editor: FileEditor,
    pub backup_manager: BackupManager,
}

fn guarded_plan(target: &str, exists: bool, last: FsAction) -> (r: Vec<FsAction>)
    ensures
        effects(r@) == guarded(target@, exists, effect(last)),
{
    let mut plan: Vec<FsAction> = Vec::new();
    if exists {
        plan.push(FsAction::Backup { path: copy_str(target) });
    }
    plan.push(last);
    assert(effects(plan@) =~= guarded(target@, exists, effect(last)));
    plan
}

fn not_found(path: &str) -> (r: FileServiceError)
    ensures
        r matches FileServiceError::FileNotFound(p) && p@ == path@,
{
    FileServiceError::FileNotFound(copy_str(path))
}

fn editor_failure(e: EditorError) -> (r: FileServiceError)
    ensures
        e matches EditorError::LineOutOfRange(n) ==> r == FileServiceError::LineNumberOutOfRange(n),
        !(e is LineOutOfRange) ==> r == FileServiceError::Editor(e),
{
    match e {
        EditorError::LineOutOfRange(n) => FileServiceError::LineNumberOutOfRange(n),
        other => FileServiceError::Editor(other),
    }
}

/// `path` joined onto the base, where a relative or a textually contained
/// absolute path; an absolute path outside the base is refused.
pub open spec fn joined_spec(base: Seq<char>, path: Seq<char>) -> Option<Seq<char>> {
    if is_absolute(path) {
        if has_prefix(path, base) { Some(path) } else { None }
    } else {
        Some(join_path(base, path))
    }
}

impl FileService {
    /// Backups go under `.backups` in the base directory.
    pub open spec fn wf(&self) -> bool {
        self.backup_manager.backup_dir@ == join_path(self.base_directory@, ".backups"@)
    }

    /// A service rooted at `base_directory`, which must exist.
    pub fn new(base_directory: &str, exists: bool) -> (r: Result<Self, FileServiceError>)
        ensures
            exists ==> (r matches Ok(s) && s.base_directory@ == base_directory@ && s.wf()
                && s.backup_manager.backup_dir@ == join_path(base_directory@, ".backups"@)),
            !exists ==> r matches Err(FileServiceError::InvalidPath(_)),
    {
        if !exists {
            return Err(FileServiceError::InvalidPath(concat("Base directory does not exist: ", base_directory)));
        }
        Ok(FileService {
            base_directory: copy_str(base_directory),
            editor: FileEditor::new(),
            backup_manager: BackupManager::new(base_directory),
        })
    }

    /// Moves the service to `new_directory`, which must exist; every later
    /// resolution uses it.
    pub fn change_directory(&mut self, new_directory: &str, exists: bool) -> (r: Result<(), FileServiceError>)
        ensures
            exists ==> (r is Ok && final(self).base_directory@ == new_directory@ && final(self).wf()
                && final(self).backup_manager.backup_dir@ == join_path(new_directory@, ".backups"@)
                && final(self).backup_manager.max_backups == old(self).backup_manager.max_backups),
            !exists ==> (r matches Err(FileServiceError::InvalidPath(_)) && final(self).base_directory == old(self).base_directory
                && final(self).backup_manager == old(self).backup_manager),
    {
        if !exists {
            return Err(FileServiceError::InvalidPath(concat("Directory does not exist: ", new_directory)));
        }
        self.base_directory = copy_str(new_directory);
        self.backup_manager = BackupManager::with_max(new_directory, self.backup_manager.max_backups);
        Ok(())
    }

    /// The textual target of `path`: joined onto the base when relative; an
    /// absolute path must begin with the base.
    pub fn joined_path(&self, path: &str) -> (r: Result<String, FileServiceError>)
        ensures
            match joined_spec(self.base_directory@, path@) {
                Some(p) => r matches Ok(q) && q@ == p,
                None => r matches Err(FileServiceError::PermissionDenied(_)),
            },
    {
        if is_absolute_path(path) {
            if !starts_with(path, self.base_directory.as_str()) {
                return Err(FileServiceError::PermissionDenied(
                    concat("Cannot access files outside the project directory: ", path)));
            }
            Ok(copy_str(path))
        } else {
            Ok(join(self.base_directory.as_str(), path))
        }
    }

    /// Resolves `path`. `canonical` is the canonical form of its joined target
    /// where that exists on disk, and `canonical_base` that of the base: a
    /// canonical target must lie within the canonical base, else the path is
    /// refused; a target that does not exist yet resolves to the joined path.
    pub fn resolve_path(&self, path: &str, canonical: Option<String>, canonical_base: Option<String>) -> (r: Result<String, FileServiceError>)
        ensures
            joined_spec(self.base_directory@, path@) is None ==> r matches Err(FileServiceError::PermissionDenied(_)),
            joined_spec(self.base_directory@, path@) matches Some(j) ==> match canonical {
                None => r matches Ok(q) && q@ == j,
                Some(c) => match canonical_base {
                    None => r matches Err(FileServiceError::IoError(_)),
                    Some(b) => if descends_from(c@, b@) {
                        r matches Ok(q) && q@ == c@
                    } else {
                        r matches Err(FileServiceError::PermissionDenied(_))
                    },
                },
            },
            canonical is Some && canonical_base is Some ==> match r {
                Ok(q) => descends_from(q@, canonical_base->0@),
                Err(e) => e is PermissionDenied,
            },
    {
        let joined = self.joined_path(path)?;
        match canonical {
            None => Ok(joined),
            Some(c) => match canonical_base {
                None => Err(FileServiceError::IoError(copy_str("The project directory cannot be canonicalized"))),
                Some(b) => {
                    if is_descendant(c.as_str(), b.as_str()) {
                        Ok(c)
                    } else {
                        Err(FileServiceError::PermissionDenied(concat("Path escapes the project directory: ", path)))
                    }
                },
            },
        }
    }

    /// Reading: the content of `resolved`, which is absent where the file does
    /// not exist.
    pub fn read_file(&self, resolved: &str, content: Option<String>) -> (r: Result<String, FileServiceError>)
        ensures
            match content {
                Some(c) => r matches Ok(t) && t@ == c@,
                None => r matches Err(FileServiceError::FileNotFound(p)) && p@ == resolved@,
            },
    {
        match content {
            Some(c) => Ok(c),
            None => Err(not_found(resolved)),
        }
    }

    /// Writing: a backup of the existing file, then the new content.
    pub fn write_file(&self, resolved: &str, exists: bool, content: &str) -> (r: Vec<FsAction>)
        ensures
            effects(r@) == guarded(resolved@, exists, Effect::Write(resolved@, content@)),
    {
        guarded_plan(resolved, exists, FsAction::Write { path: copy_str(resolved), content: copy_str(content) })
    }

    /// Appending, to an existing file only: a backup, then the addition.
    pub fn append_to_file(&self, resolved: &str, exists: bool, content: &str) -> (r: Result<Vec<FsAction>, FileServiceError>)
        ensures
            exists ==> (r matches Ok(plan) && effects(plan@) == guarded(resolved@, true, Effect::Append(resolved@, content@))),
            !exists ==> (r matches Err(FileServiceError::FileNotFound(p)) && p@ == resolved@),
    {
        if !exists {
            return Err(not_found(resolved));
        }
        Ok(guarded_plan(resolved, true, FsAction::Append { path: copy_str(resolved), content: copy_str(content) }))
    }

    /// Creating a file that does not exist yet; no backup is needed.
    pub fn create_file(&self, resolved: &str, exists: bool, content: &str) -> (r: Result<Vec<FsAction>, FileServiceError>)
        ensures
            !exists ==> (r matches Ok(plan) && effects(plan@) == seq![Effect::Write(resolved@, content@)]),
            exists ==> (r matches Err(FileServiceError::FileAlreadyExists(p)) && p@ == resolved@),
    {
        if exists {
            return Err(FileServiceError::FileAlreadyExists(copy_str(resolved)));
        }
        Ok(guarded_plan(resolved, false, FsAction::Write { path: copy_str(resolved), content: copy_str(content) }))
    }

    /// An edit of an existing file, whose text is `current`: a backup, then the
    /// edited text.
    fn edit_plan(&self, resolved: &str, current: &Option<String>, op: &EditOp) -> (r: Result<Vec<FsAction>, FileServiceError>)
        ensures
            current is None ==> (r matches Err(FileServiceError::FileNotFound(p)) && p@ == resolved@),
            current matches Some(c) ==> match crate::suggestions::op_outcome(c@, *op) {
                Ok(t) => r matches Ok(plan) && effects(plan@) == guarded(resolved@, true, Effect::Write(resolved@, t)),
                Err(EditorError::LineOutOfRange(n)) => r == Err::<Vec<FsAction>, FileServiceError>(FileServiceError::LineNumberOutOfRange(n)),
                Err(e) => r == Err::<Vec<FsAction>, FileServiceError>(FileServiceError::Editor(e)),
            },
    {
        match current {
            None => Err(not_found(resolved)),
            Some(c) => match self.editor.apply_op(c.as_str(), op) {
                Ok(t) => Ok(guarded_plan(resolved, true, FsAction::Write { path: copy_str(resolved), content: t })),
                Err(e) => Err(editor_failure(e)),
            },
        }
    }

    /// Inserting a line into an existing file: a backup, then the new text.
    pub fn insert_line(&self, resolved: &str, current: &Option<String>, line_num: usize, content: &str) -> (r: Result<Vec<FsAction>, FileServiceError>)
        ensures
            current is None ==> (r matches Err(FileServiceError::FileNotFound(p)) && p@ == resolved@),
            current matches Some(c) ==> if line_num <= lines_of(c@).len() {
                r matches Ok(plan) && effects(plan@) == guarded(resolved@, true, Effect::Write(resolved@, inserted_text(c@, line_num as int, content@)))
            } else {
                r == Err::<Vec<FsAction>, FileServiceError>(FileServiceError::LineNumberOutOfRange(line_num))
            },
    {
        let op = EditOp::Insert { line: line_num, content: copy_str(content) };
        self.edit_plan(resolved, current, &op)
    }

    /// Replacing a line of an existing file: a backup, then the new text.
    pub fn replace_line(&self, resolved: &str, current: &Option<String>, line_num: usize, content: &str) -> (r: Result<Vec<FsAction>, FileServiceError>)
        ensures
            current is None ==> (r matches Err(FileServiceError::FileNotFound(p)) && p@ == resolved@),
            current matches Some(c) ==> if line_num < lines_of(c@).len() {
                r matches Ok(plan) && effects(plan@) == guarded(resolved@, true, Effect::Write(resolved@, replaced_text(c@, line_num as int, content@)))
            } else {
                r == Err::<Vec<FsAction>, FileServiceError>(FileServiceError::LineNumberOutOfRange(line_num))
            },
    {
        let op = EditOp::ReplaceLine { line: line_num, content: copy_str(content) };
        self.edit_plan(resolved, current, &op)
    }

    /// Deleting a line of an existing file: a backup, then the new text.
    pub fn delete_line(&self, resolved: &str, current: &Option<String>, line_num: usize) -> (r: Result<Vec<FsAction>, FileServiceError>)
        ensures
            current is None ==> (r matches Err(FileServiceError::FileNotFound(p)) && p@ == resolved@),
            current matches Some(c) ==> if line_num < lines_of(c@).len() {
                r matches Ok(plan) && effects(plan@) == guarded(resolved@, true, Effect::Write(resolved@, deleted_text(c@, line_num as int)))
            } else {
                r == Err::<Vec<FsAction>, FileServiceError>(FileServiceError::LineNumberOutOfRange(line_num))
            },
    {
        let op = EditOp::DeleteLine { line: line_num };
        self.edit_plan(resolved, current, &op)
    }

    /// Replacing a region of an existing file: a backup, then the new text.
    pub fn edit_region(&self, resolved: &str, current: &Option<String>, start_line: usize, end_line: usize, new_content: &str) -> (r: Result<Vec<FsAction>, FileServiceError>)
        ensures
            current is None ==> (r matches Err(FileServiceError::FileNotFound(p)) && p@ == resolved@),
            current matches Some(c) ==> if start_line > end_line {
                r == Err::<Vec<FsAction>, FileServiceError>(FileServiceError::Editor(EditorError::InvalidRange { start: start_line, end: end_line }))
            } else if start_line >= lines_of(c@).len() {
                r == Err::<Vec<FsAction>, FileServiceError>(FileServiceError::LineNumberOutOfRange(start_line))
            } else {
                r matches Ok(plan) && effects(plan@) == guarded(resolved@, true,
                    Effect::Write(resolved@, region_text(c@, start_line as int, end_line as int, new_content@)))
            },
    {
        let op = EditOp::Region { start: start_line, end: end_line, content: copy_str(new_content) };
        self.edit_plan(resolved, current, &op)
    }

    /// Deleting an existing regular file: a backup, then the removal.
    pub fn delete_file(&self, resolved: &str, exists: bool, is_file: bool) -> (r: Result<Vec<FsAction>, FileServiceError>)
        ensures
            !exists ==> (r matches Err(FileServiceError::FileNotFound(p)) && p@ == resolved@),
            exists && !is_file ==> r matches Err(FileServiceError::InvalidPath(_)),
            exists && is_file ==> (r matches Ok(plan) && effects(plan@) == guarded(resolved@, true, Effect::Remove(resolved@))),
    {
        if !exists {
            return Err(not_found(resolved));
        }
        if !is_file {
            return Err(FileServiceError::InvalidPath(concat("Not a file: ", resolved)));
        }
        Ok(guarded_plan(resolved, true, FsAction::Remove { path: copy_str(resolved) }))
    }

    /// Renaming an existing file to a free destination: a backup of the source,
    /// then the move.
    pub fn rename_file(&self, from: &str, from_exists: bool, to: &str, to_exists: bool) -> (r: Result<Vec<FsAction>, FileServiceError>)
        ensures
            !from_exists ==> (r matches Err(FileServiceError::FileNotFound(p)) && p@ == from@),
            from_exists && to_exists ==> (r matches Err(FileServiceError::FileAlreadyExists(p)) && p@ == to@),
            from_exists && !to_exists ==> (r matches Ok(plan) && effects(plan@) == guarded(from@, true, Effect::Rename(from@, to@))),
    {
        if !from_exists {
            return Err(not_found(from));
        }
        if to_exists {
            return Err(FileServiceError::FileAlreadyExists(copy_str(to)));
        }
        Ok(guarded_plan(from, true, FsAction::Rename { from: copy_str(from), to: copy_str(to) }))
    }

    /// Restoring the newest backup of `resolved` from its newest-first listing;
    /// restoring takes no backup of its own.
    pub fn restore_backup(&self, resolved: &str, listed: &Vec<BackupEntry>) -> (r: Result<Vec<FsAction>, FileServiceError>)
        ensures
            listed@.len() == 0 ==> r matches Err(FileServiceError::BackupError(BackupError::NoBackupAvailable(_))),
            listed@.len() > 0 ==> (r matches Ok(plan) && effects(plan@) == seq![Effect::Restore(listed@[0].path@, resolved@)]),
    {
        match BackupManager::latest_backup(resolved, listed) {
            Ok(b) => {
                let mut plan: Vec<FsAction> = Vec::new();
                plan.push(FsAction::Restore { backup: b, target: copy_str(resolved) });
                assert(effects(plan@) =~= seq![Effect::Restore(listed@[0].path@, resolved@)]);
                Ok(plan)
            },
            Err(e) => Err(FileServiceError::BackupError(e)),
        }
    }

    /// Applying an instruction to `resolved`, whose text is `current` where it
    /// exists: `Replace` overwrites; `Create` writes, over an existing file only
    /// when `overwrite` is set; `Edit` needs an existing file and applies its
    /// operations in order, each reporting whether it applied. An existing file
    /// is backed up first.
    pub fn apply_suggestion(&self, resolved: &str, current: &Option<String>, instruction: &EditInstruction) -> (r: Result<(Vec<FsAction>, Vec<bool>), FileServiceError>)
        ensures
            match *instruction {
                EditInstruction::Replace { content } =>
                    r matches Ok((plan, _)) && effects(plan@) == guarded(resolved@, current is Some, Effect::Write(resolved@, content@)),
                EditInstruction::Create { content, overwrite } => if current is Some && !overwrite {
                    r matches Err(FileServiceError::FileAlreadyExists(p)) && p@ == resolved@
                } else {
                    r matches Ok((plan, _)) && effects(plan@) == guarded(resolved@, current is Some, Effect::Write(resolved@, content@))
                },
                EditInstruction::Edit { ops } => match *current {
                    None => r matches Err(FileServiceError::FileNotFound(p)) && p@ == resolved@,
                    Some(c) => r matches Ok((plan, applied)) && effects(plan@) == guarded(resolved@, true, Effect::Write(resolved@, run_ops(c@, ops@)))
                        && applied@.len() == ops@.len()
                        && forall|i: int| 0 <= i < ops@.len() ==> applied@[i] == op_applied(c@, ops@, i),
                },
            },
    {
        let exists = current.is_some();
        match SuggestionApplier::new().apply_suggestion(current, instruction) {
            Ok((text, applied)) => {
                Ok((guarded_plan(resolved, exists, FsAction::Write { path: copy_str(resolved), content: text }), applied))
            },
            Err(_) => match instruction {
                EditInstruction::Edit { .. } => Err(not_found(resolved)),
                _ => Err(FileServiceError::FileAlreadyExists(copy_str(resolved))),
            },
        }
    }
}

} // verus!
