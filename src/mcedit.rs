//! The editor's top level: the active project directory, the file service
//! rooted there, and the configuration.
use vstd::prelude::*;
use crate::config::Config;
use crate::diff::{DiffGenerator, DiffError, unified_diff, line_alignment};
use crate::file_service::{FileService, FileServiceError};
use crate::backup::BackupManager;
use crate::lines::{copy_str, opt_view};
use crate::paths::{is_absolute, join_path, is_absolute_path, join};

verus! {

/// Why a top-level operation failed.
#[derive(Debug, Clone, PartialEq, Eq)]
pub enum McEditError {
    FileNotFound(String),
    PermissionDenied(String),
    InvalidDirectory(String),
    IoError(String),
    Other(String),
}

/// The editor: configuration, file service and active project directory.
pub struct McEdit {
    pub config: Config,
    pub file_service: FileService,
    pub current_directory: String,
}

/// `dir` made absolute against `cwd`.
pub open spec fn absolute_in(dir: Seq<char>, cwd: Seq<char>) -> Seq<char> {
    if is_absolute(dir) { dir } else { join_path(cwd, dir) }
}

/// The project directory: the one given on the command line, else the one in
/// the environment, else the configured one, else the working directory; a
/// working directory of `/` falls back to `project` under the home directory.
pub open spec fn project_directory_spec(cli: Option<Seq<char>>, env: Option<Seq<char>>, configured: Option<Seq<char>>,
    cwd: Seq<char>, home: Option<Seq<char>>) -> Seq<char>
{
    match cli {
        Some(d) => absolute_in(d, cwd),
        None => match env {
            Some(d) => d,
            None => match configured {
                Some(d) => absolute_in(d, cwd),
                None => if cwd == seq!['/'] {
                    join_path(match home { Some(h) => h, None => cwd }, "project"@)
                } else {
                    cwd
                },
            },
        },
    }
}

fn absolute(dir: &str, cwd: &str) -> (r: String)
    ensures
        r@ == absolute_in(dir@, cwd@),
{
    if is_absolute_path(dir) { copy_str(dir) } else { join(cwd, dir) }
}

fn service_failure(e: FileServiceError) -> (r: McEditError)
    ensures
        e matches FileServiceError::InvalidPath(m) ==> r == McEditError::InvalidDirectory(m),
{
    match e {
        FileServiceError::InvalidPath(m) => McEditError::InvalidDirectory(m),
        FileServiceError::FileNotFound(m) => McEditError::FileNotFound(m),
        FileServiceError::PermissionDenied(m) => McEditError::PermissionDenied(m),
        FileServiceError::IoError(m) => McEditError::IoError(m),
        _ => McEditError::Other(copy_str("file service error")),
    }
}

impl McEdit {
    /// The active directory is the file service's base.
    pub open spec fn wf(&self) -> bool {
        self.current_directory@ == self.file_service.base_directory@ && self.file_service.wf()
    }

    /// The project directory to start in, by priority: `cli`, then `env`, then
    /// the configuration, then `cwd` (or `{home}/project` where `cwd` is `/`).
    pub fn project_directory(cli: Option<String>, env: Option<String>, config: &Config, cwd: &str, home: Option<String>) -> (r: String)
        ensures
            r@ == project_directory_spec(opt_view(cli), opt_view(env), opt_view(config.project.directory), cwd@, opt_view(home)),
    {
        proof {
            reveal_strlit("/");
            assert("/"@ =~= seq!['/']);
        }
        match cli {
            Some(d) => {
                let r = absolute(d.as_str(), cwd);
                assert(opt_view(cli) == Some(d@));
                r
            },
            None => match env {
                Some(d) => {
                    assert(opt_view(env) == Some(d@));
                    d
                },
                None => match &config.project.directory {
                    Some(d) => {
                        assert(opt_view(config.project.directory) == Some(d@));
                        absolute(d.as_str(), cwd)
                    },
                    None => {
                        if crate::json::str_eq(cwd, "/") {
                            assert(cwd@ == seq!['/']);
                            match home {
                                Some(h) => {
                                    assert(opt_view(home) == Some(h@));
                                    join(h.as_str(), "project")
                                },
                                None => join(cwd, "project"),
                            }
                        } else {
                            assert(cwd@ != seq!['/']);
                            copy_str(cwd)
                        }
                    },
                },
            },
        }
    }

    /// The editor rooted at `project_directory`, which must exist.
    pub fn new(config: Config, project_directory: &str, exists: bool) -> (r: Result<McEdit, McEditError>)
        ensures
            exists ==> (r matches Ok(m) && m.wf() && m.current_directory@ == project_directory@
                && m.file_service.base_directory@ == project_directory@),
            !exists ==> r matches Err(McEditError::InvalidDirectory(_)),
    {
        let max = config.max_backups();
        match FileService::new(project_directory, exists) {
            Ok(mut fs) => {
                fs.backup_manager = BackupManager::with_max(project_directory, max);
                Ok(McEdit { config, file_service: fs, current_directory: copy_str(project_directory) })
            },
            Err(e) => Err(service_failure(e)),
        }
    }

    /// The active project directory.
    pub fn get_current_directory(&self) -> (r: String)
        ensures
            r@ == self.current_directory@,
    {
        copy_str(self.current_directory.as_str())
    }

    /// Where a change of directory to `new_directory` leads: an absolute path as
    /// given, a relative one below the active directory.
    pub fn directory_target(&self, new_directory: &str) -> (r: String)
        ensures
            r@ == absolute_in(new_directory@, self.current_directory@),
    {
        absolute(new_directory, self.current_directory.as_str())
    }

    /// Makes `target` the active project directory; it must exist. Every later
    /// path resolution uses it.
    pub fn change_current_directory(&mut self, target: &str, exists: bool) -> (r: Result<(), McEditError>)
        ensures
            old(self).wf() ==> final(self).wf(),
            exists ==> final(self).wf(),
            exists ==> (r is Ok && final(self).current_directory@ == target@ && final(self).file_service.base_directory@ == target@),
            !exists ==> (r matches Err(McEditError::InvalidDirectory(_)) && final(self).current_directory == old(self).current_directory),
    {
        match self.file_service.change_directory(target, exists) {
            Ok(()) => {
                self.current_directory = copy_str(target);
                Ok(())
            },
            Err(e) => Err(service_failure(e)),
        }
    }

    /// The unified diff between two texts.
    pub fn generate_diff(&self, original_content: &str, modified_content: &str) -> (r: Result<String, DiffError>)
        ensures
            r matches Ok(t) && t@ == unified_diff(line_alignment(original_content@, modified_content@)),
    {
        DiffGenerator::generate_unified_diff(original_content, modified_content)
    }
}

} // verus!
