//! Configuration: the project, editor, backup and protocol settings.
use vstd::prelude::*;
use crate::lines::copy_str;

verus! {

/// Why the configuration could not be loaded.
#[derive(Debug, Clone, PartialEq, Eq)]
pub enum ConfigError {
    ConfigFileNotFound(String),
    ParseError(String),
    IoError(String),
}

#[derive(Debug)]
pub struct ProjectConfig {
    pub directory: Option<String>,
    pub default_extension: Option<String>,
    pub exclude_patterns: Option<Vec<String>>,
}

#[derive(Debug)]
pub struct EditorConfig {
    pub tab_size: Option<usize>,
    pub indent_with_tabs: Option<bool>,
    pub line_endings: Option<String>,
    pub max_line_length: Option<usize>,
}

#[derive(Debug)]
pub struct BackupConfig {
    pub enabled: Option<bool>,
    pub max_backups_per_file: Option<usize>,
    pub backup_directory: Option<String>,
}

#[derive(Debug)]
pub struct McpConfig {
    pub tools: Vec<String>,
}

#[derive(Debug)]
pub struct Config {
    pub project: ProjectConfig,
    pub editor: EditorConfig,
    pub backups: BackupConfig,
    pub mcp: McpConfig,
}

fn strings(items: &[&str]) -> (r: Vec<String>)
    ensures
        r@.len() == items@.len(),
        forall|i: int| 0 <= i < items@.len() ==> r@[i]@ == items@[i]@,
{
    let mut out: Vec<String> = Vec::new();
    let mut i: usize = 0;
    while i < items.len()
        invariant
            i <= items@.len(),
            out@.len() == i,
            forall|j: int| 0 <= j < i ==> out@[j]@ == items@[j]@,
        decreases items.len() - i,
    {
        out.push(copy_str(items[i]));
        i = i + 1;
    }
    out
}

impl Config {
    /// The configuration used when no configuration file is found: no fixed
    /// project directory, ten backups per file, and the core tools.
    pub fn default_config() -> (r: Config)
        ensures
            r.project.directory is None,
            r.backups.max_backups_per_file == Some(10usize),
            r.backups.enabled == Some(true),
            r.editor.tab_size == Some(4usize),
            r.mcp.tools@.len() == 7,
    {
        Config {
            project: ProjectConfig {
                directory: None,
                default_extension: Some(copy_str("txt")),
                exclude_patterns: Some(strings(&[".git", "node_modules", "target", ".backup"])),
            },
            editor: EditorConfig {
                tab_size: Some(4),
                indent_with_tabs: Some(false),
                line_endings: Some(copy_str("lf")),
                max_line_length: Some(100),
            },
            backups: BackupConfig {
                enabled: Some(true),
                max_backups_per_file: Some(10),
                backup_directory: None,
            },
            mcp: McpConfig {
                tools: strings(&["read_file", "write_file", "list_files", "search_files", "analyze_project",
                    "apply_suggestion", "generate_diff"]),
            },
        }
    }

    /// The number of backups kept per file: the configured one, or ten.
    pub fn max_backups(&self) -> (r: usize)
        ensures
            r == match self.backups.max_backups_per_file {
                Some(n) => n,
                None => 10usize,
            },
    {
        match self.backups.max_backups_per_file {
            Some(n) => n,
            None => 10,
        }
    }
}

} // verus!
