//! A file-editing server for an AI assistant: a line-delimited JSON protocol
//! over stdio, whose tools read, write and edit files inside a project
//! directory. Every mutation of an existing file is preceded by a backup, and
//! diffs preview changes.
//!
//! The modules, leaves first: `lines` (texts as lines), `json` (the structured
//! value of requests and results), `paths` (textual paths), `diff` (unified,
//! HTML and word diffs), `editor` (line and region edits), `suggestions` and
//! `parser` (edit instructions and their reading from free text), `backup`
//! (backup naming, listing and retention), `file_service` (path resolution and
//! backup-first operation plans), `mcedit` (the active project), `protocol` and
//! `handler` (messages, tool validation, the session), `tools` (tool results),
//! `stdio` (line normalization), `analyzer`, `config` and `logging`.
pub mod lines;
pub mod json;
pub mod paths;
pub mod diff;
pub mod editor;
pub mod suggestions;
pub mod parser;
pub mod backup;
pub mod file_service;
pub mod mcedit;
pub mod protocol;
pub mod handler;
pub mod tools;
pub mod stdio;
pub mod analyzer;
pub mod config;
pub mod logging;
