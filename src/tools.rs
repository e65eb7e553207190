//! Data exchanged with the tool collaborators (filesystem, shell, version
//! control) and the retrieval index, and the parts of their results that are
//! computed rather than read.
use crate::text::{trim, trimmed};
use vstd::prelude::*;

verus! {

/// The filesystem tool.
#[derive(Debug, Default)]
pub struct FsTool;

/// The version-control tool.
#[derive(Debug, Default)]
pub struct GitTool;

/// The process-execution tool.
#[derive(Debug, Default)]
pub struct ShellTool;

/// The state of a working tree: whether it is clean, and the porcelain summary.
#[derive(Debug)]
pub struct GitWorkspaceStatus {
    pub clean: bool,
    pub summary: String,
}

impl GitWorkspaceStatus {
    /// The status described by the porcelain output `porcelain`: its trimmed
    /// text, clean exactly when that is empty.
    pub fn from_porcelain(porcelain: &str) -> (r: GitWorkspaceStatus)
        ensures
            r.summary@ == trimmed(porcelain@),
            r.clean == (trimmed(porcelain@).len() == 0),
    {
        let summary = trim(porcelain);
        let clean = summary.as_str().is_empty();
        GitWorkspaceStatus { clean, summary }
    }
}

/// A process to run: program, arguments and an optional working directory.
#[derive(Debug)]
pub struct ShellCommand {
    pub program: String,
    pub args: Vec<String>,
    pub cwd: Option<String>,
}

/// What a finished process produced.
#[derive(Debug)]
pub struct CommandOutput {
    pub status: i32,
    pub stdout: String,
    pub stderr: String,
}

impl CommandOutput {
    /// The output of a process that exited with `code` (`None` when it was
    /// ended by a signal, reported as status -1).
    pub fn new(code: Option<i32>, stdout: String, stderr: String) -> (r: CommandOutput)
        ensures
            r.status as int == match code {
                Some(c) => c as int,
                None => -1,
            },
            r.stdout@ == stdout@,
            r.stderr@ == stderr@,
    {
        let status = match code {
            Some(c) => c,
            None => -1,
        };
        CommandOutput { status, stdout, stderr }
    }
}

/// A piece of text stored in the retrieval index.
#[derive(Debug)]
pub struct Chunk {
    pub id: String,
    pub text: String,
    pub metadata: serde_json::Value,
}

/// A retrieval index that keeps nothing.
#[derive(Debug, Default)]
pub struct InMemoryIndex;

} // verus!
