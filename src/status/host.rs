//! The editor state that one render pass reads.

use vstd::prelude::*;

use crate::theme::HighlightOpt;
use crate::Mode as EditorMode;

verus! {

/// Diagnostic counts of each severity.
#[derive(Clone, Copy, Debug, PartialEq, Eq, Structural)]
pub struct DiagnosticCount {
    pub error: u32,
    pub warn: u32,
    pub hint: u32,
    pub info: u32,
}

impl DiagnosticCount {
    /// The number of errors and warnings; hints and infos do not count.
    pub fn total(&self) -> (r: u64)
        ensures
            r == self.error + self.warn,
    {
        self.error as u64 + self.warn as u64
    }
}

/// Lines added, changed and removed in the current buffer.
#[derive(Clone, Copy, Debug, PartialEq, Eq, Structural)]
pub struct GitDiffCount {
    pub added: i64,
    pub changed: i64,
    pub removed: i64,
}

/// A file name with the icon that the file type gets, the name of the icon's
/// highlight group, and that group's style.
#[derive(Debug)]
pub struct FileInfo {
    pub name: String,
    pub icon: String,
    pub icon_group: String,
    pub icon_style: HighlightOpt,
}

/// What the tiles read from the editor in one pass.
#[derive(Debug)]
pub struct HostState {
    /// The current mode.
    pub mode: EditorMode,
    /// The working directory.
    pub cwd: String,
    /// The git branch, where the buffer is under git.
    pub git_head: Option<String>,
    /// The git changes of the buffer (all zero where there are none).
    pub git_diff: GitDiffCount,
    /// The zoom level in percent, where the editor has one.
    pub zoom_percent: Option<u64>,
    /// Diagnostics of every buffer.
    pub global_diagnostics: DiagnosticCount,
    /// Diagnostics of the current buffer.
    pub buffer_diagnostics: DiagnosticCount,
    /// The current file.
    pub file: FileInfo,
    /// The alternate file (an empty name where there is none).
    pub alt_file: FileInfo,
    /// Whether the buffer can be modified.
    pub modifiable: bool,
    /// Whether the buffer has unsaved changes.
    pub modified: bool,
    /// Whether a language server is attached to the buffer.
    pub lsp_attached: bool,
    /// Whether a formatter is available for the buffer.
    pub formatter_attached: bool,
    /// The buffer's file type.
    pub filetype: String,
}

} // verus!
