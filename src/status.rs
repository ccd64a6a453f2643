//! A statusline (or winbar) built from tiles, each drawn as a capsule of
//! color, in five aligned sections.
//!
//! A [`Line`] is rendered once per redraw. A pass reads a [`HostState`]
//! snapshot of the editor, and returns a [`Frame`]: the text of each section
//! and the highlight groups that the editor must install before showing it.
//! The widths of the outer sections, which only the editor can measure, then
//! go to [`Frame::finish`] to center the middle section.

use vstd::prelude::*;

use crate::theme::{HighlightOpt, HighlightView};

pub mod host;
pub mod laws;
pub mod line;
pub mod tiles;

pub use host::{DiagnosticCount, FileInfo, GitDiffCount, HostState};
pub use line::{Frame, Line};
pub use tiles::{
    AltFileName, Cwd, Diagnostic, FileName, FileStatus, Formatter, GitBranch, GitDiff, Loc, Lsp,
    Mode, Tile, Tools, Zoom,
};

verus! {

/// How a tile is drawn.
#[derive(Clone, Copy, Debug, PartialEq, Eq, Structural)]
pub enum TileStyle {
    /// The content in one capsule of the tile's color.
    Bubble,
    /// An icon on the tile's color, then the content on the line's color.
    Icon,
}

/// Why a render pass failed. A failed pass changes nothing.
#[derive(Clone, Copy, Debug, PartialEq, Eq, Structural)]
pub enum RenderError {
    /// The snapshot lacks a value that a tile needs.
    HostQueryFailure,
    /// An icon-style tile with content has no icon to draw.
    RenderFormatFailure,
}

/// A highlight group to install, as values.
pub struct InstallView {
    pub name: Seq<char>,
    pub style: HighlightView,
}

/// A highlight group that the editor must install.
#[derive(Debug)]
pub struct HighlightInstall {
    pub name: String,
    pub style: HighlightOpt,
}

impl View for HighlightInstall {
    type V = InstallView;

    open spec fn view(&self) -> InstallView {
        InstallView { name: self.name@, style: self.style@ }
    }
}

/// The values of a list of installs.
pub open spec fn installs_view(v: Seq<HighlightInstall>) -> Seq<InstallView> {
    Seq::new(v.len(), |i: int| v[i]@)
}

/// Appends an install of `style` under `name`.
pub fn push_install(v: &mut Vec<HighlightInstall>, name: String, style: HighlightOpt)
    ensures
        installs_view(final(v)@) == installs_view(old(v)@).push(
            InstallView { name: name@, style: style@ },
        ),
{
    let ghost name_view = name@;
    let ghost style_view = style@;
    v.push(HighlightInstall { name, style });
    assert(installs_view(final(v)@) =~= installs_view(old(v)@).push(
        InstallView { name: name_view, style: style_view },
    ));
}

} // verus!
