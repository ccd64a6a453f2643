//! The tiles that a line is built from.
//!
//! A tile reads what it shows from the pass's [`HostState`]; what it keeps
//! between passes (its cached style) is held by the line.

use vstd::prelude::*;

use super::host::{DiagnosticCount, GitDiffCount, HostState};
use super::{installs_view, push_install, HighlightInstall, InstallView, RenderError, TileStyle};
use crate::icons;
use crate::mode_name;
use crate::text::{decimal, join_spaced, push_decimal, push_joined, str_eq, suffixed};
use crate::theme::{
    plain_style, swapped_style, with_bg_style, with_fg_style, Color, HighlightOpt, HighlightView,
    STATUS_LINE_FG,
};
use crate::Mode as EditorMode;

verus! {

/// `parts` with `p` added at the end where `cond` holds.
pub open spec fn push_if(parts: Seq<Seq<char>>, cond: bool, p: Seq<char>) -> Seq<Seq<char>> {
    if cond {
        parts.push(p)
    } else {
        parts
    }
}

/// Adding a part to a space-joined text.
pub proof fn lemma_join_push(parts: Seq<Seq<char>>, p: Seq<char>)
    ensures
        join_spaced(parts.push(p)) == if parts.len() == 0 {
            p
        } else {
            join_spaced(parts).push(' ') + p
        },
{
    assert(parts.push(p).drop_last() =~= parts);
    if parts.len() == 0 {
        assert(parts.push(p).len() == 1);
    }
}

// ------------------------------------------------------------------ mode

/// The current editor mode, on a background that follows the mode.
#[derive(Clone, Copy, Debug, PartialEq, Eq, Structural)]
pub struct Mode;

/// The tile color of each mode.
pub open spec fn mode_color(m: EditorMode) -> Color {
    match m {
        EditorMode::Normal => Color::Blue,
        EditorMode::Insert => Color::Green,
        EditorMode::Command => Color::Yellow,
        EditorMode::Visual => Color::Purple,
        EditorMode::Replace => Color::Red,
        EditorMode::Terminal => Color::Cyan,
    }
}

impl Mode {
    /// The tile.
    pub fn new() -> (r: Mode)
        ensures
            r == Mode,
    {
        Mode
    }

    /// The style kept from the last pass, on the current mode's color.
    pub fn update_highlight(&self, host: &HostState, old_opt: HighlightOpt) -> (r: HighlightOpt)
        ensures
            r@ == with_bg_style(old_opt@, mode_color(host.mode)),
    {
        let color = match host.mode {
            EditorMode::Normal => Color::Blue,
            EditorMode::Insert => Color::Green,
            EditorMode::Command => Color::Yellow,
            EditorMode::Visual => Color::Purple,
            EditorMode::Replace => Color::Red,
            EditorMode::Terminal => Color::Cyan,
        };
        old_opt.bg(color)
    }
}

// ------------------------------------------------------------------ working directory

/// The working directory, with a short name and its own icon and color for a
/// few well-known places.
#[derive(Clone, Copy, Debug, PartialEq, Eq, Structural)]
pub struct Cwd;

/// Icon, label and color of a working directory.
pub open spec fn cwd_place(p: Seq<char>) -> (Seq<char>, Seq<char>, Color) {
    if p == "D:\\OneDrive\\Desktop\\Code"@ {
        (icons::CODE_CWD@, "code"@, Color::Blue)
    } else if p == "D:\\OneDrive\\Desktop"@ {
        (icons::DESKTOP_CWD@, "desktop"@, Color::Orange)
    } else if p == "D:\\config\\nvim"@ {
        (icons::NVIM_CWD@, "nvim"@, Color::Green)
    } else if p == "C:\\Users\\nphuy"@ {
        (icons::HOME_CWD@, "home"@, Color::Yellow)
    } else {
        (icons::FOLDER@, p, Color::Yellow)
    }
}

impl Cwd {
    /// The tile.
    pub fn new() -> (r: Cwd)
        ensures
            r == Cwd,
    {
        Cwd
    }

    /// The icon, label and color for working directory `cwd`.
    pub fn map_path(&self, cwd: &str) -> (r: (&'static str, String, Color))
        ensures
            (r.0@, r.1@, r.2) == cwd_place(cwd@),
    {
        if str_eq(cwd, "D:\\OneDrive\\Desktop\\Code") {
            (icons::CODE_CWD, "code".to_owned(), Color::Blue)
        } else if str_eq(cwd, "D:\\OneDrive\\Desktop") {
            (icons::DESKTOP_CWD, "desktop".to_owned(), Color::Orange)
        } else if str_eq(cwd, "D:\\config\\nvim") {
            (icons::NVIM_CWD, "nvim".to_owned(), Color::Green)
        } else if str_eq(cwd, "C:\\Users\\nphuy") {
            (icons::HOME_CWD, "home".to_owned(), Color::Yellow)
        } else {
            (icons::FOLDER, cwd.to_owned(), Color::Yellow)
        }
    }
}

// ------------------------------------------------------------------ git branch, location, zoom

/// The git branch of the working directory; empty outside git.
#[derive(Clone, Copy, Debug, PartialEq, Eq, Structural)]
pub struct GitBranch;

/// The branch name, or nothing.
pub open spec fn branch_text(head: Option<String>) -> Seq<char> {
    match head {
        Some(h) => h@,
        None => Seq::empty(),
    }
}

impl GitBranch {
    /// The branch name, or an empty text outside git.
    pub fn content(&self, host: &HostState) -> (r: String)
        ensures
            r@ == branch_text(host.git_head),
    {
        match &host.git_head {
            Some(head) => head.clone(),
            None => String::new(),
        }
    }
}

/// The cursor's column and line, as statusline items that the editor fills.
#[derive(Clone, Copy, Debug, PartialEq, Eq, Structural)]
pub struct Loc;

/// The zoom level of a GUI that has one.
#[derive(Clone, Copy, Debug, PartialEq, Eq, Structural)]
pub struct Zoom;

/// The zoom text for a zoom of `p` percent (`%%` is a literal `%` to the
/// editor).
pub open spec fn zoom_text(p: nat) -> Seq<char> {
    decimal(p) + "%%"@
}

impl Zoom {
    /// The zoom level; fails where the editor has none.
    pub fn content(&self, host: &HostState) -> (r: Result<String, RenderError>)
        ensures
            host.zoom_percent matches Some(p) ==> (r matches Ok(s) && s@ == zoom_text(p as nat)),
            host.zoom_percent is None ==> r == Err::<String, RenderError>(
                RenderError::HostQueryFailure,
            ),
    {
        match host.zoom_percent {
            Some(p) => {
                let mut s = String::new();
                push_decimal(&mut s, p);
                s.append("%%");
                Ok(s)
            },
            None => Err(RenderError::HostQueryFailure),
        }
    }
}

// ------------------------------------------------------------------ diagnostics

/// Diagnostic counts of the current buffer, or of every buffer.
#[derive(Clone, Copy, Debug, PartialEq, Eq, Structural)]
pub struct Diagnostic {
    pub global: bool,
}

/// The counts a diagnostic tile shows.
pub open spec fn diagnostic_counts(global: bool, host: HostState) -> DiagnosticCount {
    if global {
        host.global_diagnostics
    } else {
        host.buffer_diagnostics
    }
}

/// One part for each severity with a nonzero count: errors, warnings,
/// hints, infos.
pub open spec fn diagnostic_parts(c: DiagnosticCount) -> Seq<Seq<char>> {
    let a = push_if(
        Seq::empty(),
        c.error > 0,
        "%#StatusError#"@ + icons::ERROR@ + " "@ + decimal(c.error as nat),
    );
    let b = push_if(a, c.warn > 0, "%#StatusWarn#"@ + icons::WARN@ + " "@ + decimal(c.warn as nat));
    let d = push_if(b, c.hint > 0, "%#StatusHint#"@ + icons::HINT@ + " "@ + decimal(c.hint as nat));
    push_if(d, c.info > 0, "%#StatusInfo#"@ + icons::INFO@ + " "@ + decimal(c.info as nat))
}

/// The tile color for a number of errors and warnings.
pub open spec fn diagnostic_color(total: nat) -> Color {
    if total == 0 {
        Color::Purple
    } else if total < 5 {
        Color::Yellow
    } else if total < 10 {
        Color::Orange
    } else {
        Color::Red
    }
}

/// The style of a diagnostic tile for the counts `c`.
pub open spec fn diagnostic_style(global: bool, c: DiagnosticCount) -> HighlightView {
    if global {
        with_bg_style(plain_style(), diagnostic_color((c.error + c.warn) as nat))
    } else {
        with_bg_style(plain_style(), STATUS_LINE_FG)
    }
}

/// A group with foreground `fg` on the line's foreground color.
pub open spec fn on_line(name: Seq<char>, fg: Color) -> InstallView {
    InstallView { name, style: with_bg_style(with_fg_style(plain_style(), fg), STATUS_LINE_FG) }
}

/// The groups that diagnostic tiles color their counts with.
pub open spec fn diagnostic_setup() -> Seq<InstallView> {
    seq![
        on_line("StatusError"@, Color::Red),
        on_line("StatusWarn"@, Color::Yellow),
        on_line("StatusInfo"@, Color::Blue),
        on_line("StatusHint"@, Color::Purple),
    ]
}

/// Appends the part `tag icon count` to a space-joined text.
fn push_count_part(
    s: &mut String,
    count: usize,
    tag: &str,
    icon: &str,
    n: u64,
) -> (r: usize)
    requires
        count < usize::MAX,
    ensures
        r == count + 1,
        count == 0 ==> final(s)@ == old(s)@ + (tag@ + icon@ + " "@ + decimal(n as nat)),
        count > 0 ==> final(s)@ == old(s)@.push(' ') + (tag@ + icon@ + " "@ + decimal(n as nat)),
{
    let mut part = tag.to_owned();
    part.append(icon);
    part.append(" ");
    push_decimal(&mut part, n);
    push_joined(s, count, part.as_str());
    count + 1
}

impl Diagnostic {
    /// The tile, showing the current global counts when `is_global`, else the
    /// current buffer's.
    pub fn new(is_global: bool) -> (r: Diagnostic)
        ensures
            r.global == is_global,
    {
        Diagnostic { global: is_global }
    }

    /// The nonzero counts, each after its severity's icon and group.
    pub fn content(&self, host: &HostState) -> (r: String)
        ensures
            r@ == join_spaced(diagnostic_parts(diagnostic_counts(self.global, *host))),
    {
        let c = if self.global {
            host.global_diagnostics
        } else {
            host.buffer_diagnostics
        };
        let ghost parts = diagnostic_parts(c);
        let mut out = String::new();
        let mut n: usize = 0;
        let ghost a = push_if(
            Seq::empty(),
            c.error > 0,
            "%#StatusError#"@ + icons::ERROR@ + " "@ + decimal(c.error as nat),
        );
        let ghost b = push_if(
            a,
            c.warn > 0,
            "%#StatusWarn#"@ + icons::WARN@ + " "@ + decimal(c.warn as nat),
        );
        let ghost d = push_if(
            b,
            c.hint > 0,
            "%#StatusHint#"@ + icons::HINT@ + " "@ + decimal(c.hint as nat),
        );
        if c.error > 0 {
            n = push_count_part(&mut out, n, "%#StatusError#", icons::ERROR, c.error as u64);
            proof {
                lemma_join_push(Seq::empty(), out@);
            }
        }
        assert(out@ == join_spaced(a) && n == a.len());
        if c.warn > 0 {
            n = push_count_part(&mut out, n, "%#StatusWarn#", icons::WARN, c.warn as u64);
            proof {
                lemma_join_push(a, "%#StatusWarn#"@ + icons::WARN@ + " "@ + decimal(c.warn as nat));
            }
        }
        assert(out@ == join_spaced(b) && n == b.len());
        if c.hint > 0 {
            n = push_count_part(&mut out, n, "%#StatusHint#", icons::HINT, c.hint as u64);
            proof {
                lemma_join_push(b, "%#StatusHint#"@ + icons::HINT@ + " "@ + decimal(c.hint as nat));
            }
        }
        assert(out@ == join_spaced(d) && n == d.len());
        if c.info > 0 {
            n = push_count_part(&mut out, n, "%#StatusInfo#", icons::INFO, c.info as u64);
            proof {
                lemma_join_push(d, "%#StatusInfo#"@ + icons::INFO@ + " "@ + decimal(c.info as nat));
            }
        }
        out
    }

    /// The style for this pass: for the global tile a color that grows with
    /// the number of errors and warnings, else the line's foreground.
    pub fn update_highlight(&self, host: &HostState) -> (r: HighlightOpt)
        ensures
            r@ == diagnostic_style(self.global, diagnostic_counts(self.global, *host)),
    {
        if self.global {
            let total = host.global_diagnostics.total();
            let color = if total == 0 {
                Color::Purple
            } else if total < 5 {
                Color::Yellow
            } else if total < 10 {
                Color::Orange
            } else {
                Color::Red
            };
            HighlightOpt::with_bg(color)
        } else {
            HighlightOpt::with_bg(STATUS_LINE_FG)
        }
    }

    /// Adds the groups that the counts are colored with.
    pub fn setup(&self, out: &mut Vec<HighlightInstall>)
        ensures
            installs_view(final(out)@) == installs_view(old(out)@) + diagnostic_setup(),
    {
        push_install(out, "StatusError".to_owned(), HighlightOpt::with_fg(Color::Red).bg(STATUS_LINE_FG));
        push_install(out, "StatusWarn".to_owned(), HighlightOpt::with_fg(Color::Yellow).bg(STATUS_LINE_FG));
        push_install(out, "StatusInfo".to_owned(), HighlightOpt::with_fg(Color::Blue).bg(STATUS_LINE_FG));
        push_install(out, "StatusHint".to_owned(), HighlightOpt::with_fg(Color::Purple).bg(STATUS_LINE_FG));
        assert(installs_view(out@) =~= installs_view(old(out)@) + diagnostic_setup());
    }
}

// ------------------------------------------------------------------ git diff

/// The lines added, changed and removed in the current buffer.
#[derive(Clone, Copy, Debug, PartialEq, Eq, Structural)]
pub struct GitDiff;

/// One part for each kind of change with a positive count.
pub open spec fn git_diff_parts(d: GitDiffCount) -> Seq<Seq<char>> {
    let a = push_if(Seq::empty(), d.added > 0, "%#StatusGitAdd#+"@ + decimal(d.added as nat));
    let b = push_if(a, d.changed > 0, "%#StatusGitChange#~"@ + decimal(d.changed as nat));
    push_if(b, d.removed > 0, "%#StatusGitRemove#-"@ + decimal(d.removed as nat))
}

/// The groups that the change counts are colored with.
pub open spec fn git_diff_setup() -> Seq<InstallView> {
    seq![
        on_line("StatusGitAdd"@, Color::Green),
        on_line("StatusGitChange"@, Color::Yellow),
        on_line("StatusGitRemove"@, Color::Red),
    ]
}

/// Appends the part `tag count` to a space-joined text.
fn push_change_part(s: &mut String, count: usize, tag: &str, n: u64) -> (r: usize)
    requires
        count < usize::MAX,
    ensures
        r == count + 1,
        count == 0 ==> final(s)@ == old(s)@ + (tag@ + decimal(n as nat)),
        count > 0 ==> final(s)@ == old(s)@.push(' ') + (tag@ + decimal(n as nat)),
{
    let mut part = tag.to_owned();
    push_decimal(&mut part, n);
    push_joined(s, count, part.as_str());
    count + 1
}

impl GitDiff {
    /// The positive change counts, each after its sign and group.
    pub fn content(&self, host: &HostState) -> (r: String)
        ensures
            r@ == join_spaced(git_diff_parts(host.git_diff)),
    {
        let d = host.git_diff;
        let ghost a = push_if(
            Seq::empty(),
            d.added > 0,
            "%#StatusGitAdd#+"@ + decimal(d.added as nat),
        );
        let ghost b = push_if(a, d.changed > 0, "%#StatusGitChange#~"@ + decimal(d.changed as nat));
        let mut out = String::new();
        let mut n: usize = 0;
        if d.added > 0 {
            n = push_change_part(&mut out, n, "%#StatusGitAdd#+", d.added as u64);
            proof {
                lemma_join_push(Seq::empty(), out@);
            }
        }
        assert(out@ == join_spaced(a) && n == a.len());
        if d.changed > 0 {
            n = push_change_part(&mut out, n, "%#StatusGitChange#~", d.changed as u64);
            proof {
                lemma_join_push(a, "%#StatusGitChange#~"@ + decimal(d.changed as nat));
            }
        }
        assert(out@ == join_spaced(b) && n == b.len());
        if d.removed > 0 {
            n = push_change_part(&mut out, n, "%#StatusGitRemove#-", d.removed as u64);
            proof {
                lemma_join_push(b, "%#StatusGitRemove#-"@ + decimal(d.removed as nat));
            }
        }
        out
    }

    /// Adds the groups that the counts are colored with.
    pub fn setup(&self, out: &mut Vec<HighlightInstall>)
        ensures
            installs_view(final(out)@) == installs_view(old(out)@) + git_diff_setup(),
    {
        push_install(out, "StatusGitAdd".to_owned(), HighlightOpt::with_fg(Color::Green).bg(STATUS_LINE_FG));
        push_install(out, "StatusGitChange".to_owned(), HighlightOpt::with_fg(Color::Yellow).bg(STATUS_LINE_FG));
        push_install(out, "StatusGitRemove".to_owned(), HighlightOpt::with_fg(Color::Red).bg(STATUS_LINE_FG));
        assert(installs_view(out@) =~= installs_view(old(out)@) + git_diff_setup());
    }
}

// ------------------------------------------------------------------ files

/// The current file's name after its file-type icon, colored like the icon.
#[derive(Clone, Copy, Debug, PartialEq, Eq, Structural)]
pub struct FileName;

/// The alternate file's name, colored like its file-type icon.
#[derive(Clone, Copy, Debug, PartialEq, Eq, Structural)]
pub struct AltFileName;

/// The text of the alternate-file tile.
pub open spec fn alt_text(name: Seq<char>) -> Seq<char> {
    if name.len() == 0 {
        Seq::empty()
    } else {
        "alt: "@ + name
    }
}

impl FileName {
    /// The tile.
    pub fn new() -> (r: FileName)
        ensures
            r == FileName,
    {
        FileName
    }
}

impl AltFileName {
    /// The tile.
    pub fn new() -> (r: AltFileName)
        ensures
            r == AltFileName,
    {
        AltFileName
    }

    /// `alt: ` and the alternate file's name, or nothing without one.
    pub fn content(&self, host: &HostState) -> (r: String)
        ensures
            r@ == alt_text(host.alt_file.name@),
    {
        if host.alt_file.name.as_str().is_empty() {
            String::new()
        } else {
            let mut s = "alt: ".to_owned();
            s.append(host.alt_file.name.as_str());
            s
        }
    }
}

/// Whether the buffer can be changed, and whether it was.
#[derive(Clone, Copy, Debug, PartialEq, Eq, Structural)]
pub enum FileStatusFlag {
    Modified,
    UnModifiable,
    Clean,
}

/// The flag of a buffer: one that cannot be modified says so first.
pub open spec fn status_flag(modifiable: bool, modified: bool) -> FileStatusFlag {
    if !modifiable {
        FileStatusFlag::UnModifiable
    } else if modified {
        FileStatusFlag::Modified
    } else {
        FileStatusFlag::Clean
    }
}

/// The text of each flag.
pub open spec fn flag_text(f: FileStatusFlag) -> Seq<char> {
    match f {
        FileStatusFlag::Modified => "[+]"@,
        FileStatusFlag::UnModifiable => "[-]"@,
        FileStatusFlag::Clean => Seq::empty(),
    }
}

/// The group of each flag.
pub open spec fn flag_group(f: FileStatusFlag) -> Seq<char> {
    match f {
        FileStatusFlag::Modified => "StatusFileMod"@,
        FileStatusFlag::UnModifiable => "StatusFileUnMod"@,
        FileStatusFlag::Clean => Seq::empty(),
    }
}

/// The style of each flag; without a flag the kept style stays.
pub open spec fn flag_style(f: FileStatusFlag, old_style: HighlightView) -> HighlightView {
    match f {
        FileStatusFlag::Modified => with_bg_style(plain_style(), Color::Green),
        FileStatusFlag::UnModifiable => with_bg_style(plain_style(), Color::Red),
        FileStatusFlag::Clean => old_style,
    }
}

/// `[+]` for a modified buffer and `[-]` for one that cannot be modified.
#[derive(Clone, Copy, Debug, PartialEq, Eq, Structural)]
pub struct FileStatus;

impl FileStatus {
    /// The tile.
    pub fn new() -> (r: FileStatus)
        ensures
            r == FileStatus,
    {
        FileStatus
    }

    /// The buffer's flag.
    pub fn flag(&self, host: &HostState) -> (r: FileStatusFlag)
        ensures
            r == status_flag(host.modifiable, host.modified),
    {
        if !host.modifiable {
            FileStatusFlag::UnModifiable
        } else if host.modified {
            FileStatusFlag::Modified
        } else {
            FileStatusFlag::Clean
        }
    }

    /// The flag's text.
    pub fn content(&self, host: &HostState) -> (r: String)
        ensures
            r@ == flag_text(status_flag(host.modifiable, host.modified)),
    {
        match self.flag(host) {
            FileStatusFlag::Modified => "[+]".to_owned(),
            FileStatusFlag::UnModifiable => "[-]".to_owned(),
            FileStatusFlag::Clean => String::new(),
        }
    }

    /// The flag's group.
    pub fn highlight_name(&self, host: &HostState) -> (r: String)
        ensures
            r@ == flag_group(status_flag(host.modifiable, host.modified)),
    {
        match self.flag(host) {
            FileStatusFlag::Modified => "StatusFileMod".to_owned(),
            FileStatusFlag::UnModifiable => "StatusFileUnMod".to_owned(),
            FileStatusFlag::Clean => String::new(),
        }
    }

    /// The flag's style.
    pub fn update_highlight(&self, host: &HostState, old_opt: HighlightOpt) -> (r: HighlightOpt)
        ensures
            r@ == flag_style(status_flag(host.modifiable, host.modified), old_opt@),
    {
        match self.flag(host) {
            FileStatusFlag::Modified => HighlightOpt::with_bg(Color::Green),
            FileStatusFlag::UnModifiable => HighlightOpt::with_bg(Color::Red),
            FileStatusFlag::Clean => old_opt,
        }
    }
}

// ------------------------------------------------------------------ tools

/// A tick when a language server is attached, a cross when none is.
#[derive(Clone, Copy, Debug, PartialEq, Eq, Structural)]
pub struct Lsp;

/// A tick when a formatter is available, a cross when none is.
#[derive(Clone, Copy, Debug, PartialEq, Eq, Structural)]
pub struct Formatter;

/// Both tools at once: a tick with both, a gear with only a language
/// server, a brush with only a formatter, a cross with neither.
#[derive(Clone, Copy, Debug, PartialEq, Eq, Structural)]
pub struct Tools;

/// A tick or a cross.
pub open spec fn tick(b: bool) -> Seq<char> {
    if b {
        icons::GOOD@
    } else {
        icons::BAD@
    }
}

/// The text of the tools tile.
pub open spec fn tools_text(formatter: bool, lsp: bool) -> Seq<char> {
    if formatter && lsp {
        icons::GOOD@
    } else if formatter {
        icons::FORMATTER@
    } else if lsp {
        icons::LSP@
    } else {
        icons::BAD@
    }
}

/// A tick or a cross.
fn tick_str(b: bool) -> (r: String)
    ensures
        r@ == tick(b),
{
    if b {
        icons::GOOD.to_owned()
    } else {
        icons::BAD.to_owned()
    }
}

impl Lsp {
    /// The tile.
    pub fn new() -> (r: Lsp)
        ensures
            r == Lsp,
    {
        Lsp
    }

    /// Whether a language server is attached.
    pub fn content(&self, host: &HostState) -> (r: String)
        ensures
            r@ == tick(host.lsp_attached),
    {
        tick_str(host.lsp_attached)
    }
}

impl Formatter {
    /// The tile.
    pub fn new() -> (r: Formatter)
        ensures
            r == Formatter,
    {
        Formatter
    }

    /// Whether a formatter is available.
    pub fn content(&self, host: &HostState) -> (r: String)
        ensures
            r@ == tick(host.formatter_attached),
    {
        tick_str(host.formatter_attached)
    }
}

impl Tools {
    /// The tile.
    pub fn new() -> (r: Tools)
        ensures
            r == Tools,
    {
        Tools
    }

    /// Which of the two tools the buffer has.
    pub fn content(&self, host: &HostState) -> (r: String)
        ensures
            r@ == tools_text(host.formatter_attached, host.lsp_attached),
    {
        let glyph = if host.formatter_attached && host.lsp_attached {
            icons::GOOD
        } else if host.formatter_attached {
            icons::FORMATTER
        } else if host.lsp_attached {
            icons::LSP
        } else {
            icons::BAD
        };
        glyph.to_owned()
    }
}

// ------------------------------------------------------------------ any tile

/// Any of the tiles.
#[derive(Clone, Copy, Debug, PartialEq, Eq, Structural)]
pub enum Tile {
    Mode(Mode),
    Cwd(Cwd),
    GitBranch(GitBranch),
    Loc(Loc),
    Zoom(Zoom),
    Diagnostic(Diagnostic),
    GitDiff(GitDiff),
    FileName(FileName),
    AltFileName(AltFileName),
    FileStatus(FileStatus),
    Lsp(Lsp),
    Formatter(Formatter),
    Tools(Tools),
}

/// How tile `t` is drawn.
pub open spec fn style_of(t: Tile) -> TileStyle {
    match t {
        Tile::Cwd(_) | Tile::GitBranch(_) | Tile::Zoom(_) | Tile::GitDiff(_) | Tile::FileName(_)
        | Tile::Lsp(_) | Tile::Formatter(_) => TileStyle::Icon,
        Tile::Diagnostic(d) => if d.global {
            TileStyle::Icon
        } else {
            TileStyle::Bubble
        },
        _ => TileStyle::Bubble,
    }
}

/// The icon of tile `t`; empty for tiles without one.
pub open spec fn icon_of(t: Tile, h: HostState) -> Seq<char> {
    match t {
        Tile::Cwd(_) => cwd_place(h.cwd@).0,
        Tile::GitBranch(_) => icons::GIT_BRANCH@,
        Tile::Zoom(_) => icons::MAGNIFYING_GLASS@,
        Tile::Diagnostic(_) => icons::FOLDER@,
        Tile::GitDiff(_) => icons::GIT_DIFF@,
        Tile::FileName(_) => h.file.icon@,
        Tile::Lsp(_) => icons::LSP@,
        Tile::Formatter(_) => icons::FORMATTER@,
        _ => Seq::empty(),
    }
}

/// Whether tile `t` lacks a value it needs in snapshot `h`.
pub open spec fn content_fails(t: Tile, h: HostState) -> bool {
    t is Zoom && h.zoom_percent is None
}

/// What tile `t` shows; an empty text leaves the tile out.
pub open spec fn content_of(t: Tile, h: HostState) -> Seq<char> {
    match t {
        Tile::Mode(_) => mode_name(h.mode),
        Tile::Cwd(_) => cwd_place(h.cwd@).1,
        Tile::GitBranch(_) => branch_text(h.git_head),
        Tile::Loc(_) => "%3.c:%-3.l"@,
        Tile::Zoom(_) => match h.zoom_percent {
            Some(p) => zoom_text(p as nat),
            None => Seq::empty(),
        },
        Tile::Diagnostic(d) => join_spaced(diagnostic_parts(diagnostic_counts(d.global, h))),
        Tile::GitDiff(_) => join_spaced(git_diff_parts(h.git_diff)),
        Tile::FileName(_) => h.file.name@,
        Tile::AltFileName(_) => alt_text(h.alt_file.name@),
        Tile::FileStatus(_) => flag_text(status_flag(h.modifiable, h.modified)),
        Tile::Lsp(_) => tick(h.lsp_attached),
        Tile::Formatter(_) => tick(h.formatter_attached),
        Tile::Tools(_) => tools_text(h.formatter_attached, h.lsp_attached),
    }
}

/// The name of the highlight group of tile `t`.
pub open spec fn group_of(t: Tile, h: HostState) -> Seq<char> {
    match t {
        Tile::Mode(_) | Tile::Loc(_) => "StatusMode"@,
        Tile::Cwd(_) => "StatusCwd"@,
        Tile::GitBranch(_) => "StatusGit"@,
        Tile::Zoom(_) => "StatusZoom"@,
        Tile::Diagnostic(d) => if d.global {
            "StatusDiagnosticGlobal"@
        } else {
            "StatusDiagnostic"@
        },
        Tile::GitDiff(_) => "StatusGitDiff"@,
        Tile::FileName(_) => "Status"@ + h.file.icon_group@,
        Tile::AltFileName(_) => "StatusAlt"@ + h.alt_file.icon_group@,
        Tile::FileStatus(_) => flag_group(status_flag(h.modifiable, h.modified)),
        Tile::Lsp(_) => "StatusLsp"@ + h.file.icon_group@,
        Tile::Formatter(_) => "StatusFormatter"@ + h.file.icon_group@,
        Tile::Tools(_) => "StatusTools"@ + h.file.icon_group@,
    }
}

/// The style that tile `t` starts with.
pub open spec fn default_style(t: Tile) -> HighlightView {
    match t {
        Tile::Cwd(_) | Tile::Zoom(_) => with_bg_style(plain_style(), Color::Yellow),
        Tile::GitBranch(_) | Tile::GitDiff(_) => with_bg_style(plain_style(), Color::Orange),
        Tile::Diagnostic(_) => with_bg_style(plain_style(), Color::Red),
        Tile::FileStatus(_) => plain_style(),
        _ => with_bg_style(plain_style(), Color::Blue),
    }
}

/// The style of tile `t` in a pass, from the style it kept.
pub open spec fn next_style(t: Tile, h: HostState, old_style: HighlightView) -> HighlightView {
    match t {
        Tile::Mode(_) => with_bg_style(old_style, mode_color(h.mode)),
        Tile::Cwd(_) => with_bg_style(old_style, cwd_place(h.cwd@).2),
        Tile::Diagnostic(d) => diagnostic_style(d.global, diagnostic_counts(d.global, h)),
        Tile::FileName(_) | Tile::Lsp(_) | Tile::Formatter(_) => swapped_style(h.file.icon_style@),
        Tile::AltFileName(_) => swapped_style(h.alt_file.icon_style@),
        Tile::FileStatus(_) => flag_style(status_flag(h.modifiable, h.modified), old_style),
        Tile::Tools(_) => with_bg_style(h.file.icon_style@, STATUS_LINE_FG),
        _ => old_style,
    }
}

/// The groups that tile `t` installs once, besides its own.
pub open spec fn setup_extra(t: Tile) -> Seq<InstallView> {
    match t {
        Tile::Diagnostic(_) => diagnostic_setup(),
        Tile::GitDiff(_) => git_diff_setup(),
        _ => Seq::empty(),
    }
}

/// Restyling is idempotent: a style that a pass computed is what the next
/// pass on the same snapshot computes from it.
pub proof fn lemma_next_style_idempotent(t: Tile, h: HostState, s: HighlightView)
    ensures
        next_style(t, h, next_style(t, h, s)) == next_style(t, h, s),
{
}

impl Tile {
    /// How this tile is drawn.
    pub fn style(&self) -> (r: TileStyle)
        ensures
            r == style_of(*self),
    {
        match self {
            Tile::Cwd(_) | Tile::GitBranch(_) | Tile::Zoom(_) | Tile::GitDiff(_)
            | Tile::FileName(_) | Tile::Lsp(_) | Tile::Formatter(_) => TileStyle::Icon,
            Tile::Diagnostic(d) => if d.global {
                TileStyle::Icon
            } else {
                TileStyle::Bubble
            },
            _ => TileStyle::Bubble,
        }
    }

    /// The icon drawn before an icon-style tile's content.
    pub fn icon(&self, host: &HostState) -> (r: String)
        ensures
            r@ == icon_of(*self, *host),
    {
        match self {
            Tile::Cwd(c) => c.map_path(host.cwd.as_str()).0.to_owned(),
            Tile::GitBranch(_) => icons::GIT_BRANCH.to_owned(),
            Tile::Zoom(_) => icons::MAGNIFYING_GLASS.to_owned(),
            Tile::Diagnostic(_) => icons::FOLDER.to_owned(),
            Tile::GitDiff(_) => icons::GIT_DIFF.to_owned(),
            Tile::FileName(_) => host.file.icon.clone(),
            Tile::Lsp(_) => icons::LSP.to_owned(),
            Tile::Formatter(_) => icons::FORMATTER.to_owned(),
            _ => String::new(),
        }
    }

    /// What this tile shows in snapshot `host`.
    pub fn content(&self, host: &HostState) -> (r: Result<String, RenderError>)
        ensures
            content_fails(*self, *host) ==> r == Err::<String, RenderError>(
                RenderError::HostQueryFailure,
            ),
            !content_fails(*self, *host) ==> (r matches Ok(s) && s@ == content_of(*self, *host)),
    {
        match self {
            Tile::Mode(_) => Ok(host.mode.as_str().to_owned()),
            Tile::Cwd(c) => Ok(c.map_path(host.cwd.as_str()).1),
            Tile::GitBranch(g) => Ok(g.content(host)),
            Tile::Loc(_) => Ok("%3.c:%-3.l".to_owned()),
            Tile::Zoom(z) => z.content(host),
            Tile::Diagnostic(d) => Ok(d.content(host)),
            Tile::GitDiff(g) => Ok(g.content(host)),
            Tile::FileName(_) => Ok(host.file.name.clone()),
            Tile::AltFileName(a) => Ok(a.content(host)),
            Tile::FileStatus(f) => Ok(f.content(host)),
            Tile::Lsp(l) => Ok(l.content(host)),
            Tile::Formatter(f) => Ok(f.content(host)),
            Tile::Tools(t) => Ok(t.content(host)),
        }
    }

    /// The name of this tile's highlight group.
    pub fn highlight_name(&self, host: &HostState) -> (r: String)
        ensures
            r@ == group_of(*self, *host),
    {
        match self {
            Tile::Mode(_) | Tile::Loc(_) => "StatusMode".to_owned(),
            Tile::Cwd(_) => "StatusCwd".to_owned(),
            Tile::GitBranch(_) => "StatusGit".to_owned(),
            Tile::Zoom(_) => "StatusZoom".to_owned(),
            Tile::Diagnostic(d) => if d.global {
                "StatusDiagnosticGlobal".to_owned()
            } else {
                "StatusDiagnostic".to_owned()
            },
            Tile::GitDiff(_) => "StatusGitDiff".to_owned(),
            Tile::FileName(_) => suffixed("Status", host.file.icon_group.as_str()),
            Tile::AltFileName(_) => suffixed("StatusAlt", host.alt_file.icon_group.as_str()),
            Tile::FileStatus(f) => f.highlight_name(host),
            Tile::Lsp(_) => suffixed("StatusLsp", host.file.icon_group.as_str()),
            Tile::Formatter(_) => suffixed("StatusFormatter", host.file.icon_group.as_str()),
            Tile::Tools(_) => suffixed("StatusTools", host.file.icon_group.as_str()),
        }
    }

    /// The style this tile starts with.
    pub fn highlight_opt(&self) -> (r: HighlightOpt)
        ensures
            r@ == default_style(*self),
    {
        match self {
            Tile::Cwd(_) | Tile::Zoom(_) => HighlightOpt::with_bg(Color::Yellow),
            Tile::GitBranch(_) | Tile::GitDiff(_) => HighlightOpt::with_bg(Color::Orange),
            Tile::Diagnostic(_) => HighlightOpt::with_bg(Color::Red),
            Tile::FileStatus(_) => HighlightOpt::default(),
            _ => HighlightOpt::with_bg(Color::Blue),
        }
    }

    /// This tile's style for this pass, from the style it kept.
    pub fn update_highlight(&self, host: &HostState, old_opt: HighlightOpt) -> (r: HighlightOpt)
        ensures
            r@ == next_style(*self, *host, old_opt@),
    {
        match self {
            Tile::Mode(m) => m.update_highlight(host, old_opt),
            Tile::Cwd(c) => old_opt.bg(c.map_path(host.cwd.as_str()).2),
            Tile::Diagnostic(d) => d.update_highlight(host),
            Tile::FileName(_) | Tile::Lsp(_) | Tile::Formatter(_) => {
                host.file.icon_style.clone().reverse_fg_bg()
            },
            Tile::AltFileName(_) => host.alt_file.icon_style.clone().reverse_fg_bg(),
            Tile::FileStatus(f) => f.update_highlight(host, old_opt),
            Tile::Tools(_) => host.file.icon_style.clone().bg(STATUS_LINE_FG),
            _ => old_opt,
        }
    }

    /// Adds the groups that this tile installs once, besides its own.
    pub fn setup(&self, out: &mut Vec<HighlightInstall>)
        ensures
            installs_view(final(out)@) == installs_view(old(out)@) + setup_extra(*self),
    {
        match self {
            Tile::Diagnostic(d) => d.setup(out),
            Tile::GitDiff(g) => g.setup(out),
            _ => {
                assert(installs_view(out@) =~= installs_view(out@) + setup_extra(*self));
            },
        }
    }
}

} // verus!
