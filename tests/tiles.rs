use crabby_vim::status::tiles::{AltFileName, Cwd, Diagnostic, FileStatus, FileStatusFlag, Formatter, GitBranch, GitDiff, Lsp, Mode, Tile, Tools, Zoom};
use crabby_vim::status::{DiagnosticCount, FileInfo, GitDiffCount, HostState, RenderError, TileStyle};
use crabby_vim::theme::{Color, HighlightOpt};

fn info(name: &str) -> FileInfo {
    FileInfo {
        name: name.to_string(),
        icon: "I".to_string(),
        icon_group: "DevIconLua".to_string(),
        icon_style: HighlightOpt::with_fg(Color::Cyan).bg(Color::Bg0),
    }
}

fn host() -> HostState {
    let zero = DiagnosticCount { error: 0, warn: 0, hint: 0, info: 0 };
    HostState {
        mode: crabby_vim::Mode::Visual,
        cwd: "D:\\config\\nvim".to_string(),
        git_head: Some("dev".to_string()),
        git_diff: GitDiffCount { added: 3, changed: 0, removed: 12 },
        zoom_percent: Some(90),
        global_diagnostics: zero,
        buffer_diagnostics: DiagnosticCount { error: 1, warn: 0, hint: 2, info: 10 },
        file: info("init.lua"),
        alt_file: info("plugins.lua"),
        modifiable: true,
        modified: true,
        lsp_attached: false,
        formatter_attached: true,
        filetype: "lua".to_string(),
    }
}

#[test]
fn diagnostic_content_lists_nonzero_counts_in_order() {
    let h = host();
    assert_eq!(
        Diagnostic::new(false).content(&h),
        "%#StatusError#\u{f530} 1 %#StatusHint#\u{f0335} 2 %#StatusInfo#\u{f05a} 10"
    );
    assert_eq!(Diagnostic::new(true).content(&h), "");
}

#[test]
fn diagnostic_total_counts_errors_and_warnings() {
    let c = DiagnosticCount { error: 4, warn: 7, hint: 100, info: 100 };
    assert_eq!(c.total(), 11);
    let big = DiagnosticCount { error: u32::MAX, warn: u32::MAX, hint: 0, info: 0 };
    assert_eq!(big.total(), 2 * (u32::MAX as u64));
}

#[test]
fn diagnostic_setup_groups() {
    let mut out = Vec::new();
    Diagnostic::new(true).setup(&mut out);
    let names: Vec<&str> = out.iter().map(|i| i.name.as_str()).collect();
    assert_eq!(names, vec!["StatusError", "StatusWarn", "StatusInfo", "StatusHint"]);
    assert_eq!(out[0].style.fg, Some(Color::Red));
    assert_eq!(out[0].style.bg, Some(Color::Bg2));
}

#[test]
fn git_diff_content_skips_zero_counts() {
    let h = host();
    assert_eq!(GitDiff.content(&h), "%#StatusGitAdd#+3 %#StatusGitRemove#-12");
    let mut none = host();
    none.git_diff = GitDiffCount { added: 0, changed: -1, removed: 0 };
    assert_eq!(GitDiff.content(&none), "");
    let mut out = Vec::new();
    GitDiff.setup(&mut out);
    let names: Vec<&str> = out.iter().map(|i| i.name.as_str()).collect();
    assert_eq!(names, vec!["StatusGitAdd", "StatusGitChange", "StatusGitRemove"]);
}

#[test]
fn cwd_known_places_and_others() {
    let c = Cwd::new();
    let (icon, label, color) = c.map_path("D:\\config\\nvim");
    assert_eq!((icon, label.as_str(), color), ("\u{f36f}", "nvim", Color::Green));
    let (icon, label, color) = c.map_path("D:\\OneDrive\\Desktop\\Code");
    assert_eq!((icon, label.as_str(), color), ("\u{f44f}", "code", Color::Blue));
    let (icon, label, color) = c.map_path("/tmp/x");
    assert_eq!((icon, label.as_str(), color), ("\u{f024b}", "/tmp/x", Color::Yellow));
}

#[test]
fn cwd_tile_uses_place() {
    let h = host();
    let t = Tile::Cwd(Cwd::new());
    assert_eq!(t.content(&h).unwrap(), "nvim");
    assert_eq!(t.icon(&h), "\u{f36f}");
    assert_eq!(t.update_highlight(&h, HighlightOpt::with_bg(Color::Yellow).bold()).bg, Some(Color::Green));
    assert!(t.update_highlight(&h, HighlightOpt::default().bold()).bold);
}

#[test]
fn mode_tile_color_follows_mode() {
    let h = host();
    let t = Tile::Mode(Mode::new());
    assert_eq!(t.content(&h).unwrap(), "visual");
    let s = t.update_highlight(&h, HighlightOpt::with_bg(Color::Blue).italic());
    assert_eq!(s.bg, Some(Color::Purple));
    assert!(s.italic);
}

#[test]
fn branch_zoom_and_alt_file() {
    let h = host();
    assert_eq!(GitBranch.content(&h), "dev");
    assert_eq!(Zoom.content(&h).unwrap(), "90%%");
    let mut none = host();
    none.zoom_percent = None;
    assert_eq!(Zoom.content(&none).unwrap_err(), RenderError::HostQueryFailure);
    assert_eq!(AltFileName::new().content(&h), "alt: plugins.lua");
    none.alt_file.name = String::new();
    assert_eq!(AltFileName::new().content(&none), "");
}

#[test]
fn file_tiles_take_their_group_from_the_icon() {
    let h = host();
    assert_eq!(Tile::FileName(crabby_vim::status::FileName::new()).highlight_name(&h), "StatusDevIconLua");
    assert_eq!(Tile::AltFileName(AltFileName::new()).highlight_name(&h), "StatusAltDevIconLua");
    assert_eq!(Tile::Lsp(Lsp::new()).highlight_name(&h), "StatusLspDevIconLua");
    assert_eq!(Tile::Formatter(Formatter::new()).highlight_name(&h), "StatusFormatterDevIconLua");
    assert_eq!(Tile::Tools(Tools::new()).highlight_name(&h), "StatusToolsDevIconLua");
    let swapped = Tile::Lsp(Lsp::new()).update_highlight(&h, HighlightOpt::default());
    assert_eq!((swapped.fg, swapped.bg), (Some(Color::Bg0), Some(Color::Cyan)));
    let tools = Tile::Tools(Tools::new()).update_highlight(&h, HighlightOpt::default());
    assert_eq!((tools.fg, tools.bg), (Some(Color::Cyan), Some(Color::Bg2)));
}

#[test]
fn tool_ticks() {
    let mut h = host();
    assert_eq!(Lsp::new().content(&h), "\u{f00d}");
    assert_eq!(Formatter::new().content(&h), "\u{f00c}");
    assert_eq!(Tools::new().content(&h), "\u{ee72}");
    h.lsp_attached = true;
    assert_eq!(Tools::new().content(&h), "\u{f00c}");
    h.formatter_attached = false;
    assert_eq!(Tools::new().content(&h), "\u{f085}");
    h.lsp_attached = false;
    assert_eq!(Tools::new().content(&h), "\u{f00d}");
}

#[test]
fn file_status_flag_prefers_unmodifiable() {
    let mut h = host();
    let f = FileStatus::new();
    assert_eq!(f.flag(&h), FileStatusFlag::Modified);
    h.modifiable = false;
    assert_eq!(f.flag(&h), FileStatusFlag::UnModifiable);
    assert_eq!(f.highlight_name(&h), "StatusFileUnMod");
    h.modifiable = true;
    h.modified = false;
    assert_eq!(f.flag(&h), FileStatusFlag::Clean);
    assert_eq!(f.content(&h), "");
    let kept = f.update_highlight(&h, HighlightOpt::with_bg(Color::Pink));
    assert_eq!(kept.bg, Some(Color::Pink));
}

#[test]
fn tile_styles_and_defaults() {
    assert_eq!(Tile::Diagnostic(Diagnostic::new(true)).style(), TileStyle::Icon);
    assert_eq!(Tile::Diagnostic(Diagnostic::new(false)).style(), TileStyle::Bubble);
    assert_eq!(Tile::Tools(Tools::new()).style(), TileStyle::Bubble);
    assert_eq!(Tile::GitDiff(GitDiff).style(), TileStyle::Icon);
    assert_eq!(Tile::GitDiff(GitDiff).highlight_opt().bg, Some(Color::Orange));
    assert_eq!(Tile::FileStatus(FileStatus::new()).highlight_opt().bg, None);
    assert_eq!(Tile::Mode(Mode::new()).icon(&host()), "");
}
