use crabby_vim::status::line::compose_line;
use crabby_vim::status::tiles::{Cwd, Diagnostic, FileName, FileStatus, GitBranch, Loc, Mode, Tile, Tools, Zoom};
use crabby_vim::status::{DiagnosticCount, FileInfo, GitDiffCount, HostState, Line, RenderError};
use crabby_vim::theme::{Color, HighlightOpt};

fn file(name: &str, icon: &str, group: &str) -> FileInfo {
    FileInfo {
        name: name.to_string(),
        icon: icon.to_string(),
        icon_group: group.to_string(),
        icon_style: HighlightOpt::with_fg(Color::Orange),
    }
}

fn zero() -> DiagnosticCount {
    DiagnosticCount { error: 0, warn: 0, hint: 0, info: 0 }
}

fn host() -> HostState {
    HostState {
        mode: crabby_vim::Mode::Normal,
        cwd: "/home/me/project".to_string(),
        git_head: None,
        git_diff: GitDiffCount { added: 0, changed: 0, removed: 0 },
        zoom_percent: None,
        global_diagnostics: zero(),
        buffer_diagnostics: zero(),
        file: file("main.rs", "R", "DevIconRs"),
        alt_file: file("", "", "DevIconDefault"),
        modifiable: true,
        modified: false,
        lsp_attached: true,
        formatter_attached: false,
        filetype: "rust".to_string(),
    }
}

fn bubble(group: &str, content: &str) -> String {
    format!("%#{group}Rev#\u{e0b6}%#{group}#{content}%#{group}Rev#\u{e0b4}%*")
}

fn icon_cell(group: &str, icon: &str, content: &str) -> String {
    format!("%#{group}Sep#\u{e0b6}%#{group}#{icon} %#{group}Rev# {content}%*\u{e0b4}%*")
}

#[test]
fn compose_pads_outer_sections_to_equal_width() {
    let line = compose_line("normal", "", "", "", "col 4:row 10", 6, 0, 0, 12);
    assert_eq!(line, format!("normal{}%=  %=col 4:row 10", " ".repeat(6)));
}

#[test]
fn compose_pads_center_neighbours_the_other_way() {
    let line = compose_line("", "ab", "C", "wxyz", "", 0, 2, 4, 0);
    assert_eq!(line, "%=  ab C wxyz%=");
}

#[test]
fn compose_ignores_widths_of_empty_sections() {
    let line = compose_line("", "", "mid", "", "right", 9, 9, 9, 3);
    assert_eq!(line, "   %= mid %=right");
}

#[test]
fn mode_and_location_render_and_center() {
    let mut line = Line::new();
    line.add_left(Tile::Mode(Mode::new()));
    line.add_right(Tile::Loc(Loc));
    let frame = line.render(&host()).unwrap();
    assert!(!frame.hidden);
    assert_eq!(frame.left, bubble("StatusMode", "normal"));
    assert_eq!(frame.right, bubble("StatusMode", "%3.c:%-3.l"));
    assert_eq!(frame.center, "");
    let shown = frame.finish(6, 0, 0, 12);
    assert_eq!(shown, format!("{}{}%=  %={}", frame.left, " ".repeat(6), frame.right));
}

#[test]
fn first_pass_installs_setup_groups_in_section_order() {
    let mut line = Line::new();
    line.add_left(Tile::Mode(Mode::new()));
    line.add_right(Tile::Loc(Loc));
    let frame = line.render(&host()).unwrap();
    let names: Vec<&str> = frame.installs.iter().map(|i| i.name.as_str()).collect();
    assert_eq!(names, vec!["StatusMode", "StatusModeRev", "StatusMode", "StatusModeRev"]);
    let own = &frame.installs[0].style;
    assert_eq!(own.bg, Some(Color::Blue));
    assert_eq!(own.fg, Some(Color::Bg1));
    let edge = &frame.installs[1].style;
    assert_eq!(edge.fg, Some(Color::Blue));
    assert_eq!(edge.bg, Some(Color::Bg1));
}

#[test]
fn second_pass_is_identical_and_installs_nothing() {
    let mut line = Line::new();
    line.add_left(Tile::Mode(Mode::new()));
    line.add_left(Tile::Cwd(Cwd::new()));
    line.add_left(Tile::Diagnostic(Diagnostic::new(true)));
    line.add_center(Tile::FileName(FileName::new()));
    line.add_right(Tile::Tools(Tools::new()));
    let mut h = host();
    h.global_diagnostics.error = 2;
    let first = line.render(&h).unwrap();
    let second = line.render(&h).unwrap();
    assert_eq!(first.left, second.left);
    assert_eq!(first.center, second.center);
    assert_eq!(first.right, second.right);
    assert!(!first.installs.is_empty());
    assert!(second.installs.is_empty());
}

#[test]
fn setup_groups_are_installed_only_once() {
    let mut line = Line::new();
    line.add_left(Tile::Diagnostic(Diagnostic::new(false)));
    let mut h = host();
    h.buffer_diagnostics.warn = 1;
    let first = line.render(&h).unwrap();
    let count = |f: &crabby_vim::status::Frame| f.installs.iter().filter(|i| i.name == "StatusError").count();
    assert_eq!(count(&first), 1);
    for _ in 0..3 {
        let again = line.render(&h).unwrap();
        assert_eq!(count(&again), 0);
    }
}

#[test]
fn tile_with_empty_content_leaves_no_trace() {
    let mut with_branch = Line::new();
    with_branch.add_left(Tile::Mode(Mode::new()));
    with_branch.add_left(Tile::GitBranch(GitBranch));
    with_branch.add_left(Tile::Loc(Loc));
    let mut without = Line::new();
    without.add_left(Tile::Mode(Mode::new()));
    without.add_left(Tile::Loc(Loc));
    let h = host();
    assert_eq!(with_branch.render(&h).unwrap().left, without.render(&h).unwrap().left);
    assert_eq!(
        without.render(&h).unwrap().left,
        format!("{} {}", bubble("StatusMode", "normal"), bubble("StatusMode", "%3.c:%-3.l"))
    );
}

#[test]
fn git_branch_renders_as_icon_tile() {
    let mut line = Line::new();
    line.add_left(Tile::GitBranch(GitBranch));
    let mut h = host();
    h.git_head = Some("main".to_string());
    assert_eq!(line.render(&h).unwrap().left, icon_cell("StatusGit", "\u{e725}", "main"));
}

#[test]
fn global_diagnostic_without_counts_is_empty_and_keeps_style() {
    let mut line = Line::new();
    line.add_left(Tile::Diagnostic(Diagnostic::new(true)));
    let mut h = host();
    h.global_diagnostics.error = 3;
    let first = line.render(&h).unwrap();
    assert_eq!(first.left, icon_cell("StatusDiagnosticGlobal", "\u{f024b}", "%#StatusError#\u{f530} 3"));
    assert!(first.installs.iter().any(|i| i.name == "StatusDiagnosticGlobal" && i.style.bg == Some(Color::Yellow)));
    h.global_diagnostics.error = 0;
    let quiet = line.render(&h).unwrap();
    assert_eq!(quiet.left, "");
    assert!(quiet.installs.is_empty());
    h.global_diagnostics.error = 3;
    let back = line.render(&h).unwrap();
    assert!(back.installs.is_empty());
}

#[test]
fn diagnostic_style_follows_thresholds() {
    let d = Diagnostic::new(true);
    let mut h = host();
    for (total, color) in [(0, Color::Purple), (1, Color::Yellow), (4, Color::Yellow), (5, Color::Orange), (9, Color::Orange), (10, Color::Red)] {
        h.global_diagnostics.error = total;
        assert_eq!(d.update_highlight(&h).bg, Some(color));
    }
    h.global_diagnostics.error = 2;
    h.global_diagnostics.warn = 3;
    assert_eq!(d.update_highlight(&h).bg, Some(Color::Orange));
    assert_eq!(Diagnostic::new(false).update_highlight(&h).bg, Some(Color::Bg2));
}

#[test]
fn icon_tile_with_empty_content_is_left_out_entirely() {
    let mut line = Line::new();
    line.add_left(Tile::FileName(FileName::new()));
    line.add_left(Tile::Mode(Mode::new()));
    let mut h = host();
    h.file.name = String::new();
    assert_eq!(line.render(&h).unwrap().left, bubble("StatusMode", "normal"));
}

#[test]
fn missing_zoom_fails_and_changes_nothing() {
    let mut line = Line::new();
    line.add_right(Tile::Zoom(Zoom));
    let h = host();
    assert_eq!(line.render(&h).unwrap_err(), RenderError::HostQueryFailure);
    let mut zoomed = host();
    zoomed.zoom_percent = Some(125);
    let frame = line.render(&zoomed).unwrap();
    assert_eq!(frame.right, icon_cell("StatusZoom", "\u{e644}", "125%%"));
    assert_eq!(frame.installs.len(), 3);
}

#[test]
fn icon_tile_without_icon_fails() {
    let mut line = Line::new();
    line.add_center(Tile::FileName(FileName::new()));
    let mut h = host();
    h.file.icon = String::new();
    assert_eq!(line.render(&h).unwrap_err(), RenderError::RenderFormatFailure);
}

#[test]
fn excluded_file_type_hides_the_line() {
    let mut line = Line::new();
    line.add_left(Tile::Mode(Mode::new()));
    line.exclude_ft("oil");
    let mut h = host();
    h.filetype = "oil".to_string();
    let frame = line.render(&h).unwrap();
    assert!(frame.hidden);
    assert_eq!(frame.installs.len(), 2);
    assert_eq!(frame.finish(3, 3, 3, 3), "");
    h.filetype = "rust".to_string();
    let shown = line.render(&h).unwrap();
    assert_eq!(shown.left, bubble("StatusMode", "normal"));
    assert!(shown.installs.is_empty());
}

#[test]
fn mode_change_reinstalls_mode_groups() {
    let mut line = Line::new();
    line.add_left(Tile::Mode(Mode::new()));
    let mut h = host();
    line.render(&h).unwrap();
    h.mode = crabby_vim::Mode::Insert;
    let frame = line.render(&h).unwrap();
    assert_eq!(frame.left, bubble("StatusMode", "insert"));
    let names: Vec<&str> = frame.installs.iter().map(|i| i.name.as_str()).collect();
    assert_eq!(names, vec!["StatusMode", "StatusModeRev"]);
    assert_eq!(frame.installs[0].style.bg, Some(Color::Green));
}

#[test]
fn file_status_flags() {
    let mut line = Line::new();
    line.add_right_center(Tile::FileStatus(FileStatus::new()));
    let mut h = host();
    assert_eq!(line.render(&h).unwrap().right_center, "");
    h.modified = true;
    let frame = line.render(&h).unwrap();
    assert_eq!(frame.right_center, bubble("StatusFileMod", "[+]"));
    assert_eq!(frame.installs[0].style.bg, Some(Color::Green));
    h.modifiable = false;
    assert_eq!(line.render(&h).unwrap().right_center, bubble("StatusFileUnMod", "[-]"));
}
