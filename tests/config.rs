use crabby_vim::dashboard::{random_tagline, tagline, TAGLINES};
use crabby_vim::delimiters::{delimiter_highlights, delimiter_styles};
use crabby_vim::devicons::icon_query;
use crabby_vim::diagnostic::DiagnosticSeverity;
use crabby_vim::lazy::{Lazy, LazyKey, LazyLoad, LazyPlugin, LazyVersion};
use crabby_vim::text::{push_decimal, push_spaces, str_eq};
use crabby_vim::theme::Color;
use crabby_vim::Mode;

#[test]
fn mode_names() {
    assert_eq!(Mode::Normal.as_str(), "normal");
    assert_eq!(Mode::Command.as_str(), "command");
    assert_eq!(Mode::Terminal.as_str(), "terminal");
}

#[test]
fn mode_codes() {
    assert_eq!(Mode::from_code("n"), Mode::Normal);
    assert_eq!(Mode::from_code("ntT"), Mode::Normal);
    assert_eq!(Mode::from_code("ix"), Mode::Insert);
    assert_eq!(Mode::from_code("\u{16}s"), Mode::Visual);
    assert_eq!(Mode::from_code("S"), Mode::Visual);
    assert_eq!(Mode::from_code("r?"), Mode::Command);
    assert_eq!(Mode::from_code("r"), Mode::Replace);
    assert_eq!(Mode::from_code("Rvx"), Mode::Replace);
    assert_eq!(Mode::from_code("t"), Mode::Terminal);
    assert_eq!(Mode::from_code("!"), Mode::Terminal);
}

#[test]
fn severity_keys() {
    assert_eq!(DiagnosticSeverity::Error.key(), "ERROR");
    assert_eq!(DiagnosticSeverity::Hint.key(), "HINT");
}

#[test]
fn icon_queries() {
    assert_eq!(icon_query("init.lua"), ("init", "lua"));
    assert_eq!(icon_query("archive.tar.gz"), ("archive", "tar"));
    assert_eq!(icon_query("Makefile"), ("Makefile", ""));
    assert_eq!(icon_query(".gitignore"), ("", "gitignore"));
    assert_eq!(icon_query(""), ("", ""));
}

#[test]
fn taglines() {
    let t = tagline(2);
    let texts: Vec<&str> = t.iter().map(|c| c.text).collect();
    assert_eq!(texts, vec!["In ", "Rust", " we trust"]);
    assert_eq!(t[1].group, "SnacksDashboardOrangeItalic");
    assert_eq!(tagline(0).len(), 1);
    assert_eq!(tagline(3).len(), 4);
    for _ in 0..20 {
        let r = random_tagline();
        assert!((0..TAGLINES).any(|c| {
            let t = tagline(c);
            t.len() == r.len() && t.iter().zip(r.iter()).all(|(a, b)| a.text == b.text && a.group == b.group)
        }));
    }
}

#[test]
fn delimiters() {
    assert_eq!(delimiter_highlights()[0], "Delimit1");
    assert_eq!(delimiter_highlights()[6], "Delimit7");
    let styles = delimiter_styles();
    assert_eq!(styles.len(), 7);
    assert_eq!(styles[0].0, "Delimit1");
    assert_eq!(styles[0].1.fg, Some(Color::Red));
    assert_eq!(styles[4].1.fg, Some(Color::Cyan));
    assert_eq!(styles[6].1.fg, Some(Color::Purple));
}

#[test]
fn lazy_specs() {
    let load: LazyLoad<&str> = LazyLoad::new(true)
        .events(&["BufWritePre"])
        .ft(&["lua"])
        .add_key(LazyKey::new("<Leader>g").action("lazygit"))
        .add_keys(vec![LazyKey::new("<Leader>sf").modes(&[Mode::Normal, Mode::Visual])]);
    assert!(load.lazy);
    assert_eq!(load.events, Some(&["BufWritePre"][..]));
    assert_eq!(load.cmd, None);
    assert_eq!(load.ft, Some(&["lua"][..]));
    assert_eq!(load.keys.len(), 2);
    assert_eq!(load.keys[0].action, Some("lazygit"));
    assert_eq!(load.keys[1].key, "<Leader>sf");
    assert_eq!(load.keys[1].modes, vec![Mode::Normal, Mode::Visual]);
    let plugin: LazyPlugin<u8, fn(), &str> = LazyPlugin::new("stevearc/conform.nvim")
        .opts(7)
        .depend(&["nvim-tree/nvim-web-devicons"])
        .version(LazyVersion::Tag("v1.0"))
        .build("make")
        .main("conform.setup")
        .opts_extend(&["formatters"])
        .lazy_load(load);
    assert_eq!(plugin.url, "stevearc/conform.nvim");
    assert_eq!(plugin.opts, Some(7));
    assert_eq!(plugin.version, Some(LazyVersion::Tag("v1.0")));
    assert_eq!(plugin.build, Some("make"));
    assert!(plugin.callback.is_none());
    let mut lazy: Lazy<u8, fn(), &str> = Lazy::new();
    lazy.add_plugin(plugin);
    lazy.add_plugins(vec![LazyPlugin::new("a/b"), LazyPlugin::new("c/d")]);
    let urls: Vec<&str> = lazy.plugins.iter().map(|p| p.url).collect();
    assert_eq!(urls, vec!["stevearc/conform.nvim", "a/b", "c/d"]);
}

#[test]
fn text_helpers() {
    let mut s = String::from("n=");
    push_decimal(&mut s, 0);
    push_decimal(&mut s, 1907);
    push_spaces(&mut s, 3);
    assert_eq!(s, "n=01907   ");
    let mut m = String::new();
    push_decimal(&mut m, u64::MAX);
    assert_eq!(m, u64::MAX.to_string());
    assert!(str_eq("abc", "abc"));
    assert!(!str_eq("abc", "abd"));
}

#[test]
fn keymap_codes() {
    assert_eq!(Mode::Normal.keymap_code(), Some("n"));
    assert_eq!(Mode::Visual.keymap_code(), Some("v"));
    assert_eq!(Mode::Terminal.keymap_code(), Some("t"));
    assert_eq!(Mode::Replace.keymap_code(), None);
}

#[test]
fn random_taglines_vary() {
    let first_texts = |v: Vec<crabby_vim::dashboard::TextChunk>| v[0].text;
    let seen: std::collections::HashSet<&str> = (0..200).map(|_| first_texts(random_tagline())).collect();
    assert!(seen.len() >= 2);
}
