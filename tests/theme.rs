use crabby_vim::theme::syntax::{lsp_group, SyntaxGroup};
use crabby_vim::theme::{Color, HighlightOpt};

#[test]
fn colors_round_trip_through_hex() {
    assert_eq!(Color::Orange.to_str(), "#fa9534");
    assert_eq!(Color::Bg3.to_str(), "#5e5e5e");
    assert_eq!(Color::from_hex("#41a7fc"), Some(Color::Blue));
    assert_eq!(Color::from_hex("#101010"), Some(Color::Bg0));
    assert_eq!(Color::from_hex("#000000"), None);
    for c in [Color::Pink, Color::Red, Color::White, Color::Gray, Color::Bg2] {
        assert_eq!(Color::from_hex(c.to_str()), Some(c));
    }
}

#[test]
fn builders_set_one_attribute_each() {
    let h = HighlightOpt::with_fg(Color::Green).bg(Color::Bg0).bold().italic();
    assert_eq!(h.fg, Some(Color::Green));
    assert_eq!(h.bg, Some(Color::Bg0));
    assert!(h.bold && h.italic && !h.underline && !h.reverse && !h.strike);
    let r = HighlightOpt::default().reverse().underline().strike();
    assert!(r.reverse && r.underline && r.strike && !r.bold);
    assert_eq!(HighlightOpt::link("Visual").link, Some("Visual".to_string()));
}

#[test]
fn swap_and_default_foreground() {
    let h = HighlightOpt::with_bg(Color::Red).reverse_fg_bg();
    assert_eq!((h.fg, h.bg), (Some(Color::Red), None));
    let filled = HighlightOpt::with_bg(Color::Red).fg_if_none(Color::Bg1);
    assert_eq!(filled.fg, Some(Color::Bg1));
    let kept = HighlightOpt::with_fg(Color::Cyan).fg_if_none(Color::Bg1);
    assert_eq!(kept.fg, Some(Color::Cyan));
}

#[test]
fn equality_compares_every_attribute() {
    let a = HighlightOpt::with_fg(Color::Blue).bold();
    assert!(a == a.clone());
    assert!(a != HighlightOpt::with_fg(Color::Blue));
    assert!(HighlightOpt::link("A") != HighlightOpt::link("B"));
    assert!(HighlightOpt::link("A").same_as(&HighlightOpt::link("A")));
}

#[test]
fn host_attributes_of_plain_and_linked_styles() {
    let plain = HighlightOpt::with_fg(Color::Yellow).bg(Color::Bg1).underline().reverse().host_attrs();
    assert_eq!(plain.link, None);
    assert_eq!(plain.foreground, Some("#efbd5d"));
    assert_eq!(plain.background, Some("#242424"));
    assert!(plain.underline && !plain.bold);
    let linked = HighlightOpt::link("Visual").bold().fg(Color::Red).host_attrs();
    assert_eq!(linked.link, Some("Visual".to_string()));
    assert_eq!(linked.foreground, None);
    assert!(!linked.bold);
}

#[test]
fn syntax_group_names() {
    assert_eq!(SyntaxGroup::Comment.name(), "Comment");
    assert_eq!(SyntaxGroup::Structure.name(), "Structure");
    assert_eq!(SyntaxGroup::Delimiter.name(), "Delimiter");
    assert_eq!(lsp_group("enumMember"), "@lsp.type.enumMember");
}
