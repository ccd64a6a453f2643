//! The color palette and highlight-group styles.

use vstd::prelude::*;

use crate::text::str_eq;

pub mod syntax;

verus! {

/// A color of the palette.
#[derive(Clone, Copy, Debug, PartialEq, Eq, Structural)]
pub enum Color {
    Pink,
    Red,
    Orange,
    Yellow,
    Green,
    Cyan,
    Blue,
    Purple,
    White,
    Gray,
    Bg0,
    Bg1,
    Bg2,
    Bg3,
}

/// The hex code of each color.
pub open spec fn hex(c: Color) -> Seq<char> {
    match c {
        Color::Pink => "#ff4f9b"@,
        Color::Red => "#f65866"@,
        Color::Orange => "#fa9534"@,
        Color::Yellow => "#efbd5d"@,
        Color::Green => "#8bcd5b"@,
        Color::Cyan => "#00b8b8"@,
        Color::Blue => "#41a7fc"@,
        Color::Purple => "#c75ae8"@,
        Color::White => "#829bcd"@,
        Color::Gray => "#68687a"@,
        Color::Bg0 => "#101010"@,
        Color::Bg1 => "#242424"@,
        Color::Bg2 => "#404040"@,
        Color::Bg3 => "#5e5e5e"@,
    }
}

/// Every color, in palette order.
pub open spec fn palette() -> Seq<Color> {
    seq![
        Color::Pink, Color::Red, Color::Orange, Color::Yellow, Color::Green, Color::Cyan,
        Color::Blue, Color::Purple, Color::White, Color::Gray, Color::Bg0, Color::Bg1,
        Color::Bg2, Color::Bg3,
    ]
}

impl Color {
    /// The hex code of this color, as the editor expects it.
    pub fn to_str(self) -> (r: &'static str)
        ensures
            r@ == hex(self),
    {
        match self {
            Color::Pink => "#ff4f9b",
            Color::Red => "#f65866",
            Color::Orange => "#fa9534",
            Color::Yellow => "#efbd5d",
            Color::Green => "#8bcd5b",
            Color::Cyan => "#00b8b8",
            Color::Blue => "#41a7fc",
            Color::Purple => "#c75ae8",
            Color::White => "#829bcd",
            Color::Gray => "#68687a",
            Color::Bg0 => "#101010",
            Color::Bg1 => "#242424",
            Color::Bg2 => "#404040",
            Color::Bg3 => "#5e5e5e",
        }
    }

    /// The palette color whose hex code is `s`, if any.
    pub fn from_hex(s: &str) -> (r: Option<Color>)
        ensures
            r matches Some(c) ==> hex(c) == s@,
            r is None ==> forall|c: Color| hex(c) != s@,
    {
        let all: [Color; 14] = [
            Color::Pink, Color::Red, Color::Orange, Color::Yellow, Color::Green, Color::Cyan,
            Color::Blue, Color::Purple, Color::White, Color::Gray, Color::Bg0, Color::Bg1,
            Color::Bg2, Color::Bg3,
        ];
        assert(all@ == palette());
        let mut i: usize = 0;
        while i < 14
            invariant
                i <= 14,
                all@ == palette(),
                forall|j: int| 0 <= j < i ==> hex(#[trigger] palette()[j]) != s@,
            decreases 14 - i,
        {
            let c = all[i];
            if str_eq(c.to_str(), s) {
                return Some(c);
            }
            i = i + 1;
        }
        assert forall|c: Color| hex(c) != s@ by {
            match c {
                Color::Pink => assert(palette()[0] == c),
                Color::Red => assert(palette()[1] == c),
                Color::Orange => assert(palette()[2] == c),
                Color::Yellow => assert(palette()[3] == c),
                Color::Green => assert(palette()[4] == c),
                Color::Cyan => assert(palette()[5] == c),
                Color::Blue => assert(palette()[6] == c),
                Color::Purple => assert(palette()[7] == c),
                Color::White => assert(palette()[8] == c),
                Color::Gray => assert(palette()[9] == c),
                Color::Bg0 => assert(palette()[10] == c),
                Color::Bg1 => assert(palette()[11] == c),
                Color::Bg2 => assert(palette()[12] == c),
                Color::Bg3 => assert(palette()[13] == c),
            }
        }
        None
    }
}

/// The background color of the statusline.
pub const STATUS_LINE_BG: Color = Color::Bg1;

/// The foreground color of the statusline.
pub const STATUS_LINE_FG: Color = Color::Bg2;

/// The attributes of a highlight group, as values.
pub struct HighlightView {
    pub fg: Option<Color>,
    pub bg: Option<Color>,
    pub underline: bool,
    pub bold: bool,
    pub italic: bool,
    pub reverse: bool,
    pub link: Option<Seq<char>>,
    pub strike: bool,
}

/// The attributes of a highlight group. When `link` is set the editor
/// ignores every other attribute.
#[derive(Debug)]
pub struct HighlightOpt {
    pub fg: Option<Color>,
    pub bg: Option<Color>,
    pub underline: bool,
    pub bold: bool,
    pub italic: bool,
    pub reverse: bool,
    pub link: Option<String>,
    pub strike: bool,
}

/// The characters of an optional string.
pub open spec fn opt_chars(o: Option<String>) -> Option<Seq<char>> {
    match o {
        Some(s) => Some(s@),
        None => None,
    }
}

impl View for HighlightOpt {
    type V = HighlightView;

    open spec fn view(&self) -> HighlightView {
        HighlightView {
            fg: self.fg,
            bg: self.bg,
            underline: self.underline,
            bold: self.bold,
            italic: self.italic,
            reverse: self.reverse,
            link: opt_chars(self.link),
            strike: self.strike,
        }
    }
}

/// The style with no attribute set.
pub open spec fn plain_style() -> HighlightView {
    HighlightView {
        fg: None,
        bg: None,
        underline: false,
        bold: false,
        italic: false,
        reverse: false,
        link: None,
        strike: false,
    }
}

/// `h` with its foreground set to `c`.
pub open spec fn with_fg_style(h: HighlightView, c: Color) -> HighlightView {
    HighlightView { fg: Some(c), ..h }
}

/// `h` with its background set to `c`.
pub open spec fn with_bg_style(h: HighlightView, c: Color) -> HighlightView {
    HighlightView { bg: Some(c), ..h }
}

/// `h` with foreground and background swapped.
pub open spec fn swapped_style(h: HighlightView) -> HighlightView {
    HighlightView { fg: h.bg, bg: h.fg, ..h }
}

/// `h` with its foreground set to `c` where it had none.
pub open spec fn fg_default_style(h: HighlightView, c: Color) -> HighlightView {
    if h.fg is None {
        with_fg_style(h, c)
    } else {
        h
    }
}

impl Clone for HighlightOpt {
    fn clone(&self) -> (r: Self)
        ensures
            r@ == self@,
    {
        let link = match &self.link {
            Some(l) => Some(l.clone()),
            None => None,
        };
        HighlightOpt {
            fg: self.fg,
            bg: self.bg,
            underline: self.underline,
            bold: self.bold,
            italic: self.italic,
            reverse: self.reverse,
            link,
            strike: self.strike,
        }
    }
}

impl Default for HighlightOpt {
    fn default() -> (r: Self)
        ensures
            r@ == plain_style(),
    {
        HighlightOpt {
            fg: None,
            bg: None,
            underline: false,
            bold: false,
            italic: false,
            reverse: false,
            link: None,
            strike: false,
        }
    }
}

impl HighlightOpt {
    /// A style with only a foreground color.
    pub fn with_fg(color: Color) -> (r: Self)
        ensures
            r@ == with_fg_style(plain_style(), color),
    {
        Self::default().fg(color)
    }

    /// A style with only a background color.
    pub fn with_bg(color: Color) -> (r: Self)
        ensures
            r@ == with_bg_style(plain_style(), color),
    {
        Self::default().bg(color)
    }

    /// A style that links to the highlight group `link`.
    pub fn link(link: &str) -> (r: Self)
        ensures
            r@ == (HighlightView { link: Some(link@), ..plain_style() }),
    {
        let mut r = Self::default();
        r.link = Some(link.to_owned());
        r
    }

    /// This style with foreground `color`.
    pub fn fg(self, color: Color) -> (r: Self)
        ensures
            r@ == with_fg_style(self@, color),
    {
        let mut r = self;
        r.fg = Some(color);
        r
    }

    /// This style with background `color`.
    pub fn bg(self, color: Color) -> (r: Self)
        ensures
            r@ == with_bg_style(self@, color),
    {
        let mut r = self;
        r.bg = Some(color);
        r
    }

    /// This style, underlined.
    pub fn underline(self) -> (r: Self)
        ensures
            r@ == (HighlightView { underline: true, ..self@ }),
    {
        let mut r = self;
        r.underline = true;
        r
    }

    /// This style, bold.
    pub fn bold(self) -> (r: Self)
        ensures
            r@ == (HighlightView { bold: true, ..self@ }),
    {
        let mut r = self;
        r.bold = true;
        r
    }

    /// This style, italic.
    pub fn italic(self) -> (r: Self)
        ensures
            r@ == (HighlightView { italic: true, ..self@ }),
    {
        let mut r = self;
        r.italic = true;
        r
    }

    /// This style, reversed.
    pub fn reverse(self) -> (r: Self)
        ensures
            r@ == (HighlightView { reverse: true, ..self@ }),
    {
        let mut r = self;
        r.reverse = true;
        r
    }

    /// This style, struck through.
    pub fn strike(self) -> (r: Self)
        ensures
            r@ == (HighlightView { strike: true, ..self@ }),
    {
        let mut r = self;
        r.strike = true;
        r
    }

    /// This style with foreground and background swapped.
    pub fn reverse_fg_bg(self) -> (r: Self)
        ensures
            r@ == swapped_style(self@),
    {
        let mut r = self;
        let fg = r.fg;
        r.fg = r.bg;
        r.bg = fg;
        r
    }

    /// This style with foreground `color` where it has none.
    pub fn fg_if_none(self, color: Color) -> (r: Self)
        ensures
            r@ == fg_default_style(self@, color),
    {
        if self.fg.is_none() {
            self.fg(color)
        } else {
            self
        }
    }

    /// Whether two styles set the same attributes.
    pub fn same_as(&self, other: &HighlightOpt) -> (r: bool)
        ensures
            r == (self@ == other@),
    {
        let links = match (&self.link, &other.link) {
            (Some(a), Some(b)) => *a == *b,
            (None, None) => true,
            _ => false,
        };
        let fgs = match (self.fg, other.fg) {
            (Some(a), Some(b)) => a == b,
            (None, None) => true,
            _ => false,
        };
        let bgs = match (self.bg, other.bg) {
            (Some(a), Some(b)) => a == b,
            (None, None) => true,
            _ => false,
        };
        links && fgs && bgs && self.underline == other.underline && self.bold == other.bold
            && self.italic == other.italic && self.reverse == other.reverse && self.strike
            == other.strike
    }

    /// What the editor is told when this style is installed: a link alone, or
    /// the colors as hex codes and the attributes that the editor takes.
    pub fn host_attrs(&self) -> (r: HostHighlight)
        ensures
            r@ == host_view(self@),
    {
        match &self.link {
            Some(l) => HostHighlight {
                link: Some(l.clone()),
                foreground: None,
                background: None,
                underline: false,
                bold: false,
                italic: false,
                strikethrough: false,
            },
            None => HostHighlight {
                link: None,
                foreground: match self.fg {
                    Some(c) => Some(c.to_str()),
                    None => None,
                },
                background: match self.bg {
                    Some(c) => Some(c.to_str()),
                    None => None,
                },
                underline: self.underline,
                bold: self.bold,
                italic: self.italic,
                strikethrough: self.strike,
            },
        }
    }
}

impl PartialEq for HighlightOpt {
    fn eq(&self, other: &HighlightOpt) -> (r: bool) {
        self.same_as(other)
    }
}

impl vstd::std_specs::cmp::PartialEqSpecImpl for HighlightOpt {
    open spec fn obeys_eq_spec() -> bool {
        true
    }

    open spec fn eq_spec(&self, other: &HighlightOpt) -> bool {
        self@ == other@
    }
}

/// The attributes handed to the editor when a highlight group is installed.
pub struct HostHighlight {
    pub link: Option<String>,
    pub foreground: Option<&'static str>,
    pub background: Option<&'static str>,
    pub underline: bool,
    pub bold: bool,
    pub italic: bool,
    pub strikethrough: bool,
}

/// `HostHighlight` as values.
pub struct HostHighlightView {
    pub link: Option<Seq<char>>,
    pub foreground: Option<Seq<char>>,
    pub background: Option<Seq<char>>,
    pub underline: bool,
    pub bold: bool,
    pub italic: bool,
    pub strikethrough: bool,
}

/// The hex code of an optional color.
pub open spec fn opt_hex(c: Option<Color>) -> Option<Seq<char>> {
    match c {
        Some(c) => Some(hex(c)),
        None => None,
    }
}

/// The characters of an optional string slice.
pub open spec fn opt_str_chars(o: Option<&'static str>) -> Option<Seq<char>> {
    match o {
        Some(s) => Some(s@),
        None => None,
    }
}

impl View for HostHighlight {
    type V = HostHighlightView;

    open spec fn view(&self) -> HostHighlightView {
        HostHighlightView {
            link: opt_chars(self.link),
            foreground: opt_str_chars(self.foreground),
            background: opt_str_chars(self.background),
            underline: self.underline,
            bold: self.bold,
            italic: self.italic,
            strikethrough: self.strikethrough,
        }
    }
}

/// What the editor is told for style `h`: a linked group carries nothing
/// but the link, and the reverse flag is never sent.
pub open spec fn host_view(h: HighlightView) -> HostHighlightView {
    match h.link {
        Some(l) => HostHighlightView {
            link: Some(l),
            foreground: None,
            background: None,
            underline: false,
            bold: false,
            italic: false,
            strikethrough: false,
        },
        None => HostHighlightView {
            link: None,
            foreground: opt_hex(h.fg),
            background: opt_hex(h.bg),
            underline: h.underline,
            bold: h.bold,
            italic: h.italic,
            strikethrough: h.strike,
        },
    }
}

} // verus!
