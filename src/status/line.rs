//! Lines of tiles, and the render pass.

use vstd::prelude::*;

use super::host::HostState;
use super::tiles::{
    content_fails, content_of, default_style, group_of, icon_of, next_style, setup_extra,
    style_of, Tile,
};
use super::{installs_view, push_install, HighlightInstall, InstallView, RenderError, TileStyle};
use crate::icons;
use crate::text::{join_spaced, push_joined, push_spaces, spaces, str_eq, suffixed};
use crate::theme::{
    fg_default_style, swapped_style, with_bg_style, HighlightOpt, HighlightView, STATUS_LINE_BG,
    STATUS_LINE_FG,
};

verus! {

// ------------------------------------------------------------------ one tile in a pass

/// The groups installed for tile `t` with style `s`: the tile's own group,
/// a reversed group for the capsule's edges and, for icon tiles, a
/// separator group.
pub open spec fn derived_installs(t: Tile, h: HostState, s: HighlightView) -> Seq<InstallView> {
    let norm = group_of(t, h);
    match style_of(t) {
        TileStyle::Bubble => seq![
            InstallView { name: norm, style: fg_default_style(s, STATUS_LINE_BG) },
            InstallView {
                name: norm + "Rev"@,
                style: with_bg_style(swapped_style(s), STATUS_LINE_BG),
            },
        ],
        TileStyle::Icon => seq![
            InstallView { name: norm, style: fg_default_style(s, STATUS_LINE_BG) },
            InstallView {
                name: norm + "Rev"@,
                style: with_bg_style(swapped_style(s), STATUS_LINE_FG),
            },
            InstallView {
                name: norm + "Sep"@,
                style: with_bg_style(swapped_style(s), STATUS_LINE_BG),
            },
        ],
    }
}

/// The drawn text of tile `t`.
pub open spec fn cell_of(t: Tile, h: HostState) -> Seq<char> {
    let norm = group_of(t, h);
    let rev = norm + "Rev"@;
    let content = content_of(t, h);
    match style_of(t) {
        TileStyle::Bubble => "%#"@ + rev + "#"@ + icons::CAP_LEFT@ + "%#"@ + norm + "#"@ + content
            + "%#"@ + rev + "#"@ + icons::CAP_RIGHT@ + "%*"@,
        TileStyle::Icon => "%#"@ + (norm + "Sep"@) + "#"@ + icons::CAP_LEFT@ + "%#"@ + norm + "#"@
            + icon_of(t, h) + " %#"@ + rev + "# "@ + content + "%*"@ + icons::CAP_RIGHT@ + "%*"@,
    }
}

/// Why tile `t` cannot be drawn from snapshot `h`, if it cannot.
pub open spec fn tile_failure(t: Tile, h: HostState) -> Option<RenderError> {
    if content_fails(t, h) {
        Some(RenderError::HostQueryFailure)
    } else if content_of(t, h).len() > 0 && style_of(t) == TileStyle::Icon && icon_of(t, h).len()
        == 0 {
        Some(RenderError::RenderFormatFailure)
    } else {
        None
    }
}

/// The style a slot keeps after a pass: a tile that is left out keeps its
/// style unchanged.
pub open spec fn kept_style(slot: (Tile, HighlightView), h: HostState) -> HighlightView {
    if content_of(slot.0, h).len() == 0 {
        slot.1
    } else {
        next_style(slot.0, h, slot.1)
    }
}

// ------------------------------------------------------------------ one section in a pass

/// The first failure among the tiles of a section.
pub open spec fn section_failure(s: Seq<(Tile, HighlightView)>, h: HostState) -> Option<
    RenderError,
>
    decreases s.len(),
{
    if s.len() == 0 {
        None
    } else {
        match section_failure(s.drop_last(), h) {
            Some(e) => Some(e),
            None => tile_failure(s.last().0, h),
        }
    }
}

/// The drawn tiles of a section; tiles with empty content are left out.
pub open spec fn section_cells(s: Seq<(Tile, HighlightView)>, h: HostState) -> Seq<Seq<char>>
    decreases s.len(),
{
    if s.len() == 0 {
        Seq::empty()
    } else {
        let prev = section_cells(s.drop_last(), h);
        if content_of(s.last().0, h).len() == 0 {
            prev
        } else {
            prev.push(cell_of(s.last().0, h))
        }
    }
}

/// The text of a section: its drawn tiles, a space apart.
pub open spec fn section_text(s: Seq<(Tile, HighlightView)>, h: HostState) -> Seq<char> {
    join_spaced(section_cells(s, h))
}

/// The groups a pass installs for a section: those of each drawn tile whose
/// style changed.
pub open spec fn section_updates(s: Seq<(Tile, HighlightView)>, h: HostState) -> Seq<InstallView>
    decreases s.len(),
{
    if s.len() == 0 {
        Seq::empty()
    } else {
        let prev = section_updates(s.drop_last(), h);
        let t = s.last().0;
        let c = s.last().1;
        if content_of(t, h).len() > 0 && next_style(t, h, c) != c {
            prev + derived_installs(t, h, next_style(t, h, c))
        } else {
            prev
        }
    }
}

/// The groups that setting a section up installs: each tile's groups with
/// its first style, then its own extra groups.
pub open spec fn section_setup(s: Seq<(Tile, HighlightView)>, h: HostState) -> Seq<InstallView>
    decreases s.len(),
{
    if s.len() == 0 {
        Seq::empty()
    } else {
        let t = s.last().0;
        section_setup(s.drop_last(), h) + derived_installs(t, h, default_style(t))
            + setup_extra(t)
    }
}

/// A section after a pass: each slot with the style it keeps.
pub open spec fn refreshed(s: Seq<(Tile, HighlightView)>, h: HostState) -> Seq<
    (Tile, HighlightView),
> {
    Seq::new(s.len(), |i: int| (s[i].0, kept_style(s[i], h)))
}

// ------------------------------------------------------------------ lines

/// A line as values.
pub struct LineView {
    /// Whether the groups of the tiles were installed.
    pub ready: bool,
    pub left: Seq<(Tile, HighlightView)>,
    pub left_center: Seq<(Tile, HighlightView)>,
    pub center: Seq<(Tile, HighlightView)>,
    pub right_center: Seq<(Tile, HighlightView)>,
    pub right: Seq<(Tile, HighlightView)>,
    /// File types for which the line shows nothing.
    pub exclude_ft: Seq<Seq<char>>,
}

/// A line of tiles in five sections: left, left of center, center, right of
/// center and right. Each tile is kept with the style last installed for it.
#[derive(Debug)]
pub struct Line {
    ready: bool,
    left: Vec<(Tile, HighlightOpt)>,
    left_center: Vec<(Tile, HighlightOpt)>,
    center: Vec<(Tile, HighlightOpt)>,
    right_center: Vec<(Tile, HighlightOpt)>,
    right: Vec<(Tile, HighlightOpt)>,
    exclude_ft: Vec<String>,
}

/// The values of a section's slots.
pub open spec fn slots_view(v: Seq<(Tile, HighlightOpt)>) -> Seq<(Tile, HighlightView)> {
    Seq::new(v.len(), |i: int| (v[i].0, v[i].1@))
}

/// The characters of each string.
pub open spec fn strings_view(v: Seq<String>) -> Seq<Seq<char>> {
    Seq::new(v.len(), |i: int| v[i]@)
}

impl View for Line {
    type V = LineView;

    closed spec fn view(&self) -> LineView {
        LineView {
            ready: self.ready,
            left: slots_view(self.left@),
            left_center: slots_view(self.left_center@),
            center: slots_view(self.center@),
            right_center: slots_view(self.right_center@),
            right: slots_view(self.right@),
            exclude_ft: strings_view(self.exclude_ft@),
        }
    }
}

/// A line with no tiles, not yet set up.
pub open spec fn empty_line() -> LineView {
    LineView {
        ready: false,
        left: Seq::empty(),
        left_center: Seq::empty(),
        center: Seq::empty(),
        right_center: Seq::empty(),
        right: Seq::empty(),
        exclude_ft: Seq::empty(),
    }
}

/// Whether a line shows nothing for the snapshot's file type.
pub open spec fn excluded(l: LineView, h: HostState) -> bool {
    l.exclude_ft.contains(h.filetype@)
}

/// The first of two possible failures.
pub open spec fn first_failure(a: Option<RenderError>, b: Option<RenderError>) -> Option<
    RenderError,
> {
    match a {
        Some(e) => Some(e),
        None => b,
    }
}

/// Why a pass fails, if it does: the first failing tile, sections from left
/// to right. A line hidden for the file type does not fail.
pub open spec fn pass_failure(l: LineView, h: HostState) -> Option<RenderError> {
    if excluded(l, h) {
        None
    } else {
        first_failure(
            section_failure(l.left, h),
            first_failure(
                section_failure(l.left_center, h),
                first_failure(
                    section_failure(l.center, h),
                    first_failure(section_failure(l.right_center, h), section_failure(l.right, h)),
                ),
            ),
        )
    }
}

/// The groups installed by setting a line up, sections from left to right.
pub open spec fn line_setup(l: LineView, h: HostState) -> Seq<InstallView> {
    section_setup(l.left, h) + section_setup(l.left_center, h) + section_setup(l.center, h)
        + section_setup(l.right_center, h) + section_setup(l.right, h)
}

/// The groups a pass installs for setup: all of them on the first pass,
/// none after.
pub open spec fn setup_part(l: LineView, h: HostState) -> Seq<InstallView> {
    if l.ready {
        Seq::empty()
    } else {
        line_setup(l, h)
    }
}

/// The outcome of a render pass.
pub struct FrameView {
    pub hidden: bool,
    pub left: Seq<char>,
    pub left_center: Seq<char>,
    pub center: Seq<char>,
    pub right_center: Seq<char>,
    pub right: Seq<char>,
    pub installs: Seq<InstallView>,
}

/// What a successful pass returns.
pub open spec fn frame_of(l: LineView, h: HostState) -> FrameView {
    if excluded(l, h) {
        FrameView {
            hidden: true,
            left: Seq::empty(),
            left_center: Seq::empty(),
            center: Seq::empty(),
            right_center: Seq::empty(),
            right: Seq::empty(),
            installs: setup_part(l, h),
        }
    } else {
        FrameView {
            hidden: false,
            left: section_text(l.left, h),
            left_center: section_text(l.left_center, h),
            center: section_text(l.center, h),
            right_center: section_text(l.right_center, h),
            right: section_text(l.right, h),
            installs: setup_part(l, h) + section_updates(l.left, h) + section_updates(
                l.left_center,
                h,
            ) + section_updates(l.center, h) + section_updates(l.right_center, h)
                + section_updates(l.right, h),
        }
    }
}

/// The line after a successful pass.
pub open spec fn after(l: LineView, h: HostState) -> LineView {
    if excluded(l, h) {
        LineView { ready: true, ..l }
    } else {
        LineView {
            ready: true,
            left: refreshed(l.left, h),
            left_center: refreshed(l.left_center, h),
            center: refreshed(l.center, h),
            right_center: refreshed(l.right_center, h),
            right: refreshed(l.right, h),
            exclude_ft: l.exclude_ft,
        }
    }
}

/// The outcome of a render pass: the text of each section, and the
/// highlight groups to install before the text is shown. A hidden frame
/// shows nothing.
#[derive(Debug)]
pub struct Frame {
    pub hidden: bool,
    pub left: String,
    pub left_center: String,
    pub center: String,
    pub right_center: String,
    pub right: String,
    pub installs: Vec<HighlightInstall>,
}

impl View for Frame {
    type V = FrameView;

    open spec fn view(&self) -> FrameView {
        FrameView {
            hidden: self.hidden,
            left: self.left@,
            left_center: self.left_center@,
            center: self.center@,
            right_center: self.right_center@,
            right: self.right@,
            installs: installs_view(self.installs@),
        }
    }
}

// ------------------------------------------------------------------ section lemmas

/// A section without failure has no failing tile.
proof fn lemma_no_failure(s: Seq<(Tile, HighlightView)>, h: HostState)
    requires
        section_failure(s, h) is None,
    ensures
        forall|j: int| 0 <= j < s.len() ==> (#[trigger] tile_failure(s[j].0, h)) is None,
    decreases s.len(),
{
    if s.len() > 0 {
        lemma_no_failure(s.drop_last(), h);
        assert forall|j: int| 0 <= j < s.len() implies (#[trigger] tile_failure(s[j].0, h)) is None by {
            if j < s.len() - 1 {
                assert(s.drop_last()[j] == s[j]);
            }
        }
    }
}

/// A failure in a prefix of a section is the failure of the section.
proof fn lemma_failure_prefix(s: Seq<(Tile, HighlightView)>, k: int, h: HostState)
    requires
        0 <= k <= s.len(),
        section_failure(s.take(k), h) is Some,
    ensures
        section_failure(s, h) == section_failure(s.take(k), h),
    decreases s.len(),
{
    if k == s.len() {
        assert(s.take(k) =~= s);
    } else {
        assert(s.drop_last().take(k) =~= s.take(k));
        lemma_failure_prefix(s.drop_last(), k, h);
    }
}

// ------------------------------------------------------------------ pass steps

/// Why tile `t` cannot be drawn, if it cannot.
fn check_tile(t: &Tile, host: &HostState) -> (r: Option<RenderError>)
    ensures
        r == tile_failure(*t, *host),
{
    match t.content(host) {
        Err(e) => Some(e),
        Ok(content) => {
            if !content.as_str().is_empty() && t.style() == TileStyle::Icon && t.icon(
                host,
            ).as_str().is_empty() {
                Some(RenderError::RenderFormatFailure)
            } else {
                None
            }
        },
    }
}

/// The first failure among the tiles of a section.
fn check_section(section: &Vec<(Tile, HighlightOpt)>, host: &HostState) -> (r: Option<RenderError>)
    ensures
        r == section_failure(slots_view(section@), *host),
{
    let ghost sv = slots_view(section@);
    let mut i: usize = 0;
    while i < section.len()
        invariant
            i <= section.len(),
            sv == slots_view(section@),
            section_failure(sv.take(i as int), *host) is None,
        decreases section.len() - i,
    {
        let t = section[i].0;
        assert(sv.take(i + 1).drop_last() =~= sv.take(i as int));
        assert(sv.take(i + 1).last() == sv[i as int]);
        let f = check_tile(&t, host);
        if f.is_some() {
            proof {
                lemma_failure_prefix(sv, i + 1, *host);
            }
            return f;
        }
        i = i + 1;
    }
    assert(sv.take(i as int) =~= sv);
    None
}

/// Adds the groups of tile `t` with style `style`.
fn install_derived(t: &Tile, host: &HostState, style: HighlightOpt, out: &mut Vec<HighlightInstall>)
    ensures
        installs_view(final(out)@) == installs_view(old(out)@) + derived_installs(
            *t,
            *host,
            style@,
        ),
{
    let norm = t.highlight_name(host);
    let rev = suffixed(norm.as_str(), "Rev");
    match t.style() {
        TileStyle::Bubble => {
            let edge = style.clone().reverse_fg_bg().bg(STATUS_LINE_BG);
            push_install(out, norm, style.fg_if_none(STATUS_LINE_BG));
            push_install(out, rev, edge);
        },
        TileStyle::Icon => {
            let sep = suffixed(norm.as_str(), "Sep");
            let edge = style.clone().reverse_fg_bg().bg(STATUS_LINE_FG);
            let sep_style = style.clone().reverse_fg_bg().bg(STATUS_LINE_BG);
            push_install(out, norm, style.fg_if_none(STATUS_LINE_BG));
            push_install(out, rev, edge);
            push_install(out, sep, sep_style);
        },
    }
    assert(installs_view(out@) =~= installs_view(old(out)@) + derived_installs(*t, *host, style@));
}

/// Adds the groups that setting up a section installs.
fn setup_section(section: &Vec<(Tile, HighlightOpt)>, host: &HostState, out: &mut Vec<HighlightInstall>)
    ensures
        installs_view(final(out)@) == installs_view(old(out)@) + section_setup(
            slots_view(section@),
            *host,
        ),
{
    let ghost sv = slots_view(section@);
    let ghost start = installs_view(out@);
    let mut i: usize = 0;
    while i < section.len()
        invariant
            i <= section.len(),
            sv == slots_view(section@),
            installs_view(out@) == start + section_setup(sv.take(i as int), *host),
        decreases section.len() - i,
    {
        let t = section[i].0;
        assert(sv.take(i + 1).drop_last() =~= sv.take(i as int));
        assert(sv.take(i + 1).last() == sv[i as int]);
        install_derived(&t, host, t.highlight_opt(), out);
        t.setup(out);
        assert(installs_view(out@) =~= start + section_setup(sv.take(i + 1), *host));
        i = i + 1;
    }
    assert(sv.take(i as int) =~= sv);
}

/// The drawn text of tile `t`, from its group and content.
fn cell_text(t: &Tile, host: &HostState, norm: &str, rev: &str, content: &str) -> (r: String)
    requires
        norm@ == group_of(*t, *host),
        rev@ == norm@ + "Rev"@,
        content@ == content_of(*t, *host),
    ensures
        r@ == cell_of(*t, *host),
{
    let mut s = "%#".to_owned();
    match t.style() {
        TileStyle::Bubble => {
            s.append(rev);
            s.append("#");
            s.append(icons::CAP_LEFT);
            s.append("%#");
            s.append(norm);
            s.append("#");
            s.append(content);
            s.append("%#");
            s.append(rev);
            s.append("#");
            s.append(icons::CAP_RIGHT);
            s.append("%*");
        },
        TileStyle::Icon => {
            let sep = suffixed(norm, "Sep");
            let icon = t.icon(host);
            s.append(sep.as_str());
            s.append("#");
            s.append(icons::CAP_LEFT);
            s.append("%#");
            s.append(norm);
            s.append("#");
            s.append(icon.as_str());
            s.append(" %#");
            s.append(rev);
            s.append("# ");
            s.append(content);
            s.append("%*");
            s.append(icons::CAP_RIGHT);
            s.append("%*");
        },
    }
    assert(s@ =~= cell_of(*t, *host));
    s
}

/// Draws a section: refreshes the style of each drawn tile, adds the groups
/// of those whose style changed, and joins the drawn tiles.
fn render_section(
    section: &mut Vec<(Tile, HighlightOpt)>,
    host: &HostState,
    out: &mut Vec<HighlightInstall>,
) -> (r: String)
    requires
        section_failure(slots_view(old(section)@), *host) is None,
    ensures
        slots_view(final(section)@) == refreshed(slots_view(old(section)@), *host),
        r@ == section_text(slots_view(old(section)@), *host),
        installs_view(final(out)@) == installs_view(old(out)@) + section_updates(
            slots_view(old(section)@),
            *host,
        ),
{
    let ghost sv = slots_view(section@);
    let ghost start = installs_view(out@);
    proof {
        lemma_no_failure(sv, *host);
    }
    let mut text = String::new();
    let mut drawn: usize = 0;
    let mut i: usize = 0;
    while i < section.len()
        invariant
            i <= section.len(),
            section.len() == sv.len(),
            forall|j: int| 0 <= j < sv.len() ==> (#[trigger] tile_failure(sv[j].0, *host)) is None,
            forall|j: int| i <= j < sv.len() ==> #[trigger] slots_view(section@)[j] == sv[j],
            forall|j: int|
                0 <= j < i ==> #[trigger] slots_view(section@)[j] == refreshed(sv, *host)[j],
            text@ == join_spaced(section_cells(sv.take(i as int), *host)),
            drawn == section_cells(sv.take(i as int), *host).len(),
            drawn <= i,
            installs_view(out@) == start + section_updates(sv.take(i as int), *host),
        decreases section.len() - i,
    {
        let t = section[i].0;
        assert(sv.take(i + 1).drop_last() =~= sv.take(i as int));
        assert(sv.take(i + 1).last() == sv[i as int]);
        assert(slots_view(section@)[i as int] == sv[i as int]);
        assert(tile_failure(sv[i as int].0, *host) is None);
        let content = match t.content(host) {
            Ok(c) => c,
            Err(_) => {
                assert(false);
                String::new()
            },
        };
        if !content.as_str().is_empty() {
            let norm = t.highlight_name(host);
            let rev = suffixed(norm.as_str(), "Rev");
            let old_style = section[i].1.clone();
            let new_style = t.update_highlight(host, section[i].1.clone());
            if !old_style.same_as(&new_style) {
                install_derived(&t, host, new_style.clone(), out);
            }
            let ghost before = section@;
            section.set(i, (t, new_style));
            assert forall|j: int| 0 <= j < sv.len() && j != i implies #[trigger] slots_view(
                section@,
            )[j] == slots_view(before)[j] by {}
            let cell = cell_text(&t, host, norm.as_str(), rev.as_str(), content.as_str());
            proof {
                crate::status::tiles::lemma_join_push(section_cells(sv.take(i as int), *host), cell@);
            }
            push_joined(&mut text, drawn, cell.as_str());
            drawn = drawn + 1;
        }
        i = i + 1;
    }
    assert(sv.take(i as int) =~= sv);
    assert(slots_view(section@) =~= refreshed(sv, *host));
    text
}

impl Line {
    /// A line with no tiles.
    pub fn new() -> (r: Line)
        ensures
            r@ == empty_line(),
    {
        let r = Line {
            ready: false,
            left: Vec::new(),
            left_center: Vec::new(),
            center: Vec::new(),
            right_center: Vec::new(),
            right: Vec::new(),
            exclude_ft: Vec::new(),
        };
        assert(r@.left =~= Seq::empty());
        assert(r@.left_center =~= Seq::empty());
        assert(r@.center =~= Seq::empty());
        assert(r@.right_center =~= Seq::empty());
        assert(r@.right =~= Seq::empty());
        assert(r@.exclude_ft =~= Seq::empty());
        r
    }

    /// Adds a tile at the end of the left section, with its first style.
    pub fn add_left(&mut self, tile: Tile)
        ensures
            final(self)@ == (LineView {
                left: old(self)@.left.push((tile, default_style(tile))),
                ..old(self)@
            }),
    {
        let opt = tile.highlight_opt();
        self.left.push((tile, opt));
        assert(self@.left =~= old(self)@.left.push((tile, default_style(tile))));
    }

    /// Adds a tile at the end of the section left of center.
    pub fn add_left_center(&mut self, tile: Tile)
        ensures
            final(self)@ == (LineView {
                left_center: old(self)@.left_center.push((tile, default_style(tile))),
                ..old(self)@
            }),
    {
        let opt = tile.highlight_opt();
        self.left_center.push((tile, opt));
        assert(self@.left_center =~= old(self)@.left_center.push((tile, default_style(tile))));
    }

    /// Adds a tile at the end of the center section.
    pub fn add_center(&mut self, tile: Tile)
        ensures
            final(self)@ == (LineView {
                center: old(self)@.center.push((tile, default_style(tile))),
                ..old(self)@
            }),
    {
        let opt = tile.highlight_opt();
        self.center.push((tile, opt));
        assert(self@.center =~= old(self)@.center.push((tile, default_style(tile))));
    }

    /// Adds a tile at the end of the section right of center.
    pub fn add_right_center(&mut self, tile: Tile)
        ensures
            final(self)@ == (LineView {
                right_center: old(self)@.right_center.push((tile, default_style(tile))),
                ..old(self)@
            }),
    {
        let opt = tile.highlight_opt();
        self.right_center.push((tile, opt));
        assert(self@.right_center =~= old(self)@.right_center.push((tile, default_style(tile))));
    }

    /// Adds a tile at the end of the right section.
    pub fn add_right(&mut self, tile: Tile)
        ensures
            final(self)@ == (LineView {
                right: old(self)@.right.push((tile, default_style(tile))),
                ..old(self)@
            }),
    {
        let opt = tile.highlight_opt();
        self.right.push((tile, opt));
        assert(self@.right =~= old(self)@.right.push((tile, default_style(tile))));
    }

    /// Hides the line for buffers of file type `ft`.
    pub fn exclude_ft(&mut self, ft: &str)
        ensures
            final(self)@ == (LineView { exclude_ft: old(self)@.exclude_ft.push(ft@), ..old(self)@ }),
    {
        self.exclude_ft.push(ft.to_owned());
        assert(self@.exclude_ft =~= old(self)@.exclude_ft.push(ft@));
    }

    /// Whether the line is hidden for the snapshot's file type.
    fn is_excluded(&self, host: &HostState) -> (r: bool)
        ensures
            r == excluded(self@, *host),
    {
        let ghost ex = self@.exclude_ft;
        let mut i: usize = 0;
        while i < self.exclude_ft.len()
            invariant
                i <= self.exclude_ft.len(),
                ex == self@.exclude_ft,
                forall|j: int| 0 <= j < i ==> ex[j] != host.filetype@,
            decreases self.exclude_ft.len() - i,
        {
            if str_eq(self.exclude_ft[i].as_str(), host.filetype.as_str()) {
                assert(ex[i as int] == host.filetype@);
                return true;
            }
            i = i + 1;
        }
        false
    }

    /// Renders the line for snapshot `host`.
    ///
    /// The first successful pass sets the line up: it installs the groups of
    /// every tile, sections from left to right. A line whose file type is
    /// excluded is hidden. Else each drawn tile (one with content) is
    /// restyled, and the groups of those whose style changed are installed.
    /// A pass that fails changes nothing.
    pub fn render(&mut self, host: &HostState) -> (r: Result<Frame, RenderError>)
        ensures
            r matches Ok(f) ==> (pass_failure(old(self)@, *host) is None && f@ == frame_of(
                old(self)@,
                *host,
            ) && final(self)@ == after(old(self)@, *host)),
            r matches Err(e) ==> (pass_failure(old(self)@, *host) == Some(e) && final(self)@
                == old(self)@),
    {
        let hidden = self.is_excluded(host);
        if !hidden {
            let f = check_section(&self.left, host);
            if f.is_some() {
                return Err(f.unwrap());
            }
            let f = check_section(&self.left_center, host);
            if f.is_some() {
                return Err(f.unwrap());
            }
            let f = check_section(&self.center, host);
            if f.is_some() {
                return Err(f.unwrap());
            }
            let f = check_section(&self.right_center, host);
            if f.is_some() {
                return Err(f.unwrap());
            }
            let f = check_section(&self.right, host);
            if f.is_some() {
                return Err(f.unwrap());
            }
        }
        let mut installs: Vec<HighlightInstall> = Vec::new();
        if !self.ready {
            setup_section(&self.left, host, &mut installs);
            setup_section(&self.left_center, host, &mut installs);
            setup_section(&self.center, host, &mut installs);
            setup_section(&self.right_center, host, &mut installs);
            setup_section(&self.right, host, &mut installs);
            self.ready = true;
        }
        assert(installs_view(installs@) =~= setup_part(old(self)@, *host));
        if hidden {
            return Ok(
                Frame {
                    hidden: true,
                    left: String::new(),
                    left_center: String::new(),
                    center: String::new(),
                    right_center: String::new(),
                    right: String::new(),
                    installs,
                },
            );
        }
        let left = render_section(&mut self.left, host, &mut installs);
        let left_center = render_section(&mut self.left_center, host, &mut installs);
        let center = render_section(&mut self.center, host, &mut installs);
        let right_center = render_section(&mut self.right_center, host, &mut installs);
        let right = render_section(&mut self.right, host, &mut installs);
        let frame = Frame { hidden: false, left, left_center, center, right_center, right, installs };
        assert(frame@ =~= frame_of(old(self)@, *host));
        assert(self@ =~= after(old(self)@, *host));
        Ok(frame)
    }
}

// ------------------------------------------------------------------ centering

/// The width used for a section: an empty section is zero wide, whatever
/// was measured.
pub open spec fn measured(s: Seq<char>, w: nat) -> nat {
    if s.len() == 0 {
        0
    } else {
        w
    }
}

/// The spaces that pad a section of width `own` against one of width
/// `other`.
pub open spec fn pad(own: nat, other: nat) -> nat {
    if other > own {
        (other - own) as nat
    } else {
        0
    }
}

/// The full line: the left and right sections padded to equal width around
/// the editor's `%=` alignment points, the two sections beside the center
/// padded to equal width, and the center between them.
pub open spec fn composed(
    l: Seq<char>,
    lc: Seq<char>,
    c: Seq<char>,
    rc: Seq<char>,
    r: Seq<char>,
    wl: nat,
    wlc: nat,
    wrc: nat,
    wr: nat,
) -> Seq<char> {
    let ml = measured(l, wl);
    let mr = measured(r, wr);
    let mlc = measured(lc, wlc);
    let mrc = measured(rc, wrc);
    l + spaces(pad(ml, mr)) + "%="@ + spaces(pad(mlc, mrc)) + lc + " "@ + c + " "@ + rc + spaces(
        pad(mrc, mlc),
    ) + "%="@ + spaces(pad(mr, ml)) + r
}

/// Joins the five sections of a line, given the display widths that the
/// editor measured for the four outer ones.
pub fn compose_line(
    left: &str,
    left_center: &str,
    center: &str,
    right_center: &str,
    right: &str,
    left_width: u64,
    left_center_width: u64,
    right_center_width: u64,
    right_width: u64,
) -> (r: String)
    ensures
        r@ == composed(
            left@,
            left_center@,
            center@,
            right_center@,
            right@,
            left_width as nat,
            left_center_width as nat,
            right_center_width as nat,
            right_width as nat,
        ),
{
    let ml = if left.is_empty() { 0 } else { left_width };
    let mr = if right.is_empty() { 0 } else { right_width };
    let mlc = if left_center.is_empty() { 0 } else { left_center_width };
    let mrc = if right_center.is_empty() { 0 } else { right_center_width };
    let mut s = left.to_owned();
    push_spaces(&mut s, if mr > ml { mr - ml } else { 0 });
    s.append("%=");
    push_spaces(&mut s, if mrc > mlc { mrc - mlc } else { 0 });
    s.append(left_center);
    s.append(" ");
    s.append(center);
    s.append(" ");
    s.append(right_center);
    push_spaces(&mut s, if mlc > mrc { mlc - mrc } else { 0 });
    s.append("%=");
    push_spaces(&mut s, if ml > mr { ml - mr } else { 0 });
    s.append(right);
    assert(s@ =~= composed(
        left@,
        left_center@,
        center@,
        right_center@,
        right@,
        left_width as nat,
        left_center_width as nat,
        right_center_width as nat,
        right_width as nat,
    ));
    s
}

impl Frame {
    /// The line to show, given the display widths that the editor measured
    /// for the four outer sections; empty for a hidden frame.
    pub fn finish(
        &self,
        left_width: u64,
        left_center_width: u64,
        right_center_width: u64,
        right_width: u64,
    ) -> (r: String)
        ensures
            self.hidden ==> r@.len() == 0,
            !self.hidden ==> r@ == composed(
                self.left@,
                self.left_center@,
                self.center@,
                self.right_center@,
                self.right@,
                left_width as nat,
                left_center_width as nat,
                right_center_width as nat,
                right_width as nat,
            ),
    {
        if self.hidden {
            String::new()
        } else {
            compose_line(
                self.left.as_str(),
                self.left_center.as_str(),
                self.center.as_str(),
                self.right_center.as_str(),
                self.right.as_str(),
                left_width,
                left_center_width,
                right_center_width,
                right_width,
            )
        }
    }
}

} // verus!
