//! What holds of render passes over every line and snapshot.

use vstd::prelude::*;

use super::host::HostState;
use super::line::{
    after, excluded, frame_of, measured, pad, pass_failure, refreshed, section_cells,
    section_failure, section_text, section_updates, kept_style, LineView,
};
use super::tiles::{content_of, lemma_next_style_idempotent, Tile};
use super::InstallView;
use crate::theme::HighlightView;

verus! {

/// Centering: with measured widths `L` and `R`, the left section and its
/// padding, and the padding and the right section, are both `max(L, R)`
/// wide, so the middle of the line does not move with `L - R`. The same
/// holds of the two sections beside the center.
pub proof fn lemma_centering(l: Seq<char>, r: Seq<char>, wl: nat, wr: nat)
    ensures
        ({
            let ml = measured(l, wl);
            let mr = measured(r, wr);
            let widest = if ml >= mr { ml } else { mr };
            &&& ml + pad(ml, mr) == widest
            &&& pad(mr, ml) + mr == widest
        }),
{
}

/// A tile with empty content is absent from its section's text, wherever
/// it stands: no cell, no separating space.
pub proof fn lemma_empty_tile_absent(
    s: Seq<(Tile, HighlightView)>,
    i: int,
    t: Tile,
    style: HighlightView,
    h: HostState,
)
    requires
        0 <= i <= s.len(),
        content_of(t, h).len() == 0,
    ensures
        section_text(s.insert(i, (t, style)), h) == section_text(s, h),
{
    lemma_empty_tile_cells(s, i, t, style, h);
}

proof fn lemma_empty_tile_cells(
    s: Seq<(Tile, HighlightView)>,
    i: int,
    t: Tile,
    style: HighlightView,
    h: HostState,
)
    requires
        0 <= i <= s.len(),
        content_of(t, h).len() == 0,
    ensures
        section_cells(s.insert(i, (t, style)), h) == section_cells(s, h),
    decreases s.len(),
{
    let s2 = s.insert(i, (t, style));
    if i == s.len() {
        assert(s2.drop_last() =~= s);
    } else {
        assert(s2.drop_last() =~= s.drop_last().insert(i, (t, style)));
        assert(s2.last() == s.last());
        lemma_empty_tile_cells(s.drop_last(), i, t, style, h);
    }
}

proof fn lemma_refreshed_drop_last(s: Seq<(Tile, HighlightView)>, h: HostState)
    requires
        s.len() > 0,
    ensures
        refreshed(s, h).drop_last() == refreshed(s.drop_last(), h),
        refreshed(s, h).last() == (s.last().0, kept_style(s.last(), h)),
{
    assert(refreshed(s, h).drop_last() =~= refreshed(s.drop_last(), h));
}

/// A second pass over a refreshed section draws the same, fails alike,
/// installs nothing and keeps every style.
proof fn lemma_section_settled(s: Seq<(Tile, HighlightView)>, h: HostState)
    ensures
        section_failure(refreshed(s, h), h) == section_failure(s, h),
        section_cells(refreshed(s, h), h) == section_cells(s, h),
        section_updates(refreshed(s, h), h).len() == 0,
        refreshed(refreshed(s, h), h) == refreshed(s, h),
    decreases s.len(),
{
    if s.len() > 0 {
        lemma_refreshed_drop_last(s, h);
        lemma_section_settled(s.drop_last(), h);
        lemma_next_style_idempotent(s.last().0, h, s.last().1);
    }
    assert forall|j: int| 0 <= j < s.len() implies #[trigger] refreshed(refreshed(s, h), h)[j]
        == refreshed(s, h)[j] by {
        lemma_next_style_idempotent(s[j].0, h, s[j].1);
    }
    assert(refreshed(refreshed(s, h), h) =~= refreshed(s, h));
}

/// Idempotence: after a successful pass, a second pass on the same snapshot
/// succeeds, draws byte for byte the same sections, installs no highlight
/// group, and leaves the line as it is.
pub proof fn lemma_render_idempotent(l: LineView, h: HostState)
    requires
        pass_failure(l, h) is None,
    ensures
        pass_failure(after(l, h), h) is None,
        frame_of(after(l, h), h).hidden == frame_of(l, h).hidden,
        frame_of(after(l, h), h).left == frame_of(l, h).left,
        frame_of(after(l, h), h).left_center == frame_of(l, h).left_center,
        frame_of(after(l, h), h).center == frame_of(l, h).center,
        frame_of(after(l, h), h).right_center == frame_of(l, h).right_center,
        frame_of(after(l, h), h).right == frame_of(l, h).right,
        frame_of(after(l, h), h).installs.len() == 0,
        after(after(l, h), h) == after(l, h),
{
    lemma_section_settled(l.left, h);
    lemma_section_settled(l.left_center, h);
    lemma_section_settled(l.center, h);
    lemma_section_settled(l.right_center, h);
    lemma_section_settled(l.right, h);
    let l1 = after(l, h);
    assert(excluded(l1, h) == excluded(l, h));
    assert(frame_of(l1, h).installs =~= Seq::<InstallView>::empty());
}

/// The line after a series of render passes; a failed pass leaves it as it
/// was.
pub open spec fn run(l: LineView, hs: Seq<HostState>) -> LineView
    decreases hs.len(),
{
    if hs.len() == 0 {
        l
    } else {
        let prev = run(l, hs.drop_last());
        if pass_failure(prev, hs.last()) is None {
            after(prev, hs.last())
        } else {
            prev
        }
    }
}

/// How many passes of a series set the line up, each installing
/// `line_setup` of the line it started from.
pub open spec fn setup_passes(l: LineView, hs: Seq<HostState>) -> nat
    decreases hs.len(),
{
    if hs.len() == 0 {
        0
    } else {
        let prev = run(l, hs.drop_last());
        setup_passes(l, hs.drop_last()) + if pass_failure(prev, hs.last()) is None && !prev.ready {
            1nat
        } else {
            0nat
        }
    }
}

proof fn lemma_ready_stays(l: LineView, hs: Seq<HostState>, more: Seq<HostState>)
    requires
        run(l, hs).ready,
    ensures
        run(l, hs + more).ready,
    decreases more.len(),
{
    if more.len() == 0 {
        assert(hs + more =~= hs);
    } else {
        assert((hs + more).drop_last() =~= hs + more.drop_last());
        lemma_ready_stays(l, hs, more.drop_last());
    }
}

proof fn lemma_setup_count(l: LineView, hs: Seq<HostState>)
    requires
        !l.ready,
    ensures
        run(l, hs).ready ==> setup_passes(l, hs) == 1,
        !run(l, hs).ready ==> setup_passes(l, hs) == 0,
    decreases hs.len(),
{
    if hs.len() > 0 {
        lemma_setup_count(l, hs.drop_last());
    }
}

/// Setup happens once: over any series of passes on a line not yet set up,
/// the line is set up by exactly one pass if it is ready at the end, and by
/// none if it is not (every pass failed); once it is ready, no later pass
/// sets it up again.
pub proof fn lemma_setup_once(l: LineView, hs: Seq<HostState>, more: Seq<HostState>)
    requires
        !l.ready,
    ensures
        run(l, hs).ready ==> setup_passes(l, hs) == 1,
        !run(l, hs).ready ==> setup_passes(l, hs) == 0,
        run(l, hs).ready ==> setup_passes(l, hs + more) == 1,
{
    lemma_setup_count(l, hs);
    lemma_setup_count(l, hs + more);
    if run(l, hs).ready {
        lemma_ready_stays(l, hs, more);
    }
}

} // verus!
