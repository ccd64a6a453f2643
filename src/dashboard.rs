//! The taglines of the start screen.

use vstd::prelude::*;

verus! {

/// A piece of text and the highlight group it is drawn with.
#[derive(Clone, Copy, Debug)]
pub struct TextChunk {
    pub text: &'static str,
    pub group: &'static str,
}

/// A chunk as values.
pub open spec fn chunk_view(c: TextChunk) -> (Seq<char>, Seq<char>) {
    (c.text@, c.group@)
}

/// The chunks of a list, as values.
pub open spec fn chunks_view(v: Seq<TextChunk>) -> Seq<(Seq<char>, Seq<char>)> {
    Seq::new(v.len(), |i: int| chunk_view(v[i]))
}

/// The number of taglines.
pub const TAGLINES: u8 = 4;

/// Tagline number `choice`.
pub open spec fn tagline_of(choice: nat) -> Seq<(Seq<char>, Seq<char>)> {
    if choice == 0 {
        seq![("Mouse is for nerd, Keyboard rank supreme"@, "SnacksDashboardFooter"@)]
    } else if choice == 1 {
        seq![
            ("Rewrite it in "@, "SnacksDashboardFooter"@),
            ("Rust"@, "SnacksDashboardOrangeItalic"@),
        ]
    } else if choice == 2 {
        seq![
            ("In "@, "SnacksDashboardFooter"@),
            ("Rust"@, "SnacksDashboardOrangeItalic"@),
            (" we trust"@, "SnacksDashboardFooter"@),
        ]
    } else {
        seq![
            ("Crabby"@, "SnacksDashboardOrangeItalic"@),
            ("Vim"@, "SnacksDashboardGreenItalic"@),
            (" a neovim config written in "@, "SnacksDashboardFooter"@),
            ("rust"@, "SnacksDashboardOrangeItalic"@),
        ]
    }
}

fn chunk(text: &'static str, group: &'static str) -> (r: TextChunk)
    ensures
        chunk_view(r) == (text@, group@),
{
    TextChunk { text, group }
}

/// Tagline number `choice`, as chunks.
pub fn tagline(choice: u8) -> (r: Vec<TextChunk>)
    requires
        choice < TAGLINES,
    ensures
        chunks_view(r@) == tagline_of(choice as nat),
{
    let r = if choice == 0 {
        vec![chunk("Mouse is for nerd, Keyboard rank supreme", "SnacksDashboardFooter")]
    } else if choice == 1 {
        vec![
            chunk("Rewrite it in ", "SnacksDashboardFooter"),
            chunk("Rust", "SnacksDashboardOrangeItalic"),
        ]
    } else if choice == 2 {
        vec![
            chunk("In ", "SnacksDashboardFooter"),
            chunk("Rust", "SnacksDashboardOrangeItalic"),
            chunk(" we trust", "SnacksDashboardFooter"),
        ]
    } else {
        vec![
            chunk("Crabby", "SnacksDashboardOrangeItalic"),
            chunk("Vim", "SnacksDashboardGreenItalic"),
            chunk(" a neovim config written in ", "SnacksDashboardFooter"),
            chunk("rust", "SnacksDashboardOrangeItalic"),
        ]
    };
    assert(chunks_view(r@) =~= tagline_of(choice as nat));
    r
}

/// Relies on `rand::random_range`: a value drawn from the thread-local
/// generator within the inclusive range `0..=high`. That range is never
/// empty, the one input on which the call panics.
#[verifier::external_body]
fn random_up_to(high: u8) -> (r: u8)
    ensures
        r <= high,
{
    rand::random_range(0..=high)
}

/// One of the taglines, drawn at random.
pub fn random_tagline() -> (r: Vec<TextChunk>)
    ensures
        exists|c: nat| c < TAGLINES && chunks_view(r@) == #[trigger] tagline_of(c),
{
    let choice = random_up_to(TAGLINES - 1);
    tagline(choice)
}

} // verus!
