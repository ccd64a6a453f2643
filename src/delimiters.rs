//! The colors of nested delimiters.

use vstd::prelude::*;

use crate::theme::{plain_style, with_fg_style, Color, HighlightOpt};

verus! {

/// The group names of the nesting levels, outermost first.
pub open spec fn delimiter_names() -> Seq<Seq<char>> {
    seq!["Delimit1"@, "Delimit2"@, "Delimit3"@, "Delimit4"@, "Delimit5"@, "Delimit6"@, "Delimit7"@]
}

/// The colors of the nesting levels, outermost first.
pub open spec fn delimiter_colors() -> Seq<Color> {
    seq![Color::Red, Color::Orange, Color::Yellow, Color::Green, Color::Cyan, Color::Blue, Color::Purple]
}

/// The group names of the nesting levels, outermost first.
pub fn delimiter_highlights() -> (r: [&'static str; 7])
    ensures
        forall|i: int| 0 <= i < 7 ==> #[trigger] r@[i]@ == delimiter_names()[i],
{
    ["Delimit1", "Delimit2", "Delimit3", "Delimit4", "Delimit5", "Delimit6", "Delimit7"]
}

/// Each nesting level's group with its color as foreground.
pub fn delimiter_styles() -> (r: Vec<(&'static str, HighlightOpt)>)
    ensures
        r@.len() == 7,
        forall|i: int|
            0 <= i < 7 ==> (#[trigger] r@[i]).0@ == delimiter_names()[i] && r@[i].1@
                == with_fg_style(plain_style(), delimiter_colors()[i]),
{
    let names = delimiter_highlights();
    let colors: [Color; 7] = [
        Color::Red,
        Color::Orange,
        Color::Yellow,
        Color::Green,
        Color::Cyan,
        Color::Blue,
        Color::Purple,
    ];
    assert(colors@ == delimiter_colors());
    let mut r: Vec<(&'static str, HighlightOpt)> = Vec::new();
    let mut i: usize = 0;
    while i < 7
        invariant
            i <= 7,
            r@.len() == i,
            colors@ == delimiter_colors(),
            forall|j: int| 0 <= j < 7 ==> #[trigger] names@[j]@ == delimiter_names()[j],
            forall|j: int|
                0 <= j < i ==> (#[trigger] r@[j]).0@ == delimiter_names()[j] && r@[j].1@
                    == with_fg_style(plain_style(), delimiter_colors()[j]),
        decreases 7 - i,
    {
        r.push((names[i], HighlightOpt::with_fg(colors[i])));
        i = i + 1;
    }
    r
}

} // verus!
