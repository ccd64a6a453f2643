//! Glyphs of a Nerd Font, used by the statusline tiles.

use vstd::prelude::*;

verus! {

pub const GOOD: &'static str = "\u{f00c}";
pub const BAD: &'static str = "\u{f00d}";

pub const ERROR: &'static str = "\u{f530}";
pub const WARN: &'static str = "\u{f071}";
pub const HINT: &'static str = "\u{f0335}";
pub const INFO: &'static str = "\u{f05a}";

pub const FOLDER: &'static str = "\u{f024b}";
pub const MAGNIFYING_GLASS: &'static str = "\u{e644}";

pub const CODE_CWD: &'static str = "\u{f44f}";
pub const DESKTOP_CWD: &'static str = "\u{f108}";
pub const HOME_CWD: &'static str = "\u{f015}";
pub const NVIM_CWD: &'static str = "\u{f36f}";

pub const LSP: &'static str = "\u{f085}";
pub const FORMATTER: &'static str = "\u{ee72}";
pub const GIT_BRANCH: &'static str = "\u{e725}";
pub const GIT_DIFF: &'static str = "\u{f4d2}";

/// The left edge of a capsule.
pub const CAP_LEFT: &'static str = "\u{e0b6}";
/// The right edge of a capsule.
pub const CAP_RIGHT: &'static str = "\u{e0b4}";

} // verus!
