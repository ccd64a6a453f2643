//! A statusline and winbar renderer for a Neovim configuration, with the
//! editor-facing pieces (modes, colors, highlight groups, plugin lazy-loading
//! specs) modelled as plain values.
//!
//! The host editor is never called from here: each render pass takes a
//! snapshot of the editor state and hands back the strings to display and the
//! highlight groups to install.

use vstd::prelude::*;

use crate::text::str_eq;

pub mod dashboard;
pub mod delimiters;
pub mod devicons;
pub mod diagnostic;
pub mod icons;
pub mod lazy;
pub mod status;
pub mod text;
pub mod theme;

verus! {

/// Which mode the editor is in.
#[derive(Clone, Copy, Debug, PartialEq, Eq, Structural)]
pub enum Mode {
    Normal,
    Insert,
    Command,
    Visual,
    Replace,
    Terminal,
}

/// The name of a mode, as shown in the statusline.
pub open spec fn mode_name(m: Mode) -> Seq<char> {
    match m {
        Mode::Normal => "normal"@,
        Mode::Insert => "insert"@,
        Mode::Command => "command"@,
        Mode::Visual => "visual"@,
        Mode::Replace => "replace"@,
        Mode::Terminal => "terminal"@,
    }
}

/// The mode for a mode code reported by the editor: each code belongs to
/// one of the modes, and codes not listed are terminal modes.
pub open spec fn mode_of_code(c: Seq<char>) -> Mode {
    if c == "n"@ || c == "niI"@ || c == "niR"@ || c == "niV"@ || c == "nt"@ || c == "ntT"@ {
        Mode::Normal
    } else if c == "i"@ || c == "ic"@ || c == "ix"@ {
        Mode::Insert
    } else if c == "v"@ || c == "vs"@ || c == "V"@ || c == "Vs"@ || c == "\u{16}"@ || c
        == "\u{16}s"@ || c == "s"@ || c == "S"@ || c == "\u{13}"@ {
        Mode::Visual
    } else if c == "c"@ || c == "cv"@ || c == "ce"@ || c == "rm"@ || c == "r?"@ {
        Mode::Command
    } else if c == "R"@ || c == "Rc"@ || c == "Rx"@ || c == "Rv"@ || c == "Rvc"@ || c == "Rvx"@
        || c == "r"@ {
        Mode::Replace
    } else {
        Mode::Terminal
    }
}

/// The keymap mode code of a mode; replace mode has no keymaps of its own.
pub open spec fn keymap_code_of(m: Mode) -> Option<Seq<char>> {
    match m {
        Mode::Normal => Some("n"@),
        Mode::Insert => Some("i"@),
        Mode::Command => Some("c"@),
        Mode::Visual => Some("v"@),
        Mode::Terminal => Some("t"@),
        Mode::Replace => None,
    }
}

impl Mode {
    /// The code of this mode in keymap definitions, where it has keymaps.
    pub fn keymap_code(self) -> (r: Option<&'static str>)
        ensures
            match keymap_code_of(self) {
                Some(c) => r matches Some(s) && s@ == c,
                None => r is None,
            },
    {
        match self {
            Mode::Normal => Some("n"),
            Mode::Insert => Some("i"),
            Mode::Command => Some("c"),
            Mode::Visual => Some("v"),
            Mode::Terminal => Some("t"),
            Mode::Replace => None,
        }
    }

    /// The mode that the editor reports with mode code `code`.
    pub fn from_code(code: &str) -> (r: Mode)
        ensures
            r == mode_of_code(code@),
    {
        if str_eq(code, "n") || str_eq(code, "niI") || str_eq(code, "niR") || str_eq(code, "niV")
            || str_eq(code, "nt") || str_eq(code, "ntT") {
            Mode::Normal
        } else if str_eq(code, "i") || str_eq(code, "ic") || str_eq(code, "ix") {
            Mode::Insert
        } else if str_eq(code, "v") || str_eq(code, "vs") || str_eq(code, "V") || str_eq(code, "Vs")
            || str_eq(code, "\u{16}") || str_eq(code, "\u{16}s") || str_eq(code, "s") || str_eq(
            code,
            "S",
        ) || str_eq(code, "\u{13}") {
            Mode::Visual
        } else if str_eq(code, "c") || str_eq(code, "cv") || str_eq(code, "ce") || str_eq(code, "rm")
            || str_eq(code, "r?") {
            Mode::Command
        } else if str_eq(code, "R") || str_eq(code, "Rc") || str_eq(code, "Rx") || str_eq(code, "Rv")
            || str_eq(code, "Rvc") || str_eq(code, "Rvx") || str_eq(code, "r") {
            Mode::Replace
        } else {
            Mode::Terminal
        }
    }

    /// The name of this mode.
    pub fn as_str(self) -> (r: &'static str)
        ensures
            r@ == mode_name(self),
    {
        match self {
            Mode::Normal => "normal",
            Mode::Insert => "insert",
            Mode::Command => "command",
            Mode::Visual => "visual",
            Mode::Replace => "replace",
            Mode::Terminal => "terminal",
        }
    }
}

} // verus!
