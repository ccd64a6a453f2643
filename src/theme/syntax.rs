//! The syntax highlight groups of the color scheme.

use vstd::prelude::*;

verus! {

/// A syntax group that the color scheme styles.
#[derive(Clone, Copy, Debug, PartialEq, Eq, Structural)]
pub enum SyntaxGroup {
    Comment,
    String,
    Number,
    Float,
    Boolean,
    Character,
    Structure,
    Identifier,
    Constant,
    Member,
    Builtin,
    Function,
    Statement,
    Keyword,
    Preproc,
    Type,
    Operator,
    Special,
    Delimiter,
}

/// The highlight group name of each syntax group.
pub open spec fn group_name(g: SyntaxGroup) -> Seq<char> {
    match g {
        SyntaxGroup::Comment => "Comment"@,
        SyntaxGroup::String => "String"@,
        SyntaxGroup::Number => "Number"@,
        SyntaxGroup::Float => "Float"@,
        SyntaxGroup::Boolean => "Boolean"@,
        SyntaxGroup::Character => "Character"@,
        SyntaxGroup::Structure => "Structure"@,
        SyntaxGroup::Identifier => "Identifier"@,
        SyntaxGroup::Constant => "Constant"@,
        SyntaxGroup::Member => "Member"@,
        SyntaxGroup::Builtin => "Builtin"@,
        SyntaxGroup::Function => "Function"@,
        SyntaxGroup::Statement => "Statement"@,
        SyntaxGroup::Keyword => "Keyword"@,
        SyntaxGroup::Preproc => "Preproc"@,
        SyntaxGroup::Type => "Type"@,
        SyntaxGroup::Operator => "Operator"@,
        SyntaxGroup::Special => "Special"@,
        SyntaxGroup::Delimiter => "Delimiter"@,
    }
}

impl SyntaxGroup {
    /// The name of this group's highlight group.
    pub fn name(self) -> (r: &'static str)
        ensures
            r@ == group_name(self),
    {
        match self {
            SyntaxGroup::Comment => "Comment",
            SyntaxGroup::String => "String",
            SyntaxGroup::Number => "Number",
            SyntaxGroup::Float => "Float",
            SyntaxGroup::Boolean => "Boolean",
            SyntaxGroup::Character => "Character",
            SyntaxGroup::Structure => "Structure",
            SyntaxGroup::Identifier => "Identifier",
            SyntaxGroup::Constant => "Constant",
            SyntaxGroup::Member => "Member",
            SyntaxGroup::Builtin => "Builtin",
            SyntaxGroup::Function => "Function",
            SyntaxGroup::Statement => "Statement",
            SyntaxGroup::Keyword => "Keyword",
            SyntaxGroup::Preproc => "Preproc",
            SyntaxGroup::Type => "Type",
            SyntaxGroup::Operator => "Operator",
            SyntaxGroup::Special => "Special",
            SyntaxGroup::Delimiter => "Delimiter",
        }
    }
}

/// The name of the semantic-token group for LSP token type `kind`.
pub fn lsp_group(kind: &str) -> (r: String)
    ensures
        r@ == "@lsp.type."@ + kind@,
{
    crate::text::suffixed("@lsp.type.", kind)
}

} // verus!
