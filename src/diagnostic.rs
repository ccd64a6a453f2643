//! Diagnostic severities.

use vstd::prelude::*;

verus! {

/// The severity of a diagnostic.
#[derive(Clone, Copy, Debug, PartialEq, Eq, Structural)]
pub enum DiagnosticSeverity {
    Error,
    Warn,
    Hint,
    Info,
}

/// The key of each severity in the editor's table of severities.
pub open spec fn severity_key(s: DiagnosticSeverity) -> Seq<char> {
    match s {
        DiagnosticSeverity::Error => "ERROR"@,
        DiagnosticSeverity::Warn => "WARN"@,
        DiagnosticSeverity::Hint => "HINT"@,
        DiagnosticSeverity::Info => "INFO"@,
    }
}

impl DiagnosticSeverity {
    /// The key under which the editor numbers this severity.
    pub fn key(self) -> (r: &'static str)
        ensures
            r@ == severity_key(self),
    {
        match self {
            DiagnosticSeverity::Error => "ERROR",
            DiagnosticSeverity::Warn => "WARN",
            DiagnosticSeverity::Hint => "HINT",
            DiagnosticSeverity::Info => "INFO",
        }
    }
}

} // verus!
