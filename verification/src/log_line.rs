//! Log lines.

use vstd::prelude::*;

verus! {

/// How serious a log line is.
#[derive(Clone, Copy, Debug, PartialEq, Eq, Structural)]
pub enum Severity {
    Warn,
    Info,
    Debug,
}

/// A log line.
#[derive(Debug, PartialEq, Eq)]
pub struct LogLine {
    pub severity: Severity,
    pub text: String,
}

impl LogLine {
    /// Whether the line has this severity and this text.
    pub open spec fn says(self, severity: Severity, text: Seq<char>) -> bool {
        &&& self.severity == severity
        &&& self.text@ == text
    }
}

} // verus!
