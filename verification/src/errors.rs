//! The error taxonomy of the command pipeline.
//!
//! `NoMatch` is an expected control-flow signal (the input named some other
//! command) and is never surfaced to the operator; every other variant is
//! rendered to exactly one output line.

use vstd::prelude::*;

verus! {

/// A failure of one stage of the command pipeline.
#[derive(Debug, PartialEq, Eq)]
pub enum ConsoleError {
    /// An opening quote in the input line had no matching closing quote.
    MismatchedQuotes,
    /// The first token named neither this command's name nor its alias.
    NoMatch,
    /// The first token matched, but the tokens violate the command's
    /// argument schema; the payload describes the violation.
    ParseFailure(String),
    /// A registration tried to claim a name or alias that an earlier
    /// registration already claimed.
    DuplicateName,
}

impl ConsoleError {
    /// The text rendered for this error, as a sequence of characters.
    pub open spec fn spec_message(self) -> Seq<char> {
        match self {
            ConsoleError::MismatchedQuotes => "error due to mismatch quotes"@,
            ConsoleError::NoMatch => "unknown command"@,
            ConsoleError::ParseFailure(m) => m@,
            ConsoleError::DuplicateName => "duplicate command name or alias"@,
        }
    }

    /// Renders this error as a human-readable message.
    pub fn message(&self) -> (r: String)
        ensures
            r@ == self.spec_message(),
    {
        match self {
            ConsoleError::MismatchedQuotes => String::from_str("error due to mismatch quotes"),
            ConsoleError::NoMatch => String::from_str("unknown command"),
            ConsoleError::ParseFailure(m) => m.clone(),
            ConsoleError::DuplicateName => String::from_str("duplicate command name or alias"),
        }
    }
}

} // verus!
