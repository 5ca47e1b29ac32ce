//! Process-wide shell state and statement-level errors.
//!
//! The session carries the last computed exit status across statements.
//! Every pipeline's result is folded into it; a reported shell-level
//! error leaves the last status unchanged, and at end-of-input the last
//! status becomes the shell's own process exit code.  No error recorded
//! here ends the shell process.

use vstd::prelude::*;

verus! {

/// A statement-level error the shell reports and survives.
#[derive(Clone, PartialEq, Eq, Debug)]
pub enum ShellError {
    /// A here-document operator without a literal delimiter word.
    HereDocDelimiter,
    /// A fatal lexical error, with the lexer's message.
    Lex(String),
    /// A fatal parse error, with the parser's message.
    Parse(String),
    /// An operating-system failure while running a pipeline.
    Stage(String),
}

/// The detail text of an error's diagnostic line.
pub open spec fn detail_spec(e: ShellError) -> Seq<char> {
    match e {
        ShellError::HereDocDelimiter => "here documents must be a literal string"@,
        ShellError::Lex(m) => m@,
        ShellError::Parse(m) => m@,
        ShellError::Stage(m) => m@,
    }
}

impl ShellError {
    /// The line written to the error stream: the shell's name, then the
    /// detail.
    pub fn diagnostic(&self) -> (m: String)
        ensures
            m@ == "splash: "@ + detail_spec(*self),
    {
        let prefix = String::from_str("splash: ");
        match self {
            ShellError::HereDocDelimiter => prefix.concat(
                "here documents must be a literal string",
            ),
            ShellError::Lex(m) => prefix.concat(m.as_str()),
            ShellError::Parse(m) => prefix.concat(m.as_str()),
            ShellError::Stage(m) => prefix.concat(m.as_str()),
        }
    }
}

/// The shell's persistent state: the status of the last pipeline run.
#[derive(Clone, Copy, PartialEq, Eq, Structural, Debug)]
pub struct Session {
    pub last_status: u32,
}

impl Session {
    /// A fresh session starts successful.
    pub fn new() -> (s: Session)
        ensures
            s.last_status == 0,
    {
        Session { last_status: 0 }
    }

    /// Folds one pipeline's result in: a status replaces the last one,
    /// while a reported error leaves it unchanged.
    pub fn record(&mut self, outcome: &Result<u32, ShellError>)
        ensures
            (match *outcome {
                Ok(n) => final (self).last_status == n,
                Err(_) => *final (self) == *old(self),
            }),
    {
        match outcome {
            Ok(n) => {
                self.last_status = *n;
            },
            Err(_) => {},
        }
    }

    /// The shell's own process exit code at end-of-input: the last
    /// status.
    pub fn exit_code(&self) -> (r: u32)
        ensures
            r == self.last_status,
    {
        self.last_status
    }
}

} // verus!
