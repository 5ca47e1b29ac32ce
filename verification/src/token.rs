//! Tokens of a statement, as the lexer hands them to the engine.
//!
//! Lexing itself is a collaborator outside this library; the engine only
//! consumes its output: words, pipe separators, and redirection operators
//! tagged with an optional explicit descriptor number.

use vstd::prelude::*;

verus! {

/// The redirection operators a token stream can carry.
#[derive(Clone, Copy, PartialEq, Eq, Structural, Debug)]
pub enum RedirOp {
    /// `<` — open a path for reading.
    Read,
    /// `>` — open a path for writing, truncating or creating it.
    Write,
    /// `>>` — open a path for appending, creating it if needed.
    Append,
    /// `<<` — a here-document, body taken verbatim.
    Here,
    /// `<<-` — a here-document, leading whitespace stripped per line.
    HereStrip,
    /// `<&` — duplicate an input descriptor from another descriptor.
    DupRead,
    /// `>&` — duplicate an output descriptor from another descriptor.
    DupWrite,
}

/// One token of a statement.
#[derive(Clone, PartialEq, Eq, Debug)]
pub enum Token {
    /// A word: a program name, an argument, or a redirection operand.
    Word(String),
    /// `|`, separating two pipeline stages.
    Pipe,
    /// A redirection operator with an optional explicit descriptor number.
    Redir(Option<u32>, RedirOp),
}

} // verus!
