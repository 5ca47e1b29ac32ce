//! Assembling logical lines, and the fixed-list input source.
//!
//! The shell's main loop appends physical lines to an accumulator and
//! runs the lexer — a collaborator outside this library — over it.  An
//! `unterminated` outcome is not an error but a request for another
//! physical line; any other lexical failure discards the statement; a
//! complete token stream resets the accumulator and is handed on.

use crate::heredoc::HereDocError;
use crate::heredoc::HereDocRequest;
use crate::heredoc::collect_all_spec;
use crate::heredoc::collect_heredocs;
use crate::heredoc::line_views;
use crate::heredoc::req_views;
use crate::heredoc::scan_heredocs;
use crate::heredoc::scan_spec;
use crate::token::Token;
use vstd::prelude::*;

verus! {

/// What the lexer reported for the accumulated text.
#[derive(Clone, PartialEq, Eq, Debug)]
pub enum LexOutcome {
    /// A complete statement's tokens.
    Tokens(Vec<Token>),
    /// The text is incomplete (an open quote, say): continuable.
    Unterminated,
    /// Any other lexical failure, with its message: fatal for the
    /// statement.
    Failed(String),
}

/// What the assembler decides after a lexer run.
#[derive(Clone, PartialEq, Eq, Debug)]
pub enum AssembleStep {
    /// A complete statement: hand these tokens on.
    Statement(Vec<Token>),
    /// Incomplete: keep the accumulator and request a continuation line.
    NeedMore,
    /// A fatal lexical error to report; the statement is discarded.
    Discard(String),
}

/// Appends one physical line to the statement accumulator.
pub fn push_line(acc: &mut String, line: &String)
    ensures
        final (acc)@ == old(acc)@ + line@,
{
    acc.append(line.as_str())
}

/// Whether the next physical line is a continuation of an unfinished
/// statement — decides which prompt an interactive source shows.
pub fn wants_continuation(acc: &String) -> (r: bool)
    ensures
        r == (acc@.len() != 0),
{
    !acc.as_str().is_empty()
}

/// Folds the lexer's outcome into the assembler's state: a complete
/// statement or a fatal error empties the accumulator — only an
/// unterminated outcome keeps it for the next physical line.
pub fn absorb_lex_outcome(acc: &mut String, outcome: LexOutcome) -> (r: AssembleStep)
    ensures
        (match outcome {
            LexOutcome::Tokens(ts) => r == AssembleStep::Statement(ts) && final (acc)@
                == Seq::<char>::empty(),
            LexOutcome::Unterminated => r is NeedMore && *final (acc) == *old(acc),
            LexOutcome::Failed(m) => r == AssembleStep::Discard(m) && final (acc)@
                == Seq::<char>::empty(),
        }),
{
    match outcome {
        LexOutcome::Tokens(ts) => {
            *acc = String::new();
            AssembleStep::Statement(ts)
        },
        LexOutcome::Unterminated => AssembleStep::NeedMore,
        LexOutcome::Failed(m) => {
            *acc = String::new();
            AssembleStep::Discard(m)
        },
    }
}

/// The fixed-list input source: pre-supplied lines handed out in order.
/// (The file and terminal sources live outside the library and feed the
/// same decision functions line by line.)
#[derive(Clone, PartialEq, Eq, Debug)]
pub struct ScriptSource {
    pub lines: Vec<String>,
    pub pos: usize,
}

impl ScriptSource {
    /// The source never points past its lines.
    pub open spec fn wf(&self) -> bool {
        self.pos <= self.lines@.len()
    }

    /// The lines not yet handed out.
    pub open spec fn remaining(&self) -> Seq<Seq<char>> {
        line_views(self.lines@).skip(self.pos as int)
    }

    /// A source holding the given lines, none handed out yet.
    pub fn new(lines: Vec<String>) -> (s: ScriptSource)
        ensures
            s.wf(),
            s.remaining() == line_views(lines@),
    {
        let s = ScriptSource { lines, pos: 0 };
        proof {
            assert(line_views(s.lines@).skip(0) =~= line_views(s.lines@));
        }
        s
    }

    /// Hands out the next pre-supplied line, or nothing at end-of-input.
    pub fn next_line(&mut self) -> (r: Option<String>)
        requires
            old(self).wf(),
        ensures
            final (self).wf(),
            old(self).remaining().len() == 0 ==> r is None && *final (self) == *old(self),
            old(self).remaining().len() > 0 ==> (match r {
                Some(l) => l@ == old(self).remaining()[0] && final (self).remaining() == old(
                    self,
                ).remaining().drop_first(),
                None => false,
            }),
    {
        if self.pos < self.lines.len() {
            let l = self.lines[self.pos].clone();
            proof {
                assert(old(self).remaining()[0] == line_views(self.lines@)[self.pos as int]);
                assert(line_views(self.lines@).skip(self.pos + 1) =~= old(
                    self,
                ).remaining().drop_first());
            }
            self.pos = self.pos + 1;
            Some(l)
        } else {
            None
        }
    }

    /// Resolves a run of here-document requests against the remaining
    /// lines, consuming them: returns one body per request and the number
    /// of end-of-input warnings to report.
    pub fn take_heredocs(&mut self, reqs: &Vec<HereDocRequest>) -> (r: (Vec<String>, usize))
        requires
            old(self).wf(),
        ensures
            final (self).wf(),
            ({
                let a = collect_all_spec(req_views(reqs@), old(self).remaining());
                &&& line_views(r.0@) == a.0
                &&& r.1 == a.2
                &&& final (self).remaining() == old(self).remaining().skip(a.1 as int)
            }),
    {
        let c = collect_heredocs(reqs, &self.lines, self.pos);
        let ghost a = collect_all_spec(req_views(reqs@), old(self).remaining());
        self.pos = c.1;
        proof {
            assert(line_views(self.lines@).skip(c.1 as int) =~= old(self).remaining().skip(
                a.1 as int,
            ));
        }
        (c.0, c.2)
    }
}

/// Resolves every here-document of a statement before anything is parsed
/// or run: scans the tokens for requests, then consumes body lines from
/// the source in operator order.  Returns the bodies and the number of
/// end-of-input warnings to report, or the statement's fatal error; the
/// source is advanced exactly past the consumed lines.
pub fn resolve_heredocs(tokens: &Vec<Token>, src: &mut ScriptSource) -> (r: Result<
    (Vec<String>, usize),
    HereDocError,
>)
    requires
        old(src).wf(),
    ensures
        final (src).wf(),
        (match r {
            Ok(p) => {
                &&& scan_spec(tokens@) is Some
                &&& ({
                    let a = collect_all_spec(scan_spec(tokens@)->0, old(src).remaining());
                    &&& line_views(p.0@) == a.0
                    &&& p.1 == a.2
                    &&& final (src).remaining() == old(src).remaining().skip(a.1 as int)
                })
            },
            Err(_) => scan_spec(tokens@) is None && *final (src) == *old(src),
        }),
{
    match scan_heredocs(tokens) {
        Ok(reqs) => {
            let c = src.take_heredocs(&reqs);
            Ok(c)
        },
        Err(e) => Err(e),
    }
}

} // verus!
