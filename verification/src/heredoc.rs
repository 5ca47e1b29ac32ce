//! Here-document collection.
//!
//! A statement's token stream is scanned for here-document operators, each
//! of which must be followed immediately by a literal word naming the
//! delimiter.  Every request is then resolved against the raw lines that
//! follow, bypassing the lexer: lines accumulate into the body until a
//! line equals the delimiter.  The `stripped` flavour removes leading
//! whitespace from every line — body lines and the candidate delimiter
//! line alike — before use.  A here-document still open at end-of-input
//! yields an empty body and a warning, never a fatal error.

use crate::text::lemma_strip_idempotent;
use crate::text::strip_leading;
use crate::text::strip_line;
use crate::token::RedirOp;
use crate::token::Token;
use vstd::prelude::*;

verus! {

/// Which here-document flavour a request uses.
#[derive(Clone, Copy, PartialEq, Eq, Structural, Debug)]
pub enum HereKind {
    /// `<<` — lines are taken verbatim.
    Plain,
    /// `<<-` — leading whitespace is stripped from every line.
    Stripped,
}

/// A pending here-document: its flavour and the delimiter that ends it.
#[derive(Clone, PartialEq, Eq, Debug)]
pub struct HereDocRequest {
    pub kind: HereKind,
    pub delimiter: String,
}

/// The fatal error of scanning: a here-document operator whose delimiter
/// is not supplied by an immediately following literal word.
#[derive(Clone, Copy, PartialEq, Eq, Structural, Debug)]
pub enum HereDocError {
    DelimiterNotLiteral,
}

/// The flavour a redirection operator requests, if it is a here-document.
pub open spec fn here_kind_of(op: RedirOp) -> Option<HereKind> {
    match op {
        RedirOp::Here => Some(HereKind::Plain),
        RedirOp::HereStrip => Some(HereKind::Stripped),
        _ => None,
    }
}

/// Exec counterpart of [`here_kind_of`].
pub fn here_kind(op: RedirOp) -> (r: Option<HereKind>)
    ensures
        r == here_kind_of(op),
{
    match op {
        RedirOp::Here => Some(HereKind::Plain),
        RedirOp::HereStrip => Some(HereKind::Stripped),
        _ => None,
    }
}

/// The views of a sequence of owned lines.
pub open spec fn line_views(lines: Seq<String>) -> Seq<Seq<char>> {
    lines.map_values(|l: String| l@)
}

/// The views of a sequence of requests: flavour and delimiter characters.
pub open spec fn req_views(reqs: Seq<HereDocRequest>) -> Seq<(HereKind, Seq<char>)> {
    reqs.map_values(|r: HereDocRequest| (r.kind, r.delimiter@))
}

/// The requests named by a token stream, in operator order, or `None` if
/// some here-document operator is not followed by a literal word.
pub open spec fn scan_spec(tokens: Seq<Token>) -> Option<Seq<(HereKind, Seq<char>)>>
    decreases tokens.len(),
{
    if tokens.len() == 0 {
        Some(Seq::empty())
    } else {
        match tokens[0] {
            Token::Redir(fd, op) => match here_kind_of(op) {
                Some(kind) => if tokens.len() >= 2 && tokens[1] is Word {
                    match scan_spec(tokens.skip(2)) {
                        Some(rest) => Some(seq![(kind, tokens[1]->Word_0@)] + rest),
                        None => None,
                    }
                } else {
                    None
                },
                None => scan_spec(tokens.drop_first()),
            },
            _ => scan_spec(tokens.drop_first()),
        }
    }
}

fn scan_from(tokens: &Vec<Token>, i: usize) -> (r: Result<Vec<HereDocRequest>, HereDocError>)
    requires
        i <= tokens@.len(),
    ensures
        (match r {
            Ok(v) => scan_spec(tokens@.skip(i as int)) == Some(req_views(v@)),
            Err(_) => scan_spec(tokens@.skip(i as int)) is None,
        }),
    decreases tokens@.len() - i,
{
    let ghost suffix = tokens@.skip(i as int);
    if i == tokens.len() {
        let v: Vec<HereDocRequest> = Vec::new();
        proof {
            assert(req_views(v@) =~= Seq::<(HereKind, Seq<char>)>::empty());
        }
        Ok(v)
    } else {
        proof {
            assert(suffix[0] == tokens@[i as int]);
        }
        let kind_opt = match &tokens[i] {
            Token::Redir(_, op) => here_kind(*op),
            _ => None,
        };
        match kind_opt {
            Some(kind) => {
                if i + 1 < tokens.len() {
                    let delim = match &tokens[i + 1] {
                        Token::Word(s) => Some(s.clone()),
                        _ => None,
                    };
                    proof {
                        assert(suffix[1] == tokens@[i + 1]);
                    }
                    match delim {
                        Some(s) => {
                            proof {
                                assert(suffix.skip(2) =~= tokens@.skip(i + 2));
                            }
                            match scan_from(tokens, i + 2) {
                                Ok(mut rest) => {
                                    let ghost rest_views = req_views(rest@);
                                    let mut out: Vec<HereDocRequest> = Vec::new();
                                    out.push(HereDocRequest { kind, delimiter: s });
                                    out.append(&mut rest);
                                    proof {
                                        assert(req_views(out@) =~= seq![
                                            (kind, suffix[1]->Word_0@),
                                        ] + rest_views);
                                    }
                                    Ok(out)
                                },
                                Err(e) => Err(e),
                            }
                        },
                        None => Err(HereDocError::DelimiterNotLiteral),
                    }
                } else {
                    Err(HereDocError::DelimiterNotLiteral)
                }
            },
            None => {
                proof {
                    assert(suffix.drop_first() =~= tokens@.skip(i + 1));
                }
                scan_from(tokens, i + 1)
            },
        }
    }
}

/// Scans a token stream for here-document requests, left to right.  Every
/// operator must be followed by a literal word giving the delimiter;
/// otherwise the whole statement is rejected.
pub fn scan_heredocs(tokens: &Vec<Token>) -> (r: Result<Vec<HereDocRequest>, HereDocError>)
    ensures
        (match r {
            Ok(v) => scan_spec(tokens@) == Some(req_views(v@)),
            Err(_) => scan_spec(tokens@) is None,
        }),
{
    proof {
        assert(tokens@.skip(0) =~= tokens@);
    }
    scan_from(tokens, 0)
}

/// A line as the collector sees it: stripped of leading whitespace for
/// the `stripped` flavour, verbatim otherwise.
pub open spec fn prepared_line(kind: HereKind, line: Seq<char>) -> Seq<char> {
    match kind {
        HereKind::Plain => line,
        HereKind::Stripped => strip_leading(line),
    }
}

/// Exec counterpart of [`prepared_line`].
pub fn prepare_line(kind: HereKind, line: &String) -> (r: String)
    ensures
        r@ == prepared_line(kind, line@),
{
    match kind {
        HereKind::Plain => line.clone(),
        HereKind::Stripped => strip_line(line.as_str()),
    }
}

/// Collecting one here-document from a run of lines: the accumulated body
/// (each consumed line followed by a newline, the delimiter line
/// excluded), the number of lines consumed, and whether the delimiter was
/// found before the lines ran out.
pub open spec fn collect_spec(kind: HereKind, delim: Seq<char>, lines: Seq<Seq<char>>) -> (Seq<
    char,
>, nat, bool)
    decreases lines.len(),
{
    if lines.len() == 0 {
        (Seq::empty(), 0, false)
    } else {
        let l = prepared_line(kind, lines[0]);
        if l == delim {
            (Seq::empty(), 1, true)
        } else {
            let rest = collect_spec(kind, delim, lines.drop_first());
            (l + seq!['\n'] + rest.0, (1 + rest.1) as nat, rest.2)
        }
    }
}

/// A here-document body: the collected text when the delimiter was found,
/// and the empty document otherwise.
pub open spec fn body_spec(kind: HereKind, delim: Seq<char>, lines: Seq<Seq<char>>) -> Seq<char> {
    let c = collect_spec(kind, delim, lines);
    if c.2 {
        c.0
    } else {
        Seq::empty()
    }
}

/// Collects one here-document from `lines`, starting at `start`: returns
/// the body, the position after the consumed lines, and whether the
/// delimiter was found.  A here-document left open when the lines run out
/// yields the empty body.
pub fn collect_heredoc(kind: HereKind, delimiter: &String, lines: &Vec<String>, start: usize) -> (r:
    (String, usize, bool))
    requires
        start <= lines@.len(),
    ensures
        ({
            let c = collect_spec(kind, delimiter@, line_views(lines@).skip(start as int));
            &&& r.2 == c.2
            &&& r.1 == start + c.1
            &&& r.1 <= lines@.len()
            &&& r.0@ == body_spec(kind, delimiter@, line_views(lines@).skip(start as int))
        }),
    decreases lines@.len() - start,
{
    let ghost suffix = line_views(lines@).skip(start as int);
    if start == lines.len() {
        (String::new(), start, false)
    } else {
        proof {
            assert(suffix[0] == lines@[start as int]@);
        }
        let l = prepare_line(kind, &lines[start]);
        if l.eq(delimiter) {
            (String::new(), start + 1, true)
        } else {
            proof {
                assert(suffix.drop_first() =~= line_views(lines@).skip(start + 1));
            }
            let rest = collect_heredoc(kind, delimiter, lines, start + 1);
            let body = if rest.2 {
                proof {
                    reveal_strlit("\n");
                    assert("\n"@ =~= seq!['\n']);
                }
                l.concat("\n").concat(rest.0.as_str())
            } else {
                String::new()
            };
            (body, rest.1, rest.2)
        }
    }
}

/// One step of collecting from a source that hands out lines one at a
/// time: either the line terminated the document, or the body grew.
#[derive(Clone, PartialEq, Eq, Debug)]
pub enum HereStep {
    /// The line matched the delimiter; the carried body is the finished
    /// document.
    Finished(String),
    /// The line joined the body; keep reading.
    More(String),
}

/// Feeds one physical line into a here-document being collected, for
/// sources read line by line: the prepared line either matches the
/// delimiter and finishes the document with the body collected so far,
/// or is appended to the body with its newline.
pub fn heredoc_step(kind: HereKind, delimiter: &String, body: String, line: &String) -> (r:
    HereStep)
    ensures
        (match r {
            HereStep::Finished(b) => prepared_line(kind, line@) == delimiter@ && b == body,
            HereStep::More(b) => prepared_line(kind, line@) != delimiter@ && b@ == body@
                + prepared_line(kind, line@) + seq!['\n'],
        }),
{
    let l = prepare_line(kind, line);
    if l.eq(delimiter) {
        HereStep::Finished(body)
    } else {
        proof {
            reveal_strlit("\n");
            assert("\n"@ =~= seq!['\n']);
        }
        HereStep::More(body.concat(l.as_str()).concat("\n"))
    }
}

/// Resolving a run of requests in order: the bodies (one per request, the
/// empty document for an unterminated one), the total number of lines
/// consumed, and the number of warnings (one per unterminated request).
pub open spec fn collect_all_spec(reqs: Seq<(HereKind, Seq<char>)>, lines: Seq<Seq<char>>) -> (Seq<
    Seq<char>,
>, nat, nat)
    decreases reqs.len(),
{
    if reqs.len() == 0 {
        (Seq::empty(), 0, 0)
    } else {
        let c = collect_spec(reqs[0].0, reqs[0].1, lines);
        let body = if c.2 {
            c.0
        } else {
            Seq::empty()
        };
        let rest = collect_all_spec(reqs.drop_first(), lines.skip(c.1 as int));
        (
            seq![body] + rest.0,
            (c.1 + rest.1) as nat,
            ((if c.2 {
                0int
            } else {
                1int
            }) + rest.2) as nat,
        )
    }
}

fn collect_all_from(reqs: &Vec<HereDocRequest>, k: usize, lines: &Vec<String>, start: usize) -> (r:
    (Vec<String>, usize, usize))
    requires
        k <= reqs@.len(),
        start <= lines@.len(),
    ensures
        ({
            let a = collect_all_spec(
                req_views(reqs@).skip(k as int),
                line_views(lines@).skip(start as int),
            );
            &&& line_views(r.0@) == a.0
            &&& r.1 == start + a.1
            &&& r.1 <= lines@.len()
            &&& r.2 == a.2
            &&& r.2 <= reqs@.len() - k
        }),
    decreases reqs@.len() - k,
{
    let ghost rv = req_views(reqs@).skip(k as int);
    let ghost lv = line_views(lines@).skip(start as int);
    if k == reqs.len() {
        let bodies: Vec<String> = Vec::new();
        proof {
            assert(line_views(bodies@) =~= Seq::<Seq<char>>::empty());
        }
        (bodies, start, 0)
    } else {
        proof {
            assert(rv[0] == req_views(reqs@)[k as int]);
        }
        let req = &reqs[k];
        let c = collect_heredoc(req.kind, &req.delimiter, lines, start);
        proof {
            assert(lv.skip(collect_spec(rv[0].0, rv[0].1, lv).1 as int) =~= line_views(
                lines@,
            ).skip(c.1 as int));
            assert(rv.drop_first() =~= req_views(reqs@).skip(k + 1));
        }
        let rest = collect_all_from(reqs, k + 1, lines, c.1);
        let ghost rest_views = line_views(rest.0@);
        let mut bodies: Vec<String> = Vec::new();
        bodies.push(c.0);
        let mut rest_bodies = rest.0;
        bodies.append(&mut rest_bodies);
        proof {
            assert(line_views(bodies@) =~= seq![
                body_spec(rv[0].0, rv[0].1, lv),
            ] + rest_views);
        }
        (bodies, rest.1, if c.2 {
            rest.2
        } else {
            1 + rest.2
        })
    }
}

/// Resolves every request in operator order against the lines that follow
/// `start`: one body per request — the empty document where the lines ran
/// out first — with the position after all consumed lines and the number
/// of end-of-input warnings to report.
pub fn collect_heredocs(reqs: &Vec<HereDocRequest>, lines: &Vec<String>, start: usize) -> (r: (
    Vec<String>,
    usize,
    usize,
))
    requires
        start <= lines@.len(),
    ensures
        ({
            let a = collect_all_spec(req_views(reqs@), line_views(lines@).skip(start as int));
            &&& line_views(r.0@) == a.0
            &&& r.1 == start + a.1
            &&& r.1 <= lines@.len()
            &&& r.2 == a.2
        }),
{
    proof {
        assert(req_views(reqs@).skip(0) =~= req_views(reqs@));
    }
    collect_all_from(reqs, 0, lines, start)
}

/// The `stripped` flavour is the plain flavour applied to pre-stripped
/// lines: stripping every physical line first — body lines and delimiter
/// candidates alike — collects the same body at the same cost.
pub proof fn lemma_stripped_collects_as_plain(delim: Seq<char>, lines: Seq<Seq<char>>)
    ensures
        collect_spec(HereKind::Stripped, delim, lines) == collect_spec(
            HereKind::Plain,
            delim,
            lines.map_values(|l: Seq<char>| strip_leading(l)),
        ),
    decreases lines.len(),
{
    let stripped = lines.map_values(|l: Seq<char>| strip_leading(l));
    if lines.len() == 0 {
    } else {
        assert(stripped[0] == strip_leading(lines[0]));
        lemma_stripped_collects_as_plain(delim, lines.drop_first());
        assert(lines.drop_first().map_values(|l: Seq<char>| strip_leading(l))
            =~= stripped.drop_first());
    }
}

/// Stripping already-stripped lines changes nothing, so on pre-stripped
/// lines the two flavours collect alike.
pub proof fn lemma_stripping_settles(delim: Seq<char>, lines: Seq<Seq<char>>)
    ensures
        ({
            let stripped = lines.map_values(|l: Seq<char>| strip_leading(l));
            collect_spec(HereKind::Stripped, delim, stripped) == collect_spec(
                HereKind::Plain,
                delim,
                stripped,
            )
        }),
{
    let stripped = lines.map_values(|l: Seq<char>| strip_leading(l));
    let twice = stripped.map_values(|l: Seq<char>| strip_leading(l));
    lemma_stripped_collects_as_plain(delim, stripped);
    assert forall|i: int| 0 <= i < twice.len() implies twice[i] == stripped[i] by {
        lemma_strip_idempotent(lines[i]);
    }
    assert(twice =~= stripped);
}

/// A here-document whose delimiter never appears — after per-flavour
/// preparation — consumes every remaining line, is reported unterminated,
/// and its body is the empty document.
pub proof fn lemma_unterminated_heredoc(kind: HereKind, delim: Seq<char>, lines: Seq<Seq<char>>)
    requires
        forall|i: int| 0 <= i < lines.len() ==> prepared_line(kind, lines[i]) != delim,
    ensures
        !collect_spec(kind, delim, lines).2,
        collect_spec(kind, delim, lines).1 == lines.len(),
        body_spec(kind, delim, lines) == Seq::<char>::empty(),
    decreases lines.len(),
{
    if lines.len() > 0 {
        assert(prepared_line(kind, lines[0]) != delim);
        lemma_unterminated_heredoc(kind, delim, lines.drop_first());
    }
}

} // verus!
