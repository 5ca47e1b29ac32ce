//! Here-document collection, line assembly, and session state.

use splash::assemble::AssembleStep;
use splash::assemble::LexOutcome;
use splash::assemble::ScriptSource;
use splash::assemble::absorb_lex_outcome;
use splash::assemble::push_line;
use splash::assemble::resolve_heredocs;
use splash::assemble::wants_continuation;
use splash::heredoc::HereDocError;
use splash::heredoc::HereStep;
use splash::heredoc::heredoc_step;
use splash::heredoc::HereDocRequest;
use splash::heredoc::HereKind;
use splash::heredoc::collect_heredoc;
use splash::heredoc::collect_heredocs;
use splash::heredoc::prepare_line;
use splash::heredoc::scan_heredocs;
use splash::session::Session;
use splash::session::ShellError;
use splash::text::strip_line;
use splash::token::RedirOp;
use splash::token::Token;

fn lines(ls: &[&str]) -> Vec<String> {
    ls.iter().map(|l| l.to_string()).collect()
}

#[test]
fn strip_removes_leading_whitespace_only() {
    assert_eq!(strip_line("  \tabc"), "abc");
    assert_eq!(strip_line("abc  "), "abc  ");
    assert_eq!(strip_line("   "), "");
    assert_eq!(strip_line(""), "");
    assert_eq!(strip_line("\u{a0}x"), "x");
}

#[test]
fn prepare_line_strips_only_for_stripped_kind() {
    assert_eq!(prepare_line(HereKind::Plain, &"  abc".to_string()), "  abc");
    assert_eq!(prepare_line(HereKind::Stripped, &"  abc".to_string()), "abc");
}

#[test]
fn heredoc_in() {
    // cat <<EOF / abc / EOF : the body is "abc\n", delimiter excluded.
    let ls = lines(&["abc", "EOF"]);
    let (body, next, found) = collect_heredoc(HereKind::Plain, &"EOF".to_string(), &ls, 0);
    assert_eq!(body, "abc\n");
    assert_eq!(next, 2);
    assert!(found);
}

#[test]
fn heredoc_in_no_whitespace() {
    // cat <<-EOF / "   abc" / "  EOF" : every line is stripped before
    // use, the delimiter line too.
    let ls = lines(&["   abc", "  EOF"]);
    let (body, next, found) = collect_heredoc(HereKind::Stripped, &"EOF".to_string(), &ls, 0);
    assert_eq!(body, "abc\n");
    assert_eq!(next, 2);
    assert!(found);
}

#[test]
fn plain_heredoc_does_not_strip() {
    let ls = lines(&["   abc", "EOF"]);
    let (body, _, found) = collect_heredoc(HereKind::Plain, &"EOF".to_string(), &ls, 0);
    assert!(found);
    assert_eq!(body, "   abc\n");
    // An indented delimiter line does not terminate a plain here-document.
    let ls2 = lines(&["abc", "  EOF"]);
    let (body2, _, found2) = collect_heredoc(HereKind::Plain, &"EOF".to_string(), &ls2, 0);
    assert!(!found2);
    assert_eq!(body2, "");
}

#[test]
fn heredoc_multi_line_body() {
    let ls = lines(&["one", "two", "EOF", "after"]);
    let (body, next, found) = collect_heredoc(HereKind::Plain, &"EOF".to_string(), &ls, 0);
    assert_eq!(body, "one\ntwo\n");
    assert_eq!(next, 3);
    assert!(found);
}

#[test]
fn heredoc_unterminated_is_empty_with_warning() {
    // End-of-input before the delimiter: an empty body and one warning,
    // not a fatal error.
    let ls = lines(&["abc", "def"]);
    let (body, next, found) = collect_heredoc(HereKind::Plain, &"EOF".to_string(), &ls, 0);
    assert_eq!(body, "");
    assert_eq!(next, 2);
    assert!(!found);

    let reqs = vec![HereDocRequest { kind: HereKind::Plain, delimiter: "EOF".to_string() }];
    let (bodies, next, warnings) = collect_heredocs(&reqs, &ls, 0);
    assert_eq!(bodies, vec!["".to_string()]);
    assert_eq!(next, 2);
    assert_eq!(warnings, 1);
}

#[test]
fn heredocs_collect_in_operator_order() {
    let reqs = vec![
        HereDocRequest { kind: HereKind::Plain, delimiter: "A".to_string() },
        HereDocRequest { kind: HereKind::Stripped, delimiter: "B".to_string() },
    ];
    let ls = lines(&["first", "A", "  second", "  B", "rest"]);
    let (bodies, next, warnings) = collect_heredocs(&reqs, &ls, 0);
    assert_eq!(bodies, vec!["first\n".to_string(), "second\n".to_string()]);
    assert_eq!(next, 4);
    assert_eq!(warnings, 0);
}

#[test]
fn heredoc_step_accumulates_until_delimiter() {
    let delim = "EOF".to_string();
    let step = heredoc_step(HereKind::Stripped, &delim, String::new(), &"  abc".to_string());
    let body = match step {
        HereStep::More(b) => b,
        HereStep::Finished(_) => panic!("the body line must not finish the document"),
    };
    assert_eq!(body, "abc\n");
    let step = heredoc_step(HereKind::Stripped, &delim, body, &"  EOF".to_string());
    assert_eq!(step, HereStep::Finished("abc\n".to_string()));
}

#[test]
fn scan_finds_requests_in_order() {
    let tokens = vec![
        Token::Word("cat".to_string()),
        Token::Redir(None, RedirOp::Here),
        Token::Word("EOF".to_string()),
        Token::Pipe,
        Token::Word("tr".to_string()),
        Token::Redir(None, RedirOp::HereStrip),
        Token::Word("END".to_string()),
    ];
    let reqs = scan_heredocs(&tokens).unwrap();
    assert_eq!(reqs.len(), 2);
    assert_eq!(reqs[0].kind, HereKind::Plain);
    assert_eq!(reqs[0].delimiter, "EOF");
    assert_eq!(reqs[1].kind, HereKind::Stripped);
    assert_eq!(reqs[1].delimiter, "END");
}

#[test]
fn scan_ignores_other_redirections() {
    let tokens = vec![
        Token::Word("cat".to_string()),
        Token::Redir(Some(3), RedirOp::Read),
        Token::Word("f".to_string()),
        Token::Redir(None, RedirOp::DupWrite),
        Token::Word("3".to_string()),
    ];
    let reqs = scan_heredocs(&tokens).unwrap();
    assert_eq!(reqs.len(), 0);
}

#[test]
fn scan_rejects_non_literal_delimiter() {
    let tokens = vec![
        Token::Word("cat".to_string()),
        Token::Redir(None, RedirOp::Here),
        Token::Pipe,
    ];
    assert_eq!(scan_heredocs(&tokens), Err(HereDocError::DelimiterNotLiteral));
    let tokens2 = vec![Token::Word("cat".to_string()), Token::Redir(None, RedirOp::Here)];
    assert_eq!(scan_heredocs(&tokens2), Err(HereDocError::DelimiterNotLiteral));
}

#[test]
fn resolve_heredocs_advances_the_source() {
    let tokens = vec![
        Token::Word("cat".to_string()),
        Token::Redir(None, RedirOp::Here),
        Token::Word("EOF".to_string()),
    ];
    let mut src = ScriptSource::new(lines(&["abc", "EOF", "echo done"]));
    let (bodies, warnings) = resolve_heredocs(&tokens, &mut src).unwrap();
    assert_eq!(bodies, vec!["abc\n".to_string()]);
    assert_eq!(warnings, 0);
    // The line after the delimiter is still there for the next statement.
    assert_eq!(src.next_line(), Some("echo done".to_string()));
    assert_eq!(src.next_line(), None);
}

#[test]
fn script_source_hands_lines_out_in_order() {
    let mut src = ScriptSource::new(lines(&["a", "b"]));
    assert_eq!(src.next_line(), Some("a".to_string()));
    assert_eq!(src.next_line(), Some("b".to_string()));
    assert_eq!(src.next_line(), None);
    assert_eq!(src.next_line(), None);
}

#[test]
fn assembler_keeps_accumulator_on_unterminated() {
    let mut acc = String::new();
    push_line(&mut acc, &"echo 'half".to_string());
    assert!(wants_continuation(&acc));
    let step = absorb_lex_outcome(&mut acc, LexOutcome::Unterminated);
    assert_eq!(step, AssembleStep::NeedMore);
    assert_eq!(acc, "echo 'half");
}

#[test]
fn assembler_resets_on_statement_and_failure() {
    let mut acc = String::new();
    push_line(&mut acc, &"echo hi".to_string());
    let tokens = vec![Token::Word("echo".to_string()), Token::Word("hi".to_string())];
    let step = absorb_lex_outcome(&mut acc, LexOutcome::Tokens(tokens.clone()));
    assert_eq!(step, AssembleStep::Statement(tokens));
    assert_eq!(acc, "");
    assert!(!wants_continuation(&acc));

    push_line(&mut acc, &"echo \u{1}".to_string());
    let step = absorb_lex_outcome(&mut acc, LexOutcome::Failed("bad token".to_string()));
    assert_eq!(step, AssembleStep::Discard("bad token".to_string()));
    assert_eq!(acc, "");
}

#[test]
fn session_records_only_successful_outcomes() {
    let mut s = Session::new();
    assert_eq!(s.last_status, 0);
    s.record(&Ok(2));
    assert_eq!(s.last_status, 2);
    s.record(&Err(ShellError::Parse("unexpected token".to_string())));
    assert_eq!(s.last_status, 2);
    s.record(&Ok(0));
    assert_eq!(s.exit_code(), 0);
}

#[test]
fn diagnostics_carry_the_shell_name() {
    let e = ShellError::HereDocDelimiter;
    assert_eq!(e.diagnostic(), "splash: here documents must be a literal string");
    let e = ShellError::Lex("unterminated quote".to_string());
    assert_eq!(e.diagnostic(), "splash: unterminated quote");
    let e = ShellError::Stage("fork failed".to_string());
    assert_eq!(e.diagnostic(), "splash: fork failed");
}
