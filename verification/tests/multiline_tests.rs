use shrs_line::buffer::Buffer;
use shrs_line::multiline::{needs_multiline, scan_tokens, word_opens_quote, Token};
use shrs_utils::Location;

fn open(lines: &str, text: &str) -> bool {
    let mut b = Buffer::new();
    b.insert(Location::Rel(0), text).unwrap();
    needs_multiline(lines, &b)
}

#[test]
fn unterminated_double_quote_is_incomplete() {
    assert!(open("", "echo \"abc"));
}

#[test]
fn terminated_double_quote_is_complete() {
    assert!(!open("", "echo \"abc\""));
}

#[test]
fn open_paren_is_incomplete() {
    assert!(open("", "echo ("));
}

#[test]
fn closed_paren_is_complete() {
    assert!(!open("", "echo ()"));
}

#[test]
fn trailing_backslash_is_incomplete() {
    assert!(open("", "foo\\"));
}

#[test]
fn empty_statement_is_complete() {
    assert!(!open("", ""));
}

#[test]
fn plain_words_are_complete() {
    assert!(!open("", "ls -la /tmp"));
}

#[test]
fn single_quotes_behave_like_double_quotes() {
    assert!(open("", "echo 'abc"));
    assert!(!open("", "echo 'abc'"));
}

#[test]
fn lone_quote_is_incomplete() {
    assert!(open("", "'"));
    assert!(open("", "echo \""));
}

#[test]
fn open_brace_is_incomplete() {
    assert!(open("", "f() {"));
    assert!(!open("", "f() { ls }"));
}

#[test]
fn nested_brackets_are_tracked() {
    assert!(open("", "{ ( )"));
    assert!(!open("", "{ ( ) }"));
    assert!(open("", "( ( )"));
}

#[test]
fn mismatched_closer_ends_scan_as_complete() {
    assert!(!open("", "( }"));
    assert!(!open("", "{ ) ("));
}

#[test]
fn stray_closer_with_nothing_open_is_ignored() {
    assert!(!open("", ") }"));
    assert!(open("", ") ("));
}

#[test]
fn closed_quote_does_not_end_the_scan() {
    assert!(open("", "echo \"abc\" ("));
    assert!(open("", "( echo 'x'"));
}

#[test]
fn open_quote_wins_over_balanced_brackets() {
    assert!(open("", "( ) \"abc"));
}

#[test]
fn confirmed_lines_count_for_the_statement() {
    assert!(!open("echo (\n", ")"));
    assert!(open("echo (\n", "ls"));
    assert!(!open("echo \"a\n", "b\""));
}

#[test]
fn backslash_is_checked_on_the_live_buffer_only() {
    assert!(!open("foo\\\n", "bar"));
    assert!(open("foo\n", "bar\\"));
}

#[test]
fn unrecognised_characters_are_skipped() {
    assert!(open("", "\u{0001} ("));
    assert!(!open("", "\u{0001} ( )"));
}

#[test]
fn scan_tokens_on_given_tokens() {
    assert!(!scan_tokens(&vec![]));
    assert!(scan_tokens(&vec![Token::LParen]));
    assert!(scan_tokens(&vec![Token::LBrace, Token::Other]));
    assert!(!scan_tokens(&vec![Token::LParen, Token::RParen]));
    assert!(!scan_tokens(&vec![Token::LParen, Token::RBrace, Token::LParen]));
    assert!(scan_tokens(&vec![Token::RParen, Token::Invalid, Token::LBrace]));
    assert!(scan_tokens(&vec![
        Token::LParen,
        Token::RParen,
        Token::Word("\"ab".to_string())
    ]));
    assert!(!scan_tokens(&vec![Token::Word("\"ab\"".to_string())]));
    assert!(scan_tokens(&vec![
        Token::Word("'ab'".to_string()),
        Token::LBrace
    ]));
}

#[test]
fn word_opens_quote_cases() {
    assert!(!word_opens_quote(""));
    assert!(!word_opens_quote("abc"));
    assert!(word_opens_quote("'"));
    assert!(word_opens_quote("\""));
    assert!(word_opens_quote("'abc"));
    assert!(word_opens_quote("\"abc'"));
    assert!(!word_opens_quote("'abc'"));
    assert!(!word_opens_quote("\"\""));
    assert!(!word_opens_quote("abc'"));
}
