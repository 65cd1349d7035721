//! Deciding whether a statement is still open: a trailing backslash, an
//! unterminated quote or an unclosed bracket asks for another line.

use crate::buffer::Buffer;
use shrs_utils::Location;
use vstd::prelude::*;

verus! {

/// A token of the shell language, as far as the scan tells tokens apart.
#[derive(Debug)]
pub enum Token {
    LParen,
    RParen,
    LBrace,
    RBrace,
    /// A word with its text; a quoted string is one word, quotes included.
    Word(String),
    /// Any other token.
    Other,
    /// A character that the lexer did not recognise.
    Invalid,
}

/// A token as the contracts see it.
pub enum TokenView {
    LParen,
    RParen,
    LBrace,
    RBrace,
    Word(Seq<char>),
    Other,
    Invalid,
}

impl View for Token {
    type V = TokenView;

    open spec fn view(&self) -> TokenView {
        match self {
            Token::LParen => TokenView::LParen,
            Token::RParen => TokenView::RParen,
            Token::LBrace => TokenView::LBrace,
            Token::RBrace => TokenView::RBrace,
            Token::Word(w) => TokenView::Word(w@),
            Token::Other => TokenView::Other,
            Token::Invalid => TokenView::Invalid,
        }
    }
}

/// The views of a list of tokens.
pub open spec fn token_views(v: Seq<Token>) -> Seq<TokenView> {
    Seq::new(v.len(), |i: int| v[i]@)
}

/// An opening bracket that waits for its closer.
#[derive(Clone, Copy, Debug, PartialEq, Eq, Structural)]
pub enum Bracket {
    Paren,
    Brace,
}

/// The tokens that the shell lexer cuts a text into, unrecognised characters
/// included as `Invalid`.
pub uninterp spec fn lexed(input: Seq<char>) -> Seq<TokenView>;

/// Runs `shrs_lang::Lexer` over the input to its end and keeps of each item
/// what the scan reads: the four brackets, the text of a word, `Other` for
/// any other token and `Invalid` for a lexer error. The lexer reads nothing
/// but its input.
#[verifier::external_body]
pub(crate) fn lex(input: &str) -> (tokens: Vec<Token>)
    ensures
        token_views(tokens@) == lexed(input@),
{
    shrs_lang::Lexer::new(input).map(|item| match item {
        Ok((_, shrs_lang::Token::LPAREN, _)) => Token::LParen,
        Ok((_, shrs_lang::Token::RPAREN, _)) => Token::RParen,
        Ok((_, shrs_lang::Token::LBRACE, _)) => Token::LBrace,
        Ok((_, shrs_lang::Token::RBRACE, _)) => Token::RBrace,
        Ok((_, shrs_lang::Token::WORD(w), _)) => Token::Word(w.to_string()),
        Ok(_) => Token::Other,
        Err(_) => Token::Invalid,
    }).collect()
}

/// A word that opens a quote and does not close it: it starts with `'` or
/// `"` and is that one character alone or ends with another character.
pub open spec fn opens_quote(w: Seq<char>) -> bool {
    &&& w.len() > 0
    &&& (w[0] == '\'' || w[0] == '"')
    &&& (w.len() == 1 || w.last() != w[0])
}

/// The verdict of the scan over `tokens` with the brackets of `stack` open,
/// innermost last; true means that the statement is incomplete.
///
/// An opening bracket is pushed. A closing bracket pops its partner, is
/// ignored when nothing is open, and ends the scan with "complete" when the
/// innermost open bracket is of the other kind. A word that opens a quote
/// ends the scan with "incomplete". At the end of the tokens the statement is
/// incomplete when a bracket is still open.
pub open spec fn scan(tokens: Seq<TokenView>, stack: Seq<Bracket>) -> bool
    decreases tokens.len(),
{
    if tokens.len() == 0 {
        stack.len() > 0
    } else {
        let rest = tokens.drop_first();
        match tokens[0] {
            TokenView::LParen => scan(rest, stack.push(Bracket::Paren)),
            TokenView::LBrace => scan(rest, stack.push(Bracket::Brace)),
            TokenView::RParen => if stack.len() == 0 {
                scan(rest, stack)
            } else if stack.last() == Bracket::Paren {
                scan(rest, stack.drop_last())
            } else {
                false
            },
            TokenView::RBrace => if stack.len() == 0 {
                scan(rest, stack)
            } else if stack.last() == Bracket::Brace {
                scan(rest, stack.drop_last())
            } else {
                false
            },
            TokenView::Word(w) => if opens_quote(w) {
                true
            } else {
                scan(rest, stack)
            },
            TokenView::Other => scan(rest, stack),
            TokenView::Invalid => scan(rest, stack),
        }
    }
}

/// Whether the statement made of the confirmed `lines` and the live `text`
/// needs another line: the live text ends in a backslash, or the scan of the
/// whole statement's tokens says so.
pub open spec fn spec_needs_multiline(lines: Seq<char>, text: Seq<char>) -> bool {
    (text.len() > 0 && text.last() == '\\') || scan(lexed(lines + text), Seq::empty())
}

/// Tells whether a word opens a quote without closing it.
pub fn word_opens_quote(w: &str) -> (r: bool)
    ensures
        r == opens_quote(w@),
{
    let n = w.unicode_len();
    if n == 0 {
        return false;
    }
    let first = w.get_char(0);
    if first != '\'' && first != '"' {
        return false;
    }
    n == 1 || w.get_char(n - 1) != first
}

/// Scans tokens for an open quote or bracket; true means incomplete.
pub fn scan_tokens(tokens: &Vec<Token>) -> (r: bool)
    ensures
        r == scan(token_views(tokens@), Seq::empty()),
{
    let mut brackets: Vec<Bracket> = Vec::new();
    let mut i: usize = 0;
    let ghost all = token_views(tokens@);
    assert(all.skip(0) =~= all);
    while i < tokens.len()
        invariant
            i <= tokens.len(),
            all == token_views(tokens@),
            scan(all, Seq::empty()) == scan(all.skip(i as int), brackets@),
        decreases tokens.len() - i,
    {
        assert(all.skip(i as int).drop_first() =~= all.skip(i + 1));
        assert(all.skip(i as int)[0] == tokens@[i as int]@);
        match &tokens[i] {
            Token::LParen => {
                brackets.push(Bracket::Paren);
            },
            Token::LBrace => {
                brackets.push(Bracket::Brace);
            },
            Token::RParen => {
                let n = brackets.len();
                if n > 0 {
                    if brackets[n - 1] == Bracket::Paren {
                        brackets.pop();
                    } else {
                        return false;
                    }
                }
            },
            Token::RBrace => {
                let n = brackets.len();
                if n > 0 {
                    if brackets[n - 1] == Bracket::Brace {
                        brackets.pop();
                    } else {
                        return false;
                    }
                }
            },
            Token::Word(w) => {
                if word_opens_quote(w.as_str()) {
                    return true;
                }
            },
            Token::Other => {},
            Token::Invalid => {},
        }
        i = i + 1;
    }
    brackets.len() > 0
}

/// Whether the statement made of the confirmed lines and the live buffer is
/// still open.
pub fn needs_multiline(lines: &str, buf: &Buffer) -> (r: bool)
    requires
        buf@.wf(),
    ensures
        r == spec_needs_multiline(lines@, buf@.text),
{
    let len = buf.len();
    if len > 0 {
        match buf.char_at(Location::Abs(len - 1)) {
            Some(c) => {
                if c == '\\' {
                    return true;
                }
            },
            None => {},
        }
    }
    let mut command = String::from_str(lines);
    let cur = buf.contents();
    command.append(cur.as_str());
    let tokens = lex(command.as_str());
    scan_tokens(&tokens)
}

} // verus!
