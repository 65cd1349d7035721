//! Syntax highlighting of the statement being typed.

use crate::painter::{Style, StyledBuf};
use vstd::prelude::*;

verus! {

/// The colouring of a statement. How a statement is coloured is the
/// highlighter's own business.
pub trait Highlighter {
    /// Whether the highlighter may style the statement `buf` as `out`. A
    /// highlighter that says nothing may style it in any way.
    open spec fn styles(&self, buf: Seq<char>, offset: nat, out: Seq<(Seq<char>, Style)>) -> bool {
        true
    }

    /// The statement in styled spans; `offset` is the byte length of the part
    /// that was confirmed on earlier lines.
    fn highlight(&self, buf: &str, offset: usize) -> (r: StyledBuf)
        ensures
            self.styles(buf@, offset as nat, r@),
    ;
}

/// A highlighter that leaves the text in the terminal's own colours.
pub struct DefaultHighlighter {}

impl DefaultHighlighter {
    /// The highlighter.
    pub fn new() -> (h: DefaultHighlighter)
        ensures
            h == (DefaultHighlighter {  }),
    {
        DefaultHighlighter {  }
    }

    /// The statement as one plain span.
    pub fn plain(&self, buf: &str) -> (r: StyledBuf)
        ensures
            r@ == seq![(buf@, Style::spec_plain())],
    {
        StyledBuf::new(buf)
    }
}

impl Highlighter for DefaultHighlighter {
    /// The statement is one plain span.
    open spec fn styles(&self, buf: Seq<char>, offset: nat, out: Seq<(Seq<char>, Style)>) -> bool {
        out == seq![(buf, Style::spec_plain())]
    }

    fn highlight(&self, buf: &str, offset: usize) -> (r: StyledBuf) {
        self.plain(buf)
    }
}

} // verus!
