//! The prompt drawn before and behind the line.

use crate::line::LineCtx;
use crate::painter::{Style, StyledBuf};
use vstd::prelude::*;

verus! {

/// The text drawn to the left and to the right of the line. What a prompt
/// shows is its own business.
pub trait Prompt {
    /// The text before the line.
    fn prompt_left(&self, ctx: &LineCtx) -> StyledBuf;

    /// The text at the right edge of the terminal.
    fn prompt_right(&self, ctx: &LineCtx) -> StyledBuf;
}

/// The text of the default prompt.
pub open spec fn default_prompt_text() -> Seq<char> {
    seq!['>', ' ']
}

/// A prompt that shows `> ` and nothing on the right.
pub struct DefaultPrompt {}

impl DefaultPrompt {
    /// The prompt.
    pub fn new() -> (p: DefaultPrompt)
        ensures
            p == (DefaultPrompt {  }),
    {
        DefaultPrompt {  }
    }

    /// The right side: nothing.
    pub fn right(&self) -> (r: StyledBuf)
        ensures
            r@ == Seq::<(Seq<char>, Style)>::empty(),
    {
        StyledBuf::empty()
    }

    /// The left side: `> ` in the terminal's own colours.
    pub fn left(&self) -> (r: StyledBuf)
        ensures
            r@ == seq![(default_prompt_text(), Style::spec_plain())],
    {
        proof {
            reveal_strlit("> ");
            assert("> "@ =~= default_prompt_text());
        }
        StyledBuf::new("> ")
    }
}

impl Prompt for DefaultPrompt {
    /// The marker `> ` as one span in the terminal's own colours, whatever
    /// the state of the read.
    fn prompt_left(&self, ctx: &LineCtx) -> (r: StyledBuf)
        ensures
            r@ == seq![(default_prompt_text(), Style::spec_plain())],
    {
        self.left()
    }

    /// No span at all, whatever the state of the read.
    fn prompt_right(&self, ctx: &LineCtx) -> (r: StyledBuf)
        ensures
            r@ == Seq::<(Seq<char>, Style)>::empty(),
    {
        self.right()
    }
}

} // verus!
