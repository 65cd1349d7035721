//! What the editor hands to the terminal: text in styled spans.

use vstd::prelude::*;

verus! {

/// A colour of the terminal palette.
#[derive(Clone, Copy, Debug, PartialEq, Eq, Structural)]
pub enum Color {
    Reset,
    Black,
    DarkGrey,
    Red,
    DarkRed,
    Green,
    DarkGreen,
    Yellow,
    DarkYellow,
    Blue,
    DarkBlue,
    Magenta,
    DarkMagenta,
    Cyan,
    DarkCyan,
    White,
    Grey,
    /// A colour given by its red, green and blue parts.
    Rgb { r: u8, g: u8, b: u8 },
    /// A colour of the 256-colour palette.
    AnsiValue(u8),
}

/// How a span of text is drawn.
#[derive(Clone, Copy, Debug, PartialEq, Eq, Structural)]
pub struct Style {
    pub foreground: Option<Color>,
    pub background: Option<Color>,
    pub bold: bool,
}

impl Style {
    /// The terminal's own colours.
    pub open spec fn spec_plain() -> Style {
        Style { foreground: None, background: None, bold: false }
    }

    /// The terminal's own colours.
    pub fn plain() -> (s: Style)
        ensures
            s == Style::spec_plain(),
    {
        Style { foreground: None, background: None, bold: false }
    }

    /// The style of a completion that is offered but not yet accepted: red
    /// text.
    pub open spec fn spec_suggestion() -> Style {
        Style { foreground: Some(Color::Red), background: None, bold: false }
    }

    /// The style of a completion that is offered but not yet accepted.
    pub fn suggestion() -> (s: Style)
        ensures
            s == Style::spec_suggestion(),
    {
        Style { foreground: Some(Color::Red), background: None, bold: false }
    }
}

/// A span of text in one style.
#[derive(Debug)]
pub struct Span {
    pub content: String,
    pub style: Style,
}

/// Text to be drawn: spans in order.
#[derive(Debug)]
pub struct StyledBuf {
    spans: Vec<Span>,
}

impl View for StyledBuf {
    type V = Seq<(Seq<char>, Style)>;

    closed spec fn view(&self) -> Seq<(Seq<char>, Style)> {
        Seq::new(self.spans@.len(), |i: int| (self.spans@[i].content@, self.spans@[i].style))
    }
}

/// The text of a sequence of spans, styles dropped.
pub open spec fn plain_text(spans: Seq<(Seq<char>, Style)>) -> Seq<char>
    decreases spans.len(),
{
    if spans.len() == 0 {
        Seq::empty()
    } else {
        plain_text(spans.drop_last()) + spans.last().0
    }
}

impl StyledBuf {
    /// No text.
    pub fn empty() -> (b: StyledBuf)
        ensures
            b@ == Seq::<(Seq<char>, Style)>::empty(),
    {
        let b = StyledBuf { spans: Vec::new() };
        assert(b@ =~= Seq::<(Seq<char>, Style)>::empty());
        b
    }

    /// One span in the terminal's own colours.
    pub fn new(content: &str) -> (b: StyledBuf)
        ensures
            b@ == seq![(content@, Style::spec_plain())],
    {
        let mut b = StyledBuf::empty();
        b.push(content, Style::plain());
        b
    }

    /// Appends a span.
    pub fn push(&mut self, content: &str, style: Style)
        ensures
            final(self)@ == old(self)@.push((content@, style)),
    {
        self.spans.push(Span { content: String::from_str(content), style });
        assert(self@ =~= old(self)@.push((content@, style)));
    }

    /// The spans, in order.
    pub fn spans(&self) -> (v: &Vec<Span>)
        ensures
            v@.len() == self@.len(),
            forall|i: int|
                0 <= i < v@.len() ==> (#[trigger] v@[i]).content@ == self@[i].0 && v@[i].style
                    == self@[i].1,
    {
        &self.spans
    }

    /// The text without its styles.
    pub fn content(&self) -> (s: String)
        ensures
            s@ == plain_text(self@),
    {
        let mut s = String::new();
        let mut i: usize = 0;
        assert(self@.take(0) =~= Seq::<(Seq<char>, Style)>::empty());
        while i < self.spans.len()
            invariant
                i <= self.spans.len(),
                s@ == plain_text(self@.take(i as int)),
            decreases self.spans.len() - i,
        {
            assert(self@.take(i + 1).drop_last() =~= self@.take(i as int));
            s.append(self.spans[i].content.as_str());
            i = i + 1;
        }
        assert(self@.take(i as int) =~= self@);
        s
    }
}

/// Styled text with a suggestion behind it, if there is one.
pub open spec fn with_suggestion(base: Seq<(Seq<char>, Style)>, rest: Option<Seq<char>>) -> Seq<
    (Seq<char>, Style),
> {
    match rest {
        Some(text) => base.push((text, Style::spec_suggestion())),
        None => base,
    }
}

/// What the terminal is asked to draw after a key was handled.
#[derive(Debug)]
pub struct Frame {
    /// The statement so far, highlighted, with the offered completion behind
    /// it.
    pub styled: StyledBuf,
    /// The cursor's index in the live buffer.
    pub cursor: usize,
}

} // verus!
