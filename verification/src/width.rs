//! Display width of text, and the few operations on `String` and `char`
//! that the editor takes from the standard library.

use unicode_width::UnicodeWidthStr;
use vstd::prelude::*;

verus! {

/// The number of terminal columns that a text takes.
pub uninterp spec fn width_of(text: Seq<char>) -> nat;

/// Calls `UnicodeWidthStr::width` of `unicode_width`: the displayed width of
/// the string in columns, by the Unicode tables built into that crate.
#[verifier::external_body]
pub(crate) fn display_width(s: &str) -> (w: usize)
    ensures
        w == width_of(s@),
{
    UnicodeWidthStr::width(s)
}

/// Calls `char::to_string`: the string made of the one character.
#[verifier::external_body]
pub(crate) fn char_to_string(c: char) -> (s: String)
    ensures
        s@ == seq![c],
{
    c.to_string()
}

} // verus!
