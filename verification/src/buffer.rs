//! The text buffer under the editor: `shrs_utils::CursorBuffer`, a rope with a
//! cursor, seen here as a sequence of characters and a cursor index.
//!
//! The functions of this module that call into `shrs_utils` are trusted: their
//! contracts restate what the source of `CursorBuffer` does and are not
//! proved. Everything else in the crate is verified against them.

use crate::error::{spec_buffer_error, LineError};
use shrs_utils::{CursorBuffer, Error, Location};
use vstd::prelude::*;

verus! {

/// `shrs_utils::CursorBuffer`, taken as opaque: what it holds is known only
/// through `buffer_text` and `buffer_cursor`.
#[verifier::external_type_specification]
#[verifier::external_body]
pub struct ExCursorBuffer(shrs_utils::CursorBuffer);

/// `shrs_utils::Location`, with the two variants that its source declares:
/// an absolute index, or an offset from the cursor.
#[verifier::external_type_specification]
pub struct ExLocation(shrs_utils::Location);

/// `shrs_utils::Error`, with the three variants that its source declares.
#[verifier::external_type_specification]
pub struct ExBufferError(shrs_utils::Error);

/// The characters that a buffer holds, in order.
pub uninterp spec fn buffer_text(cb: CursorBuffer) -> Seq<char>;

/// The index of the character before which the buffer's cursor stands.
pub uninterp spec fn buffer_cursor(cb: CursorBuffer) -> nat;

/// The cursor stands inside the text, and the text is short enough for the
/// signed arithmetic that `CursorBuffer` does on indices.
pub open spec fn buffer_wf(cb: CursorBuffer) -> bool {
    buffer_cursor(cb) <= buffer_text(cb).len() <= isize::MAX
}

/// The absolute index that a location selects in a text of `len` characters
/// with the cursor at `cursor`, or the error that `CursorBuffer` reports for
/// a location outside `0..=len`.
pub open spec fn resolve(len: nat, cursor: nat, loc: Location) -> Result<nat, Error> {
    match loc {
        Location::Abs(i) => if i <= len {
            Ok(i as nat)
        } else {
            Err(Error::InvalidAbsoluteLocation(i))
        },
        Location::Rel(d) => if 0 <= cursor + d <= len {
            Ok((cursor + d) as nat)
        } else {
            Err(Error::InvalidRelativeLocation(d))
        },
    }
}

/// `resolve` on the text and cursor of a buffer.
pub open spec fn resolve_in(cb: CursorBuffer, loc: Location) -> Result<nat, Error> {
    resolve(buffer_text(cb).len(), buffer_cursor(cb), loc)
}

/// The location can be handed to the buffer: adding a relative offset to the
/// cursor does not leave the range of `isize`.
pub open spec fn loc_fits(cb: CursorBuffer, loc: Location) -> bool {
    loc matches Location::Rel(d) ==> buffer_cursor(cb) + d <= isize::MAX
}

/// `text` with `s` inserted before index `at`.
pub open spec fn splice_in(text: Seq<char>, at: nat, s: Seq<char>) -> Seq<char> {
    text.subrange(0, at as int) + s + text.subrange(at as int, text.len() as int)
}

/// `text` without the characters from index `from` up to `to`.
pub open spec fn cut_out(text: Seq<char>, from: nat, to: nat) -> Seq<char> {
    text.subrange(0, from as int) + text.subrange(to as int, text.len() as int)
}

/// The smaller of two indices.
pub open spec fn lower(a: nat, b: nat) -> nat {
    if a <= b {
        a
    } else {
        b
    }
}

/// The larger of two indices.
pub open spec fn upper(a: nat, b: nat) -> nat {
    if a <= b {
        b
    } else {
        a
    }
}

/// Calls `CursorBuffer::default`: an empty rope with the cursor at 0.
#[verifier::external_body]
pub(crate) fn buffer_new() -> (cb: CursorBuffer)
    ensures
        buffer_text(cb) == Seq::<char>::empty(),
        buffer_cursor(cb) == 0,
{
    CursorBuffer::default()
}

/// Calls `CursorBuffer::len`, the rope's `len_chars`: the number of
/// characters held.
#[verifier::external_body]
pub(crate) fn buffer_len(cb: &CursorBuffer) -> (n: usize)
    ensures
        n == buffer_text(*cb).len(),
{
    cb.len()
}

/// Calls `CursorBuffer::cursor`, which returns the cursor field.
#[verifier::external_body]
pub(crate) fn buffer_cursor_index(cb: &CursorBuffer) -> (n: usize)
    ensures
        n == buffer_cursor(*cb),
{
    cb.cursor()
}

/// Calls `CursorBuffer::char_at`: the location is resolved with bounds
/// `0..=len`, and the rope's `get_char` gives the character at that index,
/// or nothing at index `len`. An invalid location gives nothing.
#[verifier::external_body]
pub(crate) fn buffer_char_at(cb: &CursorBuffer, loc: Location) -> (c: Option<char>)
    requires
        buffer_wf(*cb),
        loc_fits(*cb, loc),
    ensures
        c == match resolve_in(*cb, loc) {
            Ok(i) => if i < buffer_text(*cb).len() {
                Some(buffer_text(*cb)[i as int])
            } else {
                None
            },
            Err(_) => None,
        },
{
    cb.char_at(loc)
}

/// Calls `CursorBuffer::move_cursor`: the cursor becomes the resolved
/// location; on an invalid location the error is returned and nothing
/// changes. The text is never touched.
#[verifier::external_body]
pub(crate) fn buffer_move_cursor(cb: &mut CursorBuffer, loc: Location) -> (r: Result<(), Error>)
    requires
        buffer_wf(*old(cb)),
        loc_fits(*old(cb), loc),
    ensures
        buffer_text(*final(cb)) == buffer_text(*old(cb)),
        match resolve_in(*old(cb), loc) {
            Ok(i) => r is Ok && buffer_cursor(*final(cb)) == i,
            Err(e) => r == Err::<(), Error>(e) && buffer_cursor(*final(cb)) == buffer_cursor(
                *old(cb),
            ),
        },
{
    cb.move_cursor(loc)
}

/// Calls `CursorBuffer::insert`: the text goes into the rope at the resolved
/// location and the cursor moves to just behind it. On an invalid location
/// the error is returned before anything changes. The source moves the cursor
/// by signed addition, so the end of the inserted text must fit in `isize`.
#[verifier::external_body]
pub(crate) fn buffer_insert(cb: &mut CursorBuffer, loc: Location, text: &str) -> (r: Result<
    (),
    Error,
>)
    requires
        buffer_wf(*old(cb)),
        loc_fits(*old(cb), loc),
        buffer_text(*old(cb)).len() + text@.len() <= isize::MAX,
    ensures
        match resolve_in(*old(cb), loc) {
            Ok(at) => {
                &&& r is Ok
                &&& buffer_text(*final(cb)) == splice_in(buffer_text(*old(cb)), at, text@)
                &&& buffer_cursor(*final(cb)) == at + text@.len()
            },
            Err(e) => {
                &&& r == Err::<(), Error>(e)
                &&& buffer_text(*final(cb)) == buffer_text(*old(cb))
                &&& buffer_cursor(*final(cb)) == buffer_cursor(*old(cb))
            },
        },
{
    cb.insert(loc, text)
}

/// Calls `CursorBuffer::delete`: both locations are resolved, the first one
/// first; the characters between the lower and the upper index leave the rope
/// and the cursor moves to the lower index. An invalid location gives its
/// error before anything changes.
#[verifier::external_body]
pub(crate) fn buffer_delete(cb: &mut CursorBuffer, start: Location, end: Location) -> (r: Result<
    (),
    Error,
>)
    requires
        buffer_wf(*old(cb)),
        loc_fits(*old(cb), start),
        loc_fits(*old(cb), end),
    ensures
        match (resolve_in(*old(cb), start), resolve_in(*old(cb), end)) {
            (Ok(a), Ok(b)) => {
                &&& r is Ok
                &&& buffer_text(*final(cb)) == cut_out(
                    buffer_text(*old(cb)),
                    lower(a, b),
                    upper(a, b),
                )
                &&& buffer_cursor(*final(cb)) == lower(a, b)
            },
            (Err(e), _) => {
                &&& r == Err::<(), Error>(e)
                &&& buffer_text(*final(cb)) == buffer_text(*old(cb))
                &&& buffer_cursor(*final(cb)) == buffer_cursor(*old(cb))
            },
            (Ok(_), Err(e)) => {
                &&& r == Err::<(), Error>(e)
                &&& buffer_text(*final(cb)) == buffer_text(*old(cb))
                &&& buffer_cursor(*final(cb)) == buffer_cursor(*old(cb))
            },
        },
{
    cb.delete(start, end)
}

/// Calls `CursorBuffer::clear`: every character leaves the rope and the
/// cursor returns to 0.
#[verifier::external_body]
pub(crate) fn buffer_clear(cb: &mut CursorBuffer)
    ensures
        buffer_text(*final(cb)) == Seq::<char>::empty(),
        buffer_cursor(*final(cb)) == 0,
{
    cb.clear()
}

/// Calls `CursorBuffer::as_str` and copies the result: the whole text.
#[verifier::external_body]
pub(crate) fn buffer_contents(cb: &CursorBuffer) -> (s: String)
    ensures
        s@ == buffer_text(*cb),
{
    cb.as_str().into_owned()
}

/// Calls `CursorBuffer::slice` with the range `..end` and copies the result:
/// the first `end` characters. The rope panics on a range past its end.
#[verifier::external_body]
pub(crate) fn buffer_prefix(cb: &CursorBuffer, end: usize) -> (s: String)
    requires
        end <= buffer_text(*cb).len(),
    ensures
        s@ == buffer_text(*cb).subrange(0, end as int),
{
    String::from(cb.slice(..end))
}

/// What a buffer holds: its characters and the index before which the cursor
/// stands.
pub struct BufView {
    pub text: Seq<char>,
    pub cursor: nat,
}

impl BufView {
    /// The empty text with the cursor at 0.
    pub open spec fn empty() -> BufView {
        BufView { text: Seq::empty(), cursor: 0 }
    }

    /// The cursor stands inside the text, and the text is short enough to be
    /// indexed by `isize`.
    pub open spec fn wf(self) -> bool {
        self.cursor <= self.text.len() <= isize::MAX
    }

    /// The index that `loc` selects, or the editor's error for a location
    /// outside the text.
    pub open spec fn index_of(self, loc: Location) -> Result<nat, LineError> {
        match resolve(self.text.len(), self.cursor, loc) {
            Ok(i) => Ok(i),
            Err(e) => Err(spec_buffer_error(e)),
        }
    }

    /// The character at `loc`, if `loc` selects a character of the text.
    pub open spec fn char_at(self, loc: Location) -> Option<char> {
        match self.index_of(loc) {
            Ok(i) => if i < self.text.len() {
                Some(self.text[i as int])
            } else {
                None
            },
            Err(_) => None,
        }
    }

    /// The cursor moved to `loc`.
    pub open spec fn move_cursor(self, loc: Location) -> Result<BufView, LineError> {
        match self.index_of(loc) {
            Ok(i) => Ok(BufView { text: self.text, cursor: i }),
            Err(e) => Err(e),
        }
    }

    /// `s` inserted at `loc`, the cursor behind it. A text that would grow
    /// past `isize::MAX` characters is refused before the location is looked
    /// at.
    pub open spec fn insert(self, loc: Location, s: Seq<char>) -> Result<BufView, LineError> {
        if self.text.len() + s.len() > isize::MAX {
            Err(LineError::BufferFull)
        } else {
            match self.index_of(loc) {
                Ok(at) => Ok(
                    BufView { text: splice_in(self.text, at, s), cursor: at + s.len() },
                ),
                Err(e) => Err(e),
            }
        }
    }

    /// The characters between two locations removed, the cursor at the lower
    /// of the two. The first location is resolved first.
    pub open spec fn delete(self, start: Location, end: Location) -> Result<BufView, LineError> {
        match self.index_of(start) {
            Ok(a) => match self.index_of(end) {
                Ok(b) => Ok(
                    BufView {
                        text: cut_out(self.text, lower(a, b), upper(a, b)),
                        cursor: lower(a, b),
                    },
                ),
                Err(e) => Err(e),
            },
            Err(e) => Err(e),
        }
    }
}

/// A text buffer with a cursor.
pub struct Buffer {
    cb: CursorBuffer,
}

impl View for Buffer {
    type V = BufView;

    closed spec fn view(&self) -> BufView {
        BufView { text: buffer_text(self.cb), cursor: buffer_cursor(self.cb) }
    }
}

impl Buffer {
    /// An empty buffer.
    pub fn new() -> (b: Buffer)
        ensures
            b@ == BufView::empty(),
            b@.wf(),
    {
        Buffer { cb: buffer_new() }
    }

    /// The number of characters held.
    pub fn len(&self) -> (n: usize)
        ensures
            n == self@.text.len(),
    {
        buffer_len(&self.cb)
    }

    /// The cursor's index.
    pub fn cursor(&self) -> (n: usize)
        ensures
            n == self@.cursor,
    {
        buffer_cursor_index(&self.cb)
    }

    /// True when `loc` can be handed to the underlying buffer without
    /// overflow; a location that cannot lies past the end of the text.
    fn fits(&self, loc: Location) -> (ok: bool)
        requires
            self@.wf(),
        ensures
            ok == loc_fits(self.cb, loc),
            !ok ==> (loc matches Location::Rel(d) && self@.index_of(loc) == Err::<
                nat,
                LineError,
            >(LineError::InvalidRelativeLocation(d))),
    {
        match loc {
            Location::Abs(_) => true,
            Location::Rel(d) => {
                let c = buffer_cursor_index(&self.cb);
                d <= 0 || c <= (isize::MAX - d) as usize
            },
        }
    }

    /// The index that a location selects, computed without touching the
    /// buffer.
    pub fn locate(&self, loc: Location) -> (r: Result<usize, LineError>)
        requires
            self@.wf(),
        ensures
            match self@.index_of(loc) {
                Ok(i) => r == Ok::<usize, LineError>(i as usize),
                Err(e) => r == Err::<usize, LineError>(e),
            },
    {
        let len = buffer_len(&self.cb);
        let c = buffer_cursor_index(&self.cb);
        match loc {
            Location::Abs(i) => {
                if i <= len {
                    Ok(i)
                } else {
                    Err(LineError::InvalidAbsoluteLocation(i))
                }
            },
            Location::Rel(d) => {
                if d >= 0 {
                    if d as usize <= len - c {
                        Ok(c + d as usize)
                    } else {
                        Err(LineError::InvalidRelativeLocation(d))
                    }
                } else {
                    let back = (-(d + 1)) as usize;
                    if back < c {
                        Ok(c - back - 1)
                    } else {
                        Err(LineError::InvalidRelativeLocation(d))
                    }
                }
            },
        }
    }

    /// The character at a location, if there is one.
    pub fn char_at(&self, loc: Location) -> (c: Option<char>)
        requires
            self@.wf(),
        ensures
            c == self@.char_at(loc),
    {
        if self.fits(loc) {
            buffer_char_at(&self.cb, loc)
        } else {
            None
        }
    }

    /// Moves the cursor to a location inside the text.
    pub fn move_cursor(&mut self, loc: Location) -> (r: Result<(), LineError>)
        requires
            old(self)@.wf(),
        ensures
            final(self)@.wf(),
            match old(self)@.move_cursor(loc) {
                Ok(v) => r == Ok::<(), LineError>(()) && final(self)@ == v,
                Err(e) => r == Err::<(), LineError>(e) && final(self)@ == old(self)@,
            },
    {
        if !self.fits(loc) {
            match loc {
                Location::Rel(d) => Err(LineError::InvalidRelativeLocation(d)),
                Location::Abs(i) => Err(LineError::InvalidAbsoluteLocation(i)),
            }
        } else {
            match buffer_move_cursor(&mut self.cb, loc) {
                Ok(()) => Ok(()),
                Err(e) => Err(LineError::from_buffer(e)),
            }
        }
    }

    /// Inserts text at a location and leaves the cursor behind it.
    pub fn insert(&mut self, loc: Location, text: &str) -> (r: Result<(), LineError>)
        requires
            old(self)@.wf(),
        ensures
            final(self)@.wf(),
            match old(self)@.insert(loc, text@) {
                Ok(v) => r == Ok::<(), LineError>(()) && final(self)@ == v,
                Err(e) => r == Err::<(), LineError>(e) && final(self)@ == old(self)@,
            },
    {
        let n = text.unicode_len();
        let len = buffer_len(&self.cb);
        if n > (isize::MAX as usize) - len {
            Err(LineError::BufferFull)
        } else if !self.fits(loc) {
            match loc {
                Location::Rel(d) => Err(LineError::InvalidRelativeLocation(d)),
                Location::Abs(i) => Err(LineError::InvalidAbsoluteLocation(i)),
            }
        } else {
            match buffer_insert(&mut self.cb, loc, text) {
                Ok(()) => Ok(()),
                Err(e) => Err(LineError::from_buffer(e)),
            }
        }
    }

    /// Deletes the characters between two locations and leaves the cursor at
    /// the lower one.
    pub fn delete(&mut self, start: Location, end: Location) -> (r: Result<(), LineError>)
        requires
            old(self)@.wf(),
        ensures
            final(self)@.wf(),
            match old(self)@.delete(start, end) {
                Ok(v) => r == Ok::<(), LineError>(()) && final(self)@ == v,
                Err(e) => r == Err::<(), LineError>(e) && final(self)@ == old(self)@,
            },
    {
        if !self.fits(start) {
            match start {
                Location::Rel(d) => Err(LineError::InvalidRelativeLocation(d)),
                Location::Abs(i) => Err(LineError::InvalidAbsoluteLocation(i)),
            }
        } else if !self.fits(end) {
            match self.locate(start) {
                Ok(_) => match end {
                    Location::Rel(d) => Err(LineError::InvalidRelativeLocation(d)),
                    Location::Abs(i) => Err(LineError::InvalidAbsoluteLocation(i)),
                },
                Err(e) => Err(e),
            }
        } else {
            match buffer_delete(&mut self.cb, start, end) {
                Ok(()) => Ok(()),
                Err(e) => Err(LineError::from_buffer(e)),
            }
        }
    }

    /// Removes every character and moves the cursor to 0.
    pub fn clear(&mut self)
        ensures
            final(self)@ == BufView::empty(),
            final(self)@.wf(),
    {
        buffer_clear(&mut self.cb);
    }

    /// The whole text.
    pub fn contents(&self) -> (s: String)
        ensures
            s@ == self@.text,
    {
        buffer_contents(&self.cb)
    }

    /// The first `end` characters of the text.
    pub fn prefix(&self, end: usize) -> (s: String)
        requires
            end <= self@.text.len(),
        ensures
            s@ == self@.text.subrange(0, end as int),
    {
        buffer_prefix(&self.cb, end)
    }
}

} // verus!
