//! Modal commands: reading the keys typed in normal mode as a command, and
//! carrying a command out on the buffer.

use crate::buffer::{BufView, Buffer};
use crate::error::LineError;
use crate::line::LineMode;
use shrs_utils::Location;
use shrs_vi::{Action, Command, Motion};
use vstd::prelude::*;

verus! {

/// `shrs_vi::Motion`, with the variants that its source declares.
#[verifier::external_type_specification]
pub struct ExMotion(shrs_vi::Motion);

/// `shrs_vi::Action`, with the variants that its source declares.
#[verifier::external_type_specification]
pub struct ExAction(shrs_vi::Action);

/// `shrs_vi::Command`, with the two fields that its source declares: a
/// repeat count and an action.
#[verifier::external_type_specification]
pub struct ExCommand(shrs_vi::Command);

/// The command that the modal grammar reads in a key sequence, or nothing
/// where the sequence is no command or not yet a whole one.
pub uninterp spec fn parsed(keys: Seq<char>) -> Option<Command>;

/// An ASCII digit.
pub open spec fn is_digit(c: char) -> bool {
    '0' <= c && c <= '9'
}

/// The value of an ASCII digit.
pub open spec fn digit_value(c: char) -> nat {
    (c as u32 - '0' as u32) as nat
}

/// True when `s`, read behind a run of digits whose value is `acc`, holds a
/// run of digits whose value is above `u32::MAX`.
pub open spec fn count_overflows(s: Seq<char>, acc: nat) -> bool
    decreases s.len(),
{
    if s.len() == 0 {
        false
    } else if is_digit(s[0]) {
        let v = acc * 10 + digit_value(s[0]);
        v > u32::MAX || count_overflows(s.drop_first(), v)
    } else {
        count_overflows(s.drop_first(), 0)
    }
}

/// Every number written in the key sequence fits a repeat count.
pub open spec fn counts_fit(keys: Seq<char>) -> bool {
    !count_overflows(keys, 0)
}

/// The command that a key sequence stands for: none while a number in it is
/// too large for a repeat count, else what the grammar reads.
pub open spec fn spec_parse_keys(keys: Seq<char>) -> Option<Command> {
    if counts_fit(keys) {
        parsed(keys)
    } else {
        None
    }
}

/// Calls `Parser::parse` of `shrs_vi` on a fresh parser and drops the error
/// of an unsuccessful parse. The grammar turns a run of digits into a `u32`
/// and panics when it does not fit, so such input is left out.
#[verifier::external_body]
pub(crate) fn parse_command(keys: &str) -> (r: Option<Command>)
    requires
        counts_fit(keys@),
    ensures
        r == parsed(keys@),
{
    shrs_vi::Parser::default().parse(keys).ok()
}

/// Tells whether every number written in the keys fits a repeat count.
pub fn check_counts(keys: &str) -> (ok: bool)
    ensures
        ok == counts_fit(keys@),
{
    let n = keys.unicode_len();
    let mut i: usize = 0;
    let mut acc: u64 = 0;
    assert(keys@.skip(0) =~= keys@);
    while i < n
        invariant
            i <= n,
            n == keys@.len(),
            acc <= u32::MAX,
            count_overflows(keys@, 0) == count_overflows(keys@.skip(i as int), acc as nat),
        decreases n - i,
    {
        let c = keys.get_char(i);
        assert(keys@.skip(i as int)[0] == c);
        assert(keys@.skip(i as int).drop_first() =~= keys@.skip(i + 1));
        if '0' <= c && c <= '9' {
            let d: u64 = (c as u32 - '0' as u32) as u64;
            let v: u64 = acc * 10 + d;
            if v > u32::MAX as u64 {
                return false;
            }
            acc = v;
        } else {
            acc = 0;
        }
        i = i + 1;
    }
    true
}

/// Reads the keys typed so far as a command.
pub fn parse_keys(keys: &str) -> (r: Option<Command>)
    ensures
        r == spec_parse_keys(keys@),
{
    if check_counts(keys) {
        parse_command(keys)
    } else {
        None
    }
}

/// Blank characters: they separate words.
pub open spec fn is_blank(c: char) -> bool {
    c == ' ' || c == '\t' || c == '\n' || c == '\r'
}

/// Characters that make up a word in the narrow sense: ASCII letters and
/// digits, the underscore, and everything outside ASCII.
pub open spec fn is_word_char(c: char) -> bool {
    ||| ('a' <= c && c <= 'z')
    ||| ('A' <= c && c <= 'Z')
    ||| ('0' <= c && c <= '9')
    ||| c == '_'
    ||| c as u32 >= 128
}

/// The class of a character: 0 for a blank, 1 for a word character and 2 for
/// punctuation. With `fine` off, every character that is not blank is a word
/// character.
pub open spec fn spec_class_of(c: char, fine: bool) -> u8 {
    if is_blank(c) {
        0
    } else if !fine || is_word_char(c) {
        1
    } else {
        2
    }
}

/// The class of a character.
pub fn class_of(c: char, fine: bool) -> (k: u8)
    ensures
        k == spec_class_of(c, fine),
{
    if c == ' ' || c == '\t' || c == '\n' || c == '\r' {
        0
    } else if !fine {
        1
    } else if ('a' <= c && c <= 'z') || ('A' <= c && c <= 'Z') || ('0' <= c && c <= '9') || c
        == '_' || c as u32 >= 128 {
        1
    } else {
        2
    }
}

/// The end of the run of characters of class `class` that starts at `i`: the
/// first index from `i` on that holds another class, or the length.
pub open spec fn run_end(text: Seq<char>, i: nat, class: u8, fine: bool) -> nat
    decreases text.len() - i,
{
    if i < text.len() && spec_class_of(text[i as int], fine) == class {
        run_end(text, i + 1, class, fine)
    } else {
        i
    }
}

/// The start of the run of characters of class `class` that ends before
/// `i`: the lowest index from which every character up to `i` has that class.
pub open spec fn run_start(text: Seq<char>, i: nat, class: u8, fine: bool) -> nat
    decreases i,
{
    if 0 < i <= text.len() && spec_class_of(text[i - 1], fine) == class {
        run_start(text, (i - 1) as nat, class, fine)
    } else {
        i
    }
}

/// Where a forward word motion lands: behind the rest of the word under the
/// cursor and the blanks that follow it.
pub open spec fn word_forward(text: Seq<char>, cursor: nat, fine: bool) -> nat {
    let i = if cursor < text.len() && spec_class_of(text[cursor as int], fine) != 0 {
        run_end(text, cursor, spec_class_of(text[cursor as int], fine), fine)
    } else {
        cursor
    };
    run_end(text, i, 0, fine)
}

/// Where a backward word motion lands: at the start of the word that ends
/// before the cursor, blanks skipped.
pub open spec fn word_backward(text: Seq<char>, cursor: nat, fine: bool) -> nat {
    let j = run_start(text, cursor, 0, fine);
    if 0 < j <= text.len() {
        run_start(text, j, spec_class_of(text[j - 1], fine), fine)
    } else {
        j
    }
}

/// The first index from `i` on that holds `c`, or the length when none does.
pub open spec fn find_from(text: Seq<char>, i: nat, c: char) -> nat
    decreases text.len() - i,
{
    if i < text.len() && text[i as int] != c {
        find_from(text, i + 1, c)
    } else {
        i
    }
}

/// The location that a motion selects in a buffer.
///
/// Left and right are one character from the cursor; start and end are the
/// ends of the text; the word motions go to the start of the next or of the
/// previous word, `WordPunc` and `BackWord` with punctuation as words of its
/// own; `Find` goes to the next occurrence of the character behind the
/// cursor's own, and stays where there is none. The other motions stay at the cursor.
pub open spec fn spec_motion_to_loc(buf: BufView, motion: Motion) -> Location {
    match motion {
        Motion::Left => Location::Rel(-1isize),
        Motion::Right => Location::Rel(1),
        Motion::Start => Location::Abs(0),
        Motion::End => Location::Abs(buf.text.len() as usize),
        Motion::Word => Location::Abs(word_forward(buf.text, buf.cursor, false) as usize),
        Motion::WordPunc => Location::Abs(word_forward(buf.text, buf.cursor, true) as usize),
        Motion::BackWord => Location::Abs(word_backward(buf.text, buf.cursor, true) as usize),
        Motion::Find(c) => {
            let i = find_from(buf.text, buf.cursor + 1, c);
            if i < buf.text.len() {
                Location::Abs(i as usize)
            } else {
                Location::Rel(0)
            }
        },
        Motion::None => Location::Rel(0),
        Motion::Up => Location::Rel(0),
        Motion::Down => Location::Rel(0),
        Motion::All => Location::Rel(0),
    }
}

/// A run never ends before it starts, nor behind the text.
pub proof fn lemma_run_end_bounds(text: Seq<char>, i: nat, class: u8, fine: bool)
    requires
        i <= text.len(),
    ensures
        i <= run_end(text, i, class, fine) <= text.len(),
    decreases text.len() - i,
{
    if i < text.len() && spec_class_of(text[i as int], fine) == class {
        lemma_run_end_bounds(text, i + 1, class, fine);
    }
}

/// A run never starts behind its end.
pub proof fn lemma_run_start_bounds(text: Seq<char>, i: nat, class: u8, fine: bool)
    ensures
        run_start(text, i, class, fine) <= i,
    decreases i,
{
    if 0 < i <= text.len() && spec_class_of(text[i - 1], fine) == class {
        lemma_run_start_bounds(text, (i - 1) as nat, class, fine);
    }
}

/// The end of the run of class `class` that starts at `i`.
fn scan_forward(buf: &Buffer, i: usize, class: u8, fine: bool) -> (j: usize)
    requires
        buf@.wf(),
        i <= buf@.text.len(),
    ensures
        j == run_end(buf@.text, i as nat, class, fine),
        i <= j <= buf@.text.len(),
{
    let len = buf.len();
    let mut j = i;
    while j < len
        invariant
            buf@.wf(),
            len == buf@.text.len(),
            i <= j <= len,
            run_end(buf@.text, i as nat, class, fine) == run_end(buf@.text, j as nat, class, fine),
        decreases len - j,
    {
        match buf.char_at(Location::Abs(j)) {
            Some(c) => {
                if class_of(c, fine) != class {
                    return j;
                }
            },
            None => {
                return j;
            },
        }
        j = j + 1;
    }
    j
}

/// The start of the run of class `class` that ends before `i`.
fn scan_backward(buf: &Buffer, i: usize, class: u8, fine: bool) -> (j: usize)
    requires
        buf@.wf(),
        i <= buf@.text.len(),
    ensures
        j == run_start(buf@.text, i as nat, class, fine),
        j <= i,
{
    let mut j = i;
    while j > 0
        invariant
            buf@.wf(),
            j <= i <= buf@.text.len(),
            run_start(buf@.text, i as nat, class, fine) == run_start(
                buf@.text,
                j as nat,
                class,
                fine,
            ),
        decreases j,
    {
        match buf.char_at(Location::Abs(j - 1)) {
            Some(c) => {
                if class_of(c, fine) != class {
                    return j;
                }
            },
            None => {
                return j;
            },
        }
        j = j - 1;
    }
    j
}

/// The index where a forward word motion lands.
fn forward_word(buf: &Buffer, fine: bool) -> (j: usize)
    requires
        buf@.wf(),
    ensures
        j == word_forward(buf@.text, buf@.cursor, fine),
        j <= buf@.text.len(),
{
    let cursor = buf.cursor();
    let i = match buf.char_at(Location::Abs(cursor)) {
        Some(c) => {
            let k = class_of(c, fine);
            if k != 0 {
                scan_forward(buf, cursor, k, fine)
            } else {
                cursor
            }
        },
        None => cursor,
    };
    scan_forward(buf, i, 0, fine)
}

/// The index where a backward word motion lands.
fn backward_word(buf: &Buffer, fine: bool) -> (j: usize)
    requires
        buf@.wf(),
    ensures
        j == word_backward(buf@.text, buf@.cursor, fine),
        j <= buf@.cursor,
{
    let cursor = buf.cursor();
    let j = scan_backward(buf, cursor, 0, fine);
    if j > 0 {
        match buf.char_at(Location::Abs(j - 1)) {
            Some(c) => scan_backward(buf, j, class_of(c, fine), fine),
            None => j,
        }
    } else {
        j
    }
}

/// The first index from `i` on that holds `c`, or the length.
fn find_char(buf: &Buffer, i: usize, c: char) -> (j: usize)
    requires
        buf@.wf(),
        i <= buf@.text.len(),
    ensures
        j == find_from(buf@.text, i as nat, c),
        i <= j <= buf@.text.len(),
{
    let len = buf.len();
    let mut j = i;
    while j < len
        invariant
            buf@.wf(),
            len == buf@.text.len(),
            i <= j <= len,
            find_from(buf@.text, i as nat, c) == find_from(buf@.text, j as nat, c),
        decreases len - j,
    {
        match buf.char_at(Location::Abs(j)) {
            Some(d) => {
                if d == c {
                    return j;
                }
            },
            None => {
                return j;
            },
        }
        j = j + 1;
    }
    j
}

/// The location that a motion selects in the buffer.
pub fn motion_to_loc(buf: &Buffer, motion: Motion) -> (loc: Location)
    requires
        buf@.wf(),
    ensures
        loc == spec_motion_to_loc(buf@, motion),
{
    match motion {
        Motion::Left => Location::Rel(-1),
        Motion::Right => Location::Rel(1),
        Motion::Start => Location::Abs(0),
        Motion::End => Location::Abs(buf.len()),
        Motion::Word => Location::Abs(forward_word(buf, false)),
        Motion::WordPunc => Location::Abs(forward_word(buf, true)),
        Motion::BackWord => Location::Abs(backward_word(buf, true)),
        Motion::Find(c) => {
            let cursor = buf.cursor();
            let len = buf.len();
            if cursor >= len {
                Location::Rel(0)
            } else {
                let i = find_char(buf, cursor + 1, c);
                if i < len {
                    Location::Abs(i)
                } else {
                    Location::Rel(0)
                }
            }
        },
        Motion::None => Location::Rel(0),
        Motion::Up => Location::Rel(0),
        Motion::Down => Location::Rel(0),
        Motion::All => Location::Rel(0),
    }
}

/// What carrying out an action does to a buffer: the buffer afterwards, and
/// the mode that the editor is asked to take or the error that stopped the
/// action.
///
/// `Insert` asks for insert mode. A move takes the cursor to the motion's
/// location. A deletion removes what lies between the cursor and the
/// motion's location, or everything for `All`. A chain carries out its first
/// action and, if that went well, its second. Undo and redo, which the editor
/// itself carries out, and the actions that need a clipboard, a case mapping
/// or an outside editor leave the buffer as it is.
pub open spec fn spec_execute_vi(buf: BufView, action: Action) -> (
    BufView,
    Result<LineMode, LineError>,
)
    decreases action,
{
    match action {
        Action::Insert => (buf, Ok(LineMode::Insert)),
        Action::Move(m) => match buf.move_cursor(spec_motion_to_loc(buf, m)) {
            Ok(b) => (b, Ok(LineMode::Normal)),
            Err(e) => (buf, Err(e)),
        },
        Action::Delete(m) => if m == Motion::All {
            (BufView::empty(), Ok(LineMode::Normal))
        } else {
            match buf.delete(Location::Rel(0), spec_motion_to_loc(buf, m)) {
                Ok(b) => (b, Ok(LineMode::Normal)),
                Err(e) => (buf, Err(e)),
            }
        },
        Action::Chain(first, second) => {
            let (b1, r1) = spec_execute_vi(buf, *first);
            match r1 {
                Ok(_) => spec_execute_vi(b1, *second),
                Err(e) => (b1, Err(e)),
            }
        },
        _ => (buf, Ok(LineMode::Normal)),
    }
}

/// An action leaves a well-formed buffer well-formed.
pub proof fn lemma_execute_vi_wf(buf: BufView, action: Action)
    requires
        buf.wf(),
    ensures
        spec_execute_vi(buf, action).0.wf(),
    decreases action,
{
    match action {
        Action::Chain(first, second) => {
            lemma_execute_vi_wf(buf, *first);
            lemma_execute_vi_wf(spec_execute_vi(buf, *first).0, *second);
        },
        _ => {},
    }
}

/// Carries out an action on the buffer and tells which mode it asks for.
pub fn execute_vi(buf: &mut Buffer, action: &Action) -> (r: Result<LineMode, LineError>)
    requires
        old(buf)@.wf(),
    ensures
        final(buf)@.wf(),
        (final(buf)@, r) == spec_execute_vi(old(buf)@, *action),
    decreases action,
{
    match action {
        Action::Insert => Ok(LineMode::Insert),
        Action::Move(m) => {
            let loc = motion_to_loc(buf, *m);
            match buf.move_cursor(loc) {
                Ok(()) => Ok(LineMode::Normal),
                Err(e) => Err(e),
            }
        },
        Action::Delete(m) => {
            match m {
                Motion::All => {
                    buf.clear();
                    Ok(LineMode::Normal)
                },
                _ => {
                    let loc = motion_to_loc(buf, *m);
                    match buf.delete(Location::Rel(0), loc) {
                        Ok(()) => Ok(LineMode::Normal),
                        Err(e) => Err(e),
                    }
                },
            }
        },
        Action::Chain(first, second) => {
            match execute_vi(buf, first) {
                Ok(_) => execute_vi(buf, second),
                Err(e) => Err(e),
            }
        },
        _ => Ok(LineMode::Normal),
    }
}

} // verus!
