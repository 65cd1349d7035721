//! Laws of the editor, proved of the transition functions that the handlers
//! follow.

use crate::buffer::{cut_out, splice_in, BufView};
use crate::buffer_history::{lemma_add_in_sync, lemma_undo_then_redo, UndoView};
use crate::error::LineError;
use crate::event::{Event, KeyCode, KeyEvent, MOD_NONE};
use crate::history::HistoryInd;
use crate::completion::CompletionView;
use crate::keybinding::Keybinding;
use crate::line::{Flow, LineMode};
use crate::menu::Menu;
use crate::model::{split_words, CtxView, Session};
use crate::multiline::spec_needs_multiline;
use crate::vi::{
    lemma_execute_vi_wf, lemma_run_start_bounds, run_start, spec_class_of, spec_execute_vi,
    spec_parse_keys, word_backward,
};
use shrs_utils::Location;
use shrs_vi::Action;
use vstd::prelude::*;

verus! {

/// A key that types in insert mode: a character key that is neither
/// control-h nor control-w, or a key that deletes the character before the
/// cursor.
pub open spec fn is_typing_key(k: KeyEvent) -> bool {
    ||| (k.code is Char && !k.is_ctrl('h') && !k.is_ctrl('w'))
    ||| is_erasing_key(k)
}

/// Backspace, or control-h.
pub open spec fn is_erasing_key(k: KeyEvent) -> bool {
    k.is_plain(KeyCode::Backspace) || k.is_ctrl('h')
}

/// The text that a sequence of typing keys leaves behind `text`, by plain
/// splicing: a character key appends its character, an erasing key drops the
/// last character if there is one.
pub open spec fn typed_onto(text: Seq<char>, keys: Seq<KeyEvent>) -> Seq<char>
    decreases keys.len(),
{
    if keys.len() == 0 {
        text
    } else {
        let before = typed_onto(text, keys.drop_last());
        if is_erasing_key(keys.last()) {
            if before.len() > 0 {
                before.drop_last()
            } else {
                before
            }
        } else {
            match keys.last().code {
                KeyCode::Char(c) => before.push(c),
                _ => before,
            }
        }
    }
}

/// The session after a sequence of keys in insert mode, up to the first
/// error.
pub open spec fn insert_keys(s: Session, keys: Seq<KeyEvent>) -> (Session, Result<(), LineError>)
    decreases keys.len(),
{
    if keys.len() == 0 {
        (s, Ok(()))
    } else {
        let (s1, r1) = insert_keys(s, keys.drop_last());
        if r1 is Err {
            (s1, r1)
        } else {
            s1.insert_key(Event::Key(keys.last()))
        }
    }
}

/// Typed text is at most as much longer as keys were pressed.
pub proof fn lemma_typed_len(text: Seq<char>, keys: Seq<KeyEvent>)
    ensures
        typed_onto(text, keys).len() <= text.len() + keys.len(),
    decreases keys.len(),
{
    if keys.len() > 0 {
        lemma_typed_len(text, keys.drop_last());
    }
}

/// Typing in insert mode splices: with the cursor at the end of the buffer,
/// any sequence of typing keys succeeds, leaves in the buffer exactly the
/// characters typed in order less those erased, keeps the cursor at the end
/// and touches nothing else of the session.
pub proof fn lemma_typing_splices(s: Session, keys: Seq<KeyEvent>)
    requires
        s.ctx.buf.cursor == s.ctx.buf.text.len(),
        s.ctx.buf.text.len() + keys.len() <= isize::MAX,
        forall|i: int| 0 <= i < keys.len() ==> is_typing_key(#[trigger] keys[i]),
    ensures
        insert_keys(s, keys) == (
            s.with_buf(
                BufView {
                    text: typed_onto(s.ctx.buf.text, keys),
                    cursor: typed_onto(s.ctx.buf.text, keys).len(),
                },
            ),
            Ok::<(), LineError>(()),
        ),
    decreases keys.len(),
{
    if keys.len() == 0 {
        assert(s.with_buf(s.ctx.buf) == s);
    } else {
        let head = keys.drop_last();
        let k = keys.last();
        assert(is_typing_key(keys[keys.len() - 1]));
        assert forall|i: int| 0 <= i < head.len() implies is_typing_key(#[trigger] head[i]) by {
            assert(head[i] == keys[i]);
        }
        lemma_typing_splices(s, head);
        lemma_typed_len(s.ctx.buf.text, head);
        let text = typed_onto(s.ctx.buf.text, head);
        let s1 = s.with_buf(BufView { text, cursor: text.len() });
        let buf = s1.ctx.buf;
        if is_erasing_key(k) {
            if text.len() > 0 {
                assert(cut_out(text, (text.len() - 1) as nat, text.len()) =~= text.drop_last());
                assert(buf.delete(Location::Rel(-1isize), Location::Rel(0)) == Ok::<
                    BufView,
                    LineError,
                >(BufView { text: text.drop_last(), cursor: (text.len() - 1) as nat }));
            }
        } else {
            let c = k.code->Char_0;
            assert(splice_in(text, text.len(), seq![c]) =~= text.push(c));
            assert(buf.insert(Location::Rel(0), seq![c]) == Ok::<BufView, LineError>(
                BufView { text: text.push(c), cursor: text.len() + 1 },
            ));
        }
    }
}

/// The key of a character with no modifier held.
pub open spec fn plain_char_key(c: char) -> KeyEvent {
    KeyEvent { code: KeyCode::Char(c), modifiers: MOD_NONE }
}

/// The plain character keys that type `chars`.
pub open spec fn char_keys(chars: Seq<char>) -> Seq<KeyEvent> {
    Seq::new(chars.len(), |i: int| plain_char_key(chars[i]))
}

/// Typed into an empty buffer, the characters of plain character keys are
/// the buffer text, in the order of the keys.
pub proof fn lemma_typing_concatenates(s: Session, chars: Seq<char>)
    requires
        s.ctx.buf == BufView::empty(),
        chars.len() <= isize::MAX,
    ensures
        insert_keys(s, char_keys(chars)) == (
            s.with_buf(BufView { text: chars, cursor: chars.len() }),
            Ok::<(), LineError>(()),
        ),
{
    lemma_typing_splices(s, char_keys(chars));
    lemma_chars_typed(chars);
}

/// The splice model of plain character keys is concatenation.
proof fn lemma_chars_typed(chars: Seq<char>)
    ensures
        typed_onto(Seq::empty(), char_keys(chars)) == chars,
    decreases chars.len(),
{
    if chars.len() > 0 {
        let head = chars.drop_last();
        lemma_chars_typed(head);
        assert(char_keys(chars).drop_last() =~= char_keys(head));
        assert(head.push(chars.last()) =~= chars);
    } else {
        assert(chars =~= Seq::empty());
    }
}

/// A character key that types inserts its character at the cursor: for a
/// buffer that holds `text` with the cursor at `k`, the text becomes
/// `text[..k] + c + text[k..]` and the cursor `k + 1`, and nothing else of
/// the session changes: not the mode, the confirmed lines, the history
/// position, the saved line, the snapshots or the history.
pub proof fn lemma_char_key_inserts_at_cursor(s: Session, k: KeyEvent)
    requires
        s.ctx.buf.cursor <= s.ctx.buf.text.len(),
        s.ctx.buf.text.len() < isize::MAX,
        k.code is Char,
        !k.is_ctrl('h'),
        !k.is_ctrl('w'),
    ensures
        s.insert_key(Event::Key(k)) == (
            s.with_buf(
                BufView {
                    text: s.ctx.buf.text.subrange(0, s.ctx.buf.cursor as int) + seq![
                        k.code->Char_0,
                    ] + s.ctx.buf.text.subrange(
                        s.ctx.buf.cursor as int,
                        s.ctx.buf.text.len() as int,
                    ),
                    cursor: s.ctx.buf.cursor + 1,
                },
            ),
            Ok::<(), LineError>(()),
        ),
{
}

/// A key that types with no modifier held: a character key or backspace.
pub open spec fn is_plain_typing_key(k: KeyEvent) -> bool {
    k.modifiers == MOD_NONE && (k.code is Char || k.code == KeyCode::Backspace)
}

/// A whole read splices: in insert mode with the menu hidden and the cursor
/// at the end of the buffer, a run over character keys and backspaces that
/// no key binding claims leaves in the buffer the characters typed in order
/// less those erased, with the cursor behind them, goes on reading and
/// changes nothing else, whatever the completer would answer.
pub proof fn lemma_run_splices<M: Menu, K: Keybinding>(
    s: Session,
    bindings: K,
    keys: Seq<KeyEvent>,
    answers: Seq<Seq<CompletionView>>,
)
    requires
        s.ctx.mode == LineMode::Insert,
        !s.menu.active,
        s.ctx.buf.cursor == s.ctx.buf.text.len(),
        s.ctx.buf.text.len() + keys.len() <= isize::MAX,
        answers.len() == keys.len(),
        forall|i: int|
            0 <= i < keys.len() ==> is_plain_typing_key(#[trigger] keys[i]) && !bindings.claims(
                keys[i],
            ),
    ensures
        s.run::<M, K>(bindings, key_events(keys), answers) == (
            s.with_buf(
                BufView {
                    text: typed_onto(s.ctx.buf.text, keys),
                    cursor: typed_onto(s.ctx.buf.text, keys).len(),
                },
            ),
            Ok::<Flow, LineError>(Flow::Continue),
        ),
    decreases keys.len(),
{
    let events = key_events(keys);
    if keys.len() == 0 {
        assert(s.with_buf(s.ctx.buf) == s);
    } else {
        let head = keys.drop_last();
        let k = keys.last();
        assert(is_plain_typing_key(keys[keys.len() - 1]) && !bindings.claims(k));
        assert forall|i: int| 0 <= i < head.len() implies is_plain_typing_key(
            #[trigger] head[i],
        ) && !bindings.claims(head[i]) by {
            assert(head[i] == keys[i]);
        }
        lemma_run_splices::<M, K>(s, bindings, head, answers.drop_last());
        lemma_typed_len(s.ctx.buf.text, head);
        assert(events.drop_last() =~= key_events(head));
        assert(events.last() == Event::Key(k));
        let text = typed_onto(s.ctx.buf.text, head);
        let s1 = s.with_buf(BufView { text, cursor: text.len() });
        let buf = s1.ctx.buf;
        assert(s1.standard_key(events.last()) == (s1, Flow::Continue, false));
        assert(!s1.keeps_key(events.last()));
        assert(s1.dispatch::<M>(events.last(), answers.last()) == s1.insert_key(events.last()));
        if is_erasing_key(k) {
            if text.len() > 0 {
                assert(cut_out(text, (text.len() - 1) as nat, text.len()) =~= text.drop_last());
                assert(buf.delete(Location::Rel(-1isize), Location::Rel(0)) == Ok::<
                    BufView,
                    LineError,
                >(BufView { text: text.drop_last(), cursor: (text.len() - 1) as nat }));
            }
        } else {
            let c = k.code->Char_0;
            assert(splice_in(text, text.len(), seq![c]) =~= text.push(c));
            assert(buf.insert(Location::Rel(0), seq![c]) == Ok::<BufView, LineError>(
                BufView { text: text.push(c), cursor: text.len() + 1 },
            ));
        }
    }
}

/// Enter or control-j on an open statement keeps the line and ends the
/// event there: with the menu hidden, the buffer text and a newline join the
/// confirmed lines, the buffer is empty, the snapshots are dropped, the
/// terminal starts a new line and reading goes on. The key reaches no other
/// handler, in whatever mode.
pub proof fn lemma_open_statement_keeps_line<M: Menu, K: Keybinding>(
    s: Session,
    bindings: K,
    ev: Event,
    cands: Seq<CompletionView>,
)
    requires
        Session::is_enter(ev),
        !(ev matches Event::Key(k) && bindings.claims(k)),
        !s.menu.active,
        spec_needs_multiline(s.ctx.lines, s.ctx.buf.text),
    ensures
        s.step::<M, K>(bindings, ev, cands) == (
            s.with_undo(UndoView::empty()).continue_line(),
            Ok::<(Flow, bool), LineError>((Flow::Continue, true)),
        ),
        s.step::<M, K>(bindings, ev, cands).0.ctx.buf == BufView::empty(),
        s.step::<M, K>(bindings, ev, cands).0.ctx.lines == s.ctx.lines + s.ctx.buf.text
            + seq!['\n'],
{
}

/// Control-j while the menu is shown does nothing at all: the menu stays
/// shown, nothing is typed, and reading goes on.
pub proof fn lemma_control_j_swallowed<M: Menu, K: Keybinding>(
    s: Session,
    bindings: K,
    k: KeyEvent,
    cands: Seq<CompletionView>,
)
    requires
        k.is_ctrl('j'),
        !bindings.claims(k),
        s.menu.active,
    ensures
        s.step::<M, K>(bindings, Event::Key(k), cands) == (
            s,
            Ok::<(Flow, bool), LineError>((Flow::Continue, false)),
        ),
{
}

/// Plain enter while the menu is shown goes to the menu, which accepts the
/// highlighted candidate.
pub proof fn lemma_enter_accepts_in_menu<M: Menu, K: Keybinding>(
    s: Session,
    bindings: K,
    k: KeyEvent,
    cands: Seq<CompletionView>,
)
    requires
        k.is_plain(KeyCode::Enter),
        !bindings.claims(k),
        s.menu.active,
    ensures
        s.step::<M, K>(bindings, Event::Key(k), cands).0 == s.accept_completion().0,
{
}

/// The events of a sequence of keys.
pub open spec fn key_events(keys: Seq<KeyEvent>) -> Seq<Event> {
    Seq::new(keys.len(), |i: int| Event::Key(keys[i]))
}

/// A whole read types what the keys say: in insert mode with the menu hidden
/// and the cursor at the end of the buffer, a run over plain character keys
/// that no key binding claims appends the characters to the buffer in order,
/// goes on reading and changes nothing else, whatever the completer would
/// answer.
pub proof fn lemma_run_types<M: Menu, K: Keybinding>(
    s: Session,
    bindings: K,
    chars: Seq<char>,
    answers: Seq<Seq<CompletionView>>,
)
    requires
        s.ctx.mode == LineMode::Insert,
        !s.menu.active,
        s.ctx.buf.cursor == s.ctx.buf.text.len(),
        s.ctx.buf.text.len() + chars.len() <= isize::MAX,
        answers.len() == chars.len(),
        forall|i: int|
            0 <= i < chars.len() ==> !bindings.claims(plain_char_key(#[trigger] chars[i])),
    ensures
        s.run::<M, K>(bindings, key_events(char_keys(chars)), answers) == (
            s.with_buf(
                BufView {
                    text: s.ctx.buf.text + chars,
                    cursor: s.ctx.buf.text.len() + chars.len(),
                },
            ),
            Ok::<Flow, LineError>(Flow::Continue),
        ),
    decreases chars.len(),
{
    let events = key_events(char_keys(chars));
    if chars.len() == 0 {
        assert(s.ctx.buf.text + chars =~= s.ctx.buf.text);
        assert(s.with_buf(s.ctx.buf) == s);
    } else {
        let head = chars.drop_last();
        let c = chars.last();
        assert forall|i: int| 0 <= i < head.len() implies !bindings.claims(
            plain_char_key(#[trigger] head[i]),
        ) by {
            assert(head[i] == chars[i]);
        }
        lemma_run_types::<M, K>(s, bindings, head, answers.drop_last());
        assert(events.drop_last() =~= key_events(char_keys(head)));
        assert(events.last() == Event::Key(plain_char_key(c)));
        let text = s.ctx.buf.text + head;
        let s1 = s.with_buf(BufView { text, cursor: text.len() });
        assert(!bindings.claims(plain_char_key(chars[chars.len() - 1])));
        assert(splice_in(text, text.len(), seq![c]) =~= text.push(c));
        assert(text.push(c) =~= s.ctx.buf.text + chars);
        assert(s1.standard_key(events.last()) == (s1, Flow::Continue, false));
        assert(s1.dispatch::<M>(events.last(), answers.last()) == s1.insert_key(events.last()));
    }
}

/// The session after `n` steps towards older history lines, up to the first
/// error.
pub open spec fn history_ups(s: Session, n: nat) -> (Session, Result<(), LineError>)
    decreases n,
{
    if n == 0 {
        (s, Ok(()))
    } else {
        let (s1, r1) = history_ups(s, (n - 1) as nat);
        if r1 is Err {
            (s1, r1)
        } else {
            s1.history_up()
        }
    }
}

/// The session after `n` steps towards newer history lines, up to the first
/// error.
pub open spec fn history_downs(s: Session, n: nat) -> (Session, Result<(), LineError>)
    decreases n,
{
    if n == 0 {
        (s, Ok(()))
    } else {
        let (s1, r1) = history_downs(s, (n - 1) as nat);
        if r1 is Err {
            (s1, r1)
        } else {
            s1.history_down()
        }
    }
}

/// The session while history line `i` is shown, after browsing began at the
/// prompt of `s`.
pub open spec fn browsing(s: Session, i: nat) -> Session {
    Session {
        ctx: CtxView {
            saved_line: s.ctx.buf.text,
            history_ind: HistoryInd::Line(i as usize),
            buf: BufView { text: s.history[i as int], cursor: s.history[i as int].len() },
            ..s.ctx
        },
        ..s
    }
}

/// The session back at the prompt after browsing that began at the prompt of
/// `s`: the buffer holds the text it held, the cursor behind it.
pub open spec fn returned(s: Session) -> Session {
    Session {
        ctx: CtxView {
            saved_line: s.ctx.buf.text,
            history_ind: HistoryInd::Prompt,
            buf: BufView { text: s.ctx.buf.text, cursor: s.ctx.buf.text.len() },
            ..s.ctx
        },
        ..s
    }
}

/// Every history line fits a buffer.
pub open spec fn history_fits(s: Session) -> bool {
    forall|i: int| 0 <= i < s.history.len() ==> (#[trigger] s.history[i]).len() <= isize::MAX
}

/// From the prompt, `k` steps up show history line `k - 1`.
proof fn lemma_ups(s: Session, k: nat)
    requires
        s.wf(),
        history_fits(s),
        s.ctx.history_ind == HistoryInd::Prompt,
        1 <= k <= s.history.len(),
        s.history.len() <= usize::MAX,
    ensures
        history_ups(s, k) == (browsing(s, (k - 1) as nat), Ok::<(), LineError>(())),
    decreases k,
{
    if k == 1 {
        assert(history_ups(s, 0) == (s, Ok::<(), LineError>(())));
        assert(s.history[0].len() <= isize::MAX);
    } else {
        lemma_ups(s, (k - 1) as nat);
        assert(s.history[k - 1].len() <= isize::MAX);
    }
}

/// From history line `i`, `j` steps down show line `i - j`.
proof fn lemma_downs(s: Session, i: nat, j: nat)
    requires
        s.wf(),
        history_fits(s),
        j <= i < s.history.len(),
        s.history.len() <= usize::MAX,
    ensures
        history_downs(browsing(s, i), j) == (browsing(s, (i - j) as nat), Ok::<(), LineError>(())),
    decreases j,
{
    if j > 0 {
        lemma_downs(s, i, (j - 1) as nat);
        assert(s.history[i - j].len() <= isize::MAX);
    }
}

/// History browsing is a round trip: from the prompt, as many steps up as
/// the history has lines and then as many steps down all succeed and bring
/// the prompt back with the text that the buffer held.
pub proof fn lemma_history_round_trip(s: Session)
    requires
        s.wf(),
        history_fits(s),
        s.history.len() <= usize::MAX,
        s.ctx.history_ind == HistoryInd::Prompt,
    ensures
        ({
            let (top, r1) = history_ups(s, s.history.len());
            let (back, r2) = history_downs(top, s.history.len());
            &&& r1 == Ok::<(), LineError>(())
            &&& r2 == Ok::<(), LineError>(())
            &&& back.ctx.history_ind == HistoryInd::Prompt
            &&& back.ctx.buf.text == s.ctx.buf.text
            &&& back.history == s.history
            &&& s.history.len() > 0 ==> back.ctx.saved_line == s.ctx.buf.text
            &&& s.history.len() > 0 ==> back == returned(s)
            &&& s.history.len() == 0 ==> back == s
        }),
{
    let n = s.history.len();
    if n > 0 {
        lemma_ups(s, n);
        let top = browsing(s, (n - 1) as nat);
        lemma_downs(s, (n - 1) as nat, (n - 1) as nat);
        assert(history_downs(top, (n - 1) as nat) == (browsing(s, 0), Ok::<(), LineError>(())));
        assert(browsing(s, 0).history_down() == (returned(s), Ok::<(), LineError>(())));
    }
}

/// An action that edits: anything but undo, redo and a motion.
pub open spec fn is_editing(action: Action) -> bool {
    !(action is Undo) && !(action is Redo) && !(action is Move)
}

/// After an editing action that went well on the buffer, the newest snapshot
/// records the buffer and nothing can be redone.
pub proof fn lemma_edit_pushes_snapshot(s: Session, action: Action)
    requires
        s.wf(),
        is_editing(action),
        spec_execute_vi(s.ctx.buf, action).1 is Ok,
    ensures
        s.normal_step(action).1 == Ok::<(), LineError>(()),
        s.normal_step(action).0.wf(),
        s.normal_step(action).0.undo == s.undo.add(spec_execute_vi(s.ctx.buf, action).0),
        s.normal_step(action).0.undo.in_sync(s.normal_step(action).0.ctx.buf),
{
    lemma_execute_vi_wf(s.ctx.buf, action);
    let (b, r) = spec_execute_vi(s.ctx.buf, action);
    lemma_add_in_sync(s.undo, b);
}

/// An editing action that failed on the buffer pushes no snapshot: the
/// snapshots stay as they were, the mode stays, nothing is announced, and the
/// error is dropped.
pub proof fn lemma_failed_edit_pushes_nothing(s: Session, action: Action)
    requires
        is_editing(action),
        spec_execute_vi(s.ctx.buf, action).1 is Err,
    ensures
        s.normal_step(action) == (
            s.with_buf(spec_execute_vi(s.ctx.buf, action).0),
            Ok::<(), LineError>(()),
        ),
{
}

/// Undo followed by redo, right after an editing action, restores the buffer
/// and the snapshots.
pub proof fn lemma_undo_redo_restores(s: Session)
    requires
        s.wf(),
        s.undo.in_sync(s.ctx.buf),
    ensures
        ({
            let (s1, r1) = s.normal_step(Action::Undo);
            let (s2, r2) = s1.normal_step(Action::Redo);
            &&& r1 == Ok::<(), LineError>(())
            &&& r2 == Ok::<(), LineError>(())
            &&& s2.ctx.buf == s.ctx.buf
            &&& s2.undo == s.undo
        }),
{
    lemma_undo_then_redo(s.undo, s.ctx.buf);
}

/// Escape in insert mode takes normal mode. A character key that does not
/// complete a command then stays pending and leaves the mode alone, and
/// escape forgets the pending keys and leaves the mode alone.
pub proof fn lemma_pending_keys(s: Session, escape: KeyEvent, c: char, modifiers: u8)
    requires
        escape.code == KeyCode::Esc,
        spec_parse_keys(s.normal_keys.push(c)) is None,
    ensures
        ({
            let (s1, r1) = s.insert_key(Event::Key(escape));
            let (s2, r2) = s1.normal_key(
                Event::Key(KeyEvent { code: KeyCode::Char(c), modifiers }),
            );
            let (s3, r3) = s2.normal_key(Event::Key(escape));
            &&& r1 == Ok::<(), LineError>(())
            &&& s1.ctx.mode == LineMode::Normal
            &&& r2 == Ok::<(), LineError>(())
            &&& s2.ctx.mode == LineMode::Normal
            &&& s2.normal_keys == s.normal_keys.push(c)
            &&& s2.ctx.buf == s.ctx.buf
            &&& r3 == Ok::<(), LineError>(())
            &&& s3.ctx.mode == LineMode::Normal
            &&& s3.normal_keys == Seq::<char>::empty()
            &&& s3.ctx.buf == s.ctx.buf
        }),
{
}

/// Showing, filling, stepping through and accepting from the menu never
/// changes the editing mode.
pub proof fn lemma_menu_keeps_mode(
    s: Session,
    cands: Seq<CompletionView>,
    next: nat,
    previous: nat,
    ev: Event,
)
    ensures
        s.complete_with(cands).0.ctx.mode == s.ctx.mode,
        s.accept_completion().0.ctx.mode == s.ctx.mode,
        (ev matches Event::Key(k) && (k.is_plain(KeyCode::Enter) || k.is_plain(KeyCode::Esc)
            || k.is_plain(KeyCode::Tab) || k.is_plain(KeyCode::Up) || k.is_plain(KeyCode::Down)))
            ==> s.menu_key(ev, next, previous).0.ctx.mode == s.ctx.mode,
{
}

/// The saved line changes only when browsing leaves the prompt: a step up
/// from a history line and a step down from anywhere keep it.
pub proof fn lemma_saved_line_kept(s: Session)
    ensures
        s.ctx.history_ind != HistoryInd::Prompt ==> s.history_up().0.ctx.saved_line
            == s.ctx.saved_line,
        s.history_down().0.ctx.saved_line == s.ctx.saved_line,
{
}

/// A history position that names a line of the history still does after a
/// step up or down.
pub proof fn lemma_history_position_valid(s: Session)
    requires
        s.ctx.history_ind.valid(s.history.len()),
        s.history.len() <= usize::MAX,
    ensures
        s.history_up().0.ctx.history_ind.valid(s.history.len()),
        s.history_down().0.ctx.history_ind.valid(s.history.len()),
{
}

/// The word that a completion request is about is the text behind the last
/// space: it ends the text, holds no space, and stands at the start of the
/// text or behind a space.
pub proof fn lemma_last_word(s: Seq<char>)
    ensures
        split_words(s).len() > 0,
        ({
            let w = split_words(s).last();
            &&& w.len() <= s.len()
            &&& s.subrange(s.len() - w.len(), s.len() as int) == w
            &&& !w.contains(' ')
            &&& w.len() < s.len() ==> s[s.len() - w.len() - 1] == ' '
        }),
    decreases s.len(),
{
    if s.len() > 0 {
        let head = s.drop_last();
        lemma_last_word(head);
        let w0 = split_words(head).last();
        let w = split_words(s).last();
        if s.last() == ' ' {
            assert(w =~= Seq::empty());
            assert(s.subrange(s.len() - w.len(), s.len() as int) =~= w);
        } else {
            assert(w == w0.push(s.last()));
            assert(s.subrange(s.len() - w.len(), s.len() as int) =~= head.subrange(
                head.len() - w0.len(),
                head.len() as int,
            ).push(s.last()));
            assert forall|i: int| 0 <= i < w.len() implies w[i] != ' ' by {
                if i < w0.len() {
                    assert(w0.contains(w0[i]));
                }
            }
        }
    } else {
        assert(s.subrange(0, 0) =~= Seq::<char>::empty());
        assert(split_words(s).last() =~= Seq::<char>::empty());
    }
}

/// Browsing the history keeps the invariant of the session.
pub proof fn lemma_history_wf(s: Session)
    requires
        s.wf(),
        s.history.len() <= usize::MAX,
    ensures
        s.update_history().0.wf(),
        s.history_up().0.wf(),
        s.history_down().0.wf(),
{
}

/// Replacing the current word keeps the invariant of the session.
pub proof fn lemma_completion_wf(s: Session, cands: Seq<CompletionView>, text: Seq<char>)
    requires
        s.wf(),
    ensures
        s.replace_word(text).0.wf(),
        s.accept_completion().0.wf(),
        s.populate(cands).wf(),
        s.complete_with(cands).0.wf(),
{
    let hidden = s.with_menu(s.menu.with_active(false));
    assert(hidden.wf());
    let filled = s.populate(cands);
    let shown = filled.with_menu(filled.menu.with_active(true));
    assert(shown.wf());
    let hidden2 = shown.with_menu(shown.menu.with_active(false));
    assert(hidden2.wf());
}

/// A key in insert mode keeps the invariant of the session.
pub proof fn lemma_insert_key_wf(s: Session, ev: Event)
    requires
        s.wf(),
        s.history.len() <= usize::MAX,
    ensures
        s.insert_key(ev).0.wf(),
{
    lemma_history_wf(s);
    lemma_word_backward_bound(s.ctx.buf.text, s.ctx.buf.cursor);
}

/// One execution of an action in normal mode keeps the invariant of the
/// session.
pub proof fn lemma_normal_step_wf(s: Session, action: Action)
    requires
        s.wf(),
        s.history.len() <= usize::MAX,
    ensures
        s.normal_step(action).0.wf(),
{
    lemma_execute_vi_wf(s.ctx.buf, action);
    let (b, r) = spec_execute_vi(s.ctx.buf, action);
    let s1 = match r {
        Ok(mode) => s.with_buf(b).switch_mode(mode),
        Err(_) => s.with_buf(b),
    };
    assert(s1.wf());
    lemma_history_wf(s1);
}

/// Repeated execution of an action keeps the invariant of the session.
pub proof fn lemma_normal_repeat_wf(s: Session, action: Action, n: nat)
    requires
        s.wf(),
        s.history.len() <= usize::MAX,
    ensures
        s.normal_repeat(action, n).0.wf(),
    decreases n,
{
    if n > 0 {
        lemma_normal_step_wf(s, action);
        let (s1, r1) = s.normal_step(action);
        assert(s1.history == s.history);
        if r1 is Ok {
            lemma_normal_repeat_wf(s1, action, (n - 1) as nat);
        }
    }
}

/// Every event keeps the invariant of the session: the buffer stays
/// well-formed, the history position keeps naming a line of the history, the
/// saved line keeps fitting a buffer and the snapshots stay well-formed.
pub proof fn lemma_step_wf<M: Menu, K: Keybinding>(
    s: Session,
    bindings: K,
    ev: Event,
    cands: Seq<CompletionView>,
)
    requires
        s.wf(),
        s.history.len() <= usize::MAX,
    ensures
        s.step::<M, K>(bindings, ev, cands).0.wf(),
        s.step::<M, K>(bindings, ev, cands).0.history == s.history,
{
    let (s1, flow, newline) = s.standard_key(ev);
    assert(s1.wf());
    assert(s1.history == s.history);
    lemma_mode_key_wf(s1, ev);
    let hidden = s1.with_menu(s1.menu.with_active(false));
    assert(hidden.wf());
    lemma_mode_key_wf(hidden, ev);
    lemma_completion_wf(s1, cands, Seq::empty());
}

/// The invariant of the session holds all through a read: after any
/// sequence of events, however the completer answered.
pub proof fn lemma_run_wf<M: Menu, K: Keybinding>(
    s: Session,
    bindings: K,
    events: Seq<Event>,
    answers: Seq<Seq<CompletionView>>,
)
    requires
        s.wf(),
        s.history.len() <= usize::MAX,
    ensures
        s.run::<M, K>(bindings, events, answers).0.wf(),
        s.run::<M, K>(bindings, events, answers).0.history == s.history,
    decreases events.len(),
{
    if events.len() > 0 {
        lemma_run_wf::<M, K>(s, bindings, events.drop_last(), answers.drop_last());
        let (s1, r1) = s.run::<M, K>(bindings, events.drop_last(), answers.drop_last());
        lemma_step_wf::<M, K>(s1, bindings, events.last(), answers.last());
    }
}

/// A key handled by the current mode keeps the invariant of the session and
/// the history.
pub proof fn lemma_mode_key_wf(s: Session, ev: Event)
    requires
        s.wf(),
        s.history.len() <= usize::MAX,
    ensures
        s.mode_key(ev).0.wf(),
        s.mode_key(ev).0.history == s.history,
{
    lemma_insert_key_wf(s, ev);
    match ev {
        Event::Key(k) => match k.code {
            KeyCode::Char(c) => {
                let keys = s.normal_keys.push(c);
                match spec_parse_keys(keys) {
                    Some(cmd) => {
                        lemma_normal_repeat_wf(
                            s.with_keys(Seq::empty()),
                            cmd.action,
                            cmd.repeat as nat,
                        );
                        lemma_normal_repeat_history(
                            s.with_keys(Seq::empty()),
                            cmd.action,
                            cmd.repeat as nat,
                        );
                    },
                    None => {},
                }
            },
            _ => {},
        },
        Event::Other => {},
    }
}

/// No action in normal mode changes the history.
pub proof fn lemma_normal_repeat_history(s: Session, action: Action, n: nat)
    ensures
        s.normal_repeat(action, n).0.history == s.history,
    decreases n,
{
    if n > 0 {
        let (s1, r1) = s.normal_step(action);
        if r1 is Ok {
            lemma_normal_repeat_history(s1, action, (n - 1) as nat);
        }
    }
}

/// A backward word motion lands at or before the cursor.
pub proof fn lemma_word_backward_bound(text: Seq<char>, cursor: nat)
    ensures
        word_backward(text, cursor, true) <= cursor,
{
    let j = run_start(text, cursor, 0, true);
    lemma_run_start_bounds(text, cursor, 0, true);
    if 0 < j <= text.len() {
        lemma_run_start_bounds(text, j, spec_class_of(text[j - 1], true), true);
    }
}

/// End of input on a buffer that holds text does what enter does when the
/// statement is complete: it submits, and the session is the same.
pub proof fn lemma_eof_submits_like_enter(s: Session, eof: Event, enter: Event)
    requires
        Session::is_eof(eof),
        Session::is_enter(enter),
        s.ctx.buf.text.len() > 0,
        !s.menu.active,
        !spec_needs_multiline(s.ctx.lines, s.ctx.buf.text),
    ensures
        s.standard_key(eof) == s.standard_key(enter),
        s.standard_key(eof).1 == Flow::Submit,
{
}

} // verus!
