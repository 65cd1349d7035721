//! The editor as a transition system: the state of a session as plain
//! mathematical values, and what each key does to it. The executable
//! handlers are proved to follow these functions.

use crate::buffer::BufView;
use crate::buffer_history::UndoView;
use crate::completion::{Completer, CompletionView};
use crate::error::LineError;
use crate::event::{Event, KeyCode, MOD_SHIFT};
use crate::history::HistoryInd;
use crate::line::{spec_style_of, CursorStyle, Flow, LineMode};
use crate::keybinding::Keybinding;
use crate::menu::{Menu, MenuView};
use crate::multiline::spec_needs_multiline;
use crate::vi::{spec_execute_vi, spec_motion_to_loc, spec_parse_keys};
use crate::width::width_of;
use shrs_utils::Location;
use shrs_vi::{Action, Motion};
use vstd::prelude::*;
use vstd::utf8::encode_utf8;

verus! {

/// The state that belongs to one read of a line.
pub struct CtxView {
    /// The live buffer.
    pub buf: BufView,
    /// The word that the last completion request was made for.
    pub current_word: Seq<char>,
    /// Where the prompt stands in the history.
    pub history_ind: HistoryInd,
    /// The buffer text from before history browsing began.
    pub saved_line: Seq<char>,
    /// The editing mode.
    pub mode: LineMode,
    /// The confirmed lines of a statement that spans several lines.
    pub lines: Seq<char>,
    /// The cursor shape asked of the terminal.
    pub cursor_style: CursorStyle,
    /// The mode changes announced so far and not yet taken by the caller.
    pub switches: Seq<LineMode>,
}

/// The whole state of an editing session: the state of the read and the
/// state of the parts that the editor is built from.
pub struct Session {
    pub ctx: CtxView,
    /// The keys typed in normal mode that are not yet a command.
    pub normal_keys: Seq<char>,
    pub menu: MenuView,
    pub undo: UndoView,
    /// The command history, most recent line first.
    pub history: Seq<Seq<char>>,
}

/// The buffer after its content was replaced by `text`: the text with the
/// cursor behind it, or an error for a text too long to index.
pub open spec fn load(text: Seq<char>) -> Result<BufView, LineError> {
    if text.len() > isize::MAX {
        Err(LineError::BufferFull)
    } else {
        Ok(BufView { text, cursor: text.len() })
    }
}

/// The words of a text cut at every space: the text between two spaces is a
/// word even when it is empty, so there is always at least one word.
pub open spec fn split_words(s: Seq<char>) -> Seq<Seq<char>>
    decreases s.len(),
{
    if s.len() == 0 {
        seq![Seq::empty()]
    } else {
        let head = split_words(s.drop_last());
        if s.last() == ' ' {
            head.push(Seq::empty())
        } else {
            head.drop_last().push(head.last().push(s.last()))
        }
    }
}

/// The menu entries made from candidates: at most `limit` of them, in order,
/// each under its label.
pub open spec fn menu_entries(cands: Seq<CompletionView>, limit: nat) -> Seq<
    (Seq<char>, CompletionView),
> {
    Seq::new(
        if cands.len() <= limit {
            cands.len()
        } else {
            limit
        },
        |i: int| (cands[i].display, cands[i]),
    )
}

/// The most candidates that the menu is given.
pub open spec fn spec_max_items() -> nat {
    10
}

/// The byte length of a text in UTF-8.
pub open spec fn byte_len(text: Seq<char>) -> nat {
    encode_utf8(text).len()
}

impl Session {
    /// The invariant of a session: the buffer is well-formed, the saved line
    /// fits a buffer, the history position names a line of the history, and
    /// the snapshots are well-formed.
    pub open spec fn wf(self) -> bool {
        &&& self.ctx.buf.wf()
        &&& self.ctx.saved_line.len() <= isize::MAX
        &&& self.ctx.history_ind.valid(self.history.len())
        &&& self.undo.wf()
    }

    /// The same session with another buffer state.
    pub open spec fn with_buf(self, buf: BufView) -> Session {
        Session { ctx: CtxView { buf, ..self.ctx }, ..self }
    }

    /// The same session with another menu state.
    pub open spec fn with_menu(self, menu: MenuView) -> Session {
        Session { menu, ..self }
    }

    /// The same session with other pending keys.
    pub open spec fn with_keys(self, normal_keys: Seq<char>) -> Session {
        Session { normal_keys, ..self }
    }

    /// The same session with other snapshots.
    pub open spec fn with_undo(self, undo: UndoView) -> Session {
        Session { undo, ..self }
    }

    /// The session after the editor took `mode`: the cursor shape follows,
    /// and the change is announced, also when the mode was held already.
    pub open spec fn switch_mode(self, mode: LineMode) -> Session {
        Session {
            ctx: CtxView {
                mode,
                cursor_style: spec_style_of(mode),
                switches: self.ctx.switches.push(mode),
                ..self.ctx
            },
            ..self
        }
    }

    /// The text that the history position stands for: the saved line at the
    /// prompt, else the history line.
    pub open spec fn history_text(self) -> Seq<char> {
        match self.ctx.history_ind {
            HistoryInd::Prompt => self.ctx.saved_line,
            HistoryInd::Line(i) => self.history[i as int],
        }
    }

    /// The buffer replaced by the text of the history position. A text too
    /// long for the buffer leaves it empty.
    pub open spec fn update_history(self) -> (Session, Result<(), LineError>) {
        match load(self.history_text()) {
            Ok(b) => (self.with_buf(b), Ok(())),
            Err(e) => (self.with_buf(BufView::empty()), Err(e)),
        }
    }

    /// One step towards older lines. Leaving the prompt saves the buffer
    /// text first.
    pub open spec fn history_up(self) -> (Session, Result<(), LineError>) {
        let saved = if self.ctx.history_ind == HistoryInd::Prompt {
            self.ctx.buf.text
        } else {
            self.ctx.saved_line
        };
        Session {
            ctx: CtxView {
                saved_line: saved,
                history_ind: self.ctx.history_ind.spec_up(self.history.len()),
                ..self.ctx
            },
            ..self
        }.update_history()
    }

    /// One step towards newer lines; from the most recent line back to the
    /// prompt and the saved line.
    pub open spec fn history_down(self) -> (Session, Result<(), LineError>) {
        Session {
            ctx: CtxView { history_ind: self.ctx.history_ind.spec_down(), ..self.ctx },
            ..self
        }.update_history()
    }

    /// The words that a completion request is made for: the buffer text
    /// before the cursor, cut at spaces.
    pub open spec fn request(self) -> Seq<Seq<char>> {
        split_words(self.ctx.buf.text.subrange(0, self.ctx.buf.cursor as int))
    }

    /// The menu filled from the candidates of a completion request: the
    /// current word becomes the text between the last space before the cursor
    /// and the cursor, and the menu gets the first ten candidates.
    pub open spec fn populate(self, cands: Seq<CompletionView>) -> Session {
        Session {
            ctx: CtxView {
                current_word: self.request().last(),
                ..self.ctx
            },
            menu: self.menu.with_items(menu_entries(cands, spec_max_items())),
            ..self
        }
    }

    /// The buffer after the current word was replaced by `text`: the cursor
    /// goes left by the byte length of the current word, as many characters
    /// as the word takes display columns are deleted from there, the current
    /// word is forgotten and `text` is inserted.
    pub open spec fn replace_word(self, text: Seq<char>) -> (Session, Result<(), LineError>) {
        self.replace_word_by(
            byte_len(self.ctx.current_word),
            width_of(self.ctx.current_word),
            text,
        )
    }

    /// The buffer after the word before the cursor was replaced by `text`,
    /// for a word measured as `back` positions to go left and `width`
    /// characters to delete from there: the cursor goes left by `back`,
    /// `width` characters are deleted, the current word is forgotten and
    /// `text` is inserted where the word began. Each of the three buffer steps
    /// may fail and leaves the steps before it done.
    pub open spec fn replace_word_by(self, back: nat, width: nat, text: Seq<char>) -> (
        Session,
        Result<(), LineError>,
    ) {
        if back > isize::MAX {
            (self, Err(LineError::InvalidRelativeLocation(isize::MIN)))
        } else {
            match self.ctx.buf.move_cursor(Location::Rel((-back) as isize)) {
                Err(e) => (self, Err(e)),
                Ok(b1) => if width > isize::MAX {
                    (self.with_buf(b1), Err(LineError::InvalidRelativeLocation(isize::MAX)))
                } else {
                    match b1.delete(Location::Rel(0), Location::Rel(width as isize)) {
                        Err(e) => (self.with_buf(b1), Err(e)),
                        Ok(b2) => {
                            let s2 = Session {
                                ctx: CtxView { buf: b2, current_word: Seq::empty(), ..self.ctx },
                                ..self
                            };
                            match b2.insert(Location::Rel(0), text) {
                                Err(e) => (s2, Err(e)),
                                Ok(b3) => (s2.with_buf(b3), Ok(())),
                            }
                        },
                    }
                },
            }
        }
    }

    /// The highlighted candidate accepted: the menu is hidden, and the
    /// current word is replaced by the candidate's text if there is a
    /// highlighted candidate.
    pub open spec fn accept_completion(self) -> (Session, Result<(), LineError>) {
        let s1 = self.with_menu(self.menu.with_active(false));
        match self.menu.selection() {
            Some(c) => s1.replace_word(c.replacement),
            None => (s1, Ok(())),
        }
    }

    /// A completion request answered with `cands`: the menu is filled and
    /// shown, and a single candidate is accepted at once.
    pub open spec fn complete_with(self, cands: Seq<CompletionView>) -> (
        Session,
        Result<(), LineError>,
    ) {
        let s1 = self.populate(cands);
        let s2 = s1.with_menu(s1.menu.with_active(true));
        if s2.menu.items.len() == 1 {
            s2.accept_completion()
        } else {
            (s2, Ok(()))
        }
    }

    /// The session after a buffer step: the new buffer, or the old session
    /// with the error.
    pub open spec fn buf_step(self, r: Result<BufView, LineError>) -> (
        Session,
        Result<(), LineError>,
    ) {
        match r {
            Ok(b) => (self.with_buf(b), Ok(())),
            Err(e) => (self, Err(e)),
        }
    }

    /// What a key other than the completion key does in insert mode.
    ///
    /// Left and right move the cursor unless it stands at that end. Down and
    /// up browse the history. Escape takes normal mode and pushes a snapshot.
    /// Backspace or control-h deletes the character before the cursor, and
    /// control-w the word before it, unless the cursor stands at the start.
    /// Any other character key inserts its character. Everything else is
    /// ignored.
    pub open spec fn insert_key(self, ev: Event) -> (Session, Result<(), LineError>) {
        match ev {
            Event::Other => (self, Ok(())),
            Event::Key(k) => {
                let buf = self.ctx.buf;
                if k.is_plain(KeyCode::Tab) {
                    (self, Ok(()))
                } else if k.is_plain(KeyCode::Left) {
                    if buf.cursor > 0 {
                        self.buf_step(buf.move_cursor(Location::Rel(-1isize)))
                    } else {
                        (self, Ok(()))
                    }
                } else if k.is_plain(KeyCode::Right) {
                    if buf.cursor < buf.text.len() {
                        self.buf_step(buf.move_cursor(Location::Rel(1)))
                    } else {
                        (self, Ok(()))
                    }
                } else if k.is_plain(KeyCode::Down) {
                    self.history_down()
                } else if k.is_plain(KeyCode::Up) {
                    self.history_up()
                } else if k.code == KeyCode::Esc {
                    let s1 = self.switch_mode(LineMode::Normal);
                    (s1.with_undo(s1.undo.add(s1.ctx.buf)), Ok(()))
                } else if k.is_plain(KeyCode::Backspace) || k.is_ctrl('h') {
                    if buf.text.len() > 0 && buf.cursor != 0 {
                        self.buf_step(buf.delete(Location::Rel(-1isize), Location::Rel(0)))
                    } else {
                        (self, Ok(()))
                    }
                } else if k.is_ctrl('w') {
                    if buf.text.len() > 0 && buf.cursor != 0 {
                        self.buf_step(
                            buf.delete(spec_motion_to_loc(buf, Motion::BackWord), Location::Rel(0)),
                        )
                    } else {
                        (self, Ok(()))
                    }
                } else {
                    match k.code {
                        KeyCode::Char(c) => self.buf_step(buf.insert(Location::Rel(0), seq![c])),
                        _ => (self, Ok(())),
                    }
                }
            },
        }
    }

    /// One execution of a parsed action in normal mode.
    ///
    /// The action is first carried out on the buffer; if that went well the
    /// editor takes the mode it asks for, and if not the error is dropped.
    /// Then undo and redo step through the snapshots, the motions up and down
    /// browse the history, other motions do nothing more, and every other
    /// action pushes a snapshot if it went well on the buffer, and none if it
    /// failed.
    pub open spec fn normal_step(self, action: Action) -> (Session, Result<(), LineError>) {
        let (b, r) = spec_execute_vi(self.ctx.buf, action);
        let s1 = match r {
            Ok(mode) => self.with_buf(b).switch_mode(mode),
            Err(_) => self.with_buf(b),
        };
        match action {
            Action::Undo => {
                let (u, b2) = s1.undo.prev(s1.ctx.buf);
                (s1.with_undo(u).with_buf(b2), Ok(()))
            },
            Action::Redo => {
                let (u, b2) = s1.undo.next(s1.ctx.buf);
                (s1.with_undo(u).with_buf(b2), Ok(()))
            },
            Action::Move(m) => if m == Motion::Up {
                s1.history_up()
            } else if m == Motion::Down {
                s1.history_down()
            } else {
                (s1, Ok(()))
            },
            _ => if r is Ok {
                (s1.with_undo(s1.undo.add(s1.ctx.buf)), Ok(()))
            } else {
                (s1, Ok(()))
            },
        }
    }

    /// An action executed `n` times, stopping at the first error.
    pub open spec fn normal_repeat(self, action: Action, n: nat) -> (
        Session,
        Result<(), LineError>,
    )
        decreases n,
    {
        if n == 0 {
            (self, Ok(()))
        } else {
            let (s1, r1) = self.normal_step(action);
            if r1 is Err {
                (s1, r1)
            } else {
                s1.normal_repeat(action, (n - 1) as nat)
            }
        }
    }

    /// What a key does in normal mode.
    ///
    /// Escape forgets the pending keys. A character key joins the pending
    /// keys; when they then read as a command, they are forgotten and the
    /// command's action is executed as often as its count says. Everything
    /// else is ignored.
    pub open spec fn normal_key(self, ev: Event) -> (Session, Result<(), LineError>) {
        match ev {
            Event::Other => (self, Ok(())),
            Event::Key(k) => match k.code {
                KeyCode::Esc => (self.with_keys(Seq::empty()), Ok(())),
                KeyCode::Char(c) => {
                    let keys = self.normal_keys.push(c);
                    match spec_parse_keys(keys) {
                        Some(cmd) => self.with_keys(Seq::empty()).normal_repeat(
                            cmd.action,
                            cmd.repeat as nat,
                        ),
                        None => (self.with_keys(keys), Ok(())),
                    }
                },
                _ => (self, Ok(())),
            },
        }
    }

    /// What a key does in the mode that the session is in, the completion
    /// key apart.
    pub open spec fn mode_key(self, ev: Event) -> (Session, Result<(), LineError>) {
        match self.ctx.mode {
            LineMode::Insert => self.insert_key(ev),
            LineMode::Normal => self.normal_key(ev),
        }
    }

    /// True for the key that asks for completions.
    pub open spec fn is_completion_key(ev: Event) -> bool {
        ev matches Event::Key(k) && k.is_plain(KeyCode::Tab)
    }

    /// What a key does while the menu is shown; `next` and `previous` are the
    /// entries that the menu would highlight on a step forward and back.
    ///
    /// Enter accepts the highlighted candidate. Escape hides the menu.
    /// Shift-tab or up highlights the previous entry, tab or down the next.
    /// Any other key hides the menu and is then handled by the current mode.
    pub open spec fn menu_key(self, ev: Event, next: nat, previous: nat) -> (
        Session,
        Result<(), LineError>,
    ) {
        let hidden = self.with_menu(self.menu.with_active(false));
        match ev {
            Event::Other => hidden.mode_key(ev),
            Event::Key(k) => if k.is_plain(KeyCode::Enter) {
                self.accept_completion()
            } else if k.is_plain(KeyCode::Esc) {
                (hidden, Ok(()))
            } else if (k.code == KeyCode::Tab && k.modifiers == MOD_SHIFT) || k.is_plain(
                KeyCode::Up,
            ) {
                (self.with_menu(self.menu.with_cursor(previous)), Ok(()))
            } else if k.is_plain(KeyCode::Tab) || k.is_plain(KeyCode::Down) {
                (self.with_menu(self.menu.with_cursor(next)), Ok(()))
            } else {
                hidden.mode_key(ev)
            },
        }
    }

    /// The session after a line was confirmed without being submitted: the
    /// buffer text and a newline join the confirmed lines, and the buffer is
    /// emptied.
    pub open spec fn continue_line(self) -> Session {
        Session {
            ctx: CtxView {
                lines: self.ctx.lines + self.ctx.buf.text + seq!['\n'],
                buf: BufView::empty(),
                ..self.ctx
            },
            ..self
        }
    }

    /// True for the keys that confirm a line: enter, or control-j.
    pub open spec fn is_enter(ev: Event) -> bool {
        ev matches Event::Key(k) && (k.is_plain(KeyCode::Enter) || k.is_ctrl('j'))
    }

    /// True for the end-of-input key: control-d.
    pub open spec fn is_eof(ev: Event) -> bool {
        ev matches Event::Key(k) && k.is_ctrl('d')
    }

    /// What the keys that work in every mode do: the session afterwards,
    /// whether reading goes on, and whether the terminal must start a new
    /// line.
    ///
    /// Enter does nothing while the menu is shown. Else it drops the
    /// snapshots, starts a new terminal line, and either keeps the line as
    /// part of a statement that is still open or submits. End of input on an
    /// empty buffer asks the shell to exit; on any other buffer it drops the
    /// snapshots, starts a new terminal line and submits. Other keys do
    /// nothing here.
    pub open spec fn standard_key(self, ev: Event) -> (Session, Flow, bool) {
        if Self::is_enter(ev) {
            if self.menu.active {
                (self, Flow::Continue, false)
            } else {
                let s1 = self.with_undo(UndoView::empty());
                if spec_needs_multiline(self.ctx.lines, self.ctx.buf.text) {
                    (s1.continue_line(), Flow::Continue, true)
                } else {
                    (s1, Flow::Submit, true)
                }
            }
        } else if Self::is_eof(ev) {
            if self.ctx.buf.text.len() == 0 {
                (self, Flow::Exit, false)
            } else {
                (self.with_undo(UndoView::empty()), Flow::Submit, true)
            }
        } else {
            (self, Flow::Continue, false)
        }
    }

    /// Whether the keys that work in every mode keep an event to themselves.
    /// Enter and control-j are theirs and go to no other handler, with one
    /// exception: plain enter while the menu is shown is left to the menu,
    /// which accepts the highlighted candidate on it.
    pub open spec fn keeps_key(self, ev: Event) -> bool {
        &&& Self::is_enter(ev)
        &&& !(self.menu.active && Self::is_plain_enter(ev))
    }

    /// True for the enter key with no modifier held.
    pub open spec fn is_plain_enter(ev: Event) -> bool {
        ev matches Event::Key(k) && k.is_plain(KeyCode::Enter)
    }

    /// The text of the whole statement: the confirmed lines and the buffer.
    pub open spec fn full_command(self) -> Seq<char> {
        self.ctx.lines + self.ctx.buf.text
    }

    /// What a key does once the keys that work in every mode have let it
    /// through: the menu takes it while it is shown; else the completion key
    /// in insert mode is answered with `cands`, and any other key goes to the
    /// current mode.
    pub open spec fn dispatch<M: Menu>(self, ev: Event, cands: Seq<CompletionView>) -> (
        Session,
        Result<(), LineError>,
    ) {
        if self.menu.active {
            self.menu_key(ev, M::spec_next(self.menu), M::spec_previous(self.menu))
        } else if self.ctx.mode == LineMode::Insert && Self::is_completion_key(ev) {
            self.complete_with(cands)
        } else {
            self.mode_key(ev)
        }
    }

    /// Whether an event makes the editor ask the completer: it is the
    /// completion key, no key binding claims it, the menu is hidden and the
    /// mode is insert mode.
    pub open spec fn asks<K: Keybinding>(self, bindings: K, ev: Event) -> bool {
        &&& ev matches Event::Key(k)
        &&& k.is_plain(KeyCode::Tab)
        &&& !bindings.claims(k)
        &&& !self.menu.active
        &&& self.ctx.mode == LineMode::Insert
    }

    /// Whether `cands` can be the completer's answer where the event makes
    /// the editor ask it.
    pub open spec fn answered<C: Completer, K: Keybinding>(
        self,
        completer: C,
        bindings: K,
        ev: Event,
        cands: Seq<CompletionView>,
    ) -> bool {
        self.asks(bindings, ev) ==> completer.offers(self.request(), cands)
    }

    /// Whether each entry of `answers` can be the completer's answer to the
    /// request that the event at its index makes, if it makes one, in a run
    /// over `events`.
    pub open spec fn all_answered<M: Menu, C: Completer, K: Keybinding>(
        self,
        completer: C,
        bindings: K,
        events: Seq<Event>,
        answers: Seq<Seq<CompletionView>>,
    ) -> bool
        decreases events.len(),
    {
        if events.len() == 0 {
            true
        } else {
            let (s1, r1) = self.run::<M, K>(bindings, events.drop_last(), answers.drop_last());
            &&& self.all_answered::<M, C, K>(
                completer,
                bindings,
                events.drop_last(),
                answers.drop_last(),
            )
            &&& r1 == Ok::<Flow, LineError>(Flow::Continue) ==> s1.answered(
                completer,
                bindings,
                events.last(),
                answers.last(),
            )
        }
    }

    /// One event handled from start to end: the session afterwards, and
    /// either how reading goes on and whether the terminal starts a new line,
    /// or the error that ended the read.
    ///
    /// A key that the key bindings claim submits at once. Else the keys that
    /// work in every mode are tried. Where they submit, exit or keep the key
    /// to themselves, the event ends there: a line that was kept as part of
    /// an open statement leaves the buffer empty, and control-j is never
    /// typed or read as a command. Every other event is dispatched.
    pub open spec fn step<M: Menu, K: Keybinding>(
        self,
        bindings: K,
        ev: Event,
        cands: Seq<CompletionView>,
    ) -> (Session, Result<(Flow, bool), LineError>) {
        if ev matches Event::Key(k) && bindings.claims(k) {
            (self, Ok((Flow::Submit, false)))
        } else {
            let (s1, flow, newline) = self.standard_key(ev);
            if flow != Flow::Continue || self.keeps_key(ev) {
                (s1, Ok((flow, newline)))
            } else {
                let (s2, r) = s1.dispatch::<M>(ev, cands);
                match r {
                    Ok(()) => (s2, Ok((Flow::Continue, newline))),
                    Err(e) => (s2, Err(e)),
                }
            }
        }
    }

    /// A sequence of events handled in order, each completion request
    /// answered by the entry of `answers` at the event's index. Events after
    /// the one that submits, exits or fails are not looked at.
    pub open spec fn run<M: Menu, K: Keybinding>(
        self,
        bindings: K,
        events: Seq<Event>,
        answers: Seq<Seq<CompletionView>>,
    ) -> (Session, Result<Flow, LineError>)
        decreases events.len(),
    {
        if events.len() == 0 {
            (self, Ok(Flow::Continue))
        } else {
            let (s1, r1) = self.run::<M, K>(bindings, events.drop_last(), answers.drop_last());
            if r1 == Ok::<Flow, LineError>(Flow::Continue) {
                let (s2, r2) = s1.step::<M, K>(bindings, events.last(), answers.last());
                match r2 {
                    Ok((flow, _)) => (s2, Ok(flow)),
                    Err(e) => (s2, Err(e)),
                }
            } else {
                (s1, r1)
            }
        }
    }

    /// The part of the highlighted candidate that is offered behind the
    /// cursor while the menu is shown: the candidate's text without as many
    /// leading characters as the current word has.
    pub open spec fn suggestion(self) -> Option<Seq<char>> {
        if self.menu.active {
            match self.menu.selection() {
                Some(c) => Some(
                    c.replacement.skip(
                        if self.ctx.current_word.len() <= c.replacement.len() {
                            self.ctx.current_word.len() as int
                        } else {
                            c.replacement.len() as int
                        },
                    ),
                ),
                None => None,
            }
        } else {
            None
        }
    }

    /// The end of a read: the statement, and the history with the statement
    /// as its most recent line unless the statement is empty.
    pub open spec fn finish(self) -> (Seq<Seq<char>>, Seq<char>) {
        let res = self.full_command();
        if res.len() > 0 {
            (seq![res] + self.history, res)
        } else {
            (self.history, res)
        }
    }
}

} // verus!
