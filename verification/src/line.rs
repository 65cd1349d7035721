//! The editor proper: the session state and the handling of each key.

use crate::buffer::{BufView, Buffer};
use crate::buffer_history::{BufferHistory, DefaultBufferHistory, UndoView};
use crate::completion::{
    completion_views, word_views, Completer, Completion, CompletionCtx, CompletionView,
    DefaultCompleter,
};
use crate::error::LineError;
use crate::event::{Event, KeyCode, KeyEvent, MOD_CONTROL, MOD_NONE, MOD_SHIFT};
use crate::highlight::{DefaultHighlighter, Highlighter};
use crate::history::{DefaultHistory, History, HistoryInd};
use crate::keybinding::{DefaultKeybinding, Keybinding};
use crate::menu::{item_views, DefaultMenu, Menu, MenuView};
use crate::model::{byte_len, menu_entries, spec_max_items, split_words, CtxView, Session};
use crate::multiline::{needs_multiline, spec_needs_multiline};
use crate::painter::{with_suggestion, Frame, Style, StyledBuf};
use crate::prompt::{DefaultPrompt, Prompt};
use crate::vi::{execute_vi, motion_to_loc, parse_keys};
use crate::width::{char_to_string, display_width};
use shrs_utils::Location;
use shrs_vi::{Action, Motion};
use vstd::prelude::*;

verus! {

/// Operating mode of the editor.
#[derive(Clone, Copy, Debug, PartialEq, Eq, Structural)]
pub enum LineMode {
    /// Keys are inserted as text.
    Insert,
    /// Keys are read as modal commands.
    Normal,
}

/// The shape that the terminal should give its cursor.
#[derive(Clone, Copy, Debug, PartialEq, Eq, Structural)]
pub enum CursorStyle {
    DefaultUserShape,
    BlinkingBlock,
    SteadyBlock,
    BlinkingUnderScore,
    SteadyUnderScore,
    BlinkingBar,
    SteadyBar,
}

/// What the hooks for a change of mode are told.
#[derive(Clone, Copy, Debug, PartialEq, Eq, Structural)]
pub struct LineModeSwitchCtx {
    /// The mode that the editor has taken.
    pub line_mode: LineMode,
}

/// The cursor shape that goes with a mode: a bar while inserting, a block in
/// normal mode.
pub open spec fn spec_style_of(mode: LineMode) -> CursorStyle {
    match mode {
        LineMode::Insert => CursorStyle::BlinkingBar,
        LineMode::Normal => CursorStyle::BlinkingBlock,
    }
}

/// What the terminal should do after a key was handled.
#[derive(Clone, Copy, Debug, PartialEq, Eq, Structural)]
pub enum Flow {
    /// Go on reading keys.
    Continue,
    /// The line is finished.
    Submit,
    /// End of input on an empty line: the shell should exit.
    Exit,
}

/// What handling one event came to.
#[derive(Debug)]
pub struct Step {
    /// How reading goes on.
    pub flow: Flow,
    /// Whether the terminal must start a new line.
    pub newline: bool,
    /// What the terminal must draw; present when reading goes on.
    pub frame: Option<Frame>,
}

/// How a read over a list of events ended.
#[derive(Debug)]
pub enum ReadEnd {
    /// A line was submitted: the whole statement.
    Submitted(String),
    /// End of input on an empty line.
    Exit,
    /// The events ran out before a line was submitted: the statement so far.
    Pending(String),
}

/// The outcome of a read over a list of events.
#[derive(Debug)]
pub struct ReadOutcome {
    /// How the read ended.
    pub end: ReadEnd,
    /// How many of the events were handled.
    pub consumed: usize,
}

/// The cursor shape that goes with a mode.
pub fn style_of(mode: LineMode) -> (style: CursorStyle)
    ensures
        style == spec_style_of(mode),
{
    match mode {
        LineMode::Insert => CursorStyle::BlinkingBar,
        LineMode::Normal => CursorStyle::BlinkingBlock,
    }
}

/// The modes that a list of announcements names, in order.
pub open spec fn switch_modes(v: Seq<LineModeSwitchCtx>) -> Seq<LineMode> {
    Seq::new(v.len(), |i: int| v[i].line_mode)
}

/// The most candidates that the menu is given.
pub const MAX_ITEMS: usize = 10;

/// Cuts a text at every space.
pub fn split_on_space(s: &str) -> (words: Vec<String>)
    ensures
        word_views(words@) == split_words(s@),
        words@.len() > 0,
{
    let n = s.unicode_len();
    let mut words: Vec<String> = Vec::new();
    let mut cur = String::new();
    let mut i: usize = 0;
    assert(s@.take(0) =~= Seq::<char>::empty());
    assert(word_views(words@).push(cur@) =~= split_words(s@.take(0)));
    while i < n
        invariant
            i <= n,
            n == s@.len(),
            word_views(words@).push(cur@) == split_words(s@.take(i as int)),
        decreases n - i,
    {
        let c = s.get_char(i);
        let ghost head = split_words(s@.take(i as int));
        assert(s@.take(i + 1).drop_last() =~= s@.take(i as int));
        assert(s@.take(i + 1).last() == c);
        assert(head.last() == cur@);
        assert(head.drop_last() =~= word_views(words@));
        if c == ' ' {
            let ghost before = word_views(words@);
            words.push(cur);
            assert(word_views(words@) =~= before.push(cur@));
            cur = String::new();
            assert(word_views(words@).push(cur@) =~= head.push(Seq::empty()));
        } else {
            let ghost word = cur@;
            let one = char_to_string(c);
            cur.append(one.as_str());
            assert(cur@ =~= word.push(c));
            assert(word_views(words@).push(cur@) =~= head.drop_last().push(head.last().push(c)));
        }
        i = i + 1;
    }
    assert(s@.take(i as int) =~= s@);
    let ghost before = word_views(words@);
    words.push(cur);
    assert(word_views(words@) =~= before.push(cur@));
    words
}

/// The menu entries for a list of candidates: the first ten, each under its
/// label.
pub fn entries_of(completions: &Vec<Completion>) -> (items: Vec<(String, Completion)>)
    ensures
        item_views(items@) == menu_entries(completion_views(completions@), spec_max_items()),
{
    let mut items: Vec<(String, Completion)> = Vec::new();
    let mut i: usize = 0;
    let ghost cands = completion_views(completions@);
    while i < completions.len() && i < MAX_ITEMS
        invariant
            i <= completions.len(),
            i <= MAX_ITEMS,
            cands == completion_views(completions@),
            items@.len() == i,
            forall|j: int|
                0 <= j < i ==> (#[trigger] items@[j]).0@ == cands[j].display && items@[j].1@
                    == cands[j],
        decreases completions.len() - i,
    {
        let c = completions[i].clone();
        items.push((c.display(), c));
        i = i + 1;
    }
    assert(item_views(items@) =~= menu_entries(cands, spec_max_items()));
    items
}

/// The state of one read of a line.
pub struct LineCtx {
    cb: Buffer,
    current_word: String,
    history_ind: HistoryInd,
    saved_line: String,
    mode: LineMode,
    /// The lines of the statement that were confirmed already.
    pub lines: String,
    cursor_style: CursorStyle,
    mode_switches: Vec<LineModeSwitchCtx>,
}

impl View for LineCtx {
    type V = CtxView;

    closed spec fn view(&self) -> CtxView {
        CtxView {
            buf: self.cb@,
            current_word: self.current_word@,
            history_ind: self.history_ind,
            saved_line: self.saved_line@,
            mode: self.mode,
            lines: self.lines@,
            cursor_style: self.cursor_style,
            switches: switch_modes(self.mode_switches@),
        }
    }
}

impl LineCtx {
    /// The state at the start of a read: an empty buffer in insert mode, at
    /// the prompt, with nothing confirmed and nothing announced.
    pub open spec fn spec_new() -> CtxView {
        CtxView {
            buf: BufView::empty(),
            current_word: Seq::empty(),
            history_ind: HistoryInd::Prompt,
            saved_line: Seq::empty(),
            mode: LineMode::Insert,
            lines: Seq::empty(),
            cursor_style: CursorStyle::DefaultUserShape,
            switches: Seq::empty(),
        }
    }

    /// The state at the start of a read.
    pub fn new() -> (ctx: LineCtx)
        ensures
            ctx@ == LineCtx::spec_new(),
    {
        let ctx = LineCtx {
            cb: Buffer::new(),
            current_word: String::new(),
            history_ind: HistoryInd::Prompt,
            saved_line: String::new(),
            mode: LineMode::Insert,
            lines: String::new(),
            cursor_style: CursorStyle::DefaultUserShape,
            mode_switches: Vec::new(),
        };
        assert(ctx@.switches =~= Seq::empty());
        ctx
    }

    /// The editing mode.
    pub fn mode(&self) -> (m: LineMode)
        ensures
            m == self@.mode,
    {
        self.mode
    }

    /// The live buffer.
    pub fn buffer(&self) -> (b: &Buffer)
        ensures
            b@ == self@.buf,
    {
        &self.cb
    }

    /// The text of the live buffer.
    pub fn text(&self) -> (s: String)
        ensures
            s@ == self@.buf.text,
    {
        self.cb.contents()
    }

    /// The cursor's index in the live buffer.
    pub fn cursor(&self) -> (n: usize)
        ensures
            n == self@.buf.cursor,
    {
        self.cb.cursor()
    }

    /// The word that the last completion request was made for.
    pub fn current_word(&self) -> (s: &String)
        ensures
            s@ == self@.current_word,
    {
        &self.current_word
    }

    /// Where the prompt stands in the history.
    pub fn history_ind(&self) -> (h: HistoryInd)
        ensures
            h == self@.history_ind,
    {
        self.history_ind
    }

    /// The buffer text from before history browsing began.
    pub fn saved_line(&self) -> (s: &String)
        ensures
            s@ == self@.saved_line,
    {
        &self.saved_line
    }

    /// The cursor shape asked of the terminal.
    pub fn cursor_style(&self) -> (c: CursorStyle)
        ensures
            c == self@.cursor_style,
    {
        self.cursor_style
    }

    /// Hands out the mode changes announced since the last call, oldest
    /// first, for the caller to run its hooks on.
    pub fn take_mode_switches(&mut self) -> (v: Vec<LineModeSwitchCtx>)
        ensures
            switch_modes(v@) == old(self)@.switches,
            final(self)@ == (CtxView { switches: Seq::empty(), ..old(self)@ }),
    {
        let mut out: Vec<LineModeSwitchCtx> = Vec::new();
        std::mem::swap(&mut out, &mut self.mode_switches);
        assert(self@.switches =~= Seq::empty());
        out
    }
}

/// The editor: the parts it is built from and the keys pending in normal
/// mode.
pub struct Line<M, C, H, B, G, K, P> {
    pub menu: M,
    pub completer: C,
    pub history: H,
    pub buffer_history: B,
    pub highlighter: G,
    pub keybinding: K,
    pub prompt: P,
    /// The keys typed in normal mode that are not yet a command.
    pub normal_keys: String,
}

impl<
    M: Menu,
    C: Completer,
    H: History,
    B: BufferHistory,
    G: Highlighter,
    K: Keybinding,
    P: Prompt,
> Line<M, C, H, B, G, K, P> {
    /// The parts that no key changes are the same in both editors: the
    /// completer, the history, the highlighter, the key bindings and the
    /// prompt.
    pub open spec fn same_parts(&self, other: &Self) -> bool {
        &&& self.completer == other.completer
        &&& self.history == other.history
        &&& self.highlighter == other.highlighter
        &&& self.keybinding == other.keybinding
        &&& self.prompt == other.prompt
    }

    /// Every part but the history is the same in both editors: a read may
    /// store its line in the history and leaves every other part as the last
    /// key left it.
    pub open spec fn same_parts_but_history(&self, other: &Self) -> bool {
        &&& self.completer == other.completer
        &&& self.highlighter == other.highlighter
        &&& self.keybinding == other.keybinding
        &&& self.prompt == other.prompt
    }

    /// The session that the editor and the state of a read make together.
    pub open spec fn session(&self, ctx: &LineCtx) -> Session {
        Session {
            ctx: ctx@,
            normal_keys: self.normal_keys@,
            menu: self.menu.model(),
            undo: self.buffer_history.model(),
            history: self.history.lines(),
        }
    }

    /// Takes normal mode and announces it.
    pub fn to_normal_mode(&mut self, ctx: &mut LineCtx)
        ensures
            *final(self) == *old(self),
            final(self).session(final(ctx)) == old(self).session(old(ctx)).switch_mode(
                LineMode::Normal,
            ),
    {
        self.to_mode(ctx, LineMode::Normal);
    }

    /// Takes insert mode and announces it.
    pub fn to_insert_mode(&mut self, ctx: &mut LineCtx)
        ensures
            *final(self) == *old(self),
            final(self).session(final(ctx)) == old(self).session(old(ctx)).switch_mode(
                LineMode::Insert,
            ),
    {
        self.to_mode(ctx, LineMode::Insert);
    }

    /// Takes a mode: sets the cursor shape that goes with it and records the
    /// announcement for the hooks.
    fn to_mode(&mut self, ctx: &mut LineCtx, mode: LineMode)
        ensures
            *final(self) == *old(self),
            final(self).session(final(ctx)) == old(self).session(old(ctx)).switch_mode(mode),
    {
        ctx.cursor_style = style_of(mode);
        ctx.mode = mode;
        ctx.mode_switches.push(LineModeSwitchCtx { line_mode: mode });
        assert(ctx@.switches =~= old(ctx)@.switches.push(mode));
    }

    /// The text of the whole statement: the confirmed lines and the buffer.
    pub fn get_full_command(&self, ctx: &LineCtx) -> (res: String)
        ensures
            res@ == self.session(ctx).full_command(),
    {
        let mut res = ctx.lines.clone();
        let cur = ctx.cb.contents();
        res.append(cur.as_str());
        res
    }

    /// Fills the buffer with the text that the history position stands for.
    pub fn update_history(&mut self, ctx: &mut LineCtx) -> (r: Result<(), LineError>)
        requires
            old(self).session(old(ctx)).wf(),
        ensures
            *final(self) == *old(self),
            (final(self).session(final(ctx)), r) == old(self).session(old(ctx)).update_history(),
            final(self).session(final(ctx)).wf(),
    {
        match ctx.history_ind {
            HistoryInd::Prompt => {
                ctx.cb.clear();
                let r = ctx.cb.insert(Location::Rel(0), ctx.saved_line.as_str());
                assert(ctx@.buf.text =~= ctx@.saved_line);
                r
            },
            HistoryInd::Line(i) => {
                match self.history.get(i) {
                    Some(item) => {
                        ctx.cb.clear();
                        let r = ctx.cb.insert(Location::Rel(0), item.as_str());
                        assert(r is Ok ==> ctx@.buf.text =~= item@);
                        r
                    },
                    None => {
                        proof {
                            assert(false);
                        }
                        Ok(())
                    },
                }
            },
        }
    }

    /// One step towards older history lines.
    pub fn history_up(&mut self, ctx: &mut LineCtx) -> (r: Result<(), LineError>)
        requires
            old(self).session(old(ctx)).wf(),
        ensures
            *final(self) == *old(self),
            (final(self).session(final(ctx)), r) == old(self).session(old(ctx)).history_up(),
            final(self).session(final(ctx)).wf(),
    {
        if ctx.history_ind == HistoryInd::Prompt {
            ctx.saved_line = ctx.cb.contents();
        }
        ctx.history_ind = ctx.history_ind.up(self.history.len());
        self.update_history(ctx)
    }

    /// Fills the menu from the candidates of a completion request and notes
    /// the word that the request was made for.
    pub fn populate_with(&mut self, ctx: &mut LineCtx, completions: &Vec<Completion>)
        requires
            old(self).session(old(ctx)).wf(),
        ensures
            final(self).same_parts(old(self)),
            final(self).session(final(ctx)) == old(self).session(old(ctx)).populate(
                completion_views(completions@),
            ),
            final(self).session(final(ctx)).wf(),
    {
        let args = self.request_words(ctx);
        ctx.current_word = args[args.len() - 1].clone();
        self.menu.set_items(entries_of(completions));
    }

    /// The words of the buffer text before the cursor, cut at spaces.
    fn request_words(&self, ctx: &LineCtx) -> (args: Vec<String>)
        requires
            ctx@.buf.wf(),
        ensures
            word_views(args@) == self.session(ctx).request(),
            args@.len() > 0,
    {
        let prefix = ctx.cb.prefix(ctx.cb.cursor());
        split_on_space(prefix.as_str())
    }

    /// Asks the completer about the text before the cursor and fills the
    /// menu with what it proposes.
    pub fn populate_completions(&mut self, ctx: &mut LineCtx)
        requires
            old(self).session(old(ctx)).wf(),
        ensures
            final(self).same_parts(old(self)),
            exists|cands: Seq<CompletionView>|
                {
                    &&& old(self).completer.offers(old(self).session(old(ctx)).request(), cands)
                    &&& final(self).session(final(ctx)) == old(self).session(
                        old(ctx),
                    ).populate(cands)
                },
            final(self).session(final(ctx)).wf(),
    {
        let completions = self.ask_completer(ctx);
        self.populate_with(ctx, &completions);
        assert(self.session(ctx) == old(self).session(old(ctx)).populate(
            completion_views(completions@),
        ));
    }

    /// The completer's candidates for the text before the cursor.
    pub fn ask_completer(&self, ctx: &LineCtx) -> (r: Vec<Completion>)
        requires
            ctx@.buf.wf(),
        ensures
            self.completer.offers(self.session(ctx).request(), completion_views(r@)),
    {
        let args = self.request_words(ctx);
        let comp_ctx = CompletionCtx::new(args);
        self.completer.complete(&comp_ctx)
    }

    /// Replaces the word that the last completion request was made for by
    /// `text`.
    pub fn replace_word(&mut self, ctx: &mut LineCtx, text: &str) -> (r: Result<(), LineError>)
        requires
            old(self).session(old(ctx)).wf(),
        ensures
            *final(self) == *old(self),
            (final(self).session(final(ctx)), r) == old(self).session(old(ctx)).replace_word(
                text@,
            ),
            final(self).session(final(ctx)).wf(),
    {
        let back = ctx.current_word.as_str().as_bytes().len();
        let width = display_width(ctx.current_word.as_str());
        self.replace_word_by(ctx, back, width, text)
    }

    /// Replaces the word before the cursor by `text`, for a word that was
    /// measured already: goes left by `back`, deletes `width` characters from
    /// there, forgets the current word and inserts `text`.
    pub fn replace_word_by(
        &mut self,
        ctx: &mut LineCtx,
        back: usize,
        width: usize,
        text: &str,
    ) -> (r: Result<(), LineError>)
        requires
            old(self).session(old(ctx)).wf(),
        ensures
            *final(self) == *old(self),
            (final(self).session(final(ctx)), r) == old(self).session(old(ctx)).replace_word_by(
                back as nat,
                width as nat,
                text@,
            ),
            final(self).session(final(ctx)).wf(),
    {
        if back > isize::MAX as usize {
            return Err(LineError::InvalidRelativeLocation(isize::MIN));
        }
        match ctx.cb.move_cursor(Location::Rel(-(back as isize))) {
            Ok(()) => {},
            Err(e) => {
                return Err(e);
            },
        }
        if width > isize::MAX as usize {
            return Err(LineError::InvalidRelativeLocation(isize::MAX));
        }
        match ctx.cb.delete(Location::Rel(0), Location::Rel(width as isize)) {
            Ok(()) => {},
            Err(e) => {
                return Err(e);
            },
        }
        ctx.current_word = String::new();
        ctx.cb.insert(Location::Rel(0), text)
    }

    /// Accepts the highlighted candidate: hides the menu and replaces the
    /// current word by the candidate's text.
    pub fn accept_completion(&mut self, ctx: &mut LineCtx) -> (r: Result<(), LineError>)
        requires
            old(self).session(old(ctx)).wf(),
        ensures
            final(self).same_parts(old(self)),
            (final(self).session(final(ctx)), r) == old(self).session(old(ctx)).accept_completion(),
            final(self).session(final(ctx)).wf(),
    {
        match self.menu.accept() {
            Some(accepted) => {
                let text = accepted.accept();
                self.replace_word(ctx, text.as_str())
            },
            None => Ok(()),
        }
    }

    /// Takes the answer to a completion request: fills and shows the menu,
    /// and accepts a single candidate at once.
    pub fn complete_with(&mut self, ctx: &mut LineCtx, completions: &Vec<Completion>) -> (r:
        Result<(), LineError>)
        requires
            old(self).session(old(ctx)).wf(),
        ensures
            final(self).same_parts(old(self)),
            (final(self).session(final(ctx)), r) == old(self).session(old(ctx)).complete_with(
                completion_views(completions@),
            ),
            final(self).session(final(ctx)).wf(),
    {
        self.populate_with(ctx, completions);
        self.menu.activate();
        if self.menu.items().len() == 1 {
            self.accept_completion(ctx)
        } else {
            Ok(())
        }
    }

    /// Handles a key in insert mode.
    ///
    /// The completion key asks the completer and goes on as `complete_with`
    /// says for what the completer proposed; every other key does what
    /// `Session::insert_key` says.
    pub fn handle_insert_keys(&mut self, ctx: &mut LineCtx, event: Event) -> (r: Result<
        (),
        LineError,
    >)
        requires
            old(self).session(old(ctx)).wf(),
        ensures
            final(self).same_parts(old(self)),
            final(self).session(final(ctx)).wf(),
            if Session::is_completion_key(event) {
                exists|cands: Seq<CompletionView>|
                    {
                        &&& old(self).completer.offers(
                            old(self).session(old(ctx)).request(),
                            cands,
                        )
                        &&& (final(self).session(final(ctx)), r) == old(self).session(
                            old(ctx),
                        ).complete_with(cands)
                    }
            } else {
                (final(self).session(final(ctx)), r) == old(self).session(old(ctx)).insert_key(
                    event,
                )
            },
    {
        let k = match event {
            Event::Key(k) => k,
            Event::Other => {
                return Ok(());
            },
        };
        let plain = k.modifiers == MOD_NONE;
        let control = k.modifiers == MOD_CONTROL;
        if plain && k.code == KeyCode::Tab {
            let completions = self.ask_completer(ctx);
            let r = self.complete_with(ctx, &completions);
            assert((self.session(ctx), r) == old(self).session(old(ctx)).complete_with(
                completion_views(completions@),
            ));
            r
        } else if plain && k.code == KeyCode::Left {
            if ctx.cb.cursor() > 0 {
                ctx.cb.move_cursor(Location::Rel(-1))
            } else {
                Ok(())
            }
        } else if plain && k.code == KeyCode::Right {
            if ctx.cb.cursor() < ctx.cb.len() {
                ctx.cb.move_cursor(Location::Rel(1))
            } else {
                Ok(())
            }
        } else if plain && k.code == KeyCode::Down {
            self.history_down(ctx)
        } else if plain && k.code == KeyCode::Up {
            self.history_up(ctx)
        } else if k.code == KeyCode::Esc {
            self.to_normal_mode(ctx);
            self.buffer_history.add(&ctx.cb);
            Ok(())
        } else if (plain && k.code == KeyCode::Backspace) || (control && k.code == KeyCode::Char(
            'h',
        )) {
            if ctx.cb.len() > 0 && ctx.cb.cursor() != 0 {
                ctx.cb.delete(Location::Rel(-1), Location::Rel(0))
            } else {
                Ok(())
            }
        } else if control && k.code == KeyCode::Char('w') {
            if ctx.cb.len() > 0 && ctx.cb.cursor() != 0 {
                let start = motion_to_loc(&ctx.cb, Motion::BackWord);
                ctx.cb.delete(start, Location::Rel(0))
            } else {
                Ok(())
            }
        } else {
            match k.code {
                KeyCode::Char(c) => {
                    let text = char_to_string(c);
                    ctx.cb.insert(Location::Rel(0), text.as_str())
                },
                _ => Ok(()),
            }
        }
    }

    /// Executes a parsed action once in normal mode.
    pub fn normal_step(&mut self, ctx: &mut LineCtx, action: &Action) -> (r: Result<
        (),
        LineError,
    >)
        requires
            old(self).session(old(ctx)).wf(),
        ensures
            final(self).same_parts(old(self)),
            (final(self).session(final(ctx)), r) == old(self).session(old(ctx)).normal_step(
                *action,
            ),
            final(self).session(final(ctx)).wf(),
    {
        let applied = match execute_vi(&mut ctx.cb, action) {
            Ok(mode) => {
                self.to_mode(ctx, mode);
                true
            },
            Err(_) => false,
        };
        match action {
            Action::Undo => {
                self.buffer_history.prev(&mut ctx.cb);
                Ok(())
            },
            Action::Redo => {
                self.buffer_history.next(&mut ctx.cb);
                Ok(())
            },
            Action::Move(m) => {
                match m {
                    Motion::Up => self.history_up(ctx),
                    Motion::Down => self.history_down(ctx),
                    _ => Ok(()),
                }
            },
            _ => {
                if applied {
                    self.buffer_history.add(&ctx.cb);
                }
                Ok(())
            },
        }
    }

    /// Executes a parsed action `repeat` times, stopping at the first error.
    pub fn repeat_action(&mut self, ctx: &mut LineCtx, action: &Action, repeat: u32) -> (r:
        Result<(), LineError>)
        requires
            old(self).session(old(ctx)).wf(),
        ensures
            final(self).same_parts(old(self)),
            (final(self).session(final(ctx)), r) == old(self).session(old(ctx)).normal_repeat(
                *action,
                repeat as nat,
            ),
            final(self).session(final(ctx)).wf(),
    {
        let ghost start = self.session(ctx);
        let mut i: u32 = 0;
        while i < repeat
            invariant
                i <= repeat,
                self.session(ctx).wf(),
                start == old(self).session(old(ctx)),
                self.same_parts(old(self)),
                start.normal_repeat(*action, repeat as nat) == self.session(ctx).normal_repeat(
                    *action,
                    (repeat - i) as nat,
                ),
            decreases repeat - i,
        {
            let ghost cur = self.session(ctx);
            let step = self.normal_step(ctx, action);
            assert(cur.normal_repeat(*action, (repeat - i) as nat) == if step is Err {
                (self.session(ctx), step)
            } else {
                self.session(ctx).normal_repeat(*action, (repeat - i - 1) as nat)
            });
            match step {
                Ok(()) => {},
                Err(e) => {
                    return Err(e);
                },
            }
            i = i + 1;
        }
        Ok(())
    }

    /// Handles a key in normal mode, as `Session::normal_key` says.
    pub fn handle_normal_keys(&mut self, ctx: &mut LineCtx, event: Event) -> (r: Result<
        (),
        LineError,
    >)
        requires
            old(self).session(old(ctx)).wf(),
        ensures
            final(self).same_parts(old(self)),
            (final(self).session(final(ctx)), r) == old(self).session(old(ctx)).normal_key(event),
            final(self).session(final(ctx)).wf(),
    {
        let k = match event {
            Event::Key(k) => k,
            Event::Other => {
                return Ok(());
            },
        };
        match k.code {
            KeyCode::Esc => {
                self.normal_keys = String::new();
                Ok(())
            },
            KeyCode::Char(c) => {
                let one = char_to_string(c);
                self.normal_keys.append(one.as_str());
                assert(self.normal_keys@ =~= old(self).normal_keys@.push(c));
                match parse_keys(self.normal_keys.as_str()) {
                    Some(cmd) => {
                        self.normal_keys = String::new();
                        self.repeat_action(ctx, &cmd.action, cmd.repeat)
                    },
                    None => Ok(()),
                }
            },
            _ => Ok(()),
        }
    }

    /// Handles a key while the menu is shown, as `Session::menu_key` says.
    pub fn handle_menu_keys(&mut self, ctx: &mut LineCtx, event: Event) -> (r: Result<
        (),
        LineError,
    >)
        requires
            old(self).session(old(ctx)).wf(),
        ensures
            final(self).same_parts(old(self)),
            (final(self).session(final(ctx)), r) == old(self).session(old(ctx)).menu_key(
                event,
                M::spec_next(old(self).menu.model()),
                M::spec_previous(old(self).menu.model()),
            ),
            final(self).session(final(ctx)).wf(),
    {
        let k = match event {
            Event::Key(k) => k,
            Event::Other => {
                self.menu.disactivate();
                return self.handle_mode_keys(ctx, event);
            },
        };
        let plain = k.modifiers == MOD_NONE;
        if plain && k.code == KeyCode::Enter {
            self.accept_completion(ctx)
        } else if plain && k.code == KeyCode::Esc {
            self.menu.disactivate();
            Ok(())
        } else if (k.code == KeyCode::Tab && k.modifiers == MOD_SHIFT) || (plain && k.code
            == KeyCode::Up) {
            self.menu.previous();
            Ok(())
        } else if plain && (k.code == KeyCode::Tab || k.code == KeyCode::Down) {
            self.menu.next();
            Ok(())
        } else {
            self.menu.disactivate();
            self.handle_mode_keys(ctx, event)
        }
    }

    /// Handles a key in the current mode, the completion key apart.
    fn handle_mode_keys(&mut self, ctx: &mut LineCtx, event: Event) -> (r: Result<(), LineError>)
        requires
            old(self).session(old(ctx)).wf(),
            !Session::is_completion_key(event),
        ensures
            final(self).same_parts(old(self)),
            (final(self).session(final(ctx)), r) == old(self).session(old(ctx)).mode_key(event),
            final(self).session(final(ctx)).wf(),
    {
        match ctx.mode {
            LineMode::Insert => self.handle_insert_keys(ctx, event),
            LineMode::Normal => self.handle_normal_keys(ctx, event),
        }
    }

    /// Whether the statement typed so far is still open.
    pub fn needs_multiline(&self, ctx: &LineCtx) -> (r: bool)
        requires
            ctx@.buf.wf(),
        ensures
            r == spec_needs_multiline(ctx@.lines, ctx@.buf.text),
    {
        needs_multiline(ctx.lines.as_str(), &ctx.cb)
    }

    /// Handles the keys that work in every mode, as `Session::standard_key`
    /// says: returns how reading goes on and whether the terminal must start
    /// a new line.
    pub fn handle_standard_keys(&mut self, ctx: &mut LineCtx, event: Event) -> (out: (Flow, bool))
        requires
            old(self).session(old(ctx)).wf(),
        ensures
            final(self).same_parts(old(self)),
            (final(self).session(final(ctx)), out.0, out.1) == old(self).session(
                old(ctx),
            ).standard_key(event),
            final(self).session(final(ctx)).wf(),
    {
        let k = match event {
            Event::Key(k) => k,
            Event::Other => {
                return (Flow::Continue, false);
            },
        };
        let plain = k.modifiers == MOD_NONE;
        let control = k.modifiers == MOD_CONTROL;
        if (plain && k.code == KeyCode::Enter) || (control && k.code == KeyCode::Char('j')) {
            if self.menu.is_active() {
                return (Flow::Continue, false);
            }
            self.buffer_history.clear();
            if self.needs_multiline(ctx) {
                let cur = ctx.cb.contents();
                ctx.lines.append(cur.as_str());
                ctx.lines.append("\n");
                ctx.cb.clear();
                proof {
                    reveal_strlit("\n");
                    assert("\n"@ =~= seq!['\n']);
                }
                (Flow::Continue, true)
            } else {
                (Flow::Submit, true)
            }
        } else if control && k.code == KeyCode::Char('d') {
            if ctx.cb.len() == 0 {
                (Flow::Exit, false)
            } else {
                self.buffer_history.clear();
                (Flow::Submit, true)
            }
        } else {
            (Flow::Continue, false)
        }
    }

    /// Appends to a highlighted statement what the menu offers behind the
    /// cursor, in the style of a suggestion.
    pub fn add_suggestion(&self, ctx: &LineCtx, styled: &mut StyledBuf)
        ensures
            final(styled)@ == with_suggestion(old(styled)@, self.session(ctx).suggestion()),
    {
        if self.menu.is_active() {
            match self.menu.current_selection() {
                Some(selection) => {
                    let text = selection.accept();
                    let n = text.as_str().unicode_len();
                    let w = ctx.current_word.as_str().unicode_len();
                    let from = if w <= n {
                        w
                    } else {
                        n
                    };
                    let rest = text.as_str().substring_char(from, n);
                    assert(rest@ =~= text@.skip(from as int));
                    styled.push(rest, Style::suggestion());
                },
                None => {},
            }
        }
    }

    /// Tells whether the keys that work in every mode keep the event to
    /// themselves: enter and control-j, but for plain enter while the menu is
    /// shown.
    pub fn keeps_key(&self, ctx: &LineCtx, event: Event) -> (kept: bool)
        ensures
            kept == self.session(ctx).keeps_key(event),
    {
        match event {
            Event::Key(k) => {
                let enter = k.modifiers == MOD_NONE && k.code == KeyCode::Enter;
                let control_j = k.modifiers == MOD_CONTROL && k.code == KeyCode::Char('j');
                (enter || control_j) && !(enter && self.menu.is_active())
            },
            Event::Other => false,
        }
    }

    /// Whether `f` is what the terminal must draw for the session: the whole
    /// statement as the highlighter may style it, the menu's suggestion
    /// behind it, and the cursor's index in the buffer.
    pub open spec fn draws(&self, ctx: &LineCtx, f: Frame) -> bool {
        &&& f.cursor == ctx@.buf.cursor
        &&& exists|base: Seq<(Seq<char>, Style)>|
            {
                &&& #[trigger] self.highlighter.styles(
                    self.session(ctx).full_command(),
                    byte_len(ctx@.lines),
                    base,
                )
                &&& f.styled@ == with_suggestion(base, self.session(ctx).suggestion())
            }
    }

    /// What the terminal must draw for the session.
    pub fn frame(&self, ctx: &LineCtx) -> (f: Frame)
        ensures
            self.draws(ctx, f),
    {
        let res = self.get_full_command(ctx);
        let offset = ctx.lines.as_str().as_bytes().len();
        let mut styled = self.highlighter.highlight(res.as_str(), offset);
        let ghost base = styled@;
        self.add_suggestion(ctx, &mut styled);
        let f = Frame { styled, cursor: ctx.cb.cursor() };
        assert(self.highlighter.styles(
            self.session(ctx).full_command(),
            byte_len(ctx@.lines),
            base,
        ));
        f
    }

    /// What `handle_event` promises of its result `r` and of the editor
    /// `after` it, for an event handled in the session `before` with the
    /// completer answering `cands` if it was asked.
    ///
    /// The session went through the event as `Session::step` says. Where
    /// reading goes on, the step comes with the frame to draw; an error is
    /// passed on.
    pub open spec fn handled(
        before: Session,
        after: &Self,
        ctx: &LineCtx,
        event: Event,
        cands: Seq<CompletionView>,
        r: Result<Step, LineError>,
    ) -> bool {
        &&& before.answered(after.completer, after.keybinding, event, cands)
        &&& after.session(ctx) == before.step::<M, K>(after.keybinding, event, cands).0
        &&& match before.step::<M, K>(after.keybinding, event, cands).1 {
            Ok((flow, newline)) => {
                &&& r matches Ok(step)
                &&& step.flow == flow
                &&& step.newline == newline
                &&& match step.frame {
                    Some(f) => flow == Flow::Continue && after.draws(ctx, f),
                    None => flow != Flow::Continue,
                }
            },
            Err(e) => r == Err::<Step, LineError>(e),
        }
    }

    /// Handles one event from start to end, as `Session::step` says, and
    /// tells the caller what to do next: start a new terminal line, draw a
    /// frame, go on reading, submit or exit.
    pub fn handle_event(&mut self, ctx: &mut LineCtx, event: Event) -> (r: Result<
        Step,
        LineError,
    >)
        requires
            old(self).session(old(ctx)).wf(),
        ensures
            final(self).same_parts(old(self)),
            final(self).session(final(ctx)).wf(),
            exists|cands: Seq<CompletionView>| #[trigger]
                Self::handled(
                    old(self).session(old(ctx)),
                    final(self),
                    final(ctx),
                    event,
                    cands,
                    r,
                ),
    {
        let ghost before = self.session(ctx);
        let ghost none = Seq::<CompletionView>::empty();
        match event {
            Event::Key(k) => {
                if self.keybinding.handle_key_event(k) {
                    let r = Ok(Step { flow: Flow::Submit, newline: false, frame: None });
                    assert(Self::handled(before, self, ctx, event, none, r));
                    return r;
                }
            },
            Event::Other => {},
        }
        let kept = self.keeps_key(ctx, event);
        let (flow, newline) = self.handle_standard_keys(ctx, event);
        if flow != Flow::Continue {
            let r = Ok(Step { flow, newline, frame: None });
            assert(Self::handled(before, self, ctx, event, none, r));
            return r;
        }
        if kept {
            let frame = self.frame(ctx);
            let r = Ok(Step { flow, newline, frame: Some(frame) });
            assert(Self::handled(before, self, ctx, event, none, r));
            return r;
        }
        let ghost mid = self.session(ctx);
        let ghost mut cands = none;
        let done = if self.menu.is_active() {
            self.handle_menu_keys(ctx, event)
        } else {
            match ctx.mode {
                LineMode::Insert => {
                    let done = self.handle_insert_keys(ctx, event);
                    proof {
                        if Session::is_completion_key(event) {
                            cands = choose|cands: Seq<CompletionView>|
                                {
                                    &&& self.completer.offers(mid.request(), cands)
                                    &&& (self.session(ctx), done) == mid.complete_with(cands)
                                };
                        }
                    }
                    done
                },
                LineMode::Normal => self.handle_normal_keys(ctx, event),
            }
        };
        assert((self.session(ctx), done) == mid.dispatch::<M>(event, cands));
        assert(before.asks(self.keybinding, event) ==> mid == before);
        match done {
            Ok(()) => {
                let frame = self.frame(ctx);
                let r = Ok(Step { flow: Flow::Continue, newline, frame: Some(frame) });
                assert(Self::handled(before, self, ctx, event, cands, r));
                r
            },
            Err(e) => {
                assert(Self::handled(before, self, ctx, event, cands, Err(e)));
                Err(e)
            },
        }
    }

    /// Ends a read: hands out the whole statement and stores it in the
    /// history unless it is empty.
    pub fn finish(&mut self, ctx: LineCtx) -> (res: String)
        ensures
            (final(self).history.lines(), res@) == old(self).session(&ctx).finish(),
            final(self).menu == old(self).menu,
            final(self).buffer_history == old(self).buffer_history,
            final(self).normal_keys == old(self).normal_keys,
            final(self).same_parts_but_history(old(self)),
    {
        let res = self.get_full_command(&ctx);
        if res.as_str().unicode_len() > 0 {
            self.history.add(res.clone());
        }
        res
    }

    /// The session at the start of a read with this editor: a fresh state of
    /// the read and no snapshot, with the menu, the pending keys and the
    /// history as the editor holds them.
    pub open spec fn start(&self) -> Session {
        Session {
            ctx: LineCtx::spec_new(),
            normal_keys: self.normal_keys@,
            menu: self.menu.model(),
            undo: UndoView::empty(),
            history: self.history.lines(),
        }
    }

    /// What `read_line` promises of its result `r` and of the editor
    /// afterwards, for a read that began with the editor `before` and in
    /// which each completion request was answered as `answers` says.
    ///
    /// The handled events are a prefix of the events given, and the last of
    /// them is the first that ended the read, if one did: reading went on
    /// after every event before it. Every answer is one that the completer
    /// may give, and the session went through the events as `Session::run`
    /// says. If they ran out, the
    /// statement so far is handed back. If one of them submitted, the read
    /// ended there as `Session::finish` says. End of input on an empty line
    /// and errors are passed on. The menu, the snapshots and the pending keys
    /// stay as the last event left them.
    pub open spec fn read_as(
        before: &Self,
        after: &Self,
        events: Seq<Event>,
        answers: Seq<Seq<CompletionView>>,
        r: Result<ReadOutcome, LineError>,
    ) -> bool {
        &&& answers.len() <= events.len()
        &&& answers.len() > 0 ==> before.start().run::<M, K>(
            before.keybinding,
            events.take(answers.len() - 1),
            answers.drop_last(),
        ).1 == Ok::<Flow, LineError>(Flow::Continue)
        &&& before.start().all_answered::<M, C, K>(
            before.completer,
            before.keybinding,
            events.take(answers.len() as int),
            answers,
        )
        &&& {
            let (last, end) = before.start().run::<M, K>(
                before.keybinding,
                events.take(answers.len() as int),
                answers,
            );
            &&& after.menu.model() == last.menu
            &&& after.buffer_history.model() == last.undo
            &&& after.normal_keys@ == last.normal_keys
            &&& match end {
                Ok(Flow::Continue) => {
                    &&& answers.len() == events.len()
                    &&& r matches Ok(out)
                    &&& out.consumed == events.len()
                    &&& out.end matches ReadEnd::Pending(text)
                    &&& text@ == last.full_command()
                    &&& after.history.lines() == last.history
                },
                Ok(Flow::Submit) => {
                    &&& r matches Ok(out)
                    &&& out.consumed == answers.len()
                    &&& out.end matches ReadEnd::Submitted(text)
                    &&& (after.history.lines(), text@) == last.finish()
                },
                Ok(Flow::Exit) => {
                    &&& r matches Ok(out)
                    &&& out.consumed == answers.len()
                    &&& out.end is Exit
                    &&& after.history.lines() == last.history
                },
                Err(e) => r == Err::<ReadOutcome, LineError>(e) && after.history.lines()
                    == last.history,
            }
        }
    }

    /// Reads one line from events that were read already, in order: starts a
    /// session without snapshots, handles event after event, and stops at the
    /// first one that submits, asks to exit or fails. A submitted statement
    /// is stored in the history unless it is empty.
    pub fn read_line(&mut self, events: &Vec<Event>) -> (r: Result<ReadOutcome, LineError>)
        ensures
            exists|answers: Seq<Seq<CompletionView>>| #[trigger]
                Self::read_as(old(self), final(self), events@, answers, r),
            final(self).same_parts_but_history(old(self)),
            final(self).buffer_history.model().wf(),
    {
        self.buffer_history.clear();
        let mut ctx = LineCtx::new();
        let ghost start = self.start();
        let ghost mut answers: Seq<Seq<CompletionView>> = Seq::empty();
        let mut i: usize = 0;
        proof {
            assert(events@.take(0) =~= Seq::<Event>::empty());
        }
        while i < events.len()
            invariant
                i <= events.len(),
                answers.len() == i,
                start == old(self).start(),
                self.session(&ctx).wf(),
                self.same_parts(old(self)),
                i > 0 ==> start.run::<M, K>(
                    self.keybinding,
                    events@.take(i - 1),
                    answers.drop_last(),
                ).1 == Ok::<Flow, LineError>(Flow::Continue),
                start.all_answered::<M, C, K>(
                    self.completer,
                    self.keybinding,
                    events@.take(i as int),
                    answers,
                ),
                start.run::<M, K>(self.keybinding, events@.take(i as int), answers) == (
                    self.session(&ctx),
                    Ok::<Flow, LineError>(Flow::Continue),
                ),
            decreases events.len() - i,
        {
            let ghost cur = self.session(&ctx);
            let r = self.handle_event(&mut ctx, events[i]);
            proof {
                let cands = choose|cands: Seq<CompletionView>| #[trigger]
                    Self::handled(cur, self, &ctx, events@[i as int], cands, r);
                let longer = answers.push(cands);
                assert(events@.take(i + 1).drop_last() =~= events@.take(i as int));
                assert(events@.take(i + 1).last() == events@[i as int]);
                assert(longer.drop_last() =~= answers);
                assert(events@.take(i + 1 - 1) =~= events@.take(i as int));
                answers = longer;
            }
            match r {
                Err(e) => {
                    proof {
                        assert(Self::read_as(old(self), self, events@, answers, Err(e)));
                    }
                    return Err(e);
                },
                Ok(step) => {
                    match step.flow {
                        Flow::Continue => {},
                        Flow::Submit => {
                            let ghost last = self.session(&ctx);
                            let text = self.finish(ctx);
                            let end = ReadEnd::Submitted(text);
                            let out = ReadOutcome { end, consumed: i + 1 };
                            proof {
                                assert(Self::read_as(old(self), self, events@, answers, Ok(out)));
                            }
                            return Ok(out);
                        },
                        Flow::Exit => {
                            let out = ReadOutcome { end: ReadEnd::Exit, consumed: i + 1 };
                            proof {
                                assert(Self::read_as(old(self), self, events@, answers, Ok(out)));
                            }
                            return Ok(out);
                        },
                    }
                },
            }
            i = i + 1;
        }
        let text = self.get_full_command(&ctx);
        let out = ReadOutcome { end: ReadEnd::Pending(text), consumed: i };
        proof {
            assert(events@.take(i as int) =~= events@);
            assert(Self::read_as(old(self), self, events@, answers, Ok(out)));
        }
        Ok(out)
    }

    /// One step towards newer history lines.
    pub fn history_down(&mut self, ctx: &mut LineCtx) -> (r: Result<(), LineError>)
        requires
            old(self).session(old(ctx)).wf(),
        ensures
            *final(self) == *old(self),
            (final(self).session(final(ctx)), r) == old(self).session(old(ctx)).history_down(),
            final(self).session(final(ctx)).wf(),
    {
        ctx.history_ind = ctx.history_ind.down();
        self.update_history(ctx)
    }
}

/// The editor with every part in its default form.
pub type DefaultLine = Line<
    DefaultMenu,
    DefaultCompleter,
    DefaultHistory,
    DefaultBufferHistory,
    DefaultHighlighter,
    DefaultKeybinding,
    DefaultPrompt,
>;

/// Puts an editor together part by part.
pub struct LineBuilder<M, C, H, B, G, K, P> {
    pub menu: M,
    pub completer: C,
    pub history: H,
    pub buffer_history: B,
    pub highlighter: G,
    pub keybinding: K,
    pub prompt: P,
}

impl LineBuilder<
    DefaultMenu,
    DefaultCompleter,
    DefaultHistory,
    DefaultBufferHistory,
    DefaultHighlighter,
    DefaultKeybinding,
    DefaultPrompt,
> {
    /// A builder with every part in its default form: an empty hidden menu,
    /// a completer without words, an empty history, no snapshots and no key
    /// bindings.
    pub fn new() -> (b: Self)
        ensures
            b.menu.model() == (MenuView { items: Seq::empty(), cursor: 0, active: false }),
            b.completer.words() == Seq::<Seq<char>>::empty(),
            b.history.lines() == Seq::<Seq<char>>::empty(),
            b.buffer_history.model() == UndoView::empty(),
            b.keybinding.bindings() == Seq::<KeyEvent>::empty(),
    {
        LineBuilder {
            menu: DefaultMenu::new(),
            completer: DefaultCompleter::new(),
            history: DefaultHistory::new(),
            buffer_history: DefaultBufferHistory::new(),
            highlighter: DefaultHighlighter::new(),
            keybinding: DefaultKeybinding::new(),
            prompt: DefaultPrompt::new(),
        }
    }
}

impl Default for LineBuilder<
    DefaultMenu,
    DefaultCompleter,
    DefaultHistory,
    DefaultBufferHistory,
    DefaultHighlighter,
    DefaultKeybinding,
    DefaultPrompt,
> {
    fn default() -> (b: Self)
        ensures
            b.menu.model() == (MenuView { items: Seq::empty(), cursor: 0, active: false }),
            b.completer.words() == Seq::<Seq<char>>::empty(),
            b.history.lines() == Seq::<Seq<char>>::empty(),
            b.buffer_history.model() == UndoView::empty(),
            b.keybinding.bindings() == Seq::<KeyEvent>::empty(),
    {
        LineBuilder::new()
    }
}

impl<M, C, H, B, G, K, P> LineBuilder<M, C, H, B, G, K, P> {
    /// The same builder with another menu.
    pub fn with_menu<M2: Menu>(self, menu: M2) -> (b: LineBuilder<M2, C, H, B, G, K, P>)
        ensures
            b == (LineBuilder {
                menu,
                completer: self.completer,
                history: self.history,
                buffer_history: self.buffer_history,
                highlighter: self.highlighter,
                keybinding: self.keybinding,
                prompt: self.prompt,
            }),
    {
        LineBuilder {
            menu,
            completer: self.completer,
            history: self.history,
            buffer_history: self.buffer_history,
            highlighter: self.highlighter,
            keybinding: self.keybinding,
            prompt: self.prompt,
        }
    }

    /// The same builder with another completer.
    pub fn with_completer<C2: Completer>(self, completer: C2) -> (b: LineBuilder<
        M,
        C2,
        H,
        B,
        G,
        K,
        P,
    >)
        ensures
            b == (LineBuilder {
                menu: self.menu,
                completer,
                history: self.history,
                buffer_history: self.buffer_history,
                highlighter: self.highlighter,
                keybinding: self.keybinding,
                prompt: self.prompt,
            }),
    {
        LineBuilder {
            menu: self.menu,
            completer,
            history: self.history,
            buffer_history: self.buffer_history,
            highlighter: self.highlighter,
            keybinding: self.keybinding,
            prompt: self.prompt,
        }
    }

    /// The same builder with another history.
    pub fn with_history<H2: History>(self, history: H2) -> (b: LineBuilder<M, C, H2, B, G, K, P>)
        ensures
            b == (LineBuilder {
                menu: self.menu,
                completer: self.completer,
                history,
                buffer_history: self.buffer_history,
                highlighter: self.highlighter,
                keybinding: self.keybinding,
                prompt: self.prompt,
            }),
    {
        LineBuilder {
            menu: self.menu,
            completer: self.completer,
            history,
            buffer_history: self.buffer_history,
            highlighter: self.highlighter,
            keybinding: self.keybinding,
            prompt: self.prompt,
        }
    }

    /// The same builder with another highlighter.
    pub fn with_highlighter<G2: Highlighter>(self, highlighter: G2) -> (b: LineBuilder<
        M,
        C,
        H,
        B,
        G2,
        K,
        P,
    >)
        ensures
            b == (LineBuilder {
                menu: self.menu,
                completer: self.completer,
                history: self.history,
                buffer_history: self.buffer_history,
                highlighter,
                keybinding: self.keybinding,
                prompt: self.prompt,
            }),
    {
        LineBuilder {
            menu: self.menu,
            completer: self.completer,
            history: self.history,
            buffer_history: self.buffer_history,
            highlighter,
            keybinding: self.keybinding,
            prompt: self.prompt,
        }
    }

    /// The same builder with other key bindings.
    pub fn with_keybinding<K2: Keybinding>(self, keybinding: K2) -> (b: LineBuilder<
        M,
        C,
        H,
        B,
        G,
        K2,
        P,
    >)
        ensures
            b == (LineBuilder {
                menu: self.menu,
                completer: self.completer,
                history: self.history,
                buffer_history: self.buffer_history,
                highlighter: self.highlighter,
                keybinding,
                prompt: self.prompt,
            }),
    {
        LineBuilder {
            menu: self.menu,
            completer: self.completer,
            history: self.history,
            buffer_history: self.buffer_history,
            highlighter: self.highlighter,
            keybinding,
            prompt: self.prompt,
        }
    }

    /// The same builder with another prompt.
    pub fn with_prompt<P2: Prompt>(self, prompt: P2) -> (b: LineBuilder<M, C, H, B, G, K, P2>)
        ensures
            b == (LineBuilder {
                menu: self.menu,
                completer: self.completer,
                history: self.history,
                buffer_history: self.buffer_history,
                highlighter: self.highlighter,
                keybinding: self.keybinding,
                prompt,
            }),
    {
        LineBuilder {
            menu: self.menu,
            completer: self.completer,
            history: self.history,
            buffer_history: self.buffer_history,
            highlighter: self.highlighter,
            keybinding: self.keybinding,
            prompt,
        }
    }

    /// The editor made of the builder's parts, with no key pending.
    pub fn build(self) -> (line: Line<M, C, H, B, G, K, P>)
        ensures
            line.menu == self.menu,
            line.completer == self.completer,
            line.history == self.history,
            line.buffer_history == self.buffer_history,
            line.highlighter == self.highlighter,
            line.keybinding == self.keybinding,
            line.prompt == self.prompt,
            line.normal_keys@ == Seq::<char>::empty(),
    {
        Line {
            menu: self.menu,
            completer: self.completer,
            history: self.history,
            buffer_history: self.buffer_history,
            highlighter: self.highlighter,
            keybinding: self.keybinding,
            prompt: self.prompt,
            normal_keys: String::new(),
        }
    }
}

impl Default for Line<
    DefaultMenu,
    DefaultCompleter,
    DefaultHistory,
    DefaultBufferHistory,
    DefaultHighlighter,
    DefaultKeybinding,
    DefaultPrompt,
> {
    fn default() -> (line: Self)
        ensures
            line.start().wf(),
            line.start().history == Seq::<Seq<char>>::empty(),
            line.start().menu == (MenuView { items: Seq::empty(), cursor: 0, active: false }),
            line.buffer_history.model() == UndoView::empty(),
            line.completer.words() == Seq::<Seq<char>>::empty(),
            line.keybinding.bindings() == Seq::<KeyEvent>::empty(),
            line.start().normal_keys == Seq::<char>::empty(),
    {
        LineBuilder::new().build()
    }
}

} // verus!
