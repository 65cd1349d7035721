use shrs_line::buffer::Buffer;
use shrs_line::buffer_history::{BufferHistory, DefaultBufferHistory};
use shrs_line::completion::{
    starts_with, Completer, Completion, CompletionCtx, DefaultCompleter,
};
use shrs_line::event::{KeyCode, KeyEvent, MOD_CONTROL, MOD_NONE};
use shrs_line::highlight::{DefaultHighlighter, Highlighter};
use shrs_line::history::{DefaultHistory, History};
use shrs_line::keybinding::{DefaultKeybinding, Keybinding};
use shrs_line::line::{style_of, CursorStyle, LineCtx, LineMode};
use shrs_line::menu::{DefaultMenu, Menu};
use shrs_line::painter::{Color, Style, StyledBuf};
use shrs_line::prompt::{DefaultPrompt, Prompt};
use shrs_utils::Location;

fn buffer(text: &str, cursor: usize) -> Buffer {
    let mut b = Buffer::new();
    b.insert(Location::Rel(0), text).unwrap();
    b.move_cursor(Location::Abs(cursor)).unwrap();
    b
}

#[test]
fn history_keeps_most_recent_line_first() {
    let mut h = DefaultHistory::new();
    assert_eq!(h.len(), 0);
    assert_eq!(h.get(0), None);
    h.add("one".to_string());
    h.add("two".to_string());
    assert_eq!(h.len(), 2);
    assert_eq!(h.get(0), Some(&"two".to_string()));
    assert_eq!(h.get(1), Some(&"one".to_string()));
    assert_eq!(h.get(2), None);
    h.clear();
    assert_eq!(h.len(), 0);
}

#[test]
fn buffer_history_steps_back_and_forth() {
    let mut h = DefaultBufferHistory::new();
    let mut b = buffer("a", 1);
    h.add(&b);
    b.insert(Location::Rel(0), "b").unwrap();
    h.add(&b);
    b.insert(Location::Rel(0), "c").unwrap();
    b.move_cursor(Location::Abs(1)).unwrap();
    h.add(&b);
    h.prev(&mut b);
    assert_eq!(b.contents(), "ab");
    assert_eq!(b.cursor(), 2);
    h.prev(&mut b);
    assert_eq!(b.contents(), "a");
    assert_eq!(b.cursor(), 1);
    h.prev(&mut b);
    assert_eq!(b.contents(), "a");
    h.next(&mut b);
    assert_eq!(b.contents(), "ab");
    h.next(&mut b);
    assert_eq!(b.contents(), "abc");
    assert_eq!(b.cursor(), 1);
    h.next(&mut b);
    assert_eq!(b.contents(), "abc");
}

#[test]
fn buffer_history_add_drops_redo_tail() {
    let mut h = DefaultBufferHistory::new();
    let mut b = buffer("a", 1);
    h.add(&b);
    b.insert(Location::Rel(0), "b").unwrap();
    h.add(&b);
    h.prev(&mut b);
    b.insert(Location::Rel(0), "z").unwrap();
    h.add(&b);
    h.next(&mut b);
    assert_eq!(b.contents(), "az");
    h.prev(&mut b);
    assert_eq!(b.contents(), "a");
    h.next(&mut b);
    assert_eq!(b.contents(), "az");
}

#[test]
fn buffer_history_clear_forgets_snapshots() {
    let mut h = DefaultBufferHistory::new();
    let mut b = buffer("a", 1);
    h.add(&b);
    b.insert(Location::Rel(0), "b").unwrap();
    h.add(&b);
    h.clear();
    h.prev(&mut b);
    assert_eq!(b.contents(), "ab");
    h.next(&mut b);
    assert_eq!(b.contents(), "ab");
}

#[test]
fn empty_buffer_history_changes_nothing() {
    let mut h = DefaultBufferHistory::new();
    let mut b = buffer("text", 2);
    h.prev(&mut b);
    h.next(&mut b);
    assert_eq!(b.contents(), "text");
    assert_eq!(b.cursor(), 2);
}

fn items(words: &[&str]) -> Vec<(String, Completion)> {
    words.iter().map(|w| (w.to_string(), Completion::new(w))).collect()
}

#[test]
fn menu_starts_hidden_and_empty() {
    let m = DefaultMenu::new();
    assert!(!m.is_active());
    assert_eq!(m.cursor(), 0);
    assert_eq!(m.items().len(), 0);
    assert!(m.current_selection().is_none());
}

#[test]
fn menu_navigation_wraps_around() {
    let mut m = DefaultMenu::new();
    m.set_items(items(&["a", "b", "c"]));
    assert_eq!(m.current_selection().unwrap().completion, "a");
    m.next();
    m.next();
    assert_eq!(m.cursor(), 2);
    m.next();
    assert_eq!(m.cursor(), 0);
    m.previous();
    assert_eq!(m.cursor(), 2);
    assert_eq!(m.current_selection().unwrap().completion, "c");
    m.previous();
    assert_eq!(m.cursor(), 1);
}

#[test]
fn menu_navigation_on_empty_menu_stays_at_zero() {
    let mut m = DefaultMenu::new();
    m.next();
    assert_eq!(m.cursor(), 0);
    m.previous();
    assert_eq!(m.cursor(), 0);
}

#[test]
fn menu_set_items_resets_cursor_and_keeps_activity() {
    let mut m = DefaultMenu::new();
    m.set_items(items(&["a", "b"]));
    m.next();
    m.activate();
    m.set_items(items(&["x", "y", "z"]));
    assert_eq!(m.cursor(), 0);
    assert!(m.is_active());
    assert_eq!(m.items().len(), 3);
    assert_eq!(m.items()[2].0, "z");
}

#[test]
fn menu_accept_hides_and_returns_selection() {
    let mut m = DefaultMenu::new();
    m.set_items(items(&["a", "b"]));
    m.activate();
    m.next();
    let got = m.accept().unwrap();
    assert_eq!(got.completion, "b");
    assert!(!m.is_active());
    assert_eq!(m.cursor(), 1);
    let mut empty = DefaultMenu::new();
    empty.activate();
    assert!(empty.accept().is_none());
    assert!(!empty.is_active());
}

#[test]
fn menu_activate_and_disactivate() {
    let mut m = DefaultMenu::new();
    m.activate();
    assert!(m.is_active());
    m.disactivate();
    assert!(!m.is_active());
}

#[test]
fn completion_accessors() {
    let c = Completion::with_display("echo", "echo (builtin)");
    assert_eq!(c.accept(), "echo");
    assert_eq!(c.display(), "echo (builtin)");
    let d = c.clone();
    assert_eq!(d.completion, "echo");
    assert_eq!(d.display, "echo (builtin)");
    let e = Completion::new("ls");
    assert_eq!(e.accept(), "ls");
    assert_eq!(e.display(), "ls");
}

#[test]
fn completion_ctx_current_word() {
    let ctx = CompletionCtx::new(vec!["git".to_string(), "co".to_string()]);
    assert_eq!(ctx.cur_word(), Some(&"co".to_string()));
    assert_eq!(ctx.args().len(), 2);
    let none = CompletionCtx::new(vec![]);
    assert_eq!(none.cur_word(), None);
}

#[test]
fn default_completer_offers_words_by_prefix_in_order() {
    let mut c = DefaultCompleter::new();
    c.register("exit");
    c.register("ls");
    c.register("echo");
    c.register("e");
    let found = c.complete(&CompletionCtx::new(vec!["x".to_string(), "e".to_string()]));
    let words: Vec<String> = found.iter().map(|f| f.accept()).collect();
    assert_eq!(words, vec!["exit", "echo", "e"]);
    let all = c.matches(&CompletionCtx::new(vec!["".to_string()]));
    assert_eq!(all.len(), 4);
    let all = c.matches(&CompletionCtx::new(vec![]));
    assert_eq!(all.len(), 4);
    let none = c.matches(&CompletionCtx::new(vec!["lsx".to_string()]));
    assert_eq!(none.len(), 0);
}

#[test]
fn starts_with_compares_characters() {
    assert!(starts_with("echo", "ec"));
    assert!(starts_with("echo", ""));
    assert!(starts_with("echo", "echo"));
    assert!(!starts_with("echo", "echoo"));
    assert!(!starts_with("echo", "ex"));
    assert!(starts_with("日本語", "日本"));
    assert!(!starts_with("", "a"));
}

#[test]
fn keybinding_claims_bound_keys_only() {
    let mut k = DefaultKeybinding::new();
    let quit = KeyEvent { code: KeyCode::Char('c'), modifiers: MOD_CONTROL };
    assert!(!k.handle_key_event(quit));
    k.bind(quit);
    k.bind(KeyEvent { code: KeyCode::Esc, modifiers: MOD_NONE });
    assert!(k.handle_key_event(quit));
    assert!(k.handle_key_event(KeyEvent::plain(KeyCode::Esc)));
    assert!(!k.handle_key_event(KeyEvent::char('c')));
    assert!(!k.handle_key_event(KeyEvent::ctrl('d')));
}

#[test]
fn key_event_constructors() {
    assert_eq!(KeyEvent::plain(KeyCode::Tab), KeyEvent { code: KeyCode::Tab, modifiers: 0 });
    assert_eq!(KeyEvent::ctrl('w'), KeyEvent { code: KeyCode::Char('w'), modifiers: 2 });
    assert_eq!(KeyEvent::char('w'), KeyEvent { code: KeyCode::Char('w'), modifiers: 0 });
}

#[test]
fn styled_buf_keeps_spans_in_order() {
    let mut b = StyledBuf::empty();
    assert_eq!(b.content(), "");
    assert_eq!(b.spans().len(), 0);
    b.push("ls ", Style::plain());
    b.push("-l", Style::suggestion());
    assert_eq!(b.content(), "ls -l");
    assert_eq!(b.spans().len(), 2);
    assert_eq!(b.spans()[0].content, "ls ");
    assert_eq!(b.spans()[1].style.foreground, Some(Color::Red));
    let n = StyledBuf::new("x");
    assert_eq!(n.spans().len(), 1);
    assert_eq!(n.spans()[0].style, Style { foreground: None, background: None, bold: false });
}

#[test]
fn default_highlighter_leaves_text_plain() {
    let h = DefaultHighlighter::new();
    let out = h.highlight("echo hi", 0);
    assert_eq!(out.content(), "echo hi");
    assert_eq!(out.spans().len(), 1);
    assert_eq!(out.spans()[0].style, Style::plain());
}

#[test]
fn default_prompt_shows_marker_on_the_left() {
    let p = DefaultPrompt::new();
    let ctx = LineCtx::new();
    assert_eq!(p.prompt_left(&ctx).content(), "> ");
    assert_eq!(p.prompt_right(&ctx).content(), "");
}

#[test]
fn cursor_style_follows_mode() {
    assert_eq!(style_of(LineMode::Insert), CursorStyle::BlinkingBar);
    assert_eq!(style_of(LineMode::Normal), CursorStyle::BlinkingBlock);
}
