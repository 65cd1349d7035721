//! Line editing engine of a shell: key dispatch, modal editing, completion
//! menu, history browsing and multi-line detection.
//!
//! The editor is a state machine. `model` describes it as plain mathematical
//! values: the state of a session and what each key does to it. `line` holds
//! the executable editor, whose handlers are proved to follow the model, and
//! `laws` proves what follows from the model: typing splices text, history
//! browsing is a round trip, undo followed by redo restores the buffer, and
//! the invariant of a session holds after every event.
//!
//! The editor reads no terminal and draws nothing. It takes events as values
//! and answers each with what the caller has to do: draw a frame, start a new
//! line, go on reading, submit the line or exit.
//!
//! Four things come from other crates and are believed, not proved: the text
//! buffer (`buffer`), the lexer of the shell language (`multiline`), the
//! parser of modal commands (`vi`) and the display width of text (`width`).
//! Each is called in one place, under a contract that restates its source.

pub mod buffer;
pub mod buffer_history;
pub mod completion;
pub mod error;
pub mod event;
pub mod highlight;
pub mod history;
pub mod hooks;
pub mod keybinding;
pub mod laws;
pub mod line;
pub mod menu;
pub mod model;
pub mod multiline;
pub mod painter;
pub mod prompt;
pub mod vi;
pub mod width;
