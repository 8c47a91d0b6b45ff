//! Input events, modeled as plain values, and the decisions the event
//! stream takes on them.
//!
//! The terminal delivers key, mouse, resize and paste events; the stream
//! turns each into a UI event, a process suspension, or nothing.

use vstd::prelude::*;

verus! {

/// A key, as the UI cares about it.
#[derive(Clone, Copy, Debug, PartialEq, Eq, Structural)]
pub enum KeyCode {
    Char(char),
    Up,
    Down,
    Left,
    Right,
    Tab,
    Enter,
    Esc,
    Other,
}

/// How a key event was produced.
#[derive(Clone, Copy, Debug, PartialEq, Eq, Structural)]
pub enum KeyKind {
    Press,
    Repeat,
    Release,
}

/// One key event with its control-modifier state.
#[derive(Clone, Copy, Debug, PartialEq, Eq, Structural)]
pub struct KeyEvent {
    pub code: KeyCode,
    pub ctrl: bool,
    pub kind: KeyKind,
}

/// One event handed to the UI loop.
#[derive(Debug)]
pub enum TuiEvent {
    Key(KeyEvent),
    Paste(String),
    Draw,
    AttachImage { path: String, width: u32, height: u32, format_label: String },
}

/// One event read from the terminal.
#[derive(Debug)]
pub enum TermEvent {
    Key(KeyEvent),
    MouseScrollUp,
    MouseScrollDown,
    Resize(u16, u16),
    Paste(String),
    Other,
}

/// What the event stream does with one terminal event.
#[derive(Debug)]
pub enum StreamStep {
    /// Hand this event to the UI loop.
    Emit(TuiEvent),
    /// Suspend the process; a draw follows the resume.
    Suspend,
    /// Nothing to do.
    Ignore,
}

/// The stream's decision for one terminal event: Ctrl-Z (pressed)
/// suspends; Ctrl-V (pressed) is reserved for image attachment and
/// currently ignored; any other key is forwarded; a resize asks for a
/// redraw; pasted text is forwarded; everything else is dropped.
pub open spec fn spec_classify(ev: TermEvent) -> StreamStep {
    match ev {
        TermEvent::Key(k) => {
            if k.ctrl && k.kind == KeyKind::Press && k.code == KeyCode::Char('v') {
                StreamStep::Ignore
            } else if k.ctrl && k.kind == KeyKind::Press && k.code == KeyCode::Char('z') {
                StreamStep::Suspend
            } else {
                StreamStep::Emit(TuiEvent::Key(k))
            }
        },
        TermEvent::Resize(_w, _h) => StreamStep::Emit(TuiEvent::Draw),
        TermEvent::Paste(p) => StreamStep::Emit(TuiEvent::Paste(p)),
        TermEvent::MouseScrollUp => StreamStep::Ignore,
        TermEvent::MouseScrollDown => StreamStep::Ignore,
        TermEvent::Other => StreamStep::Ignore,
    }
}

/// Classify one terminal event for the stream. Mouse wheel events are
/// ignored here: while the alternate screen is active the terminal
/// itself translates the wheel to arrow keys.
pub fn classify_event(ev: TermEvent) -> (r: StreamStep)
    ensures
        r == spec_classify(ev),
{
    match ev {
        TermEvent::Key(k) => {
            let pressed_ctrl: bool = k.ctrl && matches!(k.kind, KeyKind::Press);
            if pressed_ctrl && matches!(k.code, KeyCode::Char('v')) {
                StreamStep::Ignore
            } else if pressed_ctrl && matches!(k.code, KeyCode::Char('z')) {
                StreamStep::Suspend
            } else {
                StreamStep::Emit(TuiEvent::Key(k))
            }
        },
        TermEvent::Resize(_w, _h) => StreamStep::Emit(TuiEvent::Draw),
        TermEvent::Paste(p) => StreamStep::Emit(TuiEvent::Paste(p)),
        TermEvent::MouseScrollUp => StreamStep::Ignore,
        TermEvent::MouseScrollDown => StreamStep::Ignore,
        TermEvent::Other => StreamStep::Ignore,
    }
}

} // verus!
