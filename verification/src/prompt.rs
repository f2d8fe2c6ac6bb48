//! Modal key handling: y/N confirm and a non-secret free-text input.

use vstd::prelude::*;

use crate::text::{is_control, is_control_spec, pop_char, push_char};

verus! {

/// The key of a terminal key event.
#[derive(Debug, Clone, Copy, PartialEq, Eq, Structural)]
pub enum KeyCode {
    Backspace,
    Enter,
    Left,
    Right,
    Up,
    Down,
    Tab,
    BackTab,
    Delete,
    Esc,
    Char(char),
    /// Any other key (function keys, Home, End, ...).
    Other,
}

/// Modifier keys held with a key.
#[derive(Debug, Clone, Copy, PartialEq, Eq, Structural)]
pub struct KeyModifiers {
    pub shift: bool,
    pub control: bool,
    pub alt: bool,
}

impl KeyModifiers {
    /// No modifier held.
    pub fn none() -> (m: Self)
        ensures
            !m.shift && !m.control && !m.alt,
    {
        KeyModifiers { shift: false, control: false, alt: false }
    }

    /// Only Ctrl held.
    pub fn control() -> (m: Self)
        ensures
            !m.shift && m.control && !m.alt,
    {
        KeyModifiers { shift: false, control: true, alt: false }
    }
}

/// Whether the event is a press, an auto-repeat or a release.
#[derive(Debug, Clone, Copy, PartialEq, Eq, Structural)]
pub enum KeyEventKind {
    Press,
    Repeat,
    Release,
}

/// A key event from the terminal.
#[derive(Debug, Clone, Copy, PartialEq, Eq, Structural)]
pub struct KeyEvent {
    pub code: KeyCode,
    pub modifiers: KeyModifiers,
    pub kind: KeyEventKind,
}

impl KeyEvent {
    /// A key press.
    pub fn new(code: KeyCode, modifiers: KeyModifiers) -> (k: Self)
        ensures
            k.code == code,
            k.modifiers == modifiers,
            k.kind == KeyEventKind::Press,
    {
        KeyEvent { code, modifiers, kind: KeyEventKind::Press }
    }
}

/// Outcome of a confirm modal key.
#[derive(Debug, Clone, Copy, PartialEq, Eq, Structural)]
pub enum ConfirmResult {
    /// Enter / y
    Yes,
    /// Esc / n
    No,
    /// Key ignored
    Ignore,
}

/// Enter, `y` and `Y` confirm.
pub open spec fn is_confirm_yes(c: KeyCode) -> bool {
    c == KeyCode::Enter || c == KeyCode::Char('y') || c == KeyCode::Char('Y')
}

/// Esc, `n` and `N` cancel.
pub open spec fn is_confirm_no(c: KeyCode) -> bool {
    c == KeyCode::Esc || c == KeyCode::Char('n') || c == KeyCode::Char('N')
}

/// Handle y/N / Enter / Esc for a confirm overlay.
pub fn confirm_key(key: KeyEvent) -> (r: ConfirmResult)
    ensures
        r == (if is_confirm_yes(key.code) {
            ConfirmResult::Yes
        } else if is_confirm_no(key.code) {
            ConfirmResult::No
        } else {
            ConfirmResult::Ignore
        }),
{
    match key.code {
        KeyCode::Enter | KeyCode::Char('y') | KeyCode::Char('Y') => ConfirmResult::Yes,
        KeyCode::Esc | KeyCode::Char('n') | KeyCode::Char('N') => ConfirmResult::No,
        _ => ConfirmResult::Ignore,
    }
}

/// Free-text modal (non-secret). Global shortcuts must not fire while open.
#[derive(Debug, Clone)]
pub struct TextInput {
    title: String,
    buffer: String,
}

/// Abstract state of a text input: its title and what has been typed.
pub ghost struct TextInputView {
    pub title: Seq<char>,
    pub buffer: Seq<char>,
}

impl View for TextInput {
    type V = TextInputView;

    closed spec fn view(&self) -> TextInputView {
        TextInputView { title: self.title@, buffer: self.buffer@ }
    }
}

/// Result of handling a key in [`TextInput`].
#[derive(Debug, Clone, PartialEq, Eq)]
pub enum TextInputResult {
    /// Still editing
    Continue,
    /// Enter: submit current buffer (trimmed by caller if desired)
    Submit(String),
    /// Esc: cancel
    Cancel,
}

/// The buffer after a key: Ctrl chords change nothing, Backspace drops the
/// last character, a printable character is appended.
pub open spec fn edit_buffer(buffer: Seq<char>, key: KeyEvent) -> Seq<char> {
    if key.modifiers.control {
        buffer
    } else {
        match key.code {
            KeyCode::Backspace => if buffer.len() > 0 {
                buffer.drop_last()
            } else {
                buffer
            },
            KeyCode::Char(c) => if !is_control_spec(c) {
                buffer.push(c)
            } else {
                buffer
            },
            _ => buffer,
        }
    }
}

/// Whether a key result submits exactly `s` (as text).
pub open spec fn submits(r: TextInputResult, s: Seq<char>) -> bool {
    match r {
        TextInputResult::Submit(t) => t@ == s,
        _ => false,
    }
}

impl TextInput {
    /// Create a text modal with an initial value.
    pub fn new(title: &str, initial: &str) -> (t: Self)
        ensures
            t@.title == title@,
            t@.buffer == initial@,
    {
        TextInput { title: String::from_str(title), buffer: String::from_str(initial) }
    }

    /// Title of the modal.
    pub fn title(&self) -> (r: &str)
        ensures
            r@ == self@.title,
    {
        self.title.as_str()
    }

    /// Text typed so far.
    pub fn buffer(&self) -> (r: &str)
        ensures
            r@ == self@.buffer,
    {
        self.buffer.as_str()
    }

    /// Apply a key. Printable chars edit; Backspace deletes; Enter/Esc finish.
    pub fn handle_key(&mut self, key: KeyEvent) -> (r: TextInputResult)
        ensures
            final(self)@.title == old(self)@.title,
            final(self)@.buffer == edit_buffer(old(self)@.buffer, key),
            !key.modifiers.control && key.code == KeyCode::Enter ==> submits(
                r,
                old(self)@.buffer,
            ),
            !key.modifiers.control && key.code == KeyCode::Esc ==> r == TextInputResult::Cancel,
            key.modifiers.control || (key.code != KeyCode::Enter && key.code != KeyCode::Esc) ==> r
                == TextInputResult::Continue,
    {
        if key.modifiers.control {
            return TextInputResult::Continue;
        }
        match key.code {
            KeyCode::Enter => TextInputResult::Submit(self.buffer.clone()),
            KeyCode::Esc => TextInputResult::Cancel,
            KeyCode::Backspace => {
                let _ = pop_char(&mut self.buffer);
                TextInputResult::Continue
            },
            KeyCode::Char(c) => {
                if !is_control(c) {
                    push_char(&mut self.buffer, c);
                }
                TextInputResult::Continue
            },
            _ => TextInputResult::Continue,
        }
    }
}

/// Body of a confirm dialog: the question, a blank line, the keys.
pub open spec fn confirm_text_spec(body: Seq<char>) -> Seq<char> {
    body + "\n\nEnter/y confirm · Esc/n cancel"@
}

/// Text of a confirm dialog.
pub fn confirm_text(body: &str) -> (r: String)
    ensures
        r@ == confirm_text_spec(body@),
{
    let mut out = String::from_str(body);
    out.append("\n\nEnter/y confirm · Esc/n cancel");
    out
}

impl TextInput {
    /// Text of the input dialog: what was typed, a blank line, the keys.
    pub fn dialog_text(&self) -> (r: String)
        ensures
            r@ == self@.buffer + "\n\nEnter submit · Esc cancel"@,
    {
        let mut out = self.buffer.clone();
        out.append("\n\nEnter submit · Esc cancel");
        out
    }
}

} // verus!
