//! The one-line answer field: the text typed so far and the place of the
//! cursor in it. The editing itself is done by the `tui-prompts` line
//! editor; this module states what each key does to the text and keeps the
//! cursor inside it.

use crate::key::{Key, KeyPress, Modifiers};
use crossterm::event::{KeyCode, KeyEvent, KeyModifiers};
use tui_prompts::{State, TextState};
use vstd::prelude::*;
use vstd::string::StringExecFnsIsAscii;
use vstd::utf8::is_ascii_chars;

verus! {

/// The answer field as a value: its characters and the cursor, counted in
/// characters from the start of the text.
pub struct InputView {
    pub text: Seq<char>,
    pub cursor: nat,
}

/// What a key press asks of the line editor.
pub enum EditAction {
    /// Cursor one character to the left.
    MoveLeft,
    /// Cursor one character to the right.
    MoveRight,
    /// Cursor to the start of the text.
    MoveStart,
    /// Cursor to the end of the text.
    MoveEnd,
    /// Remove the character before the cursor.
    Backspace,
    /// Remove the character under the cursor.
    Delete,
    /// Remove everything from the cursor to the end.
    Kill,
    /// Remove everything.
    Truncate,
    /// Put a character in at the cursor.
    Insert(char),
    /// Leave text and cursor alone.
    Nothing,
}

/// The editor's key bindings.
pub open spec fn edit_action(key: KeyPress) -> EditAction {
    match key.code {
        Key::Left => EditAction::MoveLeft,
        Key::Right => EditAction::MoveRight,
        Key::Home => EditAction::MoveStart,
        Key::End => EditAction::MoveEnd,
        Key::Backspace => EditAction::Backspace,
        Key::Delete => EditAction::Delete,
        Key::Char(letter) => match key.modifiers {
            Modifiers::Control => if letter == 'b' {
                EditAction::MoveLeft
            } else if letter == 'f' {
                EditAction::MoveRight
            } else if letter == 'a' {
                EditAction::MoveStart
            } else if letter == 'e' {
                EditAction::MoveEnd
            } else if letter == 'h' {
                EditAction::Backspace
            } else if letter == 'd' {
                EditAction::Delete
            } else if letter == 'k' {
                EditAction::Kill
            } else if letter == 'u' {
                EditAction::Truncate
            } else {
                EditAction::Nothing
            },
            Modifiers::Plain | Modifiers::Shift => EditAction::Insert(letter),
            Modifiers::Other => EditAction::Nothing,
        },
        _ => EditAction::Nothing,
    }
}

impl InputView {
    /// The empty field.
    pub open spec fn empty() -> InputView {
        InputView { text: Seq::empty(), cursor: 0 }
    }

    /// The cursor stands inside the text or right behind it.
    pub open spec fn wf(self) -> bool {
        self.cursor <= self.text.len()
    }

    /// The field after one editing step.
    pub open spec fn apply(self, action: EditAction) -> InputView {
        match action {
            EditAction::MoveLeft => InputView {
                cursor: if self.cursor == 0 {
                    0
                } else {
                    (self.cursor - 1) as nat
                },
                ..self
            },
            EditAction::MoveRight => InputView {
                cursor: if self.cursor == self.text.len() {
                    self.cursor
                } else {
                    self.cursor + 1
                },
                ..self
            },
            EditAction::MoveStart => InputView { cursor: 0, ..self },
            EditAction::MoveEnd => InputView { cursor: self.text.len(), ..self },
            EditAction::Backspace => if self.cursor == 0 {
                self
            } else {
                InputView {
                    text: self.text.remove(self.cursor - 1),
                    cursor: (self.cursor - 1) as nat,
                }
            },
            EditAction::Delete => if self.cursor == self.text.len() {
                self
            } else {
                InputView { text: self.text.remove(self.cursor as int), ..self }
            },
            EditAction::Kill => InputView { text: self.text.take(self.cursor as int), ..self },
            EditAction::Truncate => InputView::empty(),
            EditAction::Insert(letter) => InputView {
                text: self.text.insert(self.cursor as int, letter),
                cursor: self.cursor + 1,
            },
            EditAction::Nothing => self,
        }
    }

    /// Whether the press is left out because the editor cannot take it: it
    /// cuts the text at the cursor by counting bytes, which goes wrong as soon
    /// as a character of the text takes more than one byte.
    pub open spec fn refuses(self, key: KeyPress) -> bool {
        edit_action(key) == EditAction::Kill && !is_ascii_chars(self.text)
    }

    /// The field after a key press.
    pub open spec fn after_key(self, key: KeyPress) -> InputView {
        if self.refuses(key) {
            self
        } else {
            self.apply(edit_action(key))
        }
    }
}

/// Editing never moves the cursor out of the text.
pub proof fn lemma_edit_keeps_cursor_inside(field: InputView, key: KeyPress)
    requires
        field.wf(),
    ensures
        field.apply(edit_action(key)).wf(),
        field.after_key(key).wf(),
{
}

/// What the editor does with the keys that type text: a character pressed
/// alone or with shift goes in at the cursor, and backspace takes the
/// character before the cursor away again.
pub proof fn lemma_typing(field: InputView, letter: char)
    requires
        field.wf(),
    ensures
        field.after_key(KeyPress { code: Key::Char(letter), modifiers: Modifiers::Plain })
            == field.apply(EditAction::Insert(letter)),
        field.cursor == field.text.len() ==> field.apply(EditAction::Insert(letter)).text
            == field.text.push(letter),
        field.apply(EditAction::Insert(letter)).apply(EditAction::Backspace) == field,
{
    let typed = field.apply(EditAction::Insert(letter));
    assert(typed.text.remove(typed.cursor - 1) =~= field.text);
    if field.cursor == field.text.len() {
        assert(field.text.insert(field.cursor as int, letter) =~= field.text.push(letter));
    }
}

/// `crossterm`'s name for a key. Values of it are only handed on to the
/// editor.
#[verifier::external_type_specification]
#[verifier::external_body]
pub struct ExKeyCode(KeyCode);

/// `crossterm`'s set of held modifier keys. Values of it are only handed on
/// to the editor.
#[verifier::external_type_specification]
#[verifier::external_body]
pub struct ExKeyModifiers(KeyModifiers);

/// Names the key for `crossterm`. The editor reacts to the keys listed here;
/// every other key goes over as `KeyCode::Null`, which it ignores like them.
#[verifier::external_body]
fn editor_key_code(code: &Key) -> KeyCode {
    match *code {
        Key::Char(letter) => KeyCode::Char(letter),
        Key::Enter => KeyCode::Enter,
        Key::Esc => KeyCode::Esc,
        Key::Left => KeyCode::Left,
        Key::Right => KeyCode::Right,
        Key::Home => KeyCode::Home,
        Key::End => KeyCode::End,
        Key::Backspace => KeyCode::Backspace,
        Key::Delete => KeyCode::Delete,
        _ => KeyCode::Null,
    }
}

/// Names the held modifiers for `crossterm`. The editor tells apart none,
/// shift alone and control alone; any other combination goes over as
/// `KeyModifiers::ALT`, which it treats like the rest of them.
#[verifier::external_body]
fn editor_modifiers(modifiers: &Modifiers) -> KeyModifiers {
    match *modifiers {
        Modifiers::Plain => KeyModifiers::NONE,
        Modifiers::Shift => KeyModifiers::SHIFT,
        Modifiers::Control => KeyModifiers::CONTROL,
        Modifiers::Other => KeyModifiers::ALT,
    }
}

/// Runs `tui_prompts::State::handle_key_event` on a `TextState` that holds
/// `text` with its cursor at `cursor`, and hands back the text and cursor it
/// leaves. The contract restates the editor's key bindings: arrows, home
/// and end move the cursor, backspace and delete remove one character, a
/// character typed alone or with shift is put in at the cursor, and control
/// with `b f a e h d k u` stands for left, right, home, end, backspace,
/// delete, cut to the end and clear. The cut counts bytes, so it is asked for
/// on one-byte characters only.
#[verifier::external_body]
fn edit_line(text: &str, cursor: usize, key: &KeyPress) -> (edited: (String, usize))
    requires
        cursor <= text@.len(),
        edit_action(*key) == EditAction::Kill ==> is_ascii_chars(text@),
    ensures
        (InputView { text: edited.0@, cursor: edited.1 as nat }) == (InputView {
            text: text@,
            cursor: cursor as nat,
        }).apply(edit_action(*key)),
{
    let mut state = TextState::new().with_value(text.to_owned());
    *state.position_mut() = cursor;
    let code = editor_key_code(&key.code);
    state.handle_key_event(KeyEvent::new(code, editor_modifiers(&key.modifiers)));
    (state.value().to_owned(), state.position())
}

/// The answer field.
#[derive(Debug)]
pub struct InputBuffer {
    text: String,
    cursor: usize,
}

impl View for InputBuffer {
    type V = InputView;

    closed spec fn view(&self) -> InputView {
        InputView { text: self.text@, cursor: self.cursor as nat }
    }
}

impl Clone for InputBuffer {
    fn clone(&self) -> (copy: InputBuffer)
        ensures
            copy@ == self@,
    {
        proof {
            use_type_invariant(self);
        }
        InputBuffer { text: self.text.clone(), cursor: self.cursor }
    }
}

impl InputBuffer {
    #[verifier::type_invariant]
    spec fn cursor_inside(&self) -> bool {
        self.cursor <= self.text@.len()
    }

    /// An empty field.
    pub fn new() -> (field: InputBuffer)
        ensures
            field@ == InputView::empty(),
    {
        InputBuffer { text: String::new(), cursor: 0 }
    }

    /// The text typed so far.
    pub fn value(&self) -> (text: &str)
        ensures
            text@ == self@.text,
    {
        self.text.as_str()
    }

    /// The cursor's place, in characters from the start of the text.
    pub fn position(&self) -> (cursor: usize)
        ensures
            cursor == self@.cursor,
            self@.wf(),
    {
        proof {
            use_type_invariant(self);
        }
        self.cursor
    }

    /// Empties the field.
    pub fn truncate(&mut self)
        ensures
            final(self)@ == InputView::empty(),
    {
        *self = InputBuffer::new();
    }

    /// Lets the line editor act on a key press.
    pub fn handle_key_event(&mut self, key: KeyPress)
        ensures
            final(self)@ == old(self)@.after_key(key),
            final(self)@.wf(),
    {
        proof {
            use_type_invariant(&*self);
            lemma_edit_keeps_cursor_inside(self@, key);
        }
        if key.typed_with_control('k') && !self.text.is_ascii() {
            return ;
        }
        let (text, cursor) = edit_line(self.text.as_str(), self.cursor, &key);
        *self = InputBuffer { text, cursor };
    }
}

} // verus!
