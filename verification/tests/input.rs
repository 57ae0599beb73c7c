use kana_tui::input::InputBuffer;
use kana_tui::key::{Key, KeyPress, Modifiers};

fn type_text(field: &mut InputBuffer, text: &str) {
    for letter in text.chars() {
        field.handle_key_event(KeyPress::plain(Key::Char(letter)));
    }
}

fn field_with(text: &str) -> InputBuffer {
    let mut field = InputBuffer::new();
    type_text(&mut field, text);
    field
}

#[test]
fn a_new_field_is_empty() {
    let field = InputBuffer::new();
    assert_eq!(field.value(), "");
    assert_eq!(field.position(), 0);
}

#[test]
fn typing_appends() {
    let mut field = InputBuffer::new();
    field.handle_key_event(KeyPress::plain(Key::Char('k')));
    assert_eq!(field.value(), "k");
    assert_eq!(field.position(), 1);
    field.handle_key_event(KeyPress::new(Key::Char('A'), Modifiers::Shift));
    assert_eq!(field.value(), "kA");
    assert_eq!(field.position(), 2);
    field.handle_key_event(KeyPress::plain(Key::Char(' ')));
    assert_eq!(field.value(), "kA ");
    assert_eq!(field.position(), 3);
}

#[test]
fn backspace_removes_before_the_cursor() {
    let mut field = field_with("shi");
    field.handle_key_event(KeyPress::plain(Key::Backspace));
    assert_eq!(field.value(), "sh");
    assert_eq!(field.position(), 2);
    field.handle_key_event(KeyPress::plain(Key::Left));
    field.handle_key_event(KeyPress::plain(Key::Backspace));
    assert_eq!(field.value(), "h");
    assert_eq!(field.position(), 0);
    field.handle_key_event(KeyPress::plain(Key::Backspace));
    assert_eq!(field.value(), "h");
    assert_eq!(field.position(), 0);
}

#[test]
fn delete_removes_under_the_cursor() {
    let mut field = field_with("tsu");
    field.handle_key_event(KeyPress::plain(Key::Delete));
    assert_eq!(field.value(), "tsu");
    assert_eq!(field.position(), 3);
    field.handle_key_event(KeyPress::plain(Key::Home));
    field.handle_key_event(KeyPress::plain(Key::Delete));
    assert_eq!(field.value(), "su");
    assert_eq!(field.position(), 0);
    field.handle_key_event(KeyPress::plain(Key::Right));
    field.handle_key_event(KeyPress::plain(Key::Delete));
    assert_eq!(field.value(), "s");
    assert_eq!(field.position(), 1);
}

#[test]
fn the_cursor_stays_inside_the_text() {
    let mut field = field_with("ab");
    field.handle_key_event(KeyPress::plain(Key::Right));
    assert_eq!(field.position(), 2);
    field.handle_key_event(KeyPress::plain(Key::Left));
    field.handle_key_event(KeyPress::plain(Key::Left));
    field.handle_key_event(KeyPress::plain(Key::Left));
    assert_eq!(field.position(), 0);
    field.handle_key_event(KeyPress::plain(Key::End));
    assert_eq!(field.position(), 2);
    field.handle_key_event(KeyPress::plain(Key::Home));
    assert_eq!(field.position(), 0);
    assert_eq!(field.value(), "ab");
}

#[test]
fn typing_in_the_middle_inserts() {
    let mut field = field_with("ci");
    field.handle_key_event(KeyPress::plain(Key::Left));
    field.handle_key_event(KeyPress::plain(Key::Char('h')));
    assert_eq!(field.value(), "chi");
    assert_eq!(field.position(), 2);
    field.handle_key_event(KeyPress::plain(Key::Home));
    field.handle_key_event(KeyPress::plain(Key::Char('t')));
    assert_eq!(field.value(), "tchi");
    assert_eq!(field.position(), 1);
}

#[test]
fn control_letters_edit() {
    let mut field = field_with("abcd");
    field.handle_key_event(KeyPress::control('a'));
    assert_eq!(field.position(), 0);
    field.handle_key_event(KeyPress::control('f'));
    assert_eq!(field.position(), 1);
    field.handle_key_event(KeyPress::control('e'));
    assert_eq!(field.position(), 4);
    field.handle_key_event(KeyPress::control('b'));
    assert_eq!(field.position(), 3);
    field.handle_key_event(KeyPress::control('h'));
    assert_eq!(field.value(), "abd");
    assert_eq!(field.position(), 2);
    field.handle_key_event(KeyPress::control('d'));
    assert_eq!(field.value(), "ab");
    assert_eq!(field.position(), 2);
    field.handle_key_event(KeyPress::control('b'));
    field.handle_key_event(KeyPress::control('k'));
    assert_eq!(field.value(), "a");
    assert_eq!(field.position(), 1);
    type_text(&mut field, "xyz");
    field.handle_key_event(KeyPress::control('u'));
    assert_eq!(field.value(), "");
    assert_eq!(field.position(), 0);
}

#[test]
fn other_keys_leave_the_field_alone() {
    let keys = [
        KeyPress::plain(Key::Enter),
        KeyPress::plain(Key::Esc),
        KeyPress::plain(Key::Tab),
        KeyPress::plain(Key::Up),
        KeyPress::plain(Key::Down),
        KeyPress::plain(Key::Pause),
        KeyPress::plain(Key::Other),
        KeyPress::control('c'),
        KeyPress::control('z'),
        KeyPress::control('K'),
        KeyPress::control('p'),
        KeyPress::new(Key::Char('x'), Modifiers::Other),
        KeyPress::new(Key::Other, Modifiers::Control),
    ];
    for key in keys {
        let mut field = field_with("ka");
        field.handle_key_event(KeyPress::plain(Key::Left));
        field.handle_key_event(key);
        assert_eq!(field.value(), "ka", "{:?}", key);
        assert_eq!(field.position(), 1, "{:?}", key);
    }
}

#[test]
fn arrows_move_whatever_is_held_down() {
    for modifiers in [Modifiers::Plain, Modifiers::Shift, Modifiers::Control, Modifiers::Other] {
        let mut field = field_with("ka");
        field.handle_key_event(KeyPress::new(Key::Left, modifiers));
        assert_eq!(field.position(), 1);
        field.handle_key_event(KeyPress::new(Key::Home, modifiers));
        assert_eq!(field.position(), 0);
        field.handle_key_event(KeyPress::new(Key::Right, modifiers));
        assert_eq!(field.position(), 1);
        field.handle_key_event(KeyPress::new(Key::End, modifiers));
        assert_eq!(field.position(), 2);
        field.handle_key_event(KeyPress::new(Key::Backspace, modifiers));
        assert_eq!(field.value(), "k");
        field.handle_key_event(KeyPress::new(Key::Home, modifiers));
        field.handle_key_event(KeyPress::new(Key::Delete, modifiers));
        assert_eq!(field.value(), "");
    }
}

#[test]
fn characters_of_several_bytes_count_as_one() {
    let mut field = field_with("\u{E4}\u{3042}");
    assert_eq!(field.value(), "\u{E4}\u{3042}");
    assert_eq!(field.position(), 2);
    field.handle_key_event(KeyPress::plain(Key::Left));
    field.handle_key_event(KeyPress::plain(Key::Char('\u{CF}')));
    assert_eq!(field.value(), "\u{E4}\u{CF}\u{3042}");
    assert_eq!(field.position(), 2);
    field.handle_key_event(KeyPress::plain(Key::Backspace));
    assert_eq!(field.value(), "\u{E4}\u{3042}");
    assert_eq!(field.position(), 1);
    field.handle_key_event(KeyPress::plain(Key::Delete));
    assert_eq!(field.value(), "\u{E4}");
    assert_eq!(field.position(), 1);
}

#[test]
fn cutting_is_left_out_on_characters_of_several_bytes() {
    let mut field = field_with("\u{E4}\u{EB}");
    field.handle_key_event(KeyPress::plain(Key::Left));
    field.handle_key_event(KeyPress::control('k'));
    assert_eq!(field.value(), "\u{E4}\u{EB}");
    assert_eq!(field.position(), 1);
    let mut field = field_with("a\u{EB}");
    field.handle_key_event(KeyPress::plain(Key::Home));
    field.handle_key_event(KeyPress::control('k'));
    assert_eq!(field.value(), "a\u{EB}");
    assert_eq!(field.position(), 0);
}

#[test]
fn cutting_takes_the_rest_away() {
    let mut field = field_with("hello");
    field.handle_key_event(KeyPress::control('k'));
    assert_eq!(field.value(), "hello");
    field.handle_key_event(KeyPress::plain(Key::Left));
    field.handle_key_event(KeyPress::plain(Key::Left));
    field.handle_key_event(KeyPress::control('k'));
    assert_eq!(field.value(), "hel");
    assert_eq!(field.position(), 3);
    field.handle_key_event(KeyPress::plain(Key::Home));
    field.handle_key_event(KeyPress::control('k'));
    assert_eq!(field.value(), "");
    assert_eq!(field.position(), 0);
}

#[test]
fn truncate_empties_the_field() {
    let mut field = field_with("abc");
    field.truncate();
    assert_eq!(field.value(), "");
    assert_eq!(field.position(), 0);
    type_text(&mut field, "n");
    assert_eq!(field.value(), "n");
}

#[test]
fn key_presses_are_what_they_were_made_of() {
    assert_eq!(
        KeyPress::plain(Key::Enter),
        KeyPress { code: Key::Enter, modifiers: Modifiers::Plain }
    );
    assert_eq!(
        KeyPress::control('p'),
        KeyPress { code: Key::Char('p'), modifiers: Modifiers::Control }
    );
    assert_eq!(
        KeyPress::new(Key::Tab, Modifiers::Shift),
        KeyPress { code: Key::Tab, modifiers: Modifiers::Shift }
    );
    assert!(KeyPress::plain(Key::Char(' ')).is_confirm());
    assert!(KeyPress::control(' ').is_confirm());
    assert!(KeyPress::new(Key::Enter, Modifiers::Other).is_confirm());
    assert!(!KeyPress::plain(Key::Tab).is_confirm());
    assert!(KeyPress::new(Key::Char('q'), Modifiers::Shift).typed('q'));
    assert!(!KeyPress::plain(Key::Char('Q')).typed('q'));
    assert!(KeyPress::control('c').typed_with_control('c'));
    assert!(!KeyPress::plain(Key::Char('c')).typed_with_control('c'));
    assert!(!KeyPress::new(Key::Char('c'), Modifiers::Other).typed_with_control('c'));
}
