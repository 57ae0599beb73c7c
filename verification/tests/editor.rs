use crossterm::event::{KeyCode, KeyEvent, KeyModifiers};
use kana_tui::input::InputBuffer;
use kana_tui::key::{Key, KeyPress, Modifiers};
use rand::rngs::StdRng;
use rand::{Rng, SeedableRng};
use tui_prompts::{State, TextState};

const CODES: [Key; 24] = [
    Key::Char('a'),
    Key::Char('b'),
    Key::Char('d'),
    Key::Char('e'),
    Key::Char('f'),
    Key::Char('h'),
    Key::Char('k'),
    Key::Char('u'),
    Key::Char('c'),
    Key::Char('K'),
    Key::Char(' '),
    Key::Char('\u{E4}'),
    Key::Char('\u{3042}'),
    Key::Enter,
    Key::Esc,
    Key::Pause,
    Key::Tab,
    Key::Up,
    Key::Down,
    Key::Left,
    Key::Right,
    Key::Home,
    Key::End,
    Key::Backspace,
];

const MODIFIERS: [Modifiers; 4] =
    [Modifiers::Plain, Modifiers::Shift, Modifiers::Control, Modifiers::Other];

fn random_key(rng: &mut StdRng) -> KeyPress {
    let code = match rng.random_range(0..26usize) {
        24 => Key::Delete,
        25 => Key::Other,
        index => CODES[index],
    };
    let modifiers = if rng.random_range(0..3usize) == 0 {
        MODIFIERS[rng.random_range(0..4usize)]
    } else {
        Modifiers::Plain
    };
    KeyPress::new(code, modifiers)
}

fn is_cut(key: KeyPress) -> bool {
    key == KeyPress::control('k')
}

/// What a key does to a text and its cursor, written out on a vector of
/// characters.
fn edit_by_hand(text: &mut Vec<char>, cursor: &mut usize, key: KeyPress) {
    let control = key.modifiers == Modifiers::Control;
    let types = key.modifiers == Modifiers::Plain || key.modifiers == Modifiers::Shift;
    match key.code {
        Key::Left => *cursor = cursor.saturating_sub(1),
        Key::Char('b') if control => *cursor = cursor.saturating_sub(1),
        Key::Right | Key::Char('f') if key.code == Key::Right || control => {
            if *cursor < text.len() {
                *cursor += 1;
            }
        }
        Key::Home => *cursor = 0,
        Key::Char('a') if control => *cursor = 0,
        Key::End => *cursor = text.len(),
        Key::Char('e') if control => *cursor = text.len(),
        Key::Backspace | Key::Char('h') if key.code == Key::Backspace || control => {
            if *cursor > 0 {
                text.remove(*cursor - 1);
                *cursor -= 1;
            }
        }
        Key::Delete | Key::Char('d') if key.code == Key::Delete || control => {
            if *cursor < text.len() {
                text.remove(*cursor);
            }
        }
        Key::Char('k') if control => {
            if text.iter().all(|letter| letter.is_ascii()) {
                text.truncate(*cursor);
            }
        }
        Key::Char('u') if control => {
            text.clear();
            *cursor = 0;
        }
        Key::Char(letter) if types => {
            text.insert(*cursor, letter);
            *cursor += 1;
        }
        _ => {}
    }
}

/// The key as the terminal would report it. Keys and modifiers that the
/// library lumps together are sent as one of their kind.
fn terminal_event(key: KeyPress) -> KeyEvent {
    let code = match key.code {
        Key::Char(letter) => KeyCode::Char(letter),
        Key::Enter => KeyCode::Enter,
        Key::Esc => KeyCode::Esc,
        Key::Pause => KeyCode::Pause,
        Key::Tab => KeyCode::Tab,
        Key::Up => KeyCode::Up,
        Key::Down => KeyCode::Down,
        Key::Left => KeyCode::Left,
        Key::Right => KeyCode::Right,
        Key::Home => KeyCode::Home,
        Key::End => KeyCode::End,
        Key::Backspace => KeyCode::Backspace,
        Key::Delete => KeyCode::Delete,
        Key::Other => KeyCode::F(5),
    };
    let modifiers = match key.modifiers {
        Modifiers::Plain => KeyModifiers::NONE,
        Modifiers::Shift => KeyModifiers::SHIFT,
        Modifiers::Control => KeyModifiers::CONTROL,
        Modifiers::Other => KeyModifiers::CONTROL | KeyModifiers::SHIFT,
    };
    KeyEvent::new(code, modifiers)
}

#[test]
fn the_field_edits_as_laid_down() {
    let mut rng = StdRng::seed_from_u64(2024);
    for _ in 0..200 {
        let mut field = InputBuffer::new();
        let mut text: Vec<char> = Vec::new();
        let mut cursor = 0usize;
        for _ in 0..60 {
            let key = random_key(&mut rng);
            field.handle_key_event(key);
            edit_by_hand(&mut text, &mut cursor, key);
            assert_eq!(field.value(), text.iter().collect::<String>(), "{:?}", key);
            assert_eq!(field.position(), cursor, "{:?}", key);
            assert!(cursor <= text.len());
        }
    }
}

#[test]
fn the_field_edits_as_one_lasting_editor_does() {
    let mut rng = StdRng::seed_from_u64(4202);
    for _ in 0..200 {
        let mut field = InputBuffer::new();
        let mut editor = TextState::new();
        for _ in 0..60 {
            let key = random_key(&mut rng);
            if is_cut(key) && !editor.value().is_ascii() {
                field.handle_key_event(key);
                assert_eq!(field.value(), editor.value());
                assert_eq!(field.position(), editor.position());
                continue;
            }
            field.handle_key_event(key);
            editor.handle_key_event(terminal_event(key));
            assert_eq!(field.value(), editor.value(), "{:?}", key);
            assert_eq!(field.position(), editor.position(), "{:?}", key);
        }
    }
}
