use kana_tui::app::{IPage, Page, PageEvent};
use kana_tui::config::{Config, WritingSystem};
use kana_tui::key::{Key, KeyPress, Modifiers};
use kana_tui::models::kana::KanaRepresentation;
use kana_tui::pages::config_page::{BottomAction, ConfigField};
use kana_tui::pages::ConfigPage;

fn leads_home(event: PageEvent) -> bool {
    match event {
        PageEvent::Navigate(Page::Homepage(home)) => home.menu_state().current_option == 0,
        _ => false,
    }
}

fn katakana_in_bold() -> Config {
    Config { writing_system: WritingSystem::Katakana, study_bold_kana: true }
}

#[test]
fn the_first_settings() {
    let config = Config::default();
    assert_eq!(config.writing_system, WritingSystem::Hiragana);
    assert!(!config.study_bold_kana);
    assert_eq!(WritingSystem::default(), WritingSystem::Hiragana);
    assert_eq!(ConfigField::default(), ConfigField::BoldKana);
    assert_eq!(BottomAction::default(), BottomAction::Save);
}

#[test]
fn scripts_and_writing_systems_convert() {
    assert_eq!(WritingSystem::from(KanaRepresentation::Hiragana), WritingSystem::Hiragana);
    assert_eq!(WritingSystem::from(KanaRepresentation::Katakana), WritingSystem::Katakana);
    assert_eq!(KanaRepresentation::from(WritingSystem::Hiragana), KanaRepresentation::Hiragana);
    assert_eq!(KanaRepresentation::from(WritingSystem::Katakana), KanaRepresentation::Katakana);
    assert_eq!(WritingSystem::Hiragana.to_representation(), KanaRepresentation::Hiragana);
    assert_eq!(WritingSystem::Katakana.to_representation(), KanaRepresentation::Katakana);
    assert_eq!(WritingSystem::Hiragana.toggled(), WritingSystem::Katakana);
    assert_eq!(WritingSystem::Katakana.toggled(), WritingSystem::Hiragana);
}

#[test]
fn the_page_opens_on_the_settings() {
    let page = ConfigPage::from(katakana_in_bold());
    assert_eq!(page.focused_field, ConfigField::BoldKana);
    assert!(page.study_bold_kana);
    assert_eq!(page.writing_system, WritingSystem::Katakana);
}

#[test]
fn the_arrows_move_between_the_rows() {
    let cancel = ConfigField::Action(BottomAction::Cancel);
    let save = ConfigField::Action(BottomAction::Save);
    assert_eq!(ConfigField::BoldKana.up(), None);
    assert_eq!(ConfigField::WritingSystemField.up(), Some(ConfigField::BoldKana));
    assert_eq!(cancel.up(), Some(ConfigField::WritingSystemField));
    assert_eq!(save.up(), Some(ConfigField::WritingSystemField));
    assert_eq!(ConfigField::BoldKana.down(), Some(ConfigField::WritingSystemField));
    assert_eq!(ConfigField::WritingSystemField.down(), Some(save));
    assert_eq!(cancel.down(), None);
    assert_eq!(save.down(), None);
    assert_eq!(ConfigField::BoldKana.right(), Some(ConfigField::WritingSystemField));
    assert_eq!(ConfigField::WritingSystemField.right(), Some(save));
    assert_eq!(cancel.right(), Some(save));
    assert_eq!(save.right(), Some(cancel));
    assert_eq!(ConfigField::BoldKana.left(), None);
    assert_eq!(ConfigField::WritingSystemField.left(), Some(ConfigField::BoldKana));
    assert_eq!(cancel.left(), Some(save));
    assert_eq!(save.left(), Some(cancel));
}

#[test]
fn tab_goes_round() {
    let cancel = ConfigField::Action(BottomAction::Cancel);
    let save = ConfigField::Action(BottomAction::Save);
    assert_eq!(ConfigField::BoldKana.tab(), Some(ConfigField::WritingSystemField));
    assert_eq!(ConfigField::WritingSystemField.tab(), Some(save));
    assert_eq!(save.tab(), Some(cancel));
    assert_eq!(cancel.tab(), Some(ConfigField::BoldKana));
}

#[test]
fn only_arrows_and_tab_move_the_focus() {
    let field = ConfigField::WritingSystemField;
    assert_eq!(field.arrows_and_tab(&Key::Up), field.up());
    assert_eq!(field.arrows_and_tab(&Key::Down), field.down());
    assert_eq!(field.arrows_and_tab(&Key::Left), field.left());
    assert_eq!(field.arrows_and_tab(&Key::Right), field.right());
    assert_eq!(field.arrows_and_tab(&Key::Tab), field.tab());
    for code in [Key::Enter, Key::Esc, Key::Char('j'), Key::Home, Key::Pause, Key::Other] {
        assert_eq!(field.arrows_and_tab(&code), None);
    }
}

#[test]
fn enter_flips_the_field_in_focus() {
    let mut config = Config::default();
    let mut page = ConfigPage::from(config);
    let event = page.handle_key_events(KeyPress::plain(Key::Enter), &mut config);
    assert!(matches!(event, PageEvent::Nothing));
    assert!(page.study_bold_kana);
    assert_eq!(page.writing_system, WritingSystem::Hiragana);
    page.handle_key_events(KeyPress::plain(Key::Char(' ')), &mut config);
    assert!(!page.study_bold_kana);

    page.handle_key_events(KeyPress::plain(Key::Down), &mut config);
    assert_eq!(page.focused_field, ConfigField::WritingSystemField);
    let event = page.handle_key_events(KeyPress::plain(Key::Char(' ')), &mut config);
    assert!(matches!(event, PageEvent::Nothing));
    assert_eq!(page.writing_system, WritingSystem::Katakana);
    page.handle_key_events(KeyPress::new(Key::Enter, Modifiers::Shift), &mut config);
    assert_eq!(page.writing_system, WritingSystem::Hiragana);
    assert_eq!(config, Config::default());
}

#[test]
fn saving_writes_the_settings_and_leads_home() {
    let mut config = Config::default();
    let mut page = ConfigPage::from(config);
    page.handle_key_events(KeyPress::plain(Key::Enter), &mut config);
    page.handle_key_events(KeyPress::plain(Key::Tab), &mut config);
    page.handle_key_events(KeyPress::plain(Key::Enter), &mut config);
    page.handle_key_events(KeyPress::plain(Key::Tab), &mut config);
    assert_eq!(page.focused_field, ConfigField::Action(BottomAction::Save));
    assert_eq!(config, Config::default());
    assert!(page.saves_on(&KeyPress::plain(Key::Enter)));
    assert!(page.saves_on(&KeyPress::plain(Key::Char(' '))));
    assert!(!page.saves_on(&KeyPress::plain(Key::Esc)));
    assert!(!page.saves_on(&KeyPress::plain(Key::Tab)));
    let event = page.handle_key_events(KeyPress::plain(Key::Enter), &mut config);
    assert!(leads_home(event));
    assert_eq!(config, katakana_in_bold());
}

#[test]
fn cancel_and_escape_leave_the_settings_alone() {
    let mut config = Config::default();
    let mut page = ConfigPage::from(config);
    page.handle_key_events(KeyPress::plain(Key::Enter), &mut config);
    page.handle_key_events(KeyPress::plain(Key::Down), &mut config);
    page.handle_key_events(KeyPress::plain(Key::Down), &mut config);
    page.handle_key_events(KeyPress::plain(Key::Left), &mut config);
    assert_eq!(page.focused_field, ConfigField::Action(BottomAction::Cancel));
    assert!(!page.saves_on(&KeyPress::plain(Key::Enter)));
    let event = page.handle_key_events(KeyPress::plain(Key::Enter), &mut config);
    assert!(leads_home(event));
    assert_eq!(config, Config::default());

    page.handle_key_events(KeyPress::plain(Key::Right), &mut config);
    assert_eq!(page.focused_field, ConfigField::Action(BottomAction::Save));
    let event = page.handle_key_events(KeyPress::plain(Key::Esc), &mut config);
    assert!(leads_home(event));
    assert_eq!(config, Config::default());
    assert!(page.study_bold_kana);
}

#[test]
fn other_keys_do_nothing_on_the_settings_page() {
    let mut config = katakana_in_bold();
    let mut page = ConfigPage::from(config);
    let before = page;
    for key in [
        KeyPress::plain(Key::Char('q')),
        KeyPress::plain(Key::Up),
        KeyPress::plain(Key::Left),
        KeyPress::plain(Key::Home),
        KeyPress::plain(Key::Other),
        KeyPress::control('p'),
    ] {
        let event = page.handle_key_events(key, &mut config);
        assert!(matches!(event, PageEvent::Nothing));
        assert_eq!(page, before);
        assert_eq!(config, katakana_in_bold());
    }
}
