use kana_tui::app::{App, IPage, Page, PageEvent};
use kana_tui::config::{Config, WritingSystem};
use kana_tui::handler::{handle_key_events, Effect};
use kana_tui::key::{Key, KeyPress, Modifiers};
use kana_tui::models::kana::{Kana, KanaRepresentation};
use kana_tui::pages::homepage::MenuOption;
use kana_tui::pages::{ConfigPage, Homepage, ResultPage, StudyPage};

fn every_page() -> Vec<Page> {
    vec![
        Page::Homepage(Homepage::default()),
        Page::ConfigPage(ConfigPage::from(Config::default())),
        Page::StudyPage(StudyPage::from_plan(KanaRepresentation::Hiragana, vec![Kana::A])),
        Page::ResultPage(ResultPage::new(1, 0, 1000, KanaRepresentation::Hiragana)),
    ]
}

fn send(app: &mut App, config: &mut Config, code: Key) -> Effect {
    handle_key_events(KeyPress::plain(code), app, config)
}

#[test]
fn the_application_starts_on_the_home_page() {
    let app = App::new();
    assert!(app.running);
    match app.current_page {
        Page::Homepage(home) => assert_eq!(home.current_option(), MenuOption::Study),
        other => panic!("no home page: {:?}", other),
    }
    let app = App::default();
    assert!(app.running);
    assert!(matches!(app.current_page, Page::Homepage(_)));
}

#[test]
fn a_tick_changes_nothing() {
    let mut app = App::new();
    let mut config = Config::default();
    send(&mut app, &mut config, Key::Down);
    app.tick();
    assert!(app.running);
    match app.current_page {
        Page::Homepage(home) => assert_eq!(home.current_option(), MenuOption::Configure),
        other => panic!("no home page: {:?}", other),
    }
}

#[test]
fn quit_stops_the_application() {
    let mut app = App::new();
    app.quit();
    assert!(!app.running);
    assert!(matches!(app.current_page, Page::Homepage(_)));
}

#[test]
fn control_c_quits_from_every_page() {
    for letter in ['c', 'C'] {
        for page in every_page() {
            let mut app = App { running: true, current_page: page };
            let mut config = Config::default();
            let effect = handle_key_events(KeyPress::control(letter), &mut app, &mut config);
            assert_eq!(effect, Effect::Nothing);
            assert!(!app.running);
            assert_eq!(config, Config::default());
        }
    }
}

#[test]
fn control_c_leaves_the_page_as_it_is() {
    let mut app = App::new();
    let mut config = Config::default();
    send(&mut app, &mut config, Key::Enter);
    send(&mut app, &mut config, Key::Char('k'));
    handle_key_events(KeyPress::control('c'), &mut app, &mut config);
    assert!(!app.running);
    match app.current_page {
        Page::StudyPage(study) => assert_eq!(study.input(), "k"),
        other => panic!("no study page: {:?}", other),
    }
}

#[test]
fn c_with_other_modifiers_is_no_hard_quit() {
    for modifiers in [Modifiers::Plain, Modifiers::Shift, Modifiers::Other] {
        let mut app = App::new();
        let mut config = Config::default();
        handle_key_events(KeyPress::new(Key::Char('c'), modifiers), &mut app, &mut config);
        assert!(app.running);
    }
}

#[test]
fn the_router_replaces_the_page() {
    let mut app = App::new();
    let mut config = Config::default();
    assert_eq!(send(&mut app, &mut config, Key::Down), Effect::Nothing);
    assert_eq!(send(&mut app, &mut config, Key::Enter), Effect::Nothing);
    assert!(matches!(app.current_page, Page::ConfigPage(_)));
    assert_eq!(send(&mut app, &mut config, Key::Esc), Effect::Nothing);
    assert!(matches!(app.current_page, Page::Homepage(_)));
    assert_eq!(send(&mut app, &mut config, Key::Enter), Effect::Nothing);
    assert!(matches!(app.current_page, Page::StudyPage(_)));
    assert_eq!(send(&mut app, &mut config, Key::Esc), Effect::Nothing);
    assert!(matches!(app.current_page, Page::Homepage(_)));
    assert!(app.running);
    assert_eq!(send(&mut app, &mut config, Key::Char('q')), Effect::Nothing);
    assert!(!app.running);
    assert!(matches!(app.current_page, Page::Homepage(_)));
}

#[test]
fn saving_the_settings_is_left_to_the_program() {
    let mut app = App::new();
    let mut config = Config::default();
    send(&mut app, &mut config, Key::Down);
    send(&mut app, &mut config, Key::Enter);
    assert_eq!(send(&mut app, &mut config, Key::Down), Effect::Nothing);
    assert_eq!(send(&mut app, &mut config, Key::Enter), Effect::Nothing);
    assert_eq!(send(&mut app, &mut config, Key::Down), Effect::Nothing);
    assert_eq!(config, Config::default());
    assert_eq!(send(&mut app, &mut config, Key::Enter), Effect::SaveConfig);
    assert_eq!(config.writing_system, WritingSystem::Katakana);
    assert!(!config.study_bold_kana);
    assert!(matches!(app.current_page, Page::Homepage(_)));
    assert!(app.running);
}

#[test]
fn cancelling_the_settings_saves_nothing() {
    let mut app = App::new();
    let mut config = Config::default();
    send(&mut app, &mut config, Key::Down);
    send(&mut app, &mut config, Key::Enter);
    send(&mut app, &mut config, Key::Enter);
    send(&mut app, &mut config, Key::Down);
    send(&mut app, &mut config, Key::Down);
    send(&mut app, &mut config, Key::Left);
    assert_eq!(send(&mut app, &mut config, Key::Enter), Effect::Nothing);
    assert_eq!(config, Config::default());
    assert!(matches!(app.current_page, Page::Homepage(_)));
}

#[test]
fn a_finished_session_leads_to_its_result_and_back_home() {
    let mut app = App {
        running: true,
        current_page: Page::StudyPage(StudyPage::from_plan(
            KanaRepresentation::Katakana,
            vec![Kana::A, Kana::Ka],
        )),
    };
    let mut config = Config::default();
    send(&mut app, &mut config, Key::Char(' '));
    send(&mut app, &mut config, Key::Char(' '));
    assert!(matches!(app.current_page, Page::StudyPage(_)));
    send(&mut app, &mut config, Key::Char('k'));
    send(&mut app, &mut config, Key::Char('a'));
    assert_eq!(send(&mut app, &mut config, Key::Enter), Effect::Nothing);
    match app.current_page {
        Page::ResultPage(result) => {
            assert_eq!(result.good_answers_count(), 1);
            assert_eq!(result.wrong_answers_count(), 1);
            assert_eq!(result.representation(), KanaRepresentation::Katakana);
        }
        other => panic!("no result page: {:?}", other),
    }
    send(&mut app, &mut config, Key::Char('x'));
    assert!(matches!(app.current_page, Page::Homepage(_)));
    assert!(app.running);
}

#[test]
fn a_page_stays_of_its_kind() {
    for mut page in every_page() {
        let mut config = Config::default();
        let kind = std::mem::discriminant(&page);
        for key in [Key::Enter, Key::Esc, Key::Char('q'), Key::Down, Key::Char(' ')] {
            let event = page.handle_key_events(KeyPress::plain(key), &mut config);
            assert_eq!(std::mem::discriminant(&page), kind);
            if let PageEvent::Navigate(next) = event {
                assert_ne!(std::mem::discriminant(&next), kind);
            }
        }
    }
}

#[test]
fn only_the_settings_page_saves() {
    let enter = KeyPress::plain(Key::Enter);
    for page in every_page() {
        assert!(!page.saves_on(&enter));
    }
    let mut config = Config::default();
    let mut settings = ConfigPage::from(config);
    settings.handle_key_events(KeyPress::plain(Key::Down), &mut config);
    settings.handle_key_events(KeyPress::plain(Key::Down), &mut config);
    let page = Page::ConfigPage(settings);
    assert!(page.saves_on(&enter));
    assert!(!page.saves_on(&KeyPress::plain(Key::Esc)));
}
