use kana_tui::app::{IPage, Page, PageEvent};
use kana_tui::config::Config;
use kana_tui::key::{Key, KeyPress};
use kana_tui::models::kana::KanaRepresentation;
use kana_tui::pages::ResultPage;

fn after(milliseconds: u128) -> ResultPage {
    ResultPage::new(3, 4, milliseconds, KanaRepresentation::Hiragana)
}

#[test]
fn a_result_page_reports_what_it_was_given() {
    let page = ResultPage::new(50, 21, 123_456, KanaRepresentation::Katakana);
    assert_eq!(page.good_answers_count(), 50);
    assert_eq!(page.wrong_answers_count(), 21);
    assert_eq!(page.kanas_count(), 71);
    assert_eq!(page.total_elapsed_time(), 123_456);
    assert_eq!(page.representation(), KanaRepresentation::Katakana);
}

#[test]
fn the_count_of_symbols_cannot_overflow() {
    let page = ResultPage::new(usize::MAX, usize::MAX, 0, KanaRepresentation::Hiragana);
    assert_eq!(page.kanas_count(), 2 * (usize::MAX as u128));
}

#[test]
fn under_a_minute_the_time_is_given_in_seconds() {
    assert_eq!(after(0).format_time(), "0s");
    assert_eq!(after(999).format_time(), "0s");
    assert_eq!(after(1000).format_time(), "1s");
    assert_eq!(after(42_500).format_time(), "42s");
    assert_eq!(after(59_999).format_time(), "59s");
}

#[test]
fn over_a_minute_the_time_is_given_in_minutes_and_seconds() {
    assert_eq!(after(61_000).format_time(), "1min and 1s");
    assert_eq!(after(754_321).format_time(), "12min and 34s");
    assert_eq!(after(3_599_999).format_time(), "59min and 59s");
}

#[test]
fn whole_minutes_are_given_by_their_seconds() {
    assert_eq!(after(60_000).format_time(), "0min");
    assert_eq!(after(60_999).format_time(), "0min");
    assert_eq!(after(120_000).format_time(), "0min");
}

#[test]
fn whole_hours_are_left_out() {
    assert_eq!(after(3_600_000).format_time(), "0s");
    assert_eq!(after(3_605_000).format_time(), "5s");
    assert_eq!(after(3_661_000).format_time(), "1min and 1s");
    assert_eq!(after(7_260_000).format_time(), "0min");
}

#[test]
fn any_key_leads_back_home() {
    for key in [
        KeyPress::plain(Key::Enter),
        KeyPress::plain(Key::Esc),
        KeyPress::plain(Key::Char('q')),
        KeyPress::plain(Key::Other),
        KeyPress::control('p'),
    ] {
        let mut page = after(5000);
        let mut config = Config::default();
        match page.handle_key_events(key, &mut config) {
            PageEvent::Navigate(Page::Homepage(home)) => {
                assert_eq!(home.menu_state().current_option, 0);
            }
            other => panic!("no home page: {:?}", other),
        }
        assert_eq!(config, Config::default());
        assert_eq!(page.good_answers_count(), 3);
        assert_eq!(page.wrong_answers_count(), 4);
        assert_eq!(page.total_elapsed_time(), 5000);
    }
}
