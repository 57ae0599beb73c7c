use kana_tui::widgets::MenuState;

#[test]
fn next_option_wraps_round() {
    let mut state = MenuState::default();
    assert_eq!(state.current_option, 0);
    state.next_option(2);
    assert_eq!(state.current_option, 1);
    state.next_option(2);
    assert_eq!(state.current_option, 2);
    state.next_option(2);
    assert_eq!(state.current_option, 0);
}

#[test]
fn previous_option_wraps_round() {
    let mut state = MenuState::default();
    state.previous_option(2);
    assert_eq!(state.current_option, 2);
    state.previous_option(2);
    assert_eq!(state.current_option, 1);
    state.previous_option(2);
    assert_eq!(state.current_option, 0);
}

#[test]
fn a_menu_of_one_entry_stays_put() {
    let mut state = MenuState::default();
    state.next_option(0);
    assert_eq!(state.current_option, 0);
    state.previous_option(0);
    assert_eq!(state.current_option, 0);
}

#[test]
fn next_and_previous_undo_each_other() {
    for max in 0usize..6 {
        for start in 0..=max {
            let mut state = MenuState { current_option: start };
            state.next_option(max);
            assert!(state.current_option <= max);
            state.previous_option(max);
            assert_eq!(state.current_option, start);
            state.previous_option(max);
            state.next_option(max);
            assert_eq!(state.current_option, start);
        }
    }
}

#[test]
fn next_option_outside_the_menu() {
    let mut state = MenuState { current_option: 5 };
    state.next_option(2);
    assert_eq!(state.current_option, 0);
    let mut state = MenuState { current_option: 6 };
    state.next_option(2);
    assert_eq!(state.current_option, 1);
    let mut state = MenuState { current_option: 6 };
    state.previous_option(2);
    assert_eq!(state.current_option, 5);
}

#[test]
fn next_option_at_the_largest_index() {
    let mut state = MenuState { current_option: usize::MAX };
    state.next_option(usize::MAX);
    assert_eq!(state.current_option, 0);
    let mut state = MenuState { current_option: usize::MAX - 1 };
    state.next_option(usize::MAX);
    assert_eq!(state.current_option, usize::MAX);
    let mut state = MenuState { current_option: usize::MAX };
    state.next_option(2);
    assert_eq!(state.current_option, ((usize::MAX as u128 + 1) % 3) as usize);
}
