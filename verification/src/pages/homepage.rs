//! The home page: a menu of three entries.

use super::{ConfigPage, StudyPage};
use crate::app::{IPage, Page, PageEvent};
use crate::config::Config;
use crate::key::{Key, KeyPress};
use crate::models::is_arrangement;
use crate::models::kana::Kana;
use crate::session::Session;
use crate::widgets::menu::{next_index, previous_index};
use crate::widgets::MenuState;
use vstd::prelude::*;

verus! {

/// The entries of the home menu, from top to bottom.
#[derive(Debug, Clone, Copy, PartialEq, Eq, Hash, Structural)]
pub enum MenuOption {
    Study,
    Configure,
    Quit,
}

/// The index of the last entry of the home menu.
pub const LAST_OPTION: usize = 2;

impl MenuOption {
    /// The entry at the given place of the menu; past its end, the last one.
    pub open spec fn at(index: int) -> MenuOption {
        if index == 0 {
            MenuOption::Study
        } else if index == 1 {
            MenuOption::Configure
        } else {
            MenuOption::Quit
        }
    }

    /// The entry's label.
    pub open spec fn label_text(self) -> Seq<char> {
        match self {
            MenuOption::Study => "Study"@,
            MenuOption::Configure => "Configure"@,
            MenuOption::Quit => "Quit"@,
        }
    }

    /// The entry's label.
    pub fn label(&self) -> (text: &'static str)
        ensures
            text@ == self.label_text(),
    {
        match self {
            MenuOption::Study => "Study",
            MenuOption::Configure => "Configure",
            MenuOption::Quit => "Quit",
        }
    }

    /// The entry at the given place of the menu.
    pub fn from_index(index: usize) -> (option: Option<MenuOption>)
        ensures
            index <= LAST_OPTION ==> option == Some(MenuOption::at(index as int)),
            index > LAST_OPTION ==> option is None,
    {
        match index {
            0 => Some(MenuOption::Study),
            1 => Some(MenuOption::Configure),
            2 => Some(MenuOption::Quit),
            _ => None,
        }
    }

    /// The labels of the menu, from top to bottom.
    pub fn to_vec_str() -> (labels: Vec<&'static str>)
        ensures
            labels@.len() == LAST_OPTION + 1,
            forall|index: int|
                0 <= index <= LAST_OPTION ==> (#[trigger] labels@[index])@ == MenuOption::at(
                    index,
                ).label_text(),
    {
        let mut labels: Vec<&'static str> = Vec::new();
        labels.push(MenuOption::Study.label());
        labels.push(MenuOption::Configure.label());
        labels.push(MenuOption::Quit.label());
        labels
    }
}

/// What a key press means on the home page.
pub enum HomeAction {
    /// End the application.
    Quit,
    /// Start a study session.
    Study,
    /// Open the settings.
    Configure,
    /// Select the next entry.
    Next,
    /// Select the entry before.
    Previous,
    /// Nothing.
    Ignore,
}

/// The home page's key bindings, for the menu entry that is selected.
/// Escape and `q` quit from anywhere; enter and the space bar take the
/// selected entry; the arrows move the selection.
pub open spec fn home_action(selected: MenuOption, key: KeyPress) -> HomeAction {
    if key.code == Key::Esc || key.is_char('q') {
        HomeAction::Quit
    } else if key.confirms() {
        match selected {
            MenuOption::Study => HomeAction::Study,
            MenuOption::Configure => HomeAction::Configure,
            MenuOption::Quit => HomeAction::Quit,
        }
    } else if key.code == Key::Right || key.code == Key::Down {
        HomeAction::Next
    } else if key.code == Key::Left || key.code == Key::Up {
        HomeAction::Previous
    } else {
        HomeAction::Ignore
    }
}

/// The home page.
#[derive(Debug, Clone, Copy)]
pub struct Homepage {
    menu_state: MenuState,
}

impl Homepage {
    #[verifier::type_invariant]
    spec fn selection_inside(&self) -> bool {
        self.menu_state.current_option <= LAST_OPTION
    }

    /// The index of the selected entry.
    pub closed spec fn selected(&self) -> int {
        self.menu_state.current_option as int
    }

    /// The selection state of the menu, for drawing it.
    pub fn menu_state(&self) -> (state: MenuState)
        ensures
            state.current_option == self.selected(),
            0 <= self.selected() <= LAST_OPTION,
    {
        proof {
            use_type_invariant(self);
        }
        self.menu_state
    }

    /// The selected entry.
    pub fn current_option(&self) -> (option: MenuOption)
        ensures
            option == MenuOption::at(self.selected()),
            0 <= self.selected() <= LAST_OPTION,
    {
        proof {
            use_type_invariant(self);
        }
        match MenuOption::from_index(self.menu_state.current_option) {
            Some(option) => option,
            None => MenuOption::Quit,
        }
    }
}

impl Default for Homepage {
    fn default() -> (home: Homepage)
        ensures
            home.selected() == 0,
    {
        Homepage { menu_state: MenuState { current_option: 0 } }
    }
}

impl IPage for Homepage {
    /// The home page never touches the settings. It quits, opens the
    /// settings page on a copy of the settings, starts a session over the
    /// whole catalog in the script of the settings, or moves its selection.
    open spec fn reacts(
        pre: Homepage,
        key: KeyPress,
        settings: Config,
        post: Homepage,
        new_settings: Config,
        event: PageEvent,
    ) -> bool {
        &&& new_settings == settings
        &&& 0 <= post.selected() <= LAST_OPTION
        &&& match home_action(MenuOption::at(pre.selected()), key) {
            HomeAction::Quit => post.selected() == pre.selected() && event is QuitApp,
            HomeAction::Study => {
                &&& post.selected() == pre.selected()
                &&& event matches PageEvent::Navigate(Page::StudyPage(study))
                &&& study@.wf()
                &&& is_arrangement(study@.in_play(), Kana::catalog())
                &&& study@ == Session::fresh(
                    settings.writing_system.representation(),
                    study@.in_play(),
                )
            },
            HomeAction::Configure => {
                &&& post.selected() == pre.selected()
                &&& event matches PageEvent::Navigate(Page::ConfigPage(page))
                &&& page == ConfigPage::opened(settings)
            },
            HomeAction::Next => {
                &&& post.selected() == next_index(pre.selected(), LAST_OPTION as int)
                &&& event is Nothing
            },
            HomeAction::Previous => {
                &&& post.selected() == previous_index(pre.selected(), LAST_OPTION as int)
                &&& event is Nothing
            },
            HomeAction::Ignore => post.selected() == pre.selected() && event is Nothing,
        }
    }

    fn handle_key_events(&mut self, key: KeyPress, config: &mut Config) -> (event: PageEvent) {
        proof {
            use_type_invariant(&*self);
        }
        let option = self.current_option();
        if key.code == Key::Esc || key.typed('q') {
            return PageEvent::QuitApp;
        }
        if key.is_confirm() {
            return match option {
                MenuOption::Quit => PageEvent::QuitApp,
                MenuOption::Study => {
                    let representation = config.writing_system.to_representation();
                    PageEvent::Navigate(Page::StudyPage(StudyPage::new(representation)))
                },
                MenuOption::Configure => PageEvent::Navigate(
                    Page::ConfigPage(ConfigPage::from(*config)),
                ),
            };
        }
        if key.code == Key::Right || key.code == Key::Down {
            let mut state = self.menu_state;
            state.next_option(LAST_OPTION);
            proof {
                crate::widgets::menu::lemma_previous_undoes_next(
                    self.menu_state.current_option as int,
                    LAST_OPTION as int,
                );
            }
            self.menu_state = state;
        } else if key.code == Key::Left || key.code == Key::Up {
            let mut state = self.menu_state;
            state.previous_option(LAST_OPTION);
            self.menu_state = state;
        }
        PageEvent::Nothing
    }
}

} // verus!
