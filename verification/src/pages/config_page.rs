//! The settings page: two fields and a row with two buttons.

use super::Homepage;
use crate::app::{IPage, Page, PageEvent};
use crate::config::{Config, WritingSystem};
use crate::key::{Key, KeyPress};
use vstd::prelude::*;
use vstd::std_specs::convert::FromSpecImpl;

verus! {

/// The buttons of the bottom row, from left to right.
#[derive(Debug, Clone, Copy, PartialEq, Eq, Hash, Structural)]
pub enum BottomAction {
    Cancel,
    Save,
}

impl Default for BottomAction {
    fn default() -> (action: BottomAction)
        ensures
            action == BottomAction::Save,
    {
        BottomAction::Save
    }
}

/// What can have the focus on the settings page, from top to bottom.
#[derive(Debug, Clone, Copy, PartialEq, Eq, Hash, Structural)]
pub enum ConfigField {
    BoldKana,
    WritingSystemField,
    Action(BottomAction),
}

impl Default for ConfigField {
    fn default() -> (field: ConfigField)
        ensures
            field == ConfigField::BoldKana,
    {
        ConfigField::BoldKana
    }
}

impl ConfigField {
    /// Where the up arrow leads: one row up, and nowhere from the top.
    pub open spec fn above(self) -> Option<ConfigField> {
        match self {
            ConfigField::BoldKana => None,
            ConfigField::WritingSystemField => Some(ConfigField::BoldKana),
            ConfigField::Action(_) => Some(ConfigField::WritingSystemField),
        }
    }

    /// Where the down arrow leads: one row down, onto the save button from
    /// the last field, and nowhere from the buttons.
    pub open spec fn below(self) -> Option<ConfigField> {
        match self {
            ConfigField::BoldKana => Some(ConfigField::WritingSystemField),
            ConfigField::WritingSystemField => Some(ConfigField::Action(BottomAction::Save)),
            ConfigField::Action(_) => None,
        }
    }

    /// Where the right arrow leads: down from a field, to the other button
    /// from a button.
    pub open spec fn rightward(self) -> Option<ConfigField> {
        match self {
            ConfigField::Action(BottomAction::Cancel) => Some(
                ConfigField::Action(BottomAction::Save),
            ),
            ConfigField::Action(BottomAction::Save) => Some(
                ConfigField::Action(BottomAction::Cancel),
            ),
            _ => self.below(),
        }
    }

    /// Where the left arrow leads: up from a field, to the other button from
    /// a button.
    pub open spec fn leftward(self) -> Option<ConfigField> {
        match self {
            ConfigField::Action(_) => self.rightward(),
            _ => self.above(),
        }
    }

    /// Where the tab key leads: through the fields and the buttons in a
    /// circle.
    pub open spec fn onward(self) -> Option<ConfigField> {
        match self {
            ConfigField::Action(BottomAction::Cancel) => Some(ConfigField::BoldKana),
            ConfigField::Action(BottomAction::Save) => self.leftward(),
            _ => self.below(),
        }
    }

    /// Where a key moves the focus, if it moves it.
    pub open spec fn moved(self, code: Key) -> Option<ConfigField> {
        match code {
            Key::Up => self.above(),
            Key::Right => self.rightward(),
            Key::Down => self.below(),
            Key::Left => self.leftward(),
            Key::Tab => self.onward(),
            _ => None,
        }
    }

    /// Where a key moves the focus, if it moves it.
    pub fn arrows_and_tab(&self, key_code: &Key) -> (field: Option<ConfigField>)
        ensures
            field == self.moved(*key_code),
    {
        match key_code {
            Key::Up => self.up(),
            Key::Right => self.right(),
            Key::Down => self.down(),
            Key::Left => self.left(),
            Key::Tab => self.tab(),
            _ => None,
        }
    }

    /// Where the up arrow leads.
    pub fn up(&self) -> (field: Option<ConfigField>)
        ensures
            field == self.above(),
    {
        match self {
            ConfigField::BoldKana => None,
            ConfigField::WritingSystemField => Some(ConfigField::BoldKana),
            ConfigField::Action(_) => Some(ConfigField::WritingSystemField),
        }
    }

    /// Where the down arrow leads.
    pub fn down(&self) -> (field: Option<ConfigField>)
        ensures
            field == self.below(),
    {
        match self {
            ConfigField::BoldKana => Some(ConfigField::WritingSystemField),
            ConfigField::WritingSystemField => Some(ConfigField::Action(BottomAction::Save)),
            ConfigField::Action(_) => None,
        }
    }

    /// Where the right arrow leads.
    pub fn right(&self) -> (field: Option<ConfigField>)
        ensures
            field == self.rightward(),
    {
        match self {
            ConfigField::BoldKana | ConfigField::WritingSystemField => self.down(),
            ConfigField::Action(BottomAction::Cancel) => Some(
                ConfigField::Action(BottomAction::Save),
            ),
            ConfigField::Action(BottomAction::Save) => Some(
                ConfigField::Action(BottomAction::Cancel),
            ),
        }
    }

    /// Where the left arrow leads.
    pub fn left(&self) -> (field: Option<ConfigField>)
        ensures
            field == self.leftward(),
    {
        match self {
            ConfigField::BoldKana | ConfigField::WritingSystemField => self.up(),
            ConfigField::Action(_) => self.right(),
        }
    }

    /// Where the tab key leads.
    pub fn tab(&self) -> (field: Option<ConfigField>)
        ensures
            field == self.onward(),
    {
        match self {
            ConfigField::BoldKana | ConfigField::WritingSystemField => self.down(),
            ConfigField::Action(BottomAction::Cancel) => Some(ConfigField::BoldKana),
            ConfigField::Action(BottomAction::Save) => self.left(),
        }
    }
}

/// The tab key always leads somewhere, and four presses lead through both
/// fields and both buttons and back to where one started.
pub proof fn lemma_tab_goes_round(field: ConfigField)
    ensures
        field.onward() is Some,
        field.onward().unwrap() != field,
        field.onward().unwrap().onward().unwrap() != field,
        field.onward().unwrap().onward().unwrap().onward().unwrap() != field,
        field.onward().unwrap().onward().unwrap().onward().unwrap().onward() == Some(field),
{
}

/// The arrows undo each other between the rows, and on the bottom row left
/// and right both lead to the other button.
pub proof fn lemma_arrows(field: ConfigField)
    ensures
        field.above() matches Some(higher) ==> higher.below() is Some && higher.below().unwrap().above()
            == Some(higher),
        field is Action ==> field.leftward() == field.rightward() && field.leftward().unwrap().leftward()
            == Some(field),
{
}

/// The settings page: the values as they are being edited, and the focus.
/// The settings themselves change only when the page is saved.
#[derive(Debug, Clone, Copy, PartialEq, Eq, Hash, Structural)]
pub struct ConfigPage {
    pub focused_field: ConfigField,
    pub study_bold_kana: bool,
    pub writing_system: WritingSystem,
}

/// What a key press means on the settings page.
pub enum ConfigAction {
    /// Leave the page without saving.
    Leave,
    /// Flip the bold switch.
    ToggleBold,
    /// Take the other writing system.
    ToggleSystem,
    /// Write the edited values into the settings, have them stored, and
    /// leave.
    Save,
    /// Move the focus, if the key moves it.
    Move,
}

impl ConfigPage {
    /// The page as it opens on the given settings: their values, and the
    /// focus on the first field.
    pub open spec fn opened(settings: Config) -> ConfigPage {
        ConfigPage {
            focused_field: ConfigField::BoldKana,
            study_bold_kana: settings.study_bold_kana,
            writing_system: settings.writing_system,
        }
    }

    /// The page's key bindings. Escape leaves from anywhere; enter and the
    /// space bar act on what has the focus; every other key may move the
    /// focus.
    pub open spec fn action(self, key: KeyPress) -> ConfigAction {
        if key.code == Key::Esc {
            ConfigAction::Leave
        } else if key.confirms() {
            match self.focused_field {
                ConfigField::BoldKana => ConfigAction::ToggleBold,
                ConfigField::WritingSystemField => ConfigAction::ToggleSystem,
                ConfigField::Action(BottomAction::Cancel) => ConfigAction::Leave,
                ConfigField::Action(BottomAction::Save) => ConfigAction::Save,
            }
        } else {
            ConfigAction::Move
        }
    }

    /// Whether the key saves the page, so that the settings are to be
    /// stored.
    pub open spec fn saves(self, key: KeyPress) -> bool {
        self.action(key) is Save
    }

    /// The settings that the page stands for.
    pub open spec fn edited(self) -> Config {
        Config { writing_system: self.writing_system, study_bold_kana: self.study_bold_kana }
    }

    /// Whether the key saves the page, so that the settings are to be
    /// stored.
    pub fn saves_on(&self, key: &KeyPress) -> (saving: bool)
        ensures
            saving == self.saves(*key),
    {
        key.code != Key::Esc && key.is_confirm() && self.focused_field == ConfigField::Action(
            BottomAction::Save,
        )
    }
}

impl From<Config> for ConfigPage {
    fn from(value: Config) -> (page: ConfigPage) {
        ConfigPage {
            focused_field: ConfigField::BoldKana,
            study_bold_kana: value.study_bold_kana,
            writing_system: value.writing_system,
        }
    }
}

impl FromSpecImpl<Config> for ConfigPage {
    open spec fn obeys_from_spec() -> bool {
        true
    }

    open spec fn from_spec(value: Config) -> ConfigPage {
        ConfigPage::opened(value)
    }
}

impl IPage for ConfigPage {
    /// The settings change on saving and at no other time: until then the
    /// page edits its own copy of the values.
    open spec fn reacts(
        pre: ConfigPage,
        key: KeyPress,
        settings: Config,
        post: ConfigPage,
        new_settings: Config,
        event: PageEvent,
    ) -> bool {
        let leaves = event matches PageEvent::Navigate(Page::Homepage(home)) && home.selected() == 0;
        match pre.action(key) {
            ConfigAction::Leave => post == pre && new_settings == settings && leaves,
            ConfigAction::ToggleBold => {
                &&& post == (ConfigPage { study_bold_kana: !pre.study_bold_kana, ..pre })
                &&& new_settings == settings
                &&& event is Nothing
            },
            ConfigAction::ToggleSystem => {
                &&& post == (ConfigPage { writing_system: pre.writing_system.other(), ..pre })
                &&& new_settings == settings
                &&& event is Nothing
            },
            ConfigAction::Save => post == pre && new_settings == pre.edited() && leaves,
            ConfigAction::Move => {
                &&& post == (ConfigPage {
                    focused_field: match pre.focused_field.moved(key.code) {
                        Some(field) => field,
                        None => pre.focused_field,
                    },
                    ..pre
                })
                &&& new_settings == settings
                &&& event is Nothing
            },
        }
    }

    fn handle_key_events(&mut self, key: KeyPress, config: &mut Config) -> (event: PageEvent) {
        if key.code == Key::Esc {
            return PageEvent::Navigate(Page::Homepage(Homepage::default()));
        }
        if key.is_confirm() {
            match self.focused_field {
                ConfigField::BoldKana => {
                    self.study_bold_kana = !self.study_bold_kana;
                },
                ConfigField::WritingSystemField => {
                    self.writing_system = self.writing_system.toggled();
                },
                ConfigField::Action(BottomAction::Cancel) => {
                    return PageEvent::Navigate(Page::Homepage(Homepage::default()));
                },
                ConfigField::Action(BottomAction::Save) => {
                    config.study_bold_kana = self.study_bold_kana;
                    config.writing_system = self.writing_system;
                    return PageEvent::Navigate(Page::Homepage(Homepage::default()));
                },
            }
        } else {
            match self.focused_field.arrows_and_tab(&key.code) {
                Some(field) => {
                    self.focused_field = field;
                },
                None => {},
            }
        }
        PageEvent::Nothing
    }
}

} // verus!
