//! The application shell: the page that is live, and what a page may ask
//! of the shell.

use crate::config::Config;
use crate::key::KeyPress;
use crate::pages::{ConfigPage, Homepage, ResultPage, StudyPage};
use vstd::prelude::*;

verus! {

/// The application: whether it goes on, and the one page that is live.
#[derive(Debug)]
pub struct App {
    pub running: bool,
    pub current_page: Page,
}

impl Default for App {
    fn default() -> (app: App)
        ensures
            app.running,
            app.current_page matches Page::Homepage(home) && home.selected() == 0,
    {
        App { running: true, current_page: Page::Homepage(Homepage::default()) }
    }
}

impl App {
    /// An application that runs and shows the home page.
    pub fn new() -> (app: App)
        ensures
            app.running,
            app.current_page matches Page::Homepage(home) && home.selected() == 0,
    {
        App { running: true, current_page: Page::Homepage(Homepage::default()) }
    }

    /// A tick of the clock. It asks for a new frame and changes nothing.
    pub fn tick(&mut self)
        ensures
            *final(self) == *old(self),
    {
    }

    /// Ends the application. The page is left as it is.
    pub fn quit(&mut self)
        ensures
            !final(self).running,
            final(self).current_page == old(self).current_page,
    {
        self.running = false;
    }
}

/// What a page asks of the shell in answer to a key press.
#[derive(Debug)]
pub enum PageEvent {
    /// Stay on the page.
    Nothing,
    /// Replace the page by this one.
    Navigate(Page),
    /// End the application.
    QuitApp,
}

/// What every page has to offer: a reaction to key presses. Drawing is left
/// to the program around the library.
pub trait IPage: Sized {
    /// The page's rule: whether a page `pre` under the settings `settings`
    /// may answer the key press by becoming `post`, leaving the settings as
    /// `new_settings`, and asking `event` of the shell.
    spec fn reacts(
        pre: Self,
        key: KeyPress,
        settings: Config,
        post: Self,
        new_settings: Config,
        event: PageEvent,
    ) -> bool;

    /// Lets the page react to a key press.
    fn handle_key_events(&mut self, key: KeyPress, config: &mut Config) -> (event: PageEvent)
        ensures
            Self::reacts(*old(self), key, *old(config), *final(self), *final(config), event),
    ;
}

/// The pages. Exactly one of them is live at a time.
#[derive(Debug)]
pub enum Page {
    Homepage(Homepage),
    ConfigPage(ConfigPage),
    StudyPage(StudyPage),
    ResultPage(ResultPage),
}

impl IPage for Page {
    /// A page reacts as its kind of page does, and stays of that kind: only
    /// the shell puts another page in its place.
    open spec fn reacts(
        pre: Page,
        key: KeyPress,
        settings: Config,
        post: Page,
        new_settings: Config,
        event: PageEvent,
    ) -> bool {
        match pre {
            Page::Homepage(before) => post matches Page::Homepage(after) && Homepage::reacts(
                before,
                key,
                settings,
                after,
                new_settings,
                event,
            ),
            Page::ConfigPage(before) => post matches Page::ConfigPage(after) && ConfigPage::reacts(
                before,
                key,
                settings,
                after,
                new_settings,
                event,
            ),
            Page::StudyPage(before) => post matches Page::StudyPage(after) && StudyPage::reacts(
                before,
                key,
                settings,
                after,
                new_settings,
                event,
            ),
            Page::ResultPage(before) => post matches Page::ResultPage(after) && ResultPage::reacts(
                before,
                key,
                settings,
                after,
                new_settings,
                event,
            ),
        }
    }

    fn handle_key_events(&mut self, key: KeyPress, config: &mut Config) -> (event: PageEvent) {
        match self {
            Page::Homepage(page) => page.handle_key_events(key, config),
            Page::ConfigPage(page) => page.handle_key_events(key, config),
            Page::StudyPage(page) => page.handle_key_events(key, config),
            Page::ResultPage(page) => page.handle_key_events(key, config),
        }
    }
}

} // verus!
