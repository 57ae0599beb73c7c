//! The router: hands a key press to the live page and carries out what the
//! page asks for.

use crate::app::{App, IPage, Page, PageEvent};
use crate::config::Config;
use crate::key::KeyPress;
use vstd::prelude::*;

verus! {

/// What is left for the program to do after a key press.
#[derive(Debug, Clone, Copy, PartialEq, Eq, Hash, Structural)]
pub enum Effect {
    /// Nothing.
    Nothing,
    /// Store the settings. The page has moved on whether or not that
    /// succeeds.
    SaveConfig,
}

/// Whether the key press ends the application from any page: control with
/// `c`, in either case.
pub open spec fn is_hard_quit(key: KeyPress) -> bool {
    key.is_control('c') || key.is_control('C')
}

/// Whether the page saves the settings on this key.
pub open spec fn page_saves(page: Page, key: KeyPress) -> bool {
    page matches Page::ConfigPage(settings_page) && settings_page.saves(key)
}

impl Page {
    /// Whether the page saves the settings on this key.
    pub fn saves_on(&self, key: &KeyPress) -> (saving: bool)
        ensures
            saving == page_saves(*self, *key),
    {
        match self {
            Page::ConfigPage(page) => page.saves_on(key),
            _ => false,
        }
    }
}

/// What the shell makes of a page's answer: the page stays, or the page it
/// names takes its place, or the application ends.
pub open spec fn routed(running: bool, page: Page, event: PageEvent) -> App {
    match event {
        PageEvent::Nothing => App { running, current_page: page },
        PageEvent::Navigate(next) => App { running, current_page: next },
        PageEvent::QuitApp => App { running: false, current_page: page },
    }
}

/// Handles a key press. The hard quit is seen to first and ends the
/// application whatever the page is. Every other key goes to the live page,
/// which reacts by its own rule, and what the page asks for is done. The
/// settings are to be stored exactly when the settings page was saved.
pub fn handle_key_events(key_event: KeyPress, app: &mut App, config: &mut Config) -> (effect: Effect)
    ensures
        is_hard_quit(key_event) ==> {
            &&& *final(app) == (App { running: false, current_page: old(app).current_page })
            &&& *final(config) == *old(config)
            &&& effect == Effect::Nothing
        },
        !is_hard_quit(key_event) ==> exists|page: Page, event: PageEvent|
            {
                &&& #[trigger] Page::reacts(
                    old(app).current_page,
                    key_event,
                    *old(config),
                    page,
                    *final(config),
                    event,
                )
                &&& *final(app) == routed(old(app).running, page, event)
            },
        !is_hard_quit(key_event) ==> (effect == Effect::SaveConfig <==> page_saves(
            old(app).current_page,
            key_event,
        )),
{
    if key_event.typed_with_control('c') || key_event.typed_with_control('C') {
        app.quit();
        return Effect::Nothing;
    }
    let saving = app.current_page.saves_on(&key_event);
    let event = app.current_page.handle_key_events(key_event, config);
    let ghost page = app.current_page;
    let ghost asked = event;
    match event {
        PageEvent::Nothing => {},
        PageEvent::Navigate(new_page) => {
            app.current_page = new_page;
        },
        PageEvent::QuitApp => {
            app.quit();
        },
    }
    proof {
        assert(Page::reacts(
            old(app).current_page,
            key_event,
            *old(config),
            page,
            *config,
            asked,
        ));
        assert(*app == routed(old(app).running, page, asked));
    }
    if saving {
        Effect::SaveConfig
    } else {
        Effect::Nothing
    }
}

} // verus!
