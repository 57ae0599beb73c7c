//! The result page: what is left of a session when it is over.

use super::{Homepage, StudyPage};
use crate::app::{IPage, Page, PageEvent};
use crate::config::Config;
use crate::key::KeyPress;
use crate::models::answer::AnswerResult;
use crate::models::kana::KanaRepresentation;
use crate::session::Summary;
use crate::text::{decimal, decimal_text};
use vstd::prelude::*;
use vstd::string::StringExecFns;

verus! {

/// The time a session took, as the result page words it. Whole hours are
/// left out. Under a minute only the seconds are given; a whole number of
/// minutes is given as its seconds, which are none, followed by `min`.
pub open spec fn time_text(elapsed_ms: u128) -> Seq<char> {
    let seconds = ((elapsed_ms / 1000) % 60) as nat;
    let minutes = ((elapsed_ms / 60_000) % 60) as nat;
    if minutes == 0 {
        decimal_text(seconds) + "s"@
    } else if seconds == 0 {
        decimal_text(seconds) + "min"@
    } else {
        decimal_text(minutes) + "min and "@ + decimal_text(seconds) + "s"@
    }
}

/// The result page. It only shows; any key leads back to the home page.
#[derive(Debug, Clone, Copy)]
pub struct ResultPage {
    good_answers_count: usize,
    wrong_answers_count: usize,
    total_elapsed_time: u128,
    representation: KanaRepresentation,
}

impl View for ResultPage {
    type V = Summary;

    closed spec fn view(&self) -> Summary {
        Summary {
            good: self.good_answers_count as nat,
            wrong: self.wrong_answers_count as nat,
            elapsed_ms: self.total_elapsed_time,
            representation: self.representation,
        }
    }
}

impl ResultPage {
    /// A result page that reports the given counts and time.
    pub fn new(
        good_answers_count: usize,
        wrong_answers_count: usize,
        total_elapsed_time: u128,
        representation: KanaRepresentation,
    ) -> (page: ResultPage)
        ensures
            page@ == (Summary {
                good: good_answers_count as nat,
                wrong: wrong_answers_count as nat,
                elapsed_ms: total_elapsed_time,
                representation,
            }),
    {
        ResultPage { good_answers_count, wrong_answers_count, total_elapsed_time, representation }
    }

    /// The result page of a session: its two counts, its script, and the
    /// time on its clock. For a session that has come to its end the clock
    /// stands still and the time is exact.
    pub fn from(value: &StudyPage) -> (page: ResultPage)
        ensures
            exists|reading: u128| page@ == #[trigger] value@.summary(reading),
            !value@.timer.running ==> page@ == value@.summary(0),
    {
        let total_elapsed_time = value.total_elapsed_time_ms();
        let good_answers_count = value.get_count_by_result(&AnswerResult::Good);
        let wrong_answers_count = value.get_count_by_result(&AnswerResult::Wrong);
        let page = ResultPage {
            total_elapsed_time,
            good_answers_count,
            wrong_answers_count,
            representation: value.representation(),
        };
        proof {
            let reading = choose|reading: u128|
                total_elapsed_time == #[trigger] value@.timer.elapsed(reading);
            assert(page@ == value@.summary(reading));
        }
        page
    }

    /// How many symbols were answered right at the first try.
    pub fn good_answers_count(&self) -> (count: usize)
        ensures
            count == self@.good,
    {
        self.good_answers_count
    }

    /// How many symbols were answered wrong or looked up.
    pub fn wrong_answers_count(&self) -> (count: usize)
        ensures
            count == self@.wrong,
    {
        self.wrong_answers_count
    }

    /// How many symbols the session asked.
    pub fn kanas_count(&self) -> (count: u128)
        ensures
            count == self@.good + self@.wrong,
    {
        self.good_answers_count as u128 + self.wrong_answers_count as u128
    }

    /// The time the session took, in milliseconds.
    pub fn total_elapsed_time(&self) -> (ms: u128)
        ensures
            ms == self@.elapsed_ms,
    {
        self.total_elapsed_time
    }

    /// The script the session was held in.
    pub fn representation(&self) -> (representation: KanaRepresentation)
        ensures
            representation == self@.representation,
    {
        self.representation
    }

    /// The time the session took, in words.
    pub fn format_time(&self) -> (text: String)
        ensures
            text@ == time_text(self@.elapsed_ms),
    {
        let seconds = (self.total_elapsed_time / 1000) % 60;
        let minutes = (self.total_elapsed_time / 60_000) % 60;
        if minutes == 0 {
            decimal(seconds).concat("s")
        } else if seconds == 0 {
            decimal(seconds).concat("min")
        } else {
            decimal(minutes).concat("min and ").concat(decimal(seconds).as_str()).concat("s")
        }
    }
}

impl IPage for ResultPage {
    /// Any key leads back to a home page with its first entry selected.
    /// The result and the settings stay as they are.
    open spec fn reacts(
        pre: ResultPage,
        key: KeyPress,
        settings: Config,
        post: ResultPage,
        new_settings: Config,
        event: PageEvent,
    ) -> bool {
        &&& new_settings == settings
        &&& post@ == pre@
        &&& event matches PageEvent::Navigate(Page::Homepage(home))
        &&& home.selected() == 0
    }

    fn handle_key_events(&mut self, key: KeyPress, config: &mut Config) -> (event: PageEvent) {
        PageEvent::Navigate(Page::Homepage(Homepage::default()))
    }
}

} // verus!
