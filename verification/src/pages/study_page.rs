//! The study page: a running session. What a key press does is laid down in
//! [`Session::step`]; this page carries it out.

use super::{Homepage, ResultPage};
use crate::app::{IPage, Page, PageEvent};
use crate::config::Config;
use crate::input::InputBuffer;
use crate::key::{Key, KeyPress};
use crate::models::answer::{AnswerResult, ValidateAnswer};
use crate::models::kana::{Kana, KanaRepresentation};
use crate::models::{create_study_plan, create_study_plan_with, is_arrangement, lemma_full_plan_complete};
use crate::session::{
    count_of, lemma_count_of_push, lemma_fresh_is_wf, lemma_step_preserves_wf, Indication, Outcome,
    Session,
};
use crate::text::{decimal, decimal_text, padded, padded_text};
use crate::timer::Timer;
use rand::rngs::StdRng;
use vstd::prelude::*;
use vstd::string::StringExecFns;

verus! {

/// The session clock as the study page shows it: minutes and seconds, two
/// digits each, the minutes starting over after an hour.
pub open spec fn timer_text(elapsed_ms: u128) -> Seq<char> {
    padded_text(((elapsed_ms / 60_000) % 60) as nat) + ":"@ + padded_text(
        ((elapsed_ms / 1000) % 60) as nat,
    )
}

/// The progress line of the study page: how many symbols are logged out of
/// how many, then the good and the wrong ones.
pub open spec fn progress_line(logged: nat, total: nat, good: nat, wrong: nat) -> Seq<char> {
    decimal_text(logged) + "/"@ + decimal_text(total) + " | \u{2714} "@ + decimal_text(good)
        + " | \u{2717} "@ + decimal_text(wrong)
}

/// What is written under the symbol: a cross after a wrong answer, the
/// label of the symbol where the answer is shown.
pub open spec fn indication_text(indication: Indication) -> Seq<char> {
    match indication {
        Indication::WrongAnswer => "\u{274C}"@,
        Indication::Help(kana) => kana.romaji_text(),
    }
}

/// The study page.
#[derive(Debug)]
pub struct StudyPage {
    representation: KanaRepresentation,
    /// The symbols that are still to come, the next one first.
    kanas: Vec<Kana>,
    total_kanas: usize,
    answers: Vec<(Kana, AnswerResult)>,
    current_kana: Kana,
    indication: Option<Indication>,
    user_input: InputBuffer,
    is_paused: bool,
    timer: Timer,
}

impl View for StudyPage {
    type V = Session;

    closed spec fn view(&self) -> Session {
        Session {
            representation: self.representation,
            current: self.current_kana,
            queue: self.kanas@,
            total: self.total_kanas as nat,
            answers: self.answers@,
            indication: self.indication,
            input: self.user_input@,
            paused: self.is_paused,
            timer: self.timer@,
        }
    }
}

/// A copy of an outcome log.
fn copy_of_log(log: &Vec<(Kana, AnswerResult)>) -> (copy: Vec<(Kana, AnswerResult)>)
    ensures
        copy@ == log@,
{
    let mut copy: Vec<(Kana, AnswerResult)> = Vec::new();
    let mut place: usize = 0;
    while place < log.len()
        invariant
            place <= log@.len(),
            copy@ == log@.take(place as int),
        decreases log@.len() - place,
    {
        copy.push(log[place]);
        assert(log@.take(place + 1) =~= log@.take(place as int).push(log@[place as int]));
        place += 1;
    }
    assert(log@.take(place as int) =~= log@);
    copy
}

impl Clone for StudyPage {
    fn clone(&self) -> (copy: StudyPage)
        ensures
            copy@ == self@,
    {
        let copy = StudyPage {
            representation: self.representation,
            kanas: self.kanas.clone(),
            total_kanas: self.total_kanas,
            answers: copy_of_log(&self.answers),
            current_kana: self.current_kana,
            indication: self.indication,
            user_input: self.user_input.clone(),
            is_paused: self.is_paused,
            timer: self.timer,
        };
        assert(copy@.queue =~= self@.queue);
        copy
    }
}

impl StudyPage {
    /// A session over the given plan. Its first symbol is asked first, the
    /// others follow in their order, and the clock starts to run.
    pub fn from_plan(representation: KanaRepresentation, plan: Vec<Kana>) -> (page: StudyPage)
        requires
            plan@.len() > 0,
        ensures
            page@ == Session::fresh(representation, plan@),
            page@.in_play() == plan@,
            plan@.no_duplicates() ==> page@.wf(),
    {
        let mut kanas = plan;
        let total_kanas = kanas.len();
        let current_kana = kanas.remove(0);
        let page = StudyPage {
            representation,
            kanas,
            total_kanas,
            answers: Vec::new(),
            current_kana,
            indication: None,
            user_input: InputBuffer::new(),
            is_paused: false,
            timer: Timer::start(),
        };
        proof {
            assert(page@.queue =~= plan@.drop_first());
            assert(page@.in_play() =~= plan@);
            if plan@.no_duplicates() {
                lemma_fresh_is_wf(representation, plan@);
            }
        }
        page
    }

    /// A session over the whole catalog, in a random order drawn from the
    /// given generator.
    pub fn with_rng(representation: KanaRepresentation, rng: &mut StdRng) -> (page: StudyPage)
        ensures
            is_arrangement(page@.in_play(), Kana::catalog()),
            page@ == Session::fresh(representation, page@.in_play()),
            page@.wf(),
    {
        let plan = create_study_plan_with(rng);
        proof {
            lemma_full_plan_complete(plan@);
        }
        StudyPage::from_plan(representation, plan)
    }

    /// A session over the whole catalog, in a random order.
    pub fn new(representation: KanaRepresentation) -> (page: StudyPage)
        ensures
            is_arrangement(page@.in_play(), Kana::catalog()),
            page@ == Session::fresh(representation, page@.in_play()),
            page@.wf(),
    {
        let plan = create_study_plan();
        proof {
            lemma_full_plan_complete(plan@);
        }
        StudyPage::from_plan(representation, plan)
    }

    /// The script in which the symbols are shown.
    pub fn representation(&self) -> (representation: KanaRepresentation)
        ensures
            representation == self@.representation,
    {
        self.representation
    }

    /// The symbols that are still to come, the next one first.
    pub fn kanas(&self) -> (queue: &Vec<Kana>)
        ensures
            queue@ == self@.queue,
    {
        &self.kanas
    }

    /// The outcome log, oldest entry first.
    pub fn answers(&self) -> (log: &Vec<(Kana, AnswerResult)>)
        ensures
            log@ == self@.answers,
    {
        &self.answers
    }

    /// The symbol that is asked.
    pub fn current_kana(&self) -> (kana: Kana)
        ensures
            kana == self@.current,
    {
        self.current_kana
    }

    /// How many symbols the plan held.
    pub fn total_kanas(&self) -> (total: usize)
        ensures
            total == self@.total,
    {
        self.total_kanas
    }

    /// What is shown under the symbol.
    pub fn indication(&self) -> (indication: Option<Indication>)
        ensures
            indication == self@.indication,
    {
        self.indication
    }

    /// The answer typed so far.
    pub fn input(&self) -> (text: &str)
        ensures
            text@ == self@.input.text,
    {
        self.user_input.value()
    }

    /// Where the cursor stands in the answer, in characters.
    pub fn cursor(&self) -> (cursor: usize)
        ensures
            cursor == self@.input.cursor,
            self@.input.wf(),
    {
        self.user_input.position()
    }

    /// Whether the session is paused.
    pub fn is_paused(&self) -> (paused: bool)
        ensures
            paused == self@.paused,
    {
        self.is_paused
    }

    /// The current symbol as it is drawn.
    pub fn glyph(&self) -> (glyph: &'static str)
        ensures
            glyph@ == self@.current.glyph_text(self@.representation),
    {
        self.current_kana.glyph(self.representation)
    }

    /// What is written under the symbol, if anything.
    pub fn indication_label(&self) -> (label: Option<&'static str>)
        ensures
            label is Some <==> self@.indication is Some,
            label matches Some(text) ==> text@ == indication_text(self@.indication.unwrap()),
    {
        match self.indication {
            Some(Indication::WrongAnswer) => Some("\u{274C}"),
            Some(Indication::Help(kana)) => Some(kana.romaji()),
            None => None,
        }
    }

    /// Whether the typed answer is right for the current symbol.
    fn is_input_valid(&self) -> (valid: bool)
        ensures
            valid == self@.answer_accepted(),
    {
        self.current_kana.validate_answer(self.user_input.value())
    }

    /// Whether the current symbol has an entry in the log.
    fn is_current_logged(&self) -> (logged: bool)
        ensures
            logged == self@.is_logged(self@.current),
    {
        let mut place: usize = 0;
        while place < self.answers.len()
            invariant
                place <= self.answers@.len(),
                forall|earlier: int|
                    0 <= earlier < place ==> (#[trigger] self.answers@[earlier]).0
                        != self.current_kana,
            decreases self.answers@.len() - place,
        {
            if self.answers[place].0 == self.current_kana {
                return true;
            }
            place += 1;
        }
        false
    }

    /// Logs the current symbol as answered right, unless it is logged
    /// already.
    fn push_good_answer(&mut self)
        ensures
            final(self)@ == old(self)@.logged(AnswerResult::Good),
    {
        if self.is_current_logged() {
            return ;
        }
        self.answers.push((self.current_kana, AnswerResult::Good));
    }

    /// Logs the current symbol as answered wrong, unless it is logged
    /// already.
    fn push_wrong_answer(&mut self)
        ensures
            final(self)@ == old(self)@.logged(AnswerResult::Wrong),
    {
        if self.is_current_logged() {
            return ;
        }
        self.answers.push((self.current_kana, AnswerResult::Wrong));
    }

    /// Takes the next symbol from the queue, clears what is shown under the
    /// symbol and empties the answer field. Where no symbol waits, nothing
    /// changes and the result is `false`.
    fn next_kana(&mut self) -> (moved: bool)
        ensures
            moved == (old(self)@.queue.len() > 0),
            moved ==> forall|reading: u128| final(self)@ == old(self)@.advanced(reading),
            !moved ==> final(self)@ == old(self)@,
    {
        if self.kanas.len() > 0 {
            let next_kana = self.kanas.remove(0);
            self.current_kana = next_kana;
            self.indication = None;
            self.user_input = InputBuffer::new();
            assert(self@.queue =~= old(self)@.queue.drop_first());
            return true;
        }
        false
    }

    /// Stops the clock at the end of the session, if it still runs.
    fn finish_study_hook(&mut self)
        ensures
            exists|reading: u128|
                final(self)@ == (Session {
                    timer: #[trigger] old(self)@.timer.halted(reading),
                    ..old(self)@
                }),
    {
        self.timer.halt();
        proof {
            let reading = choose|reading: u128|
                self.timer@ == #[trigger] old(self).timer@.halted(reading);
            assert(self@ == (Session { timer: old(self)@.timer.halted(reading), ..old(self)@ }));
        }
    }

    /// Pauses the clock if it runs and lets it run if it is paused.
    fn reset_timer(&mut self)
        ensures
            exists|reading: u128|
                final(self)@ == (Session {
                    timer: #[trigger] old(self)@.timer.toggled(reading),
                    ..old(self)@
                }),
    {
        self.timer.toggle();
        proof {
            let reading = choose|reading: u128|
                self.timer@ == #[trigger] old(self).timer@.toggled(reading);
            assert(self@ == (Session { timer: old(self)@.timer.toggled(reading), ..old(self)@ }));
        }
    }

    /// How many symbols were logged with the given verdict.
    pub fn get_count_by_result(&self, result: &AnswerResult) -> (count: usize)
        ensures
            count == self@.count(*result),
            count <= self@.answers.len(),
    {
        let mut count: usize = 0;
        let mut place: usize = 0;
        while place < self.answers.len()
            invariant
                place <= self.answers@.len(),
                count <= place,
                count == count_of(self.answers@.take(place as int), *result),
            decreases self.answers@.len() - place,
        {
            proof {
                let seen = self.answers@.take(place as int);
                assert(self.answers@.take(place + 1) =~= seen.push(self.answers@[place as int]));
                lemma_count_of_push(seen, self.answers@[place as int], *result);
            }
            if self.answers[place].1 == *result {
                count += 1;
            }
            place += 1;
        }
        assert(self.answers@.take(place as int) =~= self.answers@);
        count
    }

    /// The time the session has taken so far, in milliseconds. Reads the
    /// clock while the session runs; exact while it is paused or over.
    pub fn total_elapsed_time_ms(&self) -> (ms: u128)
        ensures
            exists|reading: u128| ms == #[trigger] self@.timer.elapsed(reading),
            !self@.timer.running ==> ms == self@.timer.accumulated,
            ms >= self@.timer.accumulated,
    {
        let ms = self.timer.elapsed_ms();
        proof {
            let reading = choose|reading: u128| ms == #[trigger] self.timer@.elapsed(reading);
            assert(ms == self@.timer.elapsed(reading));
        }
        ms
    }

    /// The session clock as it is shown: minutes and seconds.
    pub fn format_timer(&self) -> (text: String)
        ensures
            exists|reading: u128| text@ == timer_text(#[trigger] self@.timer.elapsed(reading)),
    {
        let total_elapsed_time_ms = self.total_elapsed_time_ms();
        StudyPage::format_clock(total_elapsed_time_ms)
    }

    /// A time in milliseconds as the session clock shows it.
    pub fn format_clock(elapsed_ms: u128) -> (text: String)
        ensures
            text@ == timer_text(elapsed_ms),
    {
        let seconds = (elapsed_ms / 1000) % 60;
        let minutes = (elapsed_ms / 60_000) % 60;
        padded(minutes).concat(":").concat(padded(seconds).as_str())
    }

    /// The progress line: symbols logged out of all, then the good and the
    /// wrong ones.
    pub fn progress_text(&self) -> (text: String)
        ensures
            text@ == progress_line(
                self@.answers.len(),
                self@.total,
                self@.count(AnswerResult::Good),
                self@.count(AnswerResult::Wrong),
            ),
    {
        let good = self.get_count_by_result(&AnswerResult::Good);
        let wrong = self.get_count_by_result(&AnswerResult::Wrong);
        decimal(self.answers.len() as u128).concat("/").concat(
            decimal(self.total_kanas as u128).as_str(),
        ).concat(" | \u{2714} ").concat(decimal(good as u128).as_str()).concat(
            " | \u{2717} ",
        ).concat(decimal(wrong as u128).as_str())
    }
}

impl Default for StudyPage {
    fn default() -> (page: StudyPage)
        ensures
            is_arrangement(page@.in_play(), Kana::catalog()),
            page@ == Session::fresh(KanaRepresentation::Hiragana, page@.in_play()),
            page@.wf(),
    {
        StudyPage::new(KanaRepresentation::Hiragana)
    }
}

impl IPage for StudyPage {
    /// The page takes the step that the session's rules lay down, for what
    /// the clock happens to say. It asks for the home page when the session
    /// is given up, and for the result page, with the summary of the session
    /// as it then stands, when the last symbol is resolved. The settings are
    /// left alone, and a well-formed session stays well formed.
    open spec fn reacts(
        pre: StudyPage,
        key: KeyPress,
        settings: Config,
        post: StudyPage,
        new_settings: Config,
        event: PageEvent,
    ) -> bool {
        &&& new_settings == settings
        &&& exists|reading: u128| post@ == #[trigger] pre@.step(key, reading)
        &&& pre@.wf() ==> post@.wf()
        &&& match pre@.outcome(key) {
            Outcome::Stay => event is Nothing,
            Outcome::Home => event matches PageEvent::Navigate(Page::Homepage(home))
                && home.selected() == 0,
            Outcome::Finished => event matches PageEvent::Navigate(Page::ResultPage(result))
                && result@ == post@.summary(0) && !post@.timer.running,
        }
    }

    fn handle_key_events(&mut self, key: KeyPress, config: &mut Config) -> (event: PageEvent) {
        let ghost before = self@;
        proof {
            assert forall|reading: u128| before.wf() implies #[trigger] before.step(
                key,
                reading,
            ).wf() by {
                lemma_step_preserves_wf(before, key, reading);
            }
        }
        if !self.is_paused && key.code == Key::Esc {
            assert(self@ == before.step(key, 0));
            return PageEvent::Navigate(Page::Homepage(Homepage::default()));
        }
        if self.is_paused || key.code == Key::Pause || key.typed_with_control('p') {
            self.is_paused = !self.is_paused;
            self.reset_timer();
            proof {
                let reading = choose|reading: u128|
                    self@.timer == #[trigger] before.timer.toggled(reading);
                assert(self@ == before.step(key, reading));
            }
            return PageEvent::Nothing;
        }
        if key.code == Key::Enter {
            if self.is_input_valid() {
                self.push_good_answer();
                if !self.next_kana() {
                    let ghost logged = self@;
                    self.finish_study_hook();
                    proof {
                        let reading = choose|reading: u128|
                            self@.timer == #[trigger] logged.timer.halted(reading);
                        assert(self@ == before.step(key, reading));
                    }
                    return PageEvent::Navigate(Page::ResultPage(ResultPage::from(&*self)));
                }
                assert(self@ == before.step(key, 0));
            } else {
                self.indication = Some(Indication::WrongAnswer);
                self.push_wrong_answer();
                self.user_input.truncate();
                assert(self@ == before.step(key, 0));
            }
        } else if key.typed(' ') {
            let help = Some(Indication::Help(self.current_kana));
            if self.indication == help {
                if !self.next_kana() {
                    self.finish_study_hook();
                    proof {
                        let reading = choose|reading: u128|
                            self@.timer == #[trigger] before.timer.halted(reading);
                        assert(self@ == before.step(key, reading));
                    }
                    return PageEvent::Navigate(Page::ResultPage(ResultPage::from(&*self)));
                }
                assert(self@ == before.step(key, 0));
            } else {
                self.indication = help;
                self.push_wrong_answer();
                assert(self@ == before.step(key, 0));
            }
        } else {
            self.user_input.handle_key_event(key);
            assert(self@ == before.step(key, 0));
        }
        PageEvent::Nothing
    }
}

} // verus!
