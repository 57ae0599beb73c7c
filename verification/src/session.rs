//! The study session as a mathematical value, its transition function, and
//! the laws that hold of every run.
//!
//! A session asks the symbols of a plan one after the other. The first is
//! the current symbol, the others wait in the queue. Every key press is one
//! step. The rules are tried in a fixed order:
//!
//! 1. a pause key, or any key while the session is paused, toggles the
//!    pause and the timer and does nothing else;
//! 2. escape gives the session up;
//! 3. enter submits the typed answer: a right answer is logged as good and
//!    the session moves on, a wrong one is logged as wrong, is marked as
//!    such, and the field is emptied;
//! 4. the space bar asks for the answer, which logs the symbol as wrong, and
//!    moves on when the answer is already shown;
//! 5. any other key goes to the answer field.
//!
//! A symbol is logged once: the first verdict stays.

use crate::input::InputView;
use crate::key::{Key, KeyPress, Modifiers};
use crate::models::answer::{AnswerResult, ValidateAnswer};
use crate::models::kana::{Kana, KanaRepresentation};
use crate::timer::TimerView;
use vstd::prelude::*;

verus! {

/// What is shown under the symbol after a wrong answer or a request for
/// help.
#[derive(Debug, Clone, Copy, PartialEq, Eq, Hash, Structural)]
pub enum Indication {
    /// The last answer was wrong.
    WrongAnswer,
    /// The answer to this symbol is shown.
    Help(Kana),
}

/// What a step asks of the page router.
pub enum Outcome {
    /// Stay on the study page.
    Stay,
    /// Go back to the home page and drop the session.
    Home,
    /// The last symbol was resolved: go to the result page.
    Finished,
}

/// What is left of a session when it is over.
pub struct Summary {
    pub good: nat,
    pub wrong: nat,
    pub elapsed_ms: u128,
    pub representation: KanaRepresentation,
}

/// One entry of the outcome log.
pub type Entry = (Kana, AnswerResult);

/// How many entries of the log carry the verdict.
pub open spec fn count_of(answers: Seq<Entry>, verdict: AnswerResult) -> nat
    decreases answers.len(),
{
    if answers.len() == 0 {
        0
    } else {
        count_of(answers.drop_last(), verdict) + if answers.last().1 == verdict {
            1nat
        } else {
            0nat
        }
    }
}

/// Whether the log has an entry for the symbol.
pub open spec fn has_entry(answers: Seq<Entry>, kana: Kana) -> bool {
    exists|place: int| 0 <= place < answers.len() && (#[trigger] answers[place]).0 == kana
}

/// No symbol has two entries in the log.
pub open spec fn one_entry_each(answers: Seq<Entry>) -> bool {
    forall|first: int, second: int|
        #![trigger answers[first], answers[second]]
        0 <= first < second < answers.len() ==> answers[first].0 != answers[second].0
}

/// The enter key.
pub open spec fn enter() -> KeyPress {
    KeyPress { code: Key::Enter, modifiers: Modifiers::Plain }
}

/// The space bar.
pub open spec fn space() -> KeyPress {
    KeyPress { code: Key::Char(' '), modifiers: Modifiers::Plain }
}

/// A study session.
pub struct Session {
    /// The script in which the symbols are shown.
    pub representation: KanaRepresentation,
    /// The symbol that is asked now.
    pub current: Kana,
    /// The symbols that are still to come, the next one first.
    pub queue: Seq<Kana>,
    /// How many symbols the plan held.
    pub total: nat,
    /// The outcome log, oldest entry first.
    pub answers: Seq<Entry>,
    /// What is shown under the symbol.
    pub indication: Option<Indication>,
    /// The answer field.
    pub input: InputView,
    /// Whether the session is paused.
    pub paused: bool,
    /// The session clock.
    pub timer: TimerView,
}

impl Session {
    /// The session at its start: the first symbol of the plan is asked, the
    /// others wait, nothing is logged and the clock runs.
    pub open spec fn fresh(representation: KanaRepresentation, plan: Seq<Kana>) -> Session {
        Session {
            representation,
            current: plan[0],
            queue: plan.drop_first(),
            total: plan.len(),
            answers: Seq::empty(),
            indication: None,
            input: InputView::empty(),
            paused: false,
            timer: TimerView::fresh(),
        }
    }

    /// The symbols that are still to be resolved: the one that is asked,
    /// then those that wait.
    pub open spec fn in_play(self) -> Seq<Kana> {
        seq![self.current] + self.queue
    }

    /// Whether the symbol has been logged.
    pub open spec fn is_logged(self, kana: Kana) -> bool {
        has_entry(self.answers, kana)
    }

    /// How many symbols were logged with the verdict.
    pub open spec fn count(self, verdict: AnswerResult) -> nat {
        count_of(self.answers, verdict)
    }

    /// The invariant of a session: no symbol is logged twice, no symbol
    /// waits twice or waits while it is asked, nothing that waits has been
    /// logged, the answer is shown only for a logged symbol, and the log, the
    /// queue and the current symbol together account for the whole plan.
    pub open spec fn wf(self) -> bool {
        &&& one_entry_each(self.answers)
        &&& self.queue.no_duplicates()
        &&& !self.queue.contains(self.current)
        &&& forall|place: int|
            0 <= place < self.queue.len() ==> !self.is_logged(#[trigger] self.queue[place])
        &&& self.hint_shown() ==> self.is_logged(self.current)
        &&& self.answers.len() + self.queue.len() + (if self.is_logged(self.current) {
            0nat
        } else {
            1nat
        }) == self.total
    }

    /// Whether the session is one over the given plan: it is as long as the
    /// plan, and a symbol belongs to the plan exactly if it has been logged,
    /// is asked or waits.
    pub open spec fn accounts_for(self, plan: Seq<Kana>) -> bool {
        &&& self.total == plan.len()
        &&& forall|kana: Kana|
            #![trigger plan.contains(kana)]
            plan.contains(kana) <==> self.is_logged(kana) || kana == self.current
                || self.queue.contains(kana)
    }

    /// Whether the key toggles the pause: the pause key, control with `p`, or
    /// any key at all while the session is paused.
    pub open spec fn pauses(self, key: KeyPress) -> bool {
        self.paused || key.code == Key::Pause || key.is_control('p')
    }

    /// Whether the typed answer is right for the current symbol.
    pub open spec fn answer_accepted(self) -> bool {
        self.current.accepts(self.input.text)
    }

    /// Whether the answer to the current symbol is shown.
    pub open spec fn hint_shown(self) -> bool {
        self.indication == Some(Indication::Help(self.current))
    }

    /// Whether the key resolves the current symbol, so that the session
    /// moves on: enter on a right answer, or the space bar while the answer is
    /// shown.
    pub open spec fn advances(self, key: KeyPress) -> bool {
        &&& !self.pauses(key)
        &&& key.code != Key::Esc
        &&& (key.code == Key::Enter && self.answer_accepted()) || (key.code == Key::Char(' ')
            && self.hint_shown())
    }

    /// What the key asks of the page router.
    pub open spec fn outcome(self, key: KeyPress) -> Outcome {
        if self.pauses(key) {
            Outcome::Stay
        } else if key.code == Key::Esc {
            Outcome::Home
        } else if self.advances(key) && self.queue.len() == 0 {
            Outcome::Finished
        } else {
            Outcome::Stay
        }
    }

    /// The session with the current symbol logged, unless it was logged
    /// before.
    pub open spec fn logged(self, verdict: AnswerResult) -> Session {
        if self.is_logged(self.current) {
            self
        } else {
            Session { answers: self.answers.push((self.current, verdict)), ..self }
        }
    }

    /// The session moved on. Where a symbol waits it becomes the current one,
    /// with nothing shown under it and an empty field. Where none waits the
    /// session is over and its clock, if it still runs, stops after the
    /// `reading` milliseconds of its last run.
    pub open spec fn advanced(self, reading: u128) -> Session {
        if self.queue.len() > 0 {
            Session {
                current: self.queue[0],
                queue: self.queue.drop_first(),
                indication: None,
                input: InputView::empty(),
                ..self
            }
        } else {
            Session { timer: self.timer.halted(reading), ..self }
        }
    }

    /// The session after a key press. `reading` is what the clock says of
    /// the run that the step ends, where it ends one.
    pub open spec fn step(self, key: KeyPress, reading: u128) -> Session {
        if self.pauses(key) {
            Session { paused: !self.paused, timer: self.timer.toggled(reading), ..self }
        } else if key.code == Key::Esc {
            self
        } else if key.code == Key::Enter {
            if self.answer_accepted() {
                self.logged(AnswerResult::Good).advanced(reading)
            } else {
                Session {
                    indication: Some(Indication::WrongAnswer),
                    input: InputView::empty(),
                    ..self.logged(AnswerResult::Wrong)
                }
            }
        } else if key.code == Key::Char(' ') {
            if self.hint_shown() {
                self.advanced(reading)
            } else {
                Session {
                    indication: Some(Indication::Help(self.current)),
                    ..self.logged(AnswerResult::Wrong)
                }
            }
        } else {
            Session { input: self.input.after_key(key), ..self }
        }
    }

    /// What the result page is told of the session, when the clock says
    /// `reading` of a run that still goes on.
    pub open spec fn summary(self, reading: u128) -> Summary {
        Summary {
            good: self.count(AnswerResult::Good),
            wrong: self.count(AnswerResult::Wrong),
            elapsed_ms: self.timer.elapsed(reading),
            representation: self.representation,
        }
    }

    /// The session with `text` in the answer field.
    pub open spec fn typed(self, text: Seq<char>) -> Session {
        Session { input: InputView { text, cursor: text.len() }, ..self }
    }

    /// The session after a run of key presses, each with its clock reading.
    pub open spec fn run(self, keys: Seq<(KeyPress, u128)>) -> Session
        decreases keys.len(),
    {
        if keys.len() == 0 {
            self
        } else {
            self.run(keys.drop_last()).step(keys.last().0, keys.last().1)
        }
    }
}

/// Every entry of the log is good or wrong, so the two counts add up to the
/// length of the log.
pub proof fn lemma_counts_add_up(answers: Seq<Entry>)
    ensures
        count_of(answers, AnswerResult::Good) + count_of(answers, AnswerResult::Wrong)
            == answers.len(),
    decreases answers.len(),
{
    if answers.len() > 0 {
        lemma_counts_add_up(answers.drop_last());
    }
}

/// A new entry raises the count of its verdict by one and leaves the other
/// count alone.
pub proof fn lemma_count_of_push(answers: Seq<Entry>, entry: Entry, verdict: AnswerResult)
    ensures
        count_of(answers.push(entry), verdict) == count_of(answers, verdict) + if entry.1
            == verdict {
            1nat
        } else {
            0nat
        },
{
    assert(answers.push(entry).drop_last() =~= answers);
}

/// A session at its start is well formed, provided that its plan holds a
/// symbol and holds none twice.
pub proof fn lemma_fresh_is_wf(representation: KanaRepresentation, plan: Seq<Kana>)
    requires
        plan.len() > 0,
        plan.no_duplicates(),
    ensures
        Session::fresh(representation, plan).wf(),
        !Session::fresh(representation, plan).paused,
        Session::fresh(representation, plan).total == plan.len(),
        Session::fresh(representation, plan).queue.len() + 1 == plan.len(),
{
    let session = Session::fresh(representation, plan);
    let queue = plan.drop_first();
    assert forall|i: int, j: int| 0 <= i < queue.len() && 0 <= j < queue.len() && i != j implies queue[i]
        != queue[j] by {
        assert(queue[i] == plan[i + 1] && queue[j] == plan[j + 1]);
    }
    if queue.contains(plan[0]) {
        let place = choose|place: int| 0 <= place < queue.len() && queue[place] == plan[0];
        assert(plan[place + 1] == plan[0]);
    }
}

/// Logging the current symbol keeps a session well formed, leaves the
/// symbol logged, and changes the log by at most one entry at its end.
pub proof fn lemma_logged(session: Session, verdict: AnswerResult)
    requires
        session.wf(),
    ensures
        session.logged(verdict).wf(),
        session.logged(verdict).is_logged(session.current),
        session.is_logged(session.current) ==> session.logged(verdict) == session,
        !session.is_logged(session.current) ==> session.logged(verdict).answers
            == session.answers.push((session.current, verdict)),
{
    let after = session.logged(verdict);
    if !session.is_logged(session.current) {
        let last = session.answers.len() as int;
        assert(after.answers[last].0 == session.current);
        assert forall|place: int| 0 <= place < after.queue.len() implies !after.is_logged(
            #[trigger] after.queue[place],
        ) by {
            let waiting = after.queue[place];
            assert(session.queue.contains(waiting));
            if after.is_logged(waiting) {
                let at = choose|at: int|
                    0 <= at < after.answers.len() && (#[trigger] after.answers[at]).0 == waiting;
                if at < last {
                    assert(session.answers[at].0 == waiting);
                    assert(session.is_logged(session.queue[place]));
                }
            }
        }
        assert forall|first: int, second: int|
            #![trigger after.answers[first], after.answers[second]]
            0 <= first < second < after.answers.len() implies after.answers[first].0
            != after.answers[second].0 by {
            if second == last {
                assert(session.answers[first].0 != session.current);
            } else {
                assert(session.answers[first].0 != session.answers[second].0);
            }
        }
    }
}

/// Moving on from a logged symbol keeps a session well formed and leaves the
/// log as it is. While a symbol waits, the queue gets shorter by one.
pub proof fn lemma_advanced(session: Session, reading: u128)
    requires
        session.wf(),
        session.is_logged(session.current),
    ensures
        session.advanced(reading).wf(),
        session.advanced(reading).answers == session.answers,
        session.queue.len() > 0 ==> session.advanced(reading).queue.len() + 1
            == session.queue.len(),
        session.queue.len() == 0 ==> session.advanced(reading).queue.len() == 0
            && session.answers.len() == session.total,
{
    let after = session.advanced(reading);
    if session.queue.len() > 0 {
        let queue = session.queue;
        assert(!session.is_logged(queue[0]));
        assert forall|i: int, j: int|
            0 <= i < after.queue.len() && 0 <= j < after.queue.len() && i != j implies after.queue[i]
            != after.queue[j] by {
            assert(after.queue[i] == queue[i + 1] && after.queue[j] == queue[j + 1]);
        }
        if after.queue.contains(queue[0]) {
            let place = choose|place: int| 0 <= place < after.queue.len() && after.queue[place] == queue[0];
            assert(queue[place + 1] == queue[0]);
        }
        assert forall|place: int| 0 <= place < after.queue.len() implies !after.is_logged(
            #[trigger] after.queue[place],
        ) by {
            assert(after.queue[place] == queue[place + 1]);
        }
    }
}

/// A step keeps a session well formed.
pub proof fn lemma_step_preserves_wf(session: Session, key: KeyPress, reading: u128)
    requires
        session.wf(),
    ensures
        session.step(key, reading).wf(),
        session.step(key, reading).total == session.total,
        session.step(key, reading).representation == session.representation,
{
    if session.pauses(key) || key.code == Key::Esc {
    } else if key.code == Key::Enter {
        if session.answer_accepted() {
            lemma_logged(session, AnswerResult::Good);
            lemma_advanced(session.logged(AnswerResult::Good), reading);
        } else {
            lemma_logged(session, AnswerResult::Wrong);
        }
    } else if key.code == Key::Char(' ') {
        if session.hint_shown() {
            lemma_advanced(session, reading);
        } else {
            lemma_logged(session, AnswerResult::Wrong);
        }
    } else {
    }
}

/// A step loses no symbol and brings none in: a session over a plan stays
/// a session over that plan.
pub proof fn lemma_step_accounts_for(
    session: Session,
    plan: Seq<Kana>,
    key: KeyPress,
    reading: u128,
)
    requires
        session.wf(),
        session.accounts_for(plan),
    ensures
        session.step(key, reading).accounts_for(plan),
{
    let after = session.step(key, reading);
    lemma_step_preserves_wf(session, key, reading);
    lemma_logged(session, AnswerResult::Good);
    lemma_logged(session, AnswerResult::Wrong);
    assert(plan.contains(session.current));
    assert forall|kana: Kana|
        #![trigger plan.contains(kana)]
        plan.contains(kana) <==> after.is_logged(kana) || kana == after.current
            || after.queue.contains(kana) by {
        let noted = if session.pauses(key) || key.code == Key::Esc {
            session
        } else if key.code == Key::Enter {
            if session.answer_accepted() {
                session.logged(AnswerResult::Good)
            } else {
                session.logged(AnswerResult::Wrong)
            }
        } else if key.code == Key::Char(' ') && !session.hint_shown() {
            session.logged(AnswerResult::Wrong)
        } else {
            session
        };
        lemma_log_after_logging(session, noted, kana);
        assert(after.answers == noted.answers);
        if after.current != session.current {
            assert(noted.is_logged(session.current));
            assert(after.current == session.queue[0]);
            assert(after.queue == session.queue.drop_first());
            if session.queue.contains(kana) && kana != session.queue[0] {
                let place = choose|place: int|
                    0 <= place < session.queue.len() && session.queue[place] == kana;
                assert(after.queue[place - 1] == kana);
            }
            if after.queue.contains(kana) {
                let place = choose|place: int|
                    0 <= place < after.queue.len() && after.queue[place] == kana;
                assert(session.queue[place + 1] == kana);
            }
        }
    }
}

/// What logging the current symbol does to the question whether a symbol is
/// logged: it becomes true of the current symbol and stays as it was of every
/// other.
proof fn lemma_log_after_logging(session: Session, noted: Session, kana: Kana)
    requires
        noted == session || noted == session.logged(AnswerResult::Good) || noted
            == session.logged(AnswerResult::Wrong),
    ensures
        noted.is_logged(kana) <==> session.is_logged(kana) || (kana == session.current
            && noted != session),
        noted.current == session.current,
        noted.queue == session.queue,
{
    if noted != session {
        let last = session.answers.len() as int;
        assert(noted.answers.len() == last + 1);
        assert(noted.answers[last].0 == session.current);
        if session.is_logged(kana) {
            let place = choose|place: int|
                0 <= place < session.answers.len() && (#[trigger] session.answers[place]).0
                    == kana;
            assert(noted.answers[place].0 == kana);
        }
        if noted.is_logged(kana) && kana != session.current {
            let place = choose|place: int|
                0 <= place < noted.answers.len() && (#[trigger] noted.answers[place]).0 == kana;
            assert(session.answers[place].0 == kana);
        }
    }
}

/// Every symbol of the plan stands in exactly one place at every moment of a
/// session. Start a session over a plan that holds no symbol twice and
/// press any keys: the session stays well formed, so that nothing is logged
/// twice, waits twice, or waits after it was logged, and the logged
/// symbols, the current one and the waiting ones are the symbols of the plan.
pub proof fn lemma_run_accounts_for_plan(
    representation: KanaRepresentation,
    plan: Seq<Kana>,
    keys: Seq<(KeyPress, u128)>,
)
    requires
        plan.len() > 0,
        plan.no_duplicates(),
    ensures
        Session::fresh(representation, plan).run(keys).wf(),
        Session::fresh(representation, plan).run(keys).accounts_for(plan),
        Session::fresh(representation, plan).run(keys).representation == representation,
    decreases keys.len(),
{
    let start = Session::fresh(representation, plan);
    if keys.len() == 0 {
        lemma_fresh_is_wf(representation, plan);
        assert forall|kana: Kana|
            #![trigger plan.contains(kana)]
            plan.contains(kana) <==> start.is_logged(kana) || kana == start.current
                || start.queue.contains(kana) by {
            if plan.contains(kana) && kana != plan[0] {
                let place = choose|place: int| 0 <= place < plan.len() && plan[place] == kana;
                assert(start.queue[place - 1] == kana);
            }
            if start.queue.contains(kana) {
                let place = choose|place: int|
                    0 <= place < start.queue.len() && start.queue[place] == kana;
                assert(plan[place + 1] == kana);
            }
        }
    } else {
        lemma_run_accounts_for_plan(representation, plan, keys.drop_last());
        let before = start.run(keys.drop_last());
        lemma_step_preserves_wf(before, keys.last().0, keys.last().1);
        lemma_step_accounts_for(before, plan, keys.last().0, keys.last().1);
    }
}

/// The log only grows, by one entry at a time, and the entry that a step
/// adds is for the symbol that was asked and had not been logged.
pub proof fn lemma_step_extends_log(session: Session, key: KeyPress, reading: u128)
    requires
        session.wf(),
    ensures
        session.answers.is_prefix_of(session.step(key, reading).answers),
        session.step(key, reading).answers.len() <= session.answers.len() + 1,
        session.step(key, reading).answers.len() == session.answers.len() + 1 ==> {
            &&& !session.is_logged(session.current)
            &&& session.step(key, reading).answers.last().0 == session.current
        },
{
    let after = session.step(key, reading);
    if session.pauses(key) || key.code == Key::Esc {
    } else if key.code == Key::Enter {
        if session.answer_accepted() {
            lemma_logged(session, AnswerResult::Good);
            lemma_advanced(session.logged(AnswerResult::Good), reading);
        } else {
            lemma_logged(session, AnswerResult::Wrong);
        }
    } else if key.code == Key::Char(' ') {
        if session.hint_shown() {
            lemma_advanced(session, reading);
        } else {
            lemma_logged(session, AnswerResult::Wrong);
        }
    } else {
    }
    assert(session.answers.is_prefix_of(after.answers));
}

/// The first verdict wins. Whatever keys follow, and whatever the clock
/// says, an entry of the log stays where it is and as it is, and the symbol
/// gets no second entry.
pub proof fn lemma_first_verdict_wins(session: Session, keys: Seq<(KeyPress, u128)>, place: int)
    requires
        session.wf(),
        0 <= place < session.answers.len(),
    ensures
        session.run(keys).wf(),
        session.answers.is_prefix_of(session.run(keys).answers),
        session.run(keys).answers[place] == session.answers[place],
        forall|other: int|
            0 <= other < session.run(keys).answers.len() && other != place ==> (
            #[trigger] session.run(keys).answers[other]).0 != session.answers[place].0,
    decreases keys.len(),
{
    if keys.len() > 0 {
        let before = session.run(keys.drop_last());
        lemma_first_verdict_wins(session, keys.drop_last(), place);
        lemma_step_preserves_wf(before, keys.last().0, keys.last().1);
        lemma_step_extends_log(before, keys.last().0, keys.last().1);
    }
    let end = session.run(keys);
    assert forall|other: int| 0 <= other < end.answers.len() && other != place implies (
    #[trigger] end.answers[other]).0 != session.answers[place].0 by {
        if other < place {
            assert(end.answers[other].0 != end.answers[place].0);
        } else {
            assert(end.answers[place].0 != end.answers[other].0);
        }
    }
}

/// One way to resolve the symbol that is asked.
pub enum Move {
    /// Type `text` and press enter, while the clock reads `reading`.
    Answer { text: Seq<char>, reading: u128 },
    /// Press the space bar to see the answer, and once more to move on.
    Hint { asked: u128, taken: u128 },
}

impl Move {
    /// The key that ends the move, with its clock reading.
    pub open spec fn last_key(self) -> (KeyPress, u128) {
        match self {
            Move::Answer { text, reading } => (enter(), reading),
            Move::Hint { asked, taken } => (space(), taken),
        }
    }
}

impl Session {
    /// The session after `text` was typed and submitted.
    pub open spec fn attempt(self, text: Seq<char>, reading: u128) -> Session {
        self.typed(text).step(enter(), reading)
    }

    /// The session after each of the texts was typed and submitted, in
    /// order.
    pub open spec fn attempts(self, texts: Seq<(Seq<char>, u128)>) -> Session
        decreases texts.len(),
    {
        if texts.len() == 0 {
            self
        } else {
            self.attempts(texts.drop_last()).attempt(texts.last().0, texts.last().1)
        }
    }

    /// Whether the move resolves the current symbol: an answer must be
    /// right, a hint always does.
    pub open spec fn resolved_by(self, action: Move) -> bool {
        match action {
            Move::Answer { text, reading } => self.current.accepts(text),
            Move::Hint { asked, taken } => true,
        }
    }

    /// The session in which the last key of the move is pressed.
    pub open spec fn before_last_key(self, action: Move) -> Session {
        match action {
            Move::Answer { text, reading } => self.typed(text),
            Move::Hint { asked, taken } => self.step(space(), asked),
        }
    }

    /// The session after the move.
    pub open spec fn play(self, action: Move) -> Session {
        self.before_last_key(action).step(action.last_key().0, action.last_key().1)
    }

    /// Whether no key of the move but the last asks anything of the router.
    pub open spec fn quiet_before_last_key(self, action: Move) -> bool {
        match action {
            Move::Answer { text, reading } => true,
            Move::Hint { asked, taken } => self.outcome(space()) == Outcome::Stay,
        }
    }

    /// What the last key of the move asks of the router.
    pub open spec fn play_outcome(self, action: Move) -> Outcome {
        self.before_last_key(action).outcome(action.last_key().0)
    }

    /// The session after the moves, in order.
    pub open spec fn play_all(self, moves: Seq<Move>) -> Session
        decreases moves.len(),
    {
        if moves.len() == 0 {
            self
        } else {
            self.play_all(moves.drop_last()).play(moves.last())
        }
    }

    /// Whether each move resolves the symbol that is asked when its turn
    /// comes.
    pub open spec fn all_resolve(self, moves: Seq<Move>) -> bool {
        forall|turn: int|
            0 <= turn < moves.len() ==> self.play_all(moves.take(turn)).resolved_by(
                #[trigger] moves[turn],
            )
    }
}

/// Wrong answers to one symbol change the log once at most: after the first
/// of them the symbol is logged as wrong, and the session still asks it.
proof fn lemma_wrong_attempts(session: Session, wrong: Seq<(Seq<char>, u128)>)
    requires
        session.wf(),
        !session.paused,
        forall|turn: int| 0 <= turn < wrong.len() ==> !session.current.accepts((#[trigger] wrong[turn]).0),
    ensures
        session.attempts(wrong).wf(),
        !session.attempts(wrong).paused,
        session.attempts(wrong).current == session.current,
        session.attempts(wrong).queue == session.queue,
        session.attempts(wrong).total == session.total,
        session.attempts(wrong).answers == (if wrong.len() == 0 {
            session.answers
        } else {
            session.logged(AnswerResult::Wrong).answers
        }),
    decreases wrong.len(),
{
    if wrong.len() > 0 {
        let earlier = wrong.drop_last();
        assert forall|turn: int| 0 <= turn < earlier.len() implies !session.current.accepts(
            (#[trigger] earlier[turn]).0,
        ) by {
            assert(earlier[turn] == wrong[turn]);
        }
        lemma_wrong_attempts(session, earlier);
        let before = session.attempts(earlier).typed(wrong.last().0);
        assert(!before.answer_accepted());
        lemma_logged(session, AnswerResult::Wrong);
        lemma_logged(before, AnswerResult::Wrong);
        if earlier.len() > 0 {
            assert(before.is_logged(before.current));
        }
    }
}

/// Each symbol is counted once. After any number of wrong answers to the
/// symbol that is asked, followed by a right one, the log holds exactly one
/// entry for the symbol. The entry carries the verdict that came first,
/// which is the one the log held before, or else wrong if a wrong answer
/// came first, or else good.
pub proof fn lemma_single_counting(
    session: Session,
    wrong: Seq<(Seq<char>, u128)>,
    right: Seq<char>,
    reading: u128,
) -> (place: int)
    requires
        session.wf(),
        !session.paused,
        forall|turn: int| 0 <= turn < wrong.len() ==> !session.current.accepts((#[trigger] wrong[turn]).0),
        session.current.accepts(right),
    ensures
        session.attempts(wrong).attempt(right, reading).wf(),
        0 <= place < session.attempts(wrong).attempt(right, reading).answers.len(),
        session.attempts(wrong).attempt(right, reading).answers[place].0 == session.current,
        forall|other: int|
            0 <= other < session.attempts(wrong).attempt(right, reading).answers.len() && other
                != place ==> (#[trigger] session.attempts(wrong).attempt(
                right,
                reading,
            ).answers[other]).0 != session.current,
        session.is_logged(session.current) ==> place < session.answers.len()
            && session.attempts(wrong).attempt(right, reading).answers[place]
            == session.answers[place],
        !session.is_logged(session.current) ==> place == session.answers.len()
            && session.attempts(wrong).attempt(right, reading).answers[place].1 == (if wrong.len()
            == 0 {
            AnswerResult::Good
        } else {
            AnswerResult::Wrong
        }),
{
    lemma_wrong_attempts(session, wrong);
    let tried = session.attempts(wrong);
    let before = tried.typed(right);
    let end = tried.attempt(right, reading);
    assert(before.answer_accepted());
    lemma_logged(session, AnswerResult::Wrong);
    lemma_logged(before, AnswerResult::Good);
    lemma_advanced(before.logged(AnswerResult::Good), reading);
    assert(end.answers == before.logged(AnswerResult::Good).answers);
    assert(end.is_logged(session.current));
    let place = choose|place: int|
        0 <= place < end.answers.len() && (#[trigger] end.answers[place]).0 == session.current;
    assert forall|other: int| 0 <= other < end.answers.len() && other != place implies (
    #[trigger] end.answers[other]).0 != session.current by {
        if other < place {
            assert(end.answers[other].0 != end.answers[place].0);
        } else {
            assert(end.answers[place].0 != end.answers[other].0);
        }
    }
    if session.is_logged(session.current) {
        let old_place = choose|old_place: int|
            0 <= old_place < session.answers.len() && (#[trigger] session.answers[old_place]).0
                == session.current;
        assert(end.answers == session.answers);
        if old_place != place {
            assert(end.answers[old_place].0 == session.current);
        }
    } else {
        let last = session.answers.len() as int;
        assert(end.answers[last].0 == session.current);
        if last != place {
            assert(end.answers[last].0 != session.current);
        }
    }
    place
}

/// One resolving move on a session that is not paused and shows no answer:
/// the session stays well formed, the log comes to hold the symbol, and
/// either a symbol waited, then the queue is shorter by one and the router is
/// asked nothing, or none waited, then the router is asked for the result
/// page and the log accounts for the whole plan.
proof fn lemma_play(session: Session, action: Move)
    requires
        session.wf(),
        !session.paused,
        !session.hint_shown(),
        session.resolved_by(action),
    ensures
        session.play(action).wf(),
        !session.play(action).paused,
        session.play(action).total == session.total,
        session.play(action).representation == session.representation,
        session.quiet_before_last_key(action),
        session.queue.len() > 0 ==> {
            &&& session.play_outcome(action) == Outcome::Stay
            &&& session.play(action).queue.len() + 1 == session.queue.len()
            &&& !session.play(action).hint_shown()
        },
        session.queue.len() == 0 ==> {
            &&& session.play_outcome(action) == Outcome::Finished
            &&& session.play(action).queue.len() == 0
            &&& session.play(action).answers.len() == session.total
            &&& !session.play(action).timer.running
        },
{
    match action {
        Move::Answer { text, reading } => {
            let before = session.typed(text);
            assert(before.answer_accepted());
            lemma_logged(before, AnswerResult::Good);
            lemma_advanced(before.logged(AnswerResult::Good), reading);
        },
        Move::Hint { asked, taken } => {
            lemma_logged(session, AnswerResult::Wrong);
            let before = session.step(space(), asked);
            lemma_step_preserves_wf(session, space(), asked);
            assert(before.hint_shown());
            lemma_advanced(before, taken);
        },
    }
}

/// The state of a session part of the way through a run of resolving moves.
proof fn lemma_play_part(session: Session, moves: Seq<Move>, turns: int)
    requires
        session.wf(),
        !session.paused,
        !session.hint_shown(),
        moves.len() <= session.queue.len() + 1,
        session.all_resolve(moves),
        0 <= turns <= moves.len(),
    ensures
        session.play_all(moves.take(turns)).wf(),
        !session.play_all(moves.take(turns)).paused,
        session.play_all(moves.take(turns)).total == session.total,
        session.play_all(moves.take(turns)).representation == session.representation,
        turns <= session.queue.len() ==> {
            &&& session.play_all(moves.take(turns)).queue.len() + turns == session.queue.len()
            &&& !session.play_all(moves.take(turns)).hint_shown()
        },
        turns == session.queue.len() + 1 ==> {
            &&& session.play_all(moves.take(turns)).queue.len() == 0
            &&& session.play_all(moves.take(turns)).answers.len() == session.total
            &&& !session.play_all(moves.take(turns)).timer.running
        },
    decreases turns,
{
    if turns > 0 {
        lemma_play_part(session, moves, turns - 1);
        assert(moves.take(turns).drop_last() =~= moves.take(turns - 1));
        assert(moves.take(turns).last() == moves[turns - 1]);
        lemma_play(session.play_all(moves.take(turns - 1)), moves[turns - 1]);
    } else {
        assert(moves.take(0) =~= Seq::<Move>::empty());
    }
}

/// A session comes to its end. Resolve one symbol after the other, each by
/// a right answer or by asking for the answer and moving on, as many times
/// as the plan holds symbols: every move but the last shortens the queue by
/// one and asks nothing of the router, the last finds the queue empty and
/// is the one step that asks for the result page, and the good and the wrong
/// answers it reports add up to the size of the plan.
pub proof fn lemma_session_completes(session: Session, moves: Seq<Move>)
    requires
        session.wf(),
        !session.paused,
        !session.hint_shown(),
        moves.len() == session.queue.len() + 1,
        session.all_resolve(moves),
    ensures
        forall|turn: int|
            #![trigger moves[turn]]
            0 <= turn < moves.len() ==> {
                &&& session.play_all(moves.take(turn)).queue.len() + turn == session.queue.len()
                &&& session.play_all(moves.take(turn)).quiet_before_last_key(moves[turn])
                &&& session.play_all(moves.take(turn)).play_outcome(moves[turn]) == (if turn
                    == moves.len() - 1 {
                    Outcome::Finished
                } else {
                    Outcome::Stay
                })
            },
        session.play_all(moves).wf(),
        session.play_all(moves).queue.len() == 0,
        !session.play_all(moves).timer.running,
        session.play_all(moves).answers.len() == session.total,
        forall|reading: u128|
            (#[trigger] session.play_all(moves).summary(reading)).good + session.play_all(
                moves,
            ).summary(reading).wrong == session.total,
{
    assert forall|turn: int|
        #![trigger moves[turn]]
        0 <= turn < moves.len() implies {
        &&& session.play_all(moves.take(turn)).queue.len() + turn == session.queue.len()
        &&& session.play_all(moves.take(turn)).quiet_before_last_key(moves[turn])
        &&& session.play_all(moves.take(turn)).play_outcome(moves[turn]) == (if turn == moves.len()
            - 1 {
            Outcome::Finished
        } else {
            Outcome::Stay
        })
    } by {
        lemma_play_part(session, moves, turn);
        lemma_play(session.play_all(moves.take(turn)), moves[turn]);
    }
    lemma_play_part(session, moves, moves.len() as int);
    assert(moves.take(moves.len() as int) =~= moves);
    lemma_counts_add_up(session.play_all(moves).answers);
}

/// A session over a plan that holds no symbol twice comes to its end after
/// as many resolving moves as the plan holds symbols, and the good and the
/// wrong answers it then reports add up to the size of the plan.
pub proof fn lemma_fresh_session_completes(
    representation: KanaRepresentation,
    plan: Seq<Kana>,
    moves: Seq<Move>,
)
    requires
        plan.len() > 0,
        plan.no_duplicates(),
        moves.len() == plan.len(),
        Session::fresh(representation, plan).all_resolve(moves),
    ensures
        Session::fresh(representation, plan).play_all(moves).queue.len() == 0,
        Session::fresh(representation, plan).play_all(moves.drop_last()).play_outcome(moves.last())
            == Outcome::Finished,
        forall|reading: u128|
            (#[trigger] Session::fresh(representation, plan).play_all(moves).summary(reading)).good
                + Session::fresh(representation, plan).play_all(moves).summary(reading).wrong
                == plan.len(),
{
    let session = Session::fresh(representation, plan);
    lemma_fresh_is_wf(representation, plan);
    lemma_session_completes(session, moves);
    assert(moves.take(moves.len() - 1) =~= moves.drop_last());
    assert(moves[moves.len() - 1] == moves.last());
}

} // verus!
