//! The session clock: elapsed time that can be paused and resumed.
//!
//! A timer is either running since some instant or stopped. In both states
//! it carries the milliseconds gathered by earlier runs. What the clock says
//! is outside any proof, so every operation that reads it has a twin that
//! takes the reading as an argument, and the laws are stated for all
//! readings.

use std::time::{Duration, Instant};
use vstd::prelude::*;

verus! {

/// A reading of the monotonic clock. Nothing is known of it but that it can
/// be asked how long ago it was taken.
#[verifier::external_type_specification]
#[verifier::external_body]
pub struct ExInstant(Instant);

/// `Instant::now` reads the monotonic clock; nothing is known of the value.
pub assume_specification[ Instant::now ]() -> Instant;

/// `Instant::elapsed` gives the time that has passed since the instant was
/// taken; nothing is known of the value.
pub assume_specification[ Instant::elapsed ](instant: &Instant) -> Duration;

/// `Duration::as_millis` gives the whole milliseconds of a duration; nothing
/// is known of the value.
pub assume_specification[ Duration::as_millis ](duration: &Duration) -> u128;

/// A timer as a value: whether it runs, and the milliseconds of its earlier
/// runs.
pub struct TimerView {
    pub running: bool,
    pub accumulated: u128,
}

/// Milliseconds gathered so far plus those of one more run. The sum stops at
/// the largest `u128` instead of wrapping round.
pub open spec fn add_elapsed(accumulated: u128, elapsed: u128) -> u128 {
    if accumulated + elapsed > u128::MAX {
        u128::MAX
    } else {
        (accumulated + elapsed) as u128
    }
}

impl TimerView {
    /// A timer that has just been started.
    pub open spec fn fresh() -> TimerView {
        TimerView { running: true, accumulated: 0 }
    }

    /// The total elapsed time, when the current run has lasted `reading`
    /// milliseconds.
    pub open spec fn elapsed(self, reading: u128) -> u128 {
        if self.running {
            add_elapsed(self.accumulated, reading)
        } else {
            self.accumulated
        }
    }

    /// The timer after a pause or a resume: a running timer banks the
    /// `reading` milliseconds of its run and stops, a stopped one starts to
    /// run.
    pub open spec fn toggled(self, reading: u128) -> TimerView {
        if self.running {
            TimerView { running: false, accumulated: add_elapsed(self.accumulated, reading) }
        } else {
            TimerView { running: true, accumulated: self.accumulated }
        }
    }

    /// The timer brought to a halt: a running timer is toggled, a stopped
    /// one is left as it is.
    pub open spec fn halted(self, reading: u128) -> TimerView {
        if self.running {
            self.toggled(reading)
        } else {
            self
        }
    }

    /// The timer after one toggle for each entry of `readings`, in order.
    pub open spec fn toggled_each(self, readings: Seq<u128>) -> TimerView
        decreases readings.len(),
    {
        if readings.len() == 0 {
            self
        } else {
            self.toggled_each(readings.drop_last()).toggled(readings.last())
        }
    }
}

/// A timer that can be paused.
#[derive(Debug, Clone, Copy)]
pub struct Timer {
    started: Option<Instant>,
    accumulated_ms: u128,
}

impl View for Timer {
    type V = TimerView;

    closed spec fn view(&self) -> TimerView {
        TimerView { running: self.started is Some, accumulated: self.accumulated_ms }
    }
}

impl Timer {
    /// A timer that starts to run now.
    pub fn start() -> (timer: Timer)
        ensures
            timer@ == TimerView::fresh(),
    {
        Timer { started: Some(Instant::now()), accumulated_ms: 0 }
    }

    /// A timer that runs since `start`.
    pub fn running_since(start: Instant) -> (timer: Timer)
        ensures
            timer@ == TimerView::fresh(),
    {
        Timer { started: Some(start), accumulated_ms: 0 }
    }

    /// A stopped timer that has gathered `accumulated_ms` milliseconds.
    pub fn stopped(accumulated_ms: u128) -> (timer: Timer)
        ensures
            timer@ == (TimerView { running: false, accumulated: accumulated_ms }),
    {
        Timer { started: None, accumulated_ms }
    }

    /// Whether the timer runs.
    pub fn is_running(&self) -> (running: bool)
        ensures
            running == self@.running,
    {
        self.started.is_some()
    }

    /// The milliseconds of the earlier runs.
    pub fn accumulated_ms(&self) -> (ms: u128)
        ensures
            ms == self@.accumulated,
    {
        self.accumulated_ms
    }

    /// Stops a running timer whose run has lasted `reading` milliseconds. A
    /// stopped timer is left as it is.
    pub fn stop_with(&mut self, reading: u128)
        ensures
            final(self)@ == old(self)@.halted(reading),
    {
        if self.started.is_some() {
            self.accumulated_ms = self.accumulated_ms.saturating_add(reading);
            self.started = None;
        }
    }

    /// Lets a stopped timer run from `now` on. A running timer is left as it
    /// is.
    pub fn resume_at(&mut self, now: Instant)
        ensures
            final(self)@ == (TimerView { running: true, accumulated: old(self)@.accumulated }),
    {
        if self.started.is_none() {
            self.started = Some(now);
        }
    }

    /// The total elapsed time, when the current run has lasted `reading`
    /// milliseconds.
    pub fn elapsed_with(&self, reading: u128) -> (ms: u128)
        ensures
            ms == self@.elapsed(reading),
    {
        if self.started.is_some() {
            self.accumulated_ms.saturating_add(reading)
        } else {
            self.accumulated_ms
        }
    }

    /// Pauses a running timer and resumes a stopped one. The time of the run
    /// that ends is read from the clock.
    pub fn toggle(&mut self)
        ensures
            exists|reading: u128| final(self)@ == #[trigger] old(self)@.toggled(reading),
            final(self)@.running == !old(self)@.running,
            final(self)@.accumulated >= old(self)@.accumulated,
            !old(self)@.running ==> final(self)@.accumulated == old(self)@.accumulated,
    {
        match self.started {
            Some(start) => {
                let reading = start.elapsed().as_millis();
                self.stop_with(reading);
                assert(self@ == old(self)@.toggled(reading));
            },
            None => {
                self.resume_at(Instant::now());
                assert(self@ == old(self)@.toggled(0));
            },
        }
    }

    /// Stops the timer for good if it still runs.
    pub fn halt(&mut self)
        ensures
            exists|reading: u128| final(self)@ == #[trigger] old(self)@.halted(reading),
            !final(self)@.running,
            final(self)@.accumulated >= old(self)@.accumulated,
            !old(self)@.running ==> final(self)@ == old(self)@,
    {
        match self.started {
            Some(start) => {
                let reading = start.elapsed().as_millis();
                self.stop_with(reading);
                assert(self@ == old(self)@.halted(reading));
            },
            None => {
                assert(self@ == old(self)@.halted(0));
            },
        }
    }

    /// The total elapsed time in milliseconds. Reads the clock while the
    /// timer runs and changes nothing.
    pub fn elapsed_ms(&self) -> (ms: u128)
        ensures
            exists|reading: u128| ms == #[trigger] self@.elapsed(reading),
            !self@.running ==> ms == self@.accumulated,
            ms >= self@.accumulated,
    {
        match self.started {
            Some(start) => {
                let reading = start.elapsed().as_millis();
                let ms = self.elapsed_with(reading);
                assert(ms == self@.elapsed(reading));
                ms
            },
            None => {
                assert(self.accumulated_ms == self@.elapsed(0));
                self.accumulated_ms
            },
        }
    }
}

/// Toggling never takes gathered time away: what a stopped timer shows
/// after any number of pauses and resumes is at least what it showed before,
/// whatever the clock said in between.
pub proof fn lemma_toggles_never_lose_time(timer: TimerView, readings: Seq<u128>)
    ensures
        timer.toggled_each(readings).accumulated >= timer.accumulated,
        forall|before: u128, after: u128|
            !timer.running && !timer.toggled_each(readings).running ==> timer.toggled_each(
                readings,
            ).elapsed(after) >= timer.elapsed(before),
        timer.toggled_each(readings).running == (if readings.len() % 2 == 0 {
            timer.running
        } else {
            !timer.running
        }),
    decreases readings.len(),
{
    if readings.len() > 0 {
        lemma_toggles_never_lose_time(timer, readings.drop_last());
    }
}

/// A stopped timer that is resumed and stopped again before the clock has
/// moved shows the time it showed before.
pub proof fn lemma_instant_resume_costs_nothing(timer: TimerView, ignored: u128)
    requires
        !timer.running,
    ensures
        timer.toggled(ignored).toggled(0) == timer,
        forall|reading: u128| timer.toggled(ignored).toggled(0).elapsed(reading) == timer.elapsed(0),
{
}

/// While a timer runs, the time it shows grows with the clock.
pub proof fn lemma_running_time_is_monotonic(timer: TimerView, earlier: u128, later: u128)
    requires
        earlier <= later,
    ensures
        timer.elapsed(earlier) <= timer.elapsed(later),
        timer.accumulated <= timer.elapsed(earlier),
{
}

} // verus!
