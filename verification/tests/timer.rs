use kana_tui::timer::Timer;
use std::time::Instant;

fn wait_for_the_clock(milliseconds: u128) {
    let start = Instant::now();
    while start.elapsed().as_millis() < milliseconds {}
}

#[test]
fn a_stopped_timer_shows_what_it_gathered() {
    let timer = Timer::stopped(1500);
    assert!(!timer.is_running());
    assert_eq!(timer.accumulated_ms(), 1500);
    assert_eq!(timer.elapsed_ms(), 1500);
    assert_eq!(timer.elapsed_ms(), 1500);
    assert_eq!(timer.elapsed_with(99), 1500);
}

#[test]
fn a_fresh_timer_runs_from_zero() {
    let timer = Timer::start();
    assert!(timer.is_running());
    assert_eq!(timer.accumulated_ms(), 0);
    assert_eq!(timer.elapsed_with(0), 0);
    assert_eq!(timer.elapsed_with(250), 250);
    let other = Timer::running_since(Instant::now());
    assert!(other.is_running());
    assert_eq!(other.accumulated_ms(), 0);
}

#[test]
fn stopping_banks_the_run() {
    let mut timer = Timer::stopped(1000);
    timer.resume_at(Instant::now());
    assert!(timer.is_running());
    assert_eq!(timer.accumulated_ms(), 1000);
    assert_eq!(timer.elapsed_with(234), 1234);
    timer.stop_with(234);
    assert!(!timer.is_running());
    assert_eq!(timer.accumulated_ms(), 1234);
    assert_eq!(timer.elapsed_ms(), 1234);
}

#[test]
fn stopping_a_stopped_timer_changes_nothing() {
    let mut timer = Timer::stopped(40);
    timer.stop_with(1000);
    assert!(!timer.is_running());
    assert_eq!(timer.elapsed_ms(), 40);
}

#[test]
fn resuming_a_running_timer_changes_nothing() {
    let mut timer = Timer::start();
    timer.resume_at(Instant::now());
    assert!(timer.is_running());
    assert_eq!(timer.accumulated_ms(), 0);
}

#[test]
fn resume_and_stop_at_once_costs_nothing() {
    let mut timer = Timer::stopped(1500);
    timer.resume_at(Instant::now());
    timer.stop_with(0);
    assert!(!timer.is_running());
    assert_eq!(timer.elapsed_ms(), 1500);
}

#[test]
fn toggling_twice_at_once_is_within_clock_resolution() {
    let mut timer = Timer::stopped(1500);
    timer.toggle();
    assert!(timer.is_running());
    timer.toggle();
    assert!(!timer.is_running());
    let shown = timer.elapsed_ms();
    assert!(shown >= 1500);
    assert!(shown < 1500 + 1000);
}

#[test]
fn the_sum_stops_at_the_largest_number() {
    let mut timer = Timer::stopped(u128::MAX - 5);
    timer.resume_at(Instant::now());
    assert_eq!(timer.elapsed_with(5), u128::MAX);
    assert_eq!(timer.elapsed_with(6), u128::MAX);
    assert_eq!(timer.elapsed_with(4), u128::MAX - 1);
    timer.stop_with(10);
    assert_eq!(timer.elapsed_ms(), u128::MAX);
    timer.resume_at(Instant::now());
    timer.stop_with(u128::MAX);
    assert_eq!(timer.elapsed_ms(), u128::MAX);
}

#[test]
fn stopped_time_never_goes_down() {
    let mut timer = Timer::start();
    let mut last_shown = 0;
    for round in 0..20 {
        timer.toggle();
        if round % 3 == 0 {
            wait_for_the_clock(2);
        }
        if !timer.is_running() {
            let shown = timer.elapsed_ms();
            assert!(shown >= last_shown);
            assert_eq!(shown, timer.elapsed_ms());
            last_shown = shown;
        }
    }
}

#[test]
fn a_running_timer_follows_the_clock() {
    let mut timer = Timer::start();
    wait_for_the_clock(15);
    let first = timer.elapsed_ms();
    assert!(first >= 15);
    let second = timer.elapsed_ms();
    assert!(second >= first);
    timer.toggle();
    let stopped = timer.elapsed_ms();
    assert!(stopped >= second);
    wait_for_the_clock(5);
    assert_eq!(timer.elapsed_ms(), stopped);
    timer.toggle();
    wait_for_the_clock(5);
    assert!(timer.elapsed_ms() >= stopped + 5);
}

#[test]
fn halting_stops_for_good() {
    let mut timer = Timer::start();
    timer.halt();
    assert!(!timer.is_running());
    let shown = timer.elapsed_ms();
    timer.halt();
    assert!(!timer.is_running());
    assert_eq!(timer.elapsed_ms(), shown);
}
