use std::time::Instant;

use pomodoro::clock::InterruptibleClock;
use pomodoro::engine::PomodoroStep;
use pomodoro::engine::PomodoroTimer;
use pomodoro::interrupt::InterruptAction;
use pomodoro::interrupt::InterruptHandler;

#[test]
fn status_flag_is_clear_while_idle_and_after_sleep() {
    let (mut clock, _canceller) = InterruptibleClock::new().expect("timer resources");
    let reader = clock.status_reader();
    assert!(!reader.is_sleeping());
    clock.sleep(0);
    assert!(!reader.is_sleeping());
}

#[test]
fn interrupt_while_idle_asks_for_exit() {
    let (clock, canceller) = InterruptibleClock::new().expect("timer resources");
    let handler = InterruptHandler::new(clock.status_reader(), canceller);
    let (observed, action) = handler.on_interrupt();
    assert!(!observed);
    assert_eq!(action, InterruptAction::ExitProcess);
}

#[test]
fn cancelling_twice_with_one_wait_never_started_is_harmless() {
    let (clock, canceller) = InterruptibleClock::new().expect("timer resources");
    let handler = InterruptHandler::new(clock.status_reader(), canceller);
    let first = handler.cancel_pending();
    let second = handler.cancel_pending();
    // Both requests found no wait outstanding; whichever answers the
    // primitive gave, nothing crashed and nothing hangs.
    let _ = (first, second);
}

#[test]
fn a_cancelled_work_sleep_returns_early_and_the_sequence_moves_on() {
    let (clock, canceller) = InterruptibleClock::new().expect("timer resources");
    let handler = InterruptHandler::new(clock.status_reader(), canceller);
    let mut timer = PomodoroTimer::new(clock);

    timer.next();
    assert_eq!(timer.get_step(), PomodoroStep::Work);

    // The cancellation handle fires before the wait begins: it must cut
    // short the next wait, so the 25 minute work sleep returns at once.
    handler.cancel_pending();
    let started = Instant::now();
    timer.sleep();
    assert!(started.elapsed().as_secs() < 10);

    // The skip does not disturb the sequence: the next interval is the
    // short break, not a repeat of work.
    timer.next();
    assert_eq!(timer.get_step(), PomodoroStep::ShortBreak);
}
