use pomodoro::clock::InterruptibleClock;
use pomodoro::engine::PomodoroStep;
use pomodoro::engine::PomodoroTimer;
use pomodoro::engine::label_of;

fn fresh_timer() -> PomodoroTimer {
    let (clock, _canceller) = InterruptibleClock::new().expect("timer resources");
    PomodoroTimer::new(clock)
}

#[test]
fn fresh_engine_holds_the_short_break_placeholder() {
    let timer = fresh_timer();
    assert_eq!(timer.get_step(), PomodoroStep::ShortBreak);
}

#[test]
fn first_eight_advances_follow_the_classic_pattern() {
    let mut timer = fresh_timer();
    let expected = vec![
        PomodoroStep::Work,
        PomodoroStep::ShortBreak,
        PomodoroStep::Work,
        PomodoroStep::ShortBreak,
        PomodoroStep::Work,
        PomodoroStep::LongBreak,
        PomodoroStep::Work,
        PomodoroStep::ShortBreak,
    ];
    for want in expected {
        timer.next();
        assert_eq!(timer.get_step(), want);
    }
}

#[test]
fn positions_follow_parity_and_divisibility() {
    let mut timer = fresh_timer();
    for i in 1u64..=36 {
        timer.next();
        let got = timer.get_step();
        if i % 2 == 1 {
            assert_eq!(got, PomodoroStep::Work);
        } else if i % 6 == 0 {
            assert_eq!(got, PomodoroStep::LongBreak);
        } else {
            assert_eq!(got, PomodoroStep::ShortBreak);
        }
    }
}

#[test]
fn any_block_of_six_repeats_the_first_block() {
    let mut timer = fresh_timer();
    let mut first_block = Vec::new();
    for _ in 0..6 {
        timer.next();
        first_block.push(timer.get_step());
    }
    for _ in 0..4 {
        for want in &first_block {
            timer.next();
            assert_eq!(timer.get_step(), *want);
        }
    }
}

#[test]
fn duration_table_is_exact() {
    let timer = fresh_timer();
    assert_eq!(timer.duration_for(PomodoroStep::Work), 1500);
    assert_eq!(timer.duration_for(PomodoroStep::ShortBreak), 300);
    assert_eq!(timer.duration_for(PomodoroStep::LongBreak), 1800);
}

#[test]
fn labels_are_the_fixed_announcement_lines() {
    assert_eq!(label_of(PomodoroStep::Work), "Time to work.");
    assert_eq!(label_of(PomodoroStep::ShortBreak), "Take a short break.");
    assert_eq!(label_of(PomodoroStep::LongBreak), "Take a long break.");
}
