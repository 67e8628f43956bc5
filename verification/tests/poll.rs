use blinky::config::TimerConfig;
use blinky::output::{Levels, Line, PairWrite};
use blinky::poll::{PollAction, PollLoop};
use blinky::timer::{programming_sequence, TimerOp, TimerRegisters};

fn power_on() -> TimerRegisters {
    TimerRegisters {
        prescale: 0,
        reload: 0,
        one_shot: false,
        counter_enabled: false,
        update_pending: false,
    }
}

#[test]
fn loop_enters_in_phase_false() {
    assert!(!PollLoop::new().phase());
}

#[test]
fn clear_indicator_keeps_the_loop_waiting() {
    let mut state = PollLoop::new();
    for _ in 0..5 {
        assert_eq!(state.poll(false), PollAction::KeepWaiting);
        assert!(!state.phase());
    }
}

#[test]
fn first_overflow_drives_line_two_high_and_flips_the_phase() {
    let mut state = PollLoop::new();
    assert_eq!(state.poll(true), PollAction::ClearThenWrite(PairWrite { high: Line::Two }));
    assert!(state.phase());
}

#[test]
fn second_overflow_swaps_the_lines_and_flips_back() {
    let mut state = PollLoop::new();
    state.poll(true);
    assert_eq!(state.poll(true), PollAction::ClearThenWrite(PairWrite { high: Line::One }));
    assert!(!state.phase());
}

#[test]
fn phase_is_the_parity_of_the_overflows_observed() {
    for total in 0..=17u32 {
        let mut state = PollLoop::new();
        let mut writes = 0;
        for event in 0..total {
            assert_eq!(state.poll(false), PollAction::KeepWaiting);
            match state.poll(true) {
                PollAction::ClearThenWrite(write) => {
                    writes += 1;
                    let expected = if event % 2 == 0 { Line::Two } else { Line::One };
                    assert_eq!(write.high_line(), expected);
                }
                PollAction::KeepWaiting => panic!("overflow {} was skipped", event),
            }
        }
        assert_eq!(writes, total);
        assert_eq!(state.phase(), total % 2 == 1);
    }
}

#[test]
fn parity_holds_from_either_phase() {
    let mut state = PollLoop::new();
    state.poll(true);
    let start = state.phase();
    assert!(start);
    for total in 1..=6u32 {
        state.poll(true);
        assert_eq!(state.phase(), start != (total % 2 == 1));
    }
}

#[test]
fn performing_an_action_clears_first_and_writes_the_pair() {
    let mut timer = TimerRegisters { counter_enabled: true, update_pending: true, ..power_on() };
    let mut levels = Levels { one: false, two: false };
    PollAction::ClearThenWrite(PairWrite { high: Line::Two }).perform(&mut timer, &mut levels);
    assert_eq!(timer, TimerRegisters { counter_enabled: true, ..power_on() });
    assert_eq!(levels, Levels { one: false, two: true });
}

#[test]
fn waiting_touches_neither_timer_nor_lines() {
    let mut timer = TimerRegisters { counter_enabled: true, update_pending: true, ..power_on() };
    let mut levels = Levels { one: true, two: false };
    PollAction::KeepWaiting.perform(&mut timer, &mut levels);
    assert_eq!(timer, TimerRegisters { counter_enabled: true, update_pending: true, ..power_on() });
    assert_eq!(levels, Levels { one: true, two: false });
}

#[test]
fn second_clear_causes_no_toggle() {
    let mut timer = TimerRegisters { counter_enabled: true, update_pending: true, ..power_on() };
    let mut levels = Levels { one: false, two: false };
    let mut state = PollLoop::new();

    state.poll(timer.update_pending).perform(&mut timer, &mut levels);
    assert!(state.phase());
    let after_one_clear = (timer, levels);

    timer.apply(TimerOp::ClearUpdate);
    assert_eq!((timer, levels), after_one_clear);
    assert_eq!(state.poll(timer.update_pending), PollAction::KeepWaiting);
    assert!(state.phase());
    assert_eq!(levels, Levels { one: false, two: true });
}

#[test]
fn two_seconds_at_one_hertz_give_two_flips() {
    let bus_hz: u64 = 8_000_000;
    let config = TimerConfig::for_frequencies(bus_hz, 1).unwrap();
    let period = config.period_ticks();
    assert_eq!(period, 8_000_043);
    // Two periods end within two divided ticks of two seconds.
    let two_seconds = 2 * bus_hz;
    assert!(2 * period - two_seconds <= 2 * 123);

    let mut timer = power_on();
    for op in programming_sequence(config) {
        timer.apply(op);
    }
    let mut levels = Levels { one: false, two: false };
    let mut state = PollLoop::new();
    let mut flips = 0;
    let mut seen = Vec::new();

    let mut elapsed: u64 = 0;
    let step: u64 = 1_000;
    let mut next_overflow = period;
    while elapsed < 2 * period {
        elapsed += step;
        if elapsed >= next_overflow {
            timer.overflow();
            next_overflow += period;
        }
        let before = state.phase();
        let action = state.poll(timer.update_pending);
        action.perform(&mut timer, &mut levels);
        if state.phase() != before {
            flips += 1;
            seen.push((elapsed / bus_hz, levels));
        }
    }

    assert_eq!(flips, 2);
    assert!(!state.phase());
    assert_eq!(
        seen,
        vec![
            (1, Levels { one: false, two: true }),
            (2, Levels { one: true, two: false }),
        ]
    );
    assert!(!timer.update_pending);
}

#[test]
fn no_flip_before_the_first_period_ends() {
    let config = TimerConfig::for_frequencies(8_000_000, 1).unwrap();
    let mut timer = power_on();
    for op in programming_sequence(config) {
        timer.apply(op);
    }
    let mut levels = Levels { one: false, two: false };
    let mut state = PollLoop::new();
    for _ in 0..1_000 {
        state.poll(timer.update_pending).perform(&mut timer, &mut levels);
    }
    assert!(!state.phase());
    assert_eq!(levels, Levels { one: false, two: false });
}
