use blinky::config::{ConfigError, TimerConfig};
use blinky::timer::{program_timer, programming_sequence, TimerOp, TimerRegisters};

fn stopped() -> TimerRegisters {
    TimerRegisters {
        prescale: 7,
        reload: 9,
        one_shot: true,
        counter_enabled: false,
        update_pending: false,
    }
}

#[test]
fn sequence_programs_values_then_mode_then_start() {
    let config = TimerConfig { divisor: 122, reload: 65_040 };
    assert_eq!(
        programming_sequence(config),
        [
            TimerOp::WritePrescale(122),
            TimerOp::WriteReload(65_040),
            TimerOp::SelectContinuous,
            TimerOp::EnableCounter,
        ]
    );
}

#[test]
fn program_timer_derives_and_sequences() {
    assert_eq!(
        program_timer(8_000_000, 1),
        Ok([
            TimerOp::WritePrescale(122),
            TimerOp::WriteReload(65_040),
            TimerOp::SelectContinuous,
            TimerOp::EnableCounter,
        ])
    );
}

#[test]
fn program_timer_gives_no_access_when_out_of_range() {
    assert_eq!(program_timer(65_535 * 65_536 + 1, 1), Err(ConfigError::ConfigOutOfRange));
    assert_eq!(program_timer(1, 2), Err(ConfigError::ConfigOutOfRange));
    assert_eq!(program_timer(u64::MAX, 1), Err(ConfigError::ConfigOutOfRange));
}

#[test]
fn each_access_changes_its_own_register_only() {
    let mut registers = stopped();
    registers.apply(TimerOp::WritePrescale(122));
    assert_eq!(registers, TimerRegisters { prescale: 122, ..stopped() });

    let mut registers = stopped();
    registers.apply(TimerOp::WriteReload(65_040));
    assert_eq!(registers, TimerRegisters { reload: 65_040, ..stopped() });

    let mut registers = stopped();
    registers.apply(TimerOp::SelectContinuous);
    assert_eq!(registers, TimerRegisters { one_shot: false, ..stopped() });

    let mut registers = stopped();
    registers.apply(TimerOp::EnableCounter);
    assert_eq!(registers, TimerRegisters { counter_enabled: true, ..stopped() });

    let mut registers = TimerRegisters { update_pending: true, ..stopped() };
    registers.apply(TimerOp::ClearUpdate);
    assert_eq!(registers, stopped());
}

#[test]
fn programming_leaves_the_configuration_running_in_continuous_mode() {
    let config = TimerConfig::for_frequencies(8_000_000, 1).unwrap();
    for pending in [false, true] {
        let mut registers = TimerRegisters { update_pending: pending, ..stopped() };
        for op in programming_sequence(config) {
            registers.apply(op);
        }
        assert_eq!(
            registers,
            TimerRegisters {
                prescale: 122,
                reload: 65_040,
                one_shot: false,
                counter_enabled: true,
                update_pending: pending,
            }
        );
    }
}

#[test]
fn counter_is_started_by_the_last_access_only() {
    let ops = programming_sequence(TimerConfig { divisor: 3, reload: 4 });
    let mut registers = stopped();
    for op in &ops[..3] {
        registers.apply(*op);
        assert!(!registers.counter_enabled);
    }
    registers.apply(ops[3]);
    assert!(registers.counter_enabled);
}

#[test]
fn clearing_twice_is_clearing_once() {
    for pending in [false, true] {
        let mut once = TimerRegisters { update_pending: pending, counter_enabled: true, ..stopped() };
        once.apply(TimerOp::ClearUpdate);
        let mut twice = TimerRegisters { update_pending: pending, counter_enabled: true, ..stopped() };
        twice.apply(TimerOp::ClearUpdate);
        twice.apply(TimerOp::ClearUpdate);
        assert_eq!(once, twice);
        assert!(!once.update_pending);
    }
}

#[test]
fn running_counter_raises_the_indicator() {
    let mut registers = TimerRegisters { counter_enabled: true, ..stopped() };
    registers.overflow();
    assert_eq!(registers, TimerRegisters { counter_enabled: true, update_pending: true, ..stopped() });
    registers.overflow();
    assert!(registers.update_pending);
}

#[test]
fn stopped_counter_raises_nothing() {
    let mut registers = stopped();
    registers.overflow();
    assert_eq!(registers, stopped());
}
