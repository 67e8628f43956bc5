//! The counter/timer peripheral as the blinker sees it: two 16-bit value
//! registers, a mode bit, an enable bit and the overflow indicator.
//!
//! `TimerOp` names the register accesses that software makes, `TimerRegisters`
//! says what each of them does, and `programming_sequence` fixes their order.

use vstd::prelude::*;
use crate::config::{derived_config, ConfigError, TimerConfig};

verus! {

/// The register contents that the blinker depends on.
#[derive(Clone, Copy, Debug, PartialEq, Eq, Structural)]
pub struct TimerRegisters {
    /// Prescale register: the bus clock is divided by this value plus one.
    pub prescale: u16,
    /// Auto-reload register: the counter overflows every this value plus one
    /// divided ticks.
    pub reload: u16,
    /// Mode bit: the counter stops after one period instead of repeating.
    pub one_shot: bool,
    /// Counter-enable bit.
    pub counter_enabled: bool,
    /// Overflow indicator: set by the counter at the end of each period,
    /// cleared by software.
    pub update_pending: bool,
}

/// One register access made by software.
#[derive(Clone, Copy, Debug, PartialEq, Eq, Structural)]
pub enum TimerOp {
    /// Store a value in the prescale register.
    WritePrescale(u16),
    /// Store a value in the auto-reload register.
    WriteReload(u16),
    /// Select continuous counting by clearing the one-shot bit.
    SelectContinuous,
    /// Start the counter by setting the counter-enable bit.
    EnableCounter,
    /// Clear the overflow indicator.
    ClearUpdate,
}

impl TimerRegisters {
    /// The registers after one access by software.
    pub open spec fn after(self, op: TimerOp) -> TimerRegisters {
        match op {
            TimerOp::WritePrescale(value) => TimerRegisters { prescale: value, ..self },
            TimerOp::WriteReload(value) => TimerRegisters { reload: value, ..self },
            TimerOp::SelectContinuous => TimerRegisters { one_shot: false, ..self },
            TimerOp::EnableCounter => TimerRegisters { counter_enabled: true, ..self },
            TimerOp::ClearUpdate => TimerRegisters { update_pending: false, ..self },
        }
    }

    /// The registers after a sequence of accesses, made first to last.
    pub open spec fn after_all(self, ops: Seq<TimerOp>) -> TimerRegisters
        decreases ops.len(),
    {
        if ops.len() == 0 {
            self
        } else {
            self.after_all(ops.drop_last()).after(ops.last())
        }
    }

    /// The registers after the counter has completed a period: a running
    /// counter raises the overflow indicator, a stopped one changes nothing.
    pub open spec fn after_overflow(self) -> TimerRegisters {
        if self.counter_enabled {
            TimerRegisters { update_pending: true, ..self }
        } else {
            self
        }
    }

    /// Performs one access by software.
    pub fn apply(&mut self, op: TimerOp)
        ensures
            *final(self) == old(self).after(op),
    {
        match op {
            TimerOp::WritePrescale(value) => {
                self.prescale = value;
            },
            TimerOp::WriteReload(value) => {
                self.reload = value;
            },
            TimerOp::SelectContinuous => {
                self.one_shot = false;
            },
            TimerOp::EnableCounter => {
                self.counter_enabled = true;
            },
            TimerOp::ClearUpdate => {
                self.update_pending = false;
            },
        }
    }

    /// Lets the counter complete one period.
    pub fn overflow(&mut self)
        ensures
            *final(self) == old(self).after_overflow(),
    {
        if self.counter_enabled {
            self.update_pending = true;
        }
    }
}

/// The accesses that program a configuration and start the counter, in the
/// order in which they are made.
pub open spec fn spec_programming_sequence(config: TimerConfig) -> Seq<TimerOp> {
    seq![
        TimerOp::WritePrescale(config.divisor),
        TimerOp::WriteReload(config.reload),
        TimerOp::SelectContinuous,
        TimerOp::EnableCounter,
    ]
}

/// Lists the accesses that program a configuration and start the counter:
/// prescale, auto-reload, continuous mode, and the counter-enable bit last.
pub fn programming_sequence(config: TimerConfig) -> (ops: [TimerOp; 4])
    ensures
        ops@ == spec_programming_sequence(config),
{
    [
        TimerOp::WritePrescale(config.divisor),
        TimerOp::WriteReload(config.reload),
        TimerOp::SelectContinuous,
        TimerOp::EnableCounter,
    ]
}

/// Derives the configuration for a bus clock and a target frequency and
/// lists the accesses that program it and start the counter. Where no
/// configuration exists the answer is `ConfigOutOfRange` and no access at
/// all: the counter is not started.
pub fn program_timer(bus_hz: u64, target_hz: u64) -> (plan: Result<[TimerOp; 4], ConfigError>)
    requires
        target_hz > 0,
    ensures
        plan is Ok <==> derived_config(bus_hz as int, target_hz as int) is Ok,
        plan matches Ok(ops) ==> derived_config(bus_hz as int, target_hz as int) matches Ok(config)
            && ops@ == spec_programming_sequence(config),
        plan matches Err(error) ==> error == ConfigError::ConfigOutOfRange,
{
    match TimerConfig::for_frequencies(bus_hz, target_hz) {
        Ok(config) => Ok(programming_sequence(config)),
        Err(error) => Err(error),
    }
}

/// The registers after each part of the programming sequence, from none of
/// its accesses to all four.
proof fn lemma_programming_steps(before: TimerRegisters, config: TimerConfig)
    ensures
        ({
            let ops = spec_programming_sequence(config);
            &&& before.after_all(ops.take(0)) == before
            &&& before.after_all(ops.take(1)) == before.after(ops[0])
            &&& before.after_all(ops.take(2)) == before.after(ops[0]).after(ops[1])
            &&& before.after_all(ops.take(3)) == before.after(ops[0]).after(ops[1]).after(ops[2])
            &&& before.after_all(ops) == before.after(ops[0]).after(ops[1]).after(ops[2]).after(
                ops[3],
            )
        }),
{
    let ops = spec_programming_sequence(config);
    assert(ops.take(0) =~= Seq::<TimerOp>::empty());
    assert(ops.take(1).drop_last() =~= ops.take(0));
    assert(ops.take(2).drop_last() =~= ops.take(1));
    assert(ops.take(3).drop_last() =~= ops.take(2));
    assert(ops.drop_last() =~= ops.take(3));
    assert(before.after_all(ops.take(0)) == before);
    assert(before.after_all(ops.take(1)) == before.after(ops[0]));
    assert(before.after_all(ops.take(2)) == before.after(ops[0]).after(ops[1]));
    assert(before.after_all(ops.take(3)) == before.after(ops[0]).after(ops[1]).after(ops[2]));
}

/// Programming leaves the configuration in the two value registers, selects
/// continuous mode and starts the counter, whatever the registers held
/// before; the overflow indicator is not touched.
pub proof fn lemma_programming_effect(before: TimerRegisters, config: TimerConfig)
    ensures
        before.after_all(spec_programming_sequence(config)) == (TimerRegisters {
            prescale: config.divisor,
            reload: config.reload,
            one_shot: false,
            counter_enabled: true,
            update_pending: before.update_pending,
        }),
{
    lemma_programming_steps(before, config);
}

/// The counter is started by the last access and by no earlier one: after
/// any shorter part of the sequence the counter-enable bit is as it was.
pub proof fn lemma_counter_starts_last(before: TimerRegisters, config: TimerConfig, made: int)
    requires
        0 <= made < 4,
    ensures
        before.after_all(spec_programming_sequence(config).take(made)).counter_enabled
            == before.counter_enabled,
{
    lemma_programming_steps(before, config);
}

/// Clearing the overflow indicator twice in a row leaves the registers as
/// clearing it once does, and in either case the indicator reads clear.
pub proof fn lemma_clear_is_idempotent(registers: TimerRegisters)
    ensures
        registers.after(TimerOp::ClearUpdate).after(TimerOp::ClearUpdate) == registers.after(
            TimerOp::ClearUpdate,
        ),
        !registers.after(TimerOp::ClearUpdate).update_pending,
{
}

} // verus!
