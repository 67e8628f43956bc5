//! Derivation of the counter configuration from two frequencies.
//!
//! A bus clock of `bus_hz` is to produce one counter overflow per period of a
//! target frequency `target_hz`. The counter divides the bus clock by
//! `divisor + 1` and overflows every `reload + 1` divided ticks; both values
//! live in 16-bit registers.

use vstd::prelude::*;
use crate::narrowing::{narrow_to_u16, widen_to_u64};

verus! {

/// Largest value that a 16-bit timer register holds.
pub const FIELD_MAX: u64 = 65_535;

/// Largest ratio for which a configuration exists: `65_535 * 65_536`.
pub const RATIO_MAX: u64 = 4_294_901_760;

/// The pair of values written to the prescale and auto-reload registers.
#[derive(Clone, Copy, Debug, PartialEq, Eq, Structural)]
pub struct TimerConfig {
    /// Prescale register value; the bus clock is divided by `divisor + 1`.
    pub divisor: u16,
    /// Auto-reload register value; the counter overflows every `reload + 1`
    /// divided ticks.
    pub reload: u16,
}

/// Why no configuration was produced.
#[derive(Clone, Copy, Debug, PartialEq, Eq, Structural)]
pub enum ConfigError {
    /// The divisor or the reload value does not fit a 16-bit register.
    ConfigOutOfRange,
}

/// Bus ticks per target period, rounded down.
pub open spec fn ratio_of(bus_hz: int, target_hz: int) -> int {
    bus_hz / target_hz
}

/// The prescale divisor chosen for a ratio: `floor((ratio - 1) / 65535)`.
pub open spec fn divisor_for(ratio: int) -> int {
    (ratio - 1) / 65_535
}

/// The reload value chosen for a ratio: `floor(ratio / (divisor + 1))`.
pub open spec fn reload_for(ratio: int) -> int {
    ratio / (divisor_for(ratio) + 1)
}

/// Whether a value fits a 16-bit register.
pub open spec fn fits_field(value: int) -> bool {
    0 <= value <= FIELD_MAX
}

/// Whether both derived values fit their registers.
pub open spec fn representable(ratio: int) -> bool {
    fits_field(divisor_for(ratio)) && fits_field(reload_for(ratio))
}

/// Bus ticks between two overflows of a counter programmed with the given
/// register values: `(divisor + 1) * (reload + 1)`.
pub open spec fn period_ticks(divisor: int, reload: int) -> int {
    (divisor + 1) * (reload + 1)
}

/// The outcome of the derivation: the configuration made of the divisor and
/// the reload value where both fit their registers, `ConfigOutOfRange` where
/// one of them does not.
pub open spec fn derived_config(bus_hz: int, target_hz: int) -> Result<TimerConfig, ConfigError> {
    let ratio = ratio_of(bus_hz, target_hz);
    if representable(ratio) {
        Ok(TimerConfig { divisor: divisor_for(ratio) as u16, reload: reload_for(ratio) as u16 })
    } else {
        Err(ConfigError::ConfigOutOfRange)
    }
}

impl TimerConfig {
    /// Bus ticks between two overflows under this configuration.
    pub open spec fn spec_period_ticks(self) -> int {
        period_ticks(self.divisor as int, self.reload as int)
    }

    /// Derives the configuration for a bus clock and a target frequency.
    ///
    /// Fails with `ConfigOutOfRange` exactly when the divisor or the reload
    /// value would not fit 16 bits; nothing is ever truncated.
    pub fn for_frequencies(bus_hz: u64, target_hz: u64) -> (outcome: Result<TimerConfig, ConfigError>)
        requires
            target_hz > 0,
        ensures
            outcome == derived_config(bus_hz as int, target_hz as int),
    {
        let ratio: u64 = bus_hz / target_hz;
        if ratio == 0 {
            return Err(ConfigError::ConfigOutOfRange);
        }
        let divisor: u16 = match narrow_to_u16((ratio - 1) / widen_to_u64(u16::MAX)) {
            Ok(value) => value,
            Err(_) => {
                return Err(ConfigError::ConfigOutOfRange);
            },
        };
        let reload: u16 = match narrow_to_u16(ratio / (widen_to_u64(divisor) + 1)) {
            Ok(value) => value,
            Err(_) => {
                return Err(ConfigError::ConfigOutOfRange);
            },
        };
        Ok(TimerConfig { divisor, reload })
    }

    /// Bus ticks between two overflows under this configuration.
    pub fn period_ticks(&self) -> (ticks: u64)
        ensures
            ticks == self.spec_period_ticks(),
            1 <= ticks <= 4_294_967_296,
    {
        let scale: u64 = widen_to_u64(self.divisor) + 1;
        let count: u64 = widen_to_u64(self.reload) + 1;
        assert(scale * count <= 65_536 * 65_536 && scale * count >= 1) by (nonlinear_arith)
            requires
                1 <= scale <= 65_536,
                1 <= count <= 65_536,
        ;
        scale * count
    }
}

/// Quotient and remainder of a division by a positive number.
proof fn lemma_division(dividend: int, by: int)
    requires
        by > 0,
    ensures
        dividend == by * (dividend / by) + dividend % by,
        0 <= dividend % by < by,
{
    vstd::arithmetic::div_mod::lemma_fundamental_div_mod(dividend, by);
    vstd::arithmetic::div_mod::lemma_mod_bound(dividend, by);
}

/// The divisor is the least scale under which a full period still fits the
/// 16-bit count: `65_535 * divisor < ratio <= 65_535 * (divisor + 1)`.
pub proof fn lemma_divisor_is_least(ratio: int)
    ensures
        65_535 * divisor_for(ratio) < ratio <= 65_535 * (divisor_for(ratio) + 1),
{
    lemma_division(ratio - 1, 65_535);
}

/// A ratio has a configuration exactly when it lies between 1 and
/// `65_535 * 65_536`. The reload value then never exceeds 65_535, so only the
/// divisor can run out of range.
pub proof fn lemma_representable_ratios(ratio: int)
    ensures
        representable(ratio) <==> 1 <= ratio <= RATIO_MAX,
        ratio >= 1 ==> 0 <= reload_for(ratio) <= 65_535,
        ratio >= 1 ==> divisor_for(ratio) >= 0,
{
    lemma_divisor_is_least(ratio);
    if ratio >= 1 {
        let scale = divisor_for(ratio) + 1;
        lemma_division(ratio, scale);
        let reload = ratio / scale;
        assert(reload >= 0 && reload <= 65_535) by (nonlinear_arith)
            requires
                scale >= 1,
                ratio >= 1,
                ratio <= 65_535 * scale,
                ratio == scale * reload + ratio % scale,
                0 <= ratio % scale < scale,
        ;
    }
}

/// Range of the derived values. A configuration is produced exactly for the
/// ratios from 1 to `65_535 * 65_536`; its divisor and reload are the values
/// of the two formulas, unchanged by the narrowing to 16 bits and each within
/// `0..=65_535`. Every other ratio, any above `65_536 * 65_536` among them,
/// is answered with `ConfigOutOfRange`.
pub proof fn lemma_config_range(bus_hz: u64, target_hz: u64)
    requires
        target_hz > 0,
    ensures
        derived_config(bus_hz as int, target_hz as int) is Ok <==> 1 <= ratio_of(
            bus_hz as int,
            target_hz as int,
        ) <= 65_535 * 65_536,
        derived_config(bus_hz as int, target_hz as int) matches Ok(config) ==> {
            &&& config.divisor == divisor_for(ratio_of(bus_hz as int, target_hz as int))
            &&& config.reload == reload_for(ratio_of(bus_hz as int, target_hz as int))
            &&& 0 <= config.divisor <= 65_535
            &&& 0 <= config.reload <= 65_535
        },
        ratio_of(bus_hz as int, target_hz as int) > 65_536 * 65_536 ==> derived_config(
            bus_hz as int,
            target_hz as int,
        ) == Err::<TimerConfig, ConfigError>(ConfigError::ConfigOutOfRange),
{
    lemma_representable_ratios(ratio_of(bus_hz as int, target_hz as int));
}

/// Accuracy of the period. With `scale = divisor + 1`, the period that the
/// counter realises, `scale * (reload + 1)` bus ticks, is longer than the
/// ideal period `bus_hz / target_hz` and exceeds it by at most one divided
/// tick, that is by at most `scale` bus ticks. Counted without the final
/// tick, `scale * reload`, it is no longer than the ratio. Both bounds are
/// stated without fractions: once against the rounded ratio, once against the
/// two frequencies themselves.
pub proof fn lemma_period_accuracy(bus_hz: u64, target_hz: u64)
    requires
        target_hz > 0,
    ensures
        derived_config(bus_hz as int, target_hz as int) matches Ok(config) ==> ({
            let ratio = ratio_of(bus_hz as int, target_hz as int);
            let scale = config.divisor + 1;
            let ticks = config.spec_period_ticks();
            &&& scale * config.reload <= ratio < ticks <= ratio + scale
            &&& bus_hz < ticks * target_hz <= bus_hz + scale * target_hz
        }),
{
    let bus = bus_hz as int;
    let target = target_hz as int;
    let ratio = ratio_of(bus, target);
    if representable(ratio) {
        let scale = divisor_for(ratio) + 1;
        let reload = reload_for(ratio);
        let ticks = period_ticks(divisor_for(ratio), reload);
        lemma_division(ratio, scale);
        lemma_division(bus, target);
        assert(ticks == scale * reload + scale) by (nonlinear_arith)
            requires
                ticks == scale * (reload + 1),
        ;
        assert(bus < ticks * target <= bus + scale * target) by (nonlinear_arith)
            requires
                target > 0,
                scale > 0,
                ratio < ticks <= ratio + scale,
                bus == target * ratio + bus % target,
                0 <= bus % target < target,
        ;
    }
}

} // verus!
