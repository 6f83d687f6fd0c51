//! Derivation of the clocks that drive the PWM timer.
//!
//! The PWM unit divides its source clock once for the whole peripheral and
//! once more for each timer. Both dividers are eight-bit prescalers: a
//! prescaler `p` divides by `p + 1`, so the dividers 1 to 256 can be had.
//! Given a target frequency, each stage picks the slowest clock that still
//! reaches the target, and fails when no prescaler does.
//!
//! All frequencies are whole numbers of hertz.

use vstd::prelude::*;
use vstd::arithmetic::div_mod::*;
use vstd::arithmetic::mul::*;

use crate::error::MotorError;

verus! {

/// The largest divider that an eight-bit prescaler can select.
pub const MAX_DIVIDER: u32 = 256;

/// The divider that brings `base` as close to `rate` as it gets without
/// falling below it: the whole part of `base / rate`.
pub open spec fn divider_for(base: u32, rate: int) -> int {
    base as int / rate
}

/// Whether some prescaler brings `base` down to the slowest clock that is
/// still at least `rate`.
pub open spec fn prescaler_exists(base: u32, rate: int) -> bool {
    rate > 0 && 1 <= divider_for(base, rate) <= MAX_DIVIDER
}

/// Finds the divider for `base` and `rate`, if a prescaler can select it.
fn select_divider(base: u32, rate: u64) -> (divider: Option<u32>)
    ensures
        prescaler_exists(base, rate as int) ==> divider == Some(
            divider_for(base, rate as int) as u32,
        ),
        !prescaler_exists(base, rate as int) ==> divider is None,
{
    if rate == 0 {
        return None;
    }
    let quotient: u64 = base as u64 / rate;
    if quotient == 0 || quotient > MAX_DIVIDER as u64 {
        return None;
    }
    Some(quotient as u32)
}

/// The clock of the PWM peripheral, divided down from its source clock.
#[derive(Clone, Copy, Debug, PartialEq, Eq, Structural)]
pub struct PeripheralClockConfig {
    /// The prescaler to program: the source clock is divided by one more.
    pub prescaler: u8,
    /// The frequency of the peripheral clock, rounded down to whole hertz.
    pub frequency: u32,
}

impl PeripheralClockConfig {
    /// Whether a peripheral clock of at least `target_frequency` can be had
    /// from `source_clock_rate`.
    pub open spec fn derivable(source_clock_rate: u32, target_frequency: u32) -> bool {
        prescaler_exists(source_clock_rate, target_frequency as int)
    }

    /// The peripheral clock for `target_frequency`, where one can be had.
    pub open spec fn derived(source_clock_rate: u32, target_frequency: u32) -> Self
        recommends
            Self::derivable(source_clock_rate, target_frequency),
    {
        let divider = divider_for(source_clock_rate, target_frequency as int);
        PeripheralClockConfig {
            prescaler: (divider - 1) as u8,
            frequency: (source_clock_rate as int / divider) as u32,
        }
    }

    /// Picks the prescaler for a peripheral clock of `target_frequency`.
    ///
    /// Only the source clock divided by 1, 2, ..., 256 can be produced. Any
    /// other target is rounded up to the next of these. Fails when the
    /// target is zero, above the source clock, or so low that a divider
    /// beyond 256 would be called for.
    pub fn with_frequency(source_clock_rate: u32, target_frequency: u32) -> (result: Result<
        Self,
        MotorError,
    >)
        ensures
            Self::derivable(source_clock_rate, target_frequency) ==> result == Ok::<
                Self,
                MotorError,
            >(Self::derived(source_clock_rate, target_frequency)),
            !Self::derivable(source_clock_rate, target_frequency) ==> result == Err::<
                Self,
                MotorError,
            >(MotorError::ClockDerivationFailure),
    {
        match select_divider(source_clock_rate, target_frequency as u64) {
            None => Err(MotorError::ClockDerivationFailure),
            Some(divider) => Ok(
                PeripheralClockConfig {
                    prescaler: (divider - 1) as u8,
                    frequency: source_clock_rate / divider,
                },
            ),
        }
    }
}

/// The configuration of a PWM timer that counts up through `period_count`
/// ticks and starts over.
#[derive(Clone, Copy, Debug, PartialEq, Eq, Structural)]
pub struct ClockConfig {
    /// The prescaler to program: the base clock is divided by one more.
    pub prescaler: u8,
    /// The number of timer ticks in one period, which is also the highest
    /// compare timestamp.
    pub period_count: u16,
    /// The switching frequency that results, rounded down to whole hertz.
    pub frequency: u32,
}

impl ClockConfig {
    /// The rate at which the timer has to count for `target` periods a
    /// second, each of `period_count` ticks.
    pub open spec fn tick_rate(target_switching_frequency: u32, period_count: u16) -> int {
        target_switching_frequency * period_count
    }

    /// The switching frequency that results when the base clock is divided
    /// by `divider` before it drives the counter.
    pub open spec fn switching_frequency(
        base_clock_rate: u32,
        divider: int,
        period_count: u16,
    ) -> int {
        (base_clock_rate as int / divider) / (period_count as int)
    }

    /// Whether some prescaler gives a timer that switches at
    /// `target_switching_frequency` or, failing that, at the next frequency
    /// above it that the dividers allow.
    pub open spec fn derivable(
        base_clock_rate: u32,
        target_switching_frequency: u32,
        period_count: u16,
    ) -> bool {
        prescaler_exists(base_clock_rate, Self::tick_rate(target_switching_frequency, period_count))
    }

    /// The timer configuration for `target_switching_frequency`, where one
    /// can be had.
    pub open spec fn derived(
        base_clock_rate: u32,
        target_switching_frequency: u32,
        period_count: u16,
    ) -> Self
        recommends
            Self::derivable(base_clock_rate, target_switching_frequency, period_count),
    {
        let divider = divider_for(
            base_clock_rate,
            Self::tick_rate(target_switching_frequency, period_count),
        );
        ClockConfig {
            prescaler: (divider - 1) as u8,
            period_count,
            frequency: Self::switching_frequency(base_clock_rate, divider, period_count) as u32,
        }
    }

    /// Derives the timer configuration for a switching frequency.
    ///
    /// Picks the largest prescaler with which the timer still switches at
    /// `target_switching_frequency` or faster. Fails when the target or the
    /// period count is zero, when even the undivided base clock is too slow
    /// for the target, or when the target is so low that a divider beyond
    /// 256 would be called for.
    pub fn derive(
        base_clock_rate: u32,
        target_switching_frequency: u32,
        period_count: u16,
    ) -> (result: Result<Self, MotorError>)
        ensures
            Self::derivable(base_clock_rate, target_switching_frequency, period_count) ==> result
                == Ok::<Self, MotorError>(
                Self::derived(base_clock_rate, target_switching_frequency, period_count),
            ),
            !Self::derivable(base_clock_rate, target_switching_frequency, period_count) ==> result
                == Err::<Self, MotorError>(MotorError::ClockDerivationFailure),
    {
        assert(target_switching_frequency as u64 * period_count as u64 <= 0xffff_ffff * 0xffff)
            by (nonlinear_arith)
            requires
                target_switching_frequency <= 0xffff_ffff,
                period_count <= 0xffff,
        ;
        let rate: u64 = target_switching_frequency as u64 * period_count as u64;
        match select_divider(base_clock_rate, rate) {
            None => Err(MotorError::ClockDerivationFailure),
            Some(divider) => {
                assert(period_count > 0) by (nonlinear_arith)
                    requires
                        target_switching_frequency * period_count > 0,
                ;
                Ok(
                    ClockConfig {
                        prescaler: (divider - 1) as u8,
                        period_count,
                        frequency: base_clock_rate / divider / (period_count as u32),
                    },
                )
            },
        }
    }
}

/// For a whole number `x` and a positive `m`, the quotient `x / m` is at
/// least `t` exactly when `x` is at least `t * m`.
proof fn lemma_quotient_at_least(x: int, m: int, t: int)
    requires
        0 <= x,
        0 < m,
    ensures
        x / m >= t <==> x >= t * m,
{
    lemma_fundamental_div_mod(x, m);
    lemma_mod_bound(x, m);
    lemma_mul_is_commutative(m, x / m);
    if x / m >= t {
        lemma_mul_inequality(t, x / m, m);
    } else {
        lemma_mul_inequality(x / m + 1, t, m);
        lemma_mul_is_distributive_add_other_way(m, x / m, 1);
    }
}

/// With a divider `d`, the timer switches at `target` or faster exactly when
/// `d` does not exceed the divider that the derivation picks.
pub proof fn lemma_divider_reaches_target(
    base_clock_rate: u32,
    target_switching_frequency: u32,
    period_count: u16,
    divider: int,
)
    requires
        target_switching_frequency > 0,
        period_count > 0,
        divider >= 1,
    ensures
        ClockConfig::switching_frequency(base_clock_rate, divider, period_count)
            >= target_switching_frequency <==> divider <= divider_for(
            base_clock_rate,
            ClockConfig::tick_rate(target_switching_frequency, period_count),
        ),
{
    let base = base_clock_rate as int;
    let target = target_switching_frequency as int;
    let ticks = period_count as int;
    let rate = ClockConfig::tick_rate(target_switching_frequency, period_count);
    lemma_mul_strictly_positive(target, ticks);
    lemma_mul_strictly_positive(divider, ticks);
    // (base / divider) / ticks == base / (divider * ticks)
    lemma_div_denominator(base, divider, ticks);
    // base / (divider * ticks) >= target  <==>  base >= target * (divider * ticks)
    lemma_quotient_at_least(base, divider * ticks, target);
    // base / rate >= divider  <==>  base >= divider * rate
    lemma_quotient_at_least(base, rate, divider);
    lemma_mul_is_associative(target, divider, ticks);
    lemma_mul_is_commutative(target, divider);
    lemma_mul_is_associative(divider, target, ticks);
}

/// A derived configuration switches at the target frequency or faster, and
/// no larger divider would: it is the slowest timer clock that reaches the
/// target.
pub proof fn lemma_derived_is_slowest(
    base_clock_rate: u32,
    target_switching_frequency: u32,
    period_count: u16,
    divider: int,
)
    requires
        ClockConfig::derivable(base_clock_rate, target_switching_frequency, period_count),
        divider > ClockConfig::derived(
            base_clock_rate,
            target_switching_frequency,
            period_count,
        ).prescaler + 1,
    ensures
        ClockConfig::derived(base_clock_rate, target_switching_frequency, period_count).frequency
            >= target_switching_frequency,
        ClockConfig::switching_frequency(base_clock_rate, divider, period_count)
            < target_switching_frequency,
{
    let rate = ClockConfig::tick_rate(target_switching_frequency, period_count);
    let chosen = divider_for(base_clock_rate, rate);
    lemma_rate_positive(target_switching_frequency, period_count);
    lemma_divider_reaches_target(
        base_clock_rate,
        target_switching_frequency,
        period_count,
        chosen,
    );
    lemma_divider_reaches_target(
        base_clock_rate,
        target_switching_frequency,
        period_count,
        divider,
    );
    lemma_switching_frequency_bounded(base_clock_rate, chosen, period_count);
}

/// A configuration can be derived exactly when neither the target nor the
/// period count is zero, the undivided base clock is fast enough for the
/// target, and the base clock divided by 257 would be too slow.
pub proof fn lemma_derivable_iff(
    base_clock_rate: u32,
    target_switching_frequency: u32,
    period_count: u16,
)
    ensures
        ClockConfig::derivable(base_clock_rate, target_switching_frequency, period_count) <==> (
        target_switching_frequency > 0 && period_count > 0 && ClockConfig::switching_frequency(
            base_clock_rate,
            1,
            period_count,
        ) >= target_switching_frequency && ClockConfig::switching_frequency(
            base_clock_rate,
            MAX_DIVIDER + 1,
            period_count,
        ) < target_switching_frequency),
{
    lemma_rate_positive(target_switching_frequency, period_count);
    if target_switching_frequency > 0 && period_count > 0 {
        lemma_divider_reaches_target(base_clock_rate, target_switching_frequency, period_count, 1);
        lemma_divider_reaches_target(
            base_clock_rate,
            target_switching_frequency,
            period_count,
            MAX_DIVIDER + 1,
        );
    }
}

/// A derived peripheral clock runs at the target frequency or faster, and
/// no larger divider would: it is the slowest peripheral clock that reaches
/// the target.
pub proof fn lemma_peripheral_clock_is_slowest(
    source_clock_rate: u32,
    target_frequency: u32,
    divider: int,
)
    requires
        PeripheralClockConfig::derivable(source_clock_rate, target_frequency),
        divider > PeripheralClockConfig::derived(source_clock_rate, target_frequency).prescaler
            + 1,
    ensures
        PeripheralClockConfig::derived(source_clock_rate, target_frequency).frequency
            >= target_frequency,
        source_clock_rate as int / divider < target_frequency,
{
    let source = source_clock_rate as int;
    let target = target_frequency as int;
    let chosen = divider_for(source_clock_rate, target);
    // source / target >= d  <==>  source >= d * target  <==>  source / d >= target
    lemma_quotient_at_least(source, target, chosen);
    lemma_quotient_at_least(source, chosen, target);
    lemma_mul_is_commutative(chosen, target);
    lemma_quotient_at_least(source, target, divider);
    lemma_quotient_at_least(source, divider, target);
    lemma_mul_is_commutative(divider, target);
    lemma_div_nonincreasing(source, chosen);
}

/// The timer has to count at all exactly when neither the target nor the
/// period count is zero.
proof fn lemma_rate_positive(target_switching_frequency: u32, period_count: u16)
    ensures
        ClockConfig::tick_rate(target_switching_frequency, period_count) > 0 <==> (
        target_switching_frequency > 0 && period_count > 0),
{
    let target = target_switching_frequency as int;
    let ticks = period_count as int;
    if target > 0 && ticks > 0 {
        lemma_mul_strictly_positive(target, ticks);
    } else {
        lemma_mul_basics(target);
        lemma_mul_basics(ticks);
    }
}

/// A switching frequency never exceeds the base clock rate.
proof fn lemma_switching_frequency_bounded(base_clock_rate: u32, divider: int, period_count: u16)
    requires
        divider >= 1,
        period_count > 0,
    ensures
        0 <= ClockConfig::switching_frequency(base_clock_rate, divider, period_count)
            <= base_clock_rate,
{
    let base = base_clock_rate as int;
    let ticks = period_count as int;
    lemma_div_pos_is_pos(base, divider);
    lemma_div_nonincreasing(base, divider);
    lemma_div_pos_is_pos(base / divider, ticks);
    lemma_div_nonincreasing(base / divider, ticks);
}

} // verus!
