//! The two motor controllers.
//!
//! A controller is made once, by `take`: it claims the timer, derives the
//! clocks, and from then on turns duty cycles into compare timestamps for
//! its output lanes. Both kinds run timer 0 in free-running count-up mode
//! with 256 ticks to a period, which gives eight bits of resolution. The
//! single controller switches at 5 kHz and the dual one at 10 kHz, both
//! above what a small motor makes audible.
//!
//! A controller does not touch the hardware. `take` returns the clocks to
//! program, and each setter returns the timestamp to write to the lane.

use vstd::prelude::*;

use crate::binary32::Binary32;
use crate::channel::{timestamp_after, PwmChannel};
use crate::claim::{holder_after_claim, ClaimKind, ClaimRegistry};
use crate::clock::{ClockConfig, PeripheralClockConfig};
use crate::duty::{compare_value, in_unit_interval, lemma_timestamp_is_floor, requested_timestamp};
use crate::error::MotorError;

verus! {

/// The number of timer ticks in a period: compare timestamps run from 0 to
/// 256.
pub const PERIOD: u16 = 256;

/// The frequency of the peripheral clock that the timer is derived from.
pub const PERIPHERAL_CLOCK_FREQUENCY: u32 = 40_000_000;

/// The switching frequency of a single-channel controller.
pub const SINGLE_SWITCHING_FREQUENCY: u32 = 5_000;

/// The switching frequency of a dual-channel controller.
pub const DUAL_SWITCHING_FREQUENCY: u32 = 10_000;

/// The two clocks of a controller: the peripheral's and the timer's.
#[derive(Clone, Copy, Debug, PartialEq, Eq, Structural)]
pub struct MotorClocks {
    /// The peripheral clock, divided down from the clock source.
    pub peripheral_clock: PeripheralClockConfig,
    /// The timer configuration, derived from the peripheral clock.
    pub clock: ClockConfig,
}

impl MotorClocks {
    /// Whether both clocks can be derived from `clock_source_rate` for a
    /// timer that switches at `switching_frequency`.
    pub open spec fn derivable(clock_source_rate: u32, switching_frequency: u32) -> bool {
        &&& PeripheralClockConfig::derivable(clock_source_rate, PERIPHERAL_CLOCK_FREQUENCY)
        &&& ClockConfig::derivable(
            PeripheralClockConfig::derived(clock_source_rate, PERIPHERAL_CLOCK_FREQUENCY).frequency,
            switching_frequency,
            PERIOD,
        )
    }

    /// The two clocks, where they can be derived.
    pub open spec fn derived(clock_source_rate: u32, switching_frequency: u32) -> MotorClocks
        recommends
            Self::derivable(clock_source_rate, switching_frequency),
    {
        let peripheral_clock = PeripheralClockConfig::derived(
            clock_source_rate,
            PERIPHERAL_CLOCK_FREQUENCY,
        );
        MotorClocks {
            peripheral_clock,
            clock: ClockConfig::derived(peripheral_clock.frequency, switching_frequency, PERIOD),
        }
    }

    /// Derives the peripheral clock from the clock source, and from it the
    /// timer configuration for `switching_frequency`.
    pub fn derive(clock_source_rate: u32, switching_frequency: u32) -> (result: Result<
        MotorClocks,
        MotorError,
    >)
        ensures
            Self::derivable(clock_source_rate, switching_frequency) ==> result == Ok::<
                MotorClocks,
                MotorError,
            >(Self::derived(clock_source_rate, switching_frequency)),
            !Self::derivable(clock_source_rate, switching_frequency) ==> result == Err::<
                MotorClocks,
                MotorError,
            >(MotorError::ClockDerivationFailure),
    {
        let peripheral_clock = match PeripheralClockConfig::with_frequency(
            clock_source_rate,
            PERIPHERAL_CLOCK_FREQUENCY,
        ) {
            Ok(config) => config,
            Err(error) => {
                return Err(error);
            },
        };
        match ClockConfig::derive(peripheral_clock.frequency, switching_frequency, PERIOD) {
            Ok(clock) => Ok(MotorClocks { peripheral_clock, clock }),
            Err(error) => Err(error),
        }
    }
}

/// How an attempt to make a controller ends, given who holds the timer and
/// the clock source: with the clocks of the new controller, with
/// `AlreadyClaimed` when the timer is held, or with `ClockDerivationFailure`
/// when it is free but the clocks cannot be derived.
pub open spec fn take_outcome(
    holder: Option<ClaimKind>,
    clock_source_rate: u32,
    switching_frequency: u32,
) -> Result<MotorClocks, MotorError> {
    if holder is Some {
        Err(MotorError::AlreadyClaimed)
    } else if MotorClocks::derivable(clock_source_rate, switching_frequency) {
        Ok(MotorClocks::derived(clock_source_rate, switching_frequency))
    } else {
        Err(MotorError::ClockDerivationFailure)
    }
}

/// Claims the timer for `kind` and derives the clocks. The claim comes
/// first and stays in force when the clocks cannot be derived.
fn claim_and_derive(
    registry: &mut ClaimRegistry,
    kind: ClaimKind,
    clock_source_rate: u32,
    switching_frequency: u32,
) -> (result: Result<MotorClocks, MotorError>)
    ensures
        result == take_outcome(old(registry)@, clock_source_rate, switching_frequency),
        final(registry)@ == holder_after_claim(old(registry)@, kind),
{
    match registry.claim(kind) {
        Ok(()) => MotorClocks::derive(clock_source_rate, switching_frequency),
        Err(error) => Err(error),
    }
}

/// What is known of a single-channel controller: its clocks and the compare
/// timestamp last written to its lane.
pub struct SingleMotorView {
    /// The clocks that the controller was made with.
    pub clocks: MotorClocks,
    /// The compare timestamp of channel A, once one has been written.
    pub timestamp: Option<u16>,
}

impl SingleMotorView {
    /// A controller that was just made: nothing written yet.
    pub open spec fn fresh(clocks: MotorClocks) -> SingleMotorView {
        SingleMotorView { clocks, timestamp: None }
    }

    /// A period has `PERIOD` ticks, and no timestamp lies beyond it.
    pub open spec fn wf(self) -> bool {
        &&& self.clocks.clock.period_count == PERIOD
        &&& self.timestamp matches Some(timestamp) ==> timestamp <= PERIOD
    }

    /// What a request for `duty_cycle` comes to on this controller.
    pub open spec fn request(self, duty_cycle: Binary32) -> Result<u16, MotorError> {
        requested_timestamp(self.clocks.clock.period_count, duty_cycle)
    }

    /// The controller after a request for `duty_cycle`.
    pub open spec fn set_duty_cycle(self, duty_cycle: Binary32) -> SingleMotorView {
        SingleMotorView {
            timestamp: timestamp_after(self.timestamp, self.request(duty_cycle)),
            ..self
        }
    }
}

/// A singleton controller for one motor, on channel A of operator 0.
#[derive(Debug)]
pub struct SingleMotorConfig {
    clocks: MotorClocks,
    pwm_pin: PwmChannel,
}

impl View for SingleMotorConfig {
    type V = SingleMotorView;

    closed spec fn view(&self) -> SingleMotorView {
        SingleMotorView { clocks: self.clocks, timestamp: self.pwm_pin@ }
    }
}

impl SingleMotorConfig {
    #[verifier::type_invariant]
    spec fn inv(self) -> bool {
        self@.wf()
    }

    /// Makes the single-channel controller.
    ///
    /// Claims the timer for the single kind, then derives the 40 MHz
    /// peripheral clock from `clock_source_rate` and a 5 kHz timer with 256
    /// ticks to a period from that. Fails with `AlreadyClaimed` when a
    /// controller of either kind was made before. Fails with
    /// `ClockDerivationFailure` when the clock source does not allow these
    /// frequencies; the timer then stays claimed.
    pub fn take(registry: &mut ClaimRegistry, clock_source_rate: u32) -> (result: Result<
        SingleMotorConfig,
        MotorError,
    >)
        ensures
            final(registry)@ == holder_after_claim(old(registry)@, ClaimKind::Single),
            match take_outcome(old(registry)@, clock_source_rate, SINGLE_SWITCHING_FREQUENCY) {
                Ok(clocks) => result matches Ok(motor) && motor@ == SingleMotorView::fresh(clocks)
                    && motor@.wf(),
                Err(error) => result matches Err(e) && e == error,
            },
    {
        match claim_and_derive(
            registry,
            ClaimKind::Single,
            clock_source_rate,
            SINGLE_SWITCHING_FREQUENCY,
        ) {
            Ok(clocks) => Ok(SingleMotorConfig { clocks, pwm_pin: PwmChannel::new() }),
            Err(error) => Err(error),
        }
    }

    /// The clocks to program into the peripheral and the timer.
    pub fn clocks(&self) -> (clocks: MotorClocks)
        ensures
            clocks == self@.clocks,
            clocks.clock.period_count == PERIOD,
    {
        proof {
            use_type_invariant(self);
        }
        self.clocks
    }

    /// The compare timestamp last written to channel A, if any.
    pub fn compare_value(&self) -> (timestamp: Option<u16>)
        ensures
            timestamp == self@.timestamp,
            timestamp matches Some(value) ==> value <= PERIOD,
    {
        proof {
            use_type_invariant(self);
        }
        self.pwm_pin.timestamp()
    }

    /// Sets the fraction of each period during which the output is active.
    ///
    /// For a duty cycle from zero to one, returns the compare timestamp to
    /// write to channel A: 256 times the duty cycle, rounded toward zero.
    /// Any other value, NaN included, is refused with `DutyCycleOutOfRange`,
    /// and the controller stays as it was, so nothing is to be written.
    pub fn set_duty_cycle(&mut self, duty_cycle: Binary32) -> (result: Result<u16, MotorError>)
        ensures
            result == old(self)@.request(duty_cycle),
            final(self)@ == old(self)@.set_duty_cycle(duty_cycle),
            final(self)@.wf(),
            result matches Ok(timestamp) ==> timestamp <= PERIOD,
    {
        proof {
            use_type_invariant(&*self);
        }
        let result = compare_value(self.clocks.clock.period_count, duty_cycle);
        if let Ok(timestamp) = result {
            self.pwm_pin.set_timestamp(timestamp);
        }
        result
    }
}

/// What is known of a dual-channel controller: its clocks and the compare
/// timestamps last written to its two lanes.
pub struct DoubleMotorView {
    /// The clocks that the controller was made with.
    pub clocks: MotorClocks,
    /// The compare timestamp of channel A, once one has been written.
    pub timestamp_a: Option<u16>,
    /// The compare timestamp of channel B, once one has been written.
    pub timestamp_b: Option<u16>,
}

impl DoubleMotorView {
    /// A controller that was just made: nothing written yet.
    pub open spec fn fresh(clocks: MotorClocks) -> DoubleMotorView {
        DoubleMotorView { clocks, timestamp_a: None, timestamp_b: None }
    }

    /// A period has `PERIOD` ticks, and no timestamp lies beyond it.
    pub open spec fn wf(self) -> bool {
        &&& self.clocks.clock.period_count == PERIOD
        &&& self.timestamp_a matches Some(timestamp) ==> timestamp <= PERIOD
        &&& self.timestamp_b matches Some(timestamp) ==> timestamp <= PERIOD
    }

    /// What a request for `duty_cycle` comes to on either channel.
    pub open spec fn request(self, duty_cycle: Binary32) -> Result<u16, MotorError> {
        requested_timestamp(self.clocks.clock.period_count, duty_cycle)
    }

    /// The controller after a request for `duty_cycle` on channel A.
    pub open spec fn set_duty_cycle_a(self, duty_cycle: Binary32) -> DoubleMotorView {
        DoubleMotorView {
            timestamp_a: timestamp_after(self.timestamp_a, self.request(duty_cycle)),
            ..self
        }
    }

    /// The controller after a request for `duty_cycle` on channel B.
    pub open spec fn set_duty_cycle_b(self, duty_cycle: Binary32) -> DoubleMotorView {
        DoubleMotorView {
            timestamp_b: timestamp_after(self.timestamp_b, self.request(duty_cycle)),
            ..self
        }
    }
}

/// A singleton controller for a pair of motors, on channels A and B of
/// operator 0. The two channels share the timer and nothing else.
#[derive(Debug)]
pub struct DoubleMotorConfig {
    clocks: MotorClocks,
    pwm_pin_a: PwmChannel,
    pwm_pin_b: PwmChannel,
}

impl View for DoubleMotorConfig {
    type V = DoubleMotorView;

    closed spec fn view(&self) -> DoubleMotorView {
        DoubleMotorView {
            clocks: self.clocks,
            timestamp_a: self.pwm_pin_a@,
            timestamp_b: self.pwm_pin_b@,
        }
    }
}

impl DoubleMotorConfig {
    #[verifier::type_invariant]
    spec fn inv(self) -> bool {
        self@.wf()
    }

    /// Makes the dual-channel controller.
    ///
    /// Claims the timer for the dual kind, then derives the 40 MHz
    /// peripheral clock from `clock_source_rate` and a 10 kHz timer with 256
    /// ticks to a period from that. Fails with `AlreadyClaimed` when a
    /// controller of either kind was made before. Fails with
    /// `ClockDerivationFailure` when the clock source does not allow these
    /// frequencies; the timer then stays claimed.
    pub fn take(registry: &mut ClaimRegistry, clock_source_rate: u32) -> (result: Result<
        DoubleMotorConfig,
        MotorError,
    >)
        ensures
            final(registry)@ == holder_after_claim(old(registry)@, ClaimKind::Dual),
            match take_outcome(old(registry)@, clock_source_rate, DUAL_SWITCHING_FREQUENCY) {
                Ok(clocks) => result matches Ok(motor) && motor@ == DoubleMotorView::fresh(clocks)
                    && motor@.wf(),
                Err(error) => result matches Err(e) && e == error,
            },
    {
        match claim_and_derive(
            registry,
            ClaimKind::Dual,
            clock_source_rate,
            DUAL_SWITCHING_FREQUENCY,
        ) {
            Ok(clocks) => Ok(
                DoubleMotorConfig {
                    clocks,
                    pwm_pin_a: PwmChannel::new(),
                    pwm_pin_b: PwmChannel::new(),
                },
            ),
            Err(error) => Err(error),
        }
    }

    /// The clocks to program into the peripheral and the timer.
    pub fn clocks(&self) -> (clocks: MotorClocks)
        ensures
            clocks == self@.clocks,
            clocks.clock.period_count == PERIOD,
    {
        proof {
            use_type_invariant(self);
        }
        self.clocks
    }

    /// The compare timestamp last written to channel A, if any.
    pub fn compare_value_a(&self) -> (timestamp: Option<u16>)
        ensures
            timestamp == self@.timestamp_a,
            timestamp matches Some(value) ==> value <= PERIOD,
    {
        proof {
            use_type_invariant(self);
        }
        self.pwm_pin_a.timestamp()
    }

    /// The compare timestamp last written to channel B, if any.
    pub fn compare_value_b(&self) -> (timestamp: Option<u16>)
        ensures
            timestamp == self@.timestamp_b,
            timestamp matches Some(value) ==> value <= PERIOD,
    {
        proof {
            use_type_invariant(self);
        }
        self.pwm_pin_b.timestamp()
    }

    /// Sets the duty cycle of the motor on channel A.
    ///
    /// For a duty cycle from zero to one, returns the compare timestamp to
    /// write to channel A: 256 times the duty cycle, rounded toward zero.
    /// Any other value, NaN included, is refused with `DutyCycleOutOfRange`,
    /// and the controller stays as it was. Channel B is never touched.
    pub fn set_duty_cycle_a(&mut self, duty_cycle: Binary32) -> (result: Result<u16, MotorError>)
        ensures
            result == old(self)@.request(duty_cycle),
            final(self)@ == old(self)@.set_duty_cycle_a(duty_cycle),
            final(self)@.wf(),
            result matches Ok(timestamp) ==> timestamp <= PERIOD,
    {
        proof {
            use_type_invariant(&*self);
        }
        let result = compare_value(self.clocks.clock.period_count, duty_cycle);
        if let Ok(timestamp) = result {
            self.pwm_pin_a.set_timestamp(timestamp);
        }
        result
    }

    /// Sets the duty cycle of the motor on channel B.
    ///
    /// For a duty cycle from zero to one, returns the compare timestamp to
    /// write to channel B: 256 times the duty cycle, rounded toward zero.
    /// Any other value, NaN included, is refused with `DutyCycleOutOfRange`,
    /// and the controller stays as it was. Channel A is never touched.
    pub fn set_duty_cycle_b(&mut self, duty_cycle: Binary32) -> (result: Result<u16, MotorError>)
        ensures
            result == old(self)@.request(duty_cycle),
            final(self)@ == old(self)@.set_duty_cycle_b(duty_cycle),
            final(self)@.wf(),
            result matches Ok(timestamp) ==> timestamp <= PERIOD,
    {
        proof {
            use_type_invariant(&*self);
        }
        let result = compare_value(self.clocks.clock.period_count, duty_cycle);
        if let Ok(timestamp) = result {
            self.pwm_pin_b.set_timestamp(timestamp);
        }
        result
    }
}

/// A duty cycle outside the unit interval is refused, and the controller is
/// left exactly as it was.
pub proof fn lemma_out_of_range_changes_nothing(
    single: SingleMotorView,
    double: DoubleMotorView,
    duty_cycle: Binary32,
)
    requires
        !in_unit_interval(duty_cycle),
    ensures
        single.request(duty_cycle) == Err::<u16, MotorError>(MotorError::DutyCycleOutOfRange),
        double.request(duty_cycle) == Err::<u16, MotorError>(MotorError::DutyCycleOutOfRange),
        single.set_duty_cycle(duty_cycle) == single,
        double.set_duty_cycle_a(duty_cycle) == double,
        double.set_duty_cycle_b(duty_cycle) == double,
{
}

/// Setting the same duty cycle twice writes the same timestamp both times
/// and leaves the controller as the first call left it.
pub proof fn lemma_set_duty_cycle_idempotent(
    single: SingleMotorView,
    double: DoubleMotorView,
    duty_cycle: Binary32,
)
    ensures
        single.set_duty_cycle(duty_cycle).request(duty_cycle) == single.request(duty_cycle),
        single.set_duty_cycle(duty_cycle).set_duty_cycle(duty_cycle) == single.set_duty_cycle(
            duty_cycle,
        ),
        double.set_duty_cycle_a(duty_cycle).request(duty_cycle) == double.request(duty_cycle),
        double.set_duty_cycle_a(duty_cycle).set_duty_cycle_a(duty_cycle)
            == double.set_duty_cycle_a(duty_cycle),
        double.set_duty_cycle_b(duty_cycle).request(duty_cycle) == double.request(duty_cycle),
        double.set_duty_cycle_b(duty_cycle).set_duty_cycle_b(duty_cycle)
            == double.set_duty_cycle_b(duty_cycle),
{
}

/// The channels of a dual controller are independent: a request on one
/// leaves the timestamp of the other alone, what a request comes to does not
/// depend on what was set on the other channel, and requests on different
/// channels can be made in either order.
pub proof fn lemma_channels_independent(
    double: DoubleMotorView,
    duty_cycle_a: Binary32,
    duty_cycle_b: Binary32,
)
    ensures
        double.set_duty_cycle_a(duty_cycle_a).timestamp_b == double.timestamp_b,
        double.set_duty_cycle_b(duty_cycle_b).timestamp_a == double.timestamp_a,
        double.set_duty_cycle_a(duty_cycle_a).request(duty_cycle_b) == double.request(
            duty_cycle_b,
        ),
        double.set_duty_cycle_b(duty_cycle_b).request(duty_cycle_a) == double.request(
            duty_cycle_a,
        ),
        double.set_duty_cycle_a(duty_cycle_a).set_duty_cycle_b(duty_cycle_b)
            == double.set_duty_cycle_b(duty_cycle_b).set_duty_cycle_a(duty_cycle_a),
{
}

/// Whatever is requested, a controller whose timestamps lie within the
/// period keeps them there.
pub proof fn lemma_timestamps_stay_within_period(
    single: SingleMotorView,
    double: DoubleMotorView,
    duty_cycle: Binary32,
)
    requires
        single.wf(),
        double.wf(),
    ensures
        single.set_duty_cycle(duty_cycle).wf(),
        double.set_duty_cycle_a(duty_cycle).wf(),
        double.set_duty_cycle_b(duty_cycle).wf(),
{
    if in_unit_interval(duty_cycle) {
        lemma_timestamp_is_floor(PERIOD, duty_cycle);
    }
}

} // verus!
