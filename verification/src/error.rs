//! The ways in which setting up or driving a motor can fail.

use vstd::prelude::*;

verus! {

/// Why a controller could not be built, or a duty cycle was not applied.
///
/// None of these is transient: each one tells of a mistake in the program or
/// of hardware that cannot do what was asked.
#[derive(Clone, Copy, Debug, PartialEq, Eq, Structural)]
pub enum MotorError {
    /// The timer already belongs to a controller, of either kind.
    AlreadyClaimed,
    /// No prescaler brings the timer to the requested switching frequency.
    ClockDerivationFailure,
    /// The requested duty cycle is not a number between zero and one.
    DutyCycleOutOfRange,
}

} // verus!
