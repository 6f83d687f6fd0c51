//! From a duty cycle to the compare timestamp of a PWM channel.
//!
//! A duty cycle is the fraction of each period during which the output is
//! active. A period has `period_count` timer ticks, and the output stays
//! active until the counter reaches the channel's compare timestamp, so a
//! duty cycle `d` becomes the timestamp `period_count * d`, rounded toward
//! zero. A request outside the closed interval from zero to one is refused:
//! clamping it would hide a mistake in the caller's units.

use vstd::prelude::*;
use vstd::arithmetic::div_mod::*;
use vstd::arithmetic::mul::*;
use vstd::arithmetic::power2::*;
use vstd::bits::*;

use crate::binary32::{
    denominator, lemma_fields_bounded, lemma_magnitude_at_most_one, lemma_one,
    lemma_order_by_bits, Binary32, HIDDEN_BIT, ONE, SIGN_BIT,
};
use crate::error::MotorError;

verus! {

/// Whether `duty_cycle` is a number in the closed interval from zero to one.
///
/// Negative zero is zero and is accepted; infinities and NaNs are not
/// numbers in the interval.
pub open spec fn in_unit_interval(duty_cycle: Binary32) -> bool {
    duty_cycle.is_finite() && 0 <= duty_cycle.numerator() <= denominator()
}

/// The compare timestamp for a duty cycle in the unit interval: the largest
/// whole number that does not exceed `period_count` times the duty cycle.
pub open spec fn timestamp_for(period_count: u16, duty_cycle: Binary32) -> int
    recommends
        in_unit_interval(duty_cycle),
{
    (period_count * duty_cycle.numerator()) / (denominator() as int)
}

/// What a request for `duty_cycle` comes to: the timestamp to write, or the
/// refusal of a value outside the unit interval.
pub open spec fn requested_timestamp(period_count: u16, duty_cycle: Binary32) -> Result<
    u16,
    MotorError,
> {
    if in_unit_interval(duty_cycle) {
        Ok(timestamp_for(period_count, duty_cycle) as u16)
    } else {
        Err(MotorError::DutyCycleOutOfRange)
    }
}

/// The timestamp is the floor of `period_count` times the duty cycle, and it
/// lies between zero and `period_count`.
pub proof fn lemma_timestamp_is_floor(period_count: u16, duty_cycle: Binary32)
    requires
        in_unit_interval(duty_cycle),
    ensures
        0 <= timestamp_for(period_count, duty_cycle) <= period_count,
        timestamp_for(period_count, duty_cycle) * denominator() <= period_count
            * duty_cycle.numerator(),
        period_count * duty_cycle.numerator() < (timestamp_for(period_count, duty_cycle) + 1)
            * denominator(),
{
    let p = period_count as int;
    let n = duty_cycle.numerator();
    let d = denominator() as int;
    let t = timestamp_for(period_count, duty_cycle);
    lemma_pow2_pos(149);
    lemma_mul_nonnegative(p, n);
    lemma_mul_inequality(n, d, p);
    lemma_mul_is_commutative(n, p);
    lemma_mul_is_commutative(d, p);
    lemma_div_is_ordered(0, p * n, d);
    lemma_div_is_ordered(p * n, p * d, d);
    lemma_div_by_multiple(p, d);
    lemma_fundamental_div_mod(p * n, d);
    lemma_mod_bound(p * n, d);
    lemma_mul_is_commutative(d, t);
    lemma_mul_is_distributive_add_other_way(d, t, 1);
}

/// A larger duty cycle never gives a smaller timestamp.
pub proof fn lemma_timestamp_monotonic(period_count: u16, lower: Binary32, upper: Binary32)
    requires
        in_unit_interval(lower),
        in_unit_interval(upper),
        lower.numerator() <= upper.numerator(),
    ensures
        timestamp_for(period_count, lower) <= timestamp_for(period_count, upper),
{
    let p = period_count as int;
    lemma_pow2_pos(149);
    lemma_mul_inequality(lower.numerator(), upper.numerator(), p);
    lemma_mul_is_commutative(lower.numerator(), p);
    lemma_mul_is_commutative(upper.numerator(), p);
    lemma_div_is_ordered(p * lower.numerator(), p * upper.numerator(), denominator() as int);
}

/// Zero, of either sign, gives timestamp zero, and one gives
/// `period_count`.
pub proof fn lemma_timestamp_at_ends(period_count: u16, duty_cycle: Binary32)
    ensures
        duty_cycle.bits == 0 || duty_cycle.bits == SIGN_BIT ==> in_unit_interval(duty_cycle)
            && timestamp_for(period_count, duty_cycle) == 0,
        duty_cycle.bits == ONE ==> in_unit_interval(duty_cycle) && timestamp_for(
            period_count,
            duty_cycle,
        ) == period_count,
{
    let p = period_count as int;
    let d = denominator() as int;
    lemma_pow2_pos(149);
    lemma_fields_bounded(duty_cycle);
    if duty_cycle.bits == 0 || duty_cycle.bits == SIGN_BIT {
        lemma_mul_basics(p);
        lemma_div_basics(d);
    }
    if duty_cycle.bits == ONE {
        lemma_one(duty_cycle);
        lemma_div_by_multiple(p, d);
    }
}

/// Dividing `a * 2^k` by `2^149` is dividing `a` by `2^(149 - k)`.
proof fn lemma_scaled_quotient(a: int, k: nat)
    requires
        0 <= a,
        k <= 149,
    ensures
        (a * pow2(k)) / (pow2(149) as int) == a / (pow2((149 - k) as nat) as int),
{
    let low = pow2(k) as int;
    let high = pow2((149 - k) as nat) as int;
    lemma_pow2_pos(k);
    lemma_pow2_pos((149 - k) as nat);
    lemma_pow2_adds(k, (149 - k) as nat);
    lemma_div_multiples_vanish_quotient(low, a, high);
    lemma_mul_is_commutative(low, a);
}

/// The duty cycles in the unit interval are the bit patterns from zero up to
/// that of one, and negative zero.
pub proof fn lemma_unit_interval_by_bits(duty_cycle: Binary32)
    ensures
        in_unit_interval(duty_cycle) <==> (duty_cycle.bits <= ONE || duty_cycle.bits
            == SIGN_BIT),
{
    lemma_fields_bounded(duty_cycle);
    if duty_cycle.is_finite() {
        lemma_magnitude_at_most_one(duty_cycle);
    }
}

/// Between zero and one, a larger bit pattern never gives a smaller
/// timestamp.
pub proof fn lemma_timestamp_monotonic_in_bits(
    period_count: u16,
    lower: Binary32,
    upper: Binary32,
)
    requires
        lower.bits <= upper.bits <= ONE,
    ensures
        timestamp_for(period_count, lower) <= timestamp_for(period_count, upper),
{
    lemma_unit_interval_by_bits(lower);
    lemma_unit_interval_by_bits(upper);
    if lower.bits < upper.bits {
        lemma_order_by_bits(lower, upper);
        lemma_timestamp_monotonic(period_count, lower, upper);
    }
}

/// Validates a requested duty cycle and turns it into a compare timestamp.
///
/// Returns the floor of `period_count` times the duty cycle when the duty
/// cycle lies in the unit interval, and `DutyCycleOutOfRange` otherwise.
pub fn compare_value(period_count: u16, duty_cycle: Binary32) -> (result: Result<u16, MotorError>)
    ensures
        result == requested_timestamp(period_count, duty_cycle),
        result matches Ok(timestamp) ==> timestamp <= period_count,
{
    let bits: u32 = duty_cycle.to_bits();
    proof {
        lemma_fields_bounded(duty_cycle);
        lemma_unit_interval_by_bits(duty_cycle);
    }
    if bits == SIGN_BIT {
        proof {
            lemma_timestamp_at_ends(period_count, duty_cycle);
        }
        return Ok(0);
    }
    if bits > ONE {
        return Err(MotorError::DutyCycleOutOfRange);
    }
    let exponent: u32 = bits / HIDDEN_BIT;
    let fraction: u32 = bits % HIDDEN_BIT;
    let significand: u64 = if exponent == 0 {
        fraction as u64
    } else {
        (HIDDEN_BIT + fraction) as u64
    };
    let shift: u32 = if exponent == 0 {
        149
    } else {
        150 - exponent
    };
    assert(period_count as u64 * significand < 0x100_0000_0000) by (nonlinear_arith)
        requires
            period_count < 0x1_0000,
            significand < 0x100_0000,
    ;
    let product: u64 = period_count as u64 * significand;
    proof {
        // the power of two in the numerator cancels against the denominator
        lemma_timestamp_is_floor(period_count, duty_cycle);
        lemma_mul_is_associative(
            period_count as int,
            duty_cycle.significand(),
            pow2(duty_cycle.scale()) as int,
        );
        lemma_scaled_quotient(product as int, duty_cycle.scale());
        assert(timestamp_for(period_count, duty_cycle) == product as int / (pow2(
            shift as nat,
        ) as int));
    }
    if shift >= 64 {
        proof {
            // the product is below 2^40, so nothing is left of it
            lemma2_to64_rest();
            lemma_pow2_strictly_increases(40, shift as nat);
            lemma_basic_div(product as int, pow2(shift as nat) as int);
        }
        Ok(0)
    } else {
        let quotient: u64 = product >> shift;
        proof {
            lemma_u64_shr_is_div(product, shift as u64);
        }
        Ok(quotient as u16)
    }
}

} // verus!
