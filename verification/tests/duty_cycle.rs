use esp32_shenanigans::binary32::Binary32;
use esp32_shenanigans::duty::compare_value;
use esp32_shenanigans::error::MotorError;

fn duty(value: f32) -> Binary32 {
    Binary32::from_bits(value.to_bits())
}

#[test]
fn bits_round_trip() {
    assert_eq!(Binary32::from_bits(0x3f00_0000).to_bits(), 0x3f00_0000);
    assert_eq!(duty(0.5).to_bits(), 0x3f00_0000);
    assert_eq!(duty(1.0).to_bits(), 0x3f80_0000);
    assert_eq!(duty(-0.0).to_bits(), 0x8000_0000);
}

#[test]
fn half_of_256_is_128() {
    assert_eq!(compare_value(256, duty(0.5)), Ok(128));
}

#[test]
fn ends_of_the_interval() {
    assert_eq!(compare_value(256, duty(0.0)), Ok(0));
    assert_eq!(compare_value(256, duty(1.0)), Ok(256));
    assert_eq!(compare_value(65535, duty(1.0)), Ok(65535));
    assert_eq!(compare_value(0, duty(1.0)), Ok(0));
    assert_eq!(compare_value(0, duty(0.75)), Ok(0));
}

#[test]
fn negative_zero_is_zero() {
    assert_eq!(compare_value(256, duty(-0.0)), Ok(0));
}

#[test]
fn timestamps_round_toward_zero() {
    // 0.6 * 256 = 153.6 and 0.8 * 256 = 204.8
    assert_eq!(compare_value(256, duty(0.2)), Ok(51));
    assert_eq!(compare_value(256, duty(0.4)), Ok(102));
    assert_eq!(compare_value(256, duty(0.6)), Ok(153));
    assert_eq!(compare_value(256, duty(0.8)), Ok(204));
    assert_eq!(compare_value(256, duty(0.999)), Ok(255));
    assert_eq!(compare_value(256, duty(0.25)), Ok(64));
    assert_eq!(compare_value(256, duty(0.75)), Ok(192));
}

#[test]
fn just_below_one_stays_below_the_period() {
    let below_one = Binary32::from_bits(0x3f7f_ffff);
    assert_eq!(compare_value(256, below_one), Ok(255));
    assert_eq!(compare_value(65535, below_one), Ok(65534));
    assert_eq!(compare_value(1, below_one), Ok(0));
}

#[test]
fn tiny_duty_cycles_give_zero() {
    // the smallest subnormal, the largest subnormal, the smallest normal
    assert_eq!(compare_value(65535, Binary32::from_bits(0x0000_0001)), Ok(0));
    assert_eq!(compare_value(65535, Binary32::from_bits(0x007f_ffff)), Ok(0));
    assert_eq!(compare_value(65535, Binary32::from_bits(0x0080_0000)), Ok(0));
    assert_eq!(compare_value(256, duty(1.0e-30)), Ok(0));
    assert_eq!(compare_value(256, duty(0.003)), Ok(0));
    assert_eq!(compare_value(256, duty(0.004)), Ok(1));
}

#[test]
fn other_periods() {
    // 0.3 as binary32 is a little above three tenths
    assert_eq!(compare_value(1000, duty(0.3)), Ok(300));
    assert_eq!(compare_value(100, duty(0.5)), Ok(50));
    assert_eq!(compare_value(99, duty(0.5)), Ok(49));
    assert_eq!(compare_value(3, duty(0.5)), Ok(1));
    assert_eq!(compare_value(65535, duty(0.5)), Ok(32767));
    // 0.1 as binary32 is a little above one tenth
    assert_eq!(compare_value(10, duty(0.1)), Ok(1));
    // 0.7 as binary32 is a little below seven tenths
    assert_eq!(compare_value(10, duty(0.7)), Ok(6));
}

#[test]
fn values_above_one_are_refused() {
    assert_eq!(compare_value(256, duty(1.5)), Err(MotorError::DutyCycleOutOfRange));
    assert_eq!(compare_value(256, duty(2.0)), Err(MotorError::DutyCycleOutOfRange));
    assert_eq!(compare_value(256, duty(f32::MAX)), Err(MotorError::DutyCycleOutOfRange));
    // the number next above one
    assert_eq!(
        compare_value(256, Binary32::from_bits(0x3f80_0001)),
        Err(MotorError::DutyCycleOutOfRange)
    );
}

#[test]
fn negative_values_are_refused() {
    assert_eq!(compare_value(256, duty(-0.1)), Err(MotorError::DutyCycleOutOfRange));
    assert_eq!(compare_value(256, duty(-1.0)), Err(MotorError::DutyCycleOutOfRange));
    assert_eq!(compare_value(256, duty(f32::MIN)), Err(MotorError::DutyCycleOutOfRange));
    // the negative number nearest to zero
    assert_eq!(
        compare_value(256, Binary32::from_bits(0x8000_0001)),
        Err(MotorError::DutyCycleOutOfRange)
    );
}

#[test]
fn infinities_and_nans_are_refused() {
    assert_eq!(compare_value(256, duty(f32::INFINITY)), Err(MotorError::DutyCycleOutOfRange));
    assert_eq!(compare_value(256, duty(f32::NEG_INFINITY)), Err(MotorError::DutyCycleOutOfRange));
    assert_eq!(compare_value(256, duty(f32::NAN)), Err(MotorError::DutyCycleOutOfRange));
    assert_eq!(
        compare_value(256, Binary32::from_bits(0xffc0_0000)),
        Err(MotorError::DutyCycleOutOfRange)
    );
    assert_eq!(
        compare_value(256, Binary32::from_bits(0x7f80_0001)),
        Err(MotorError::DutyCycleOutOfRange)
    );
}

#[test]
fn agrees_with_floating_point_for_the_fixed_period() {
    // multiplying by 256 is exact in binary32, so the cast sees the true product
    let mut bits: u32 = 0;
    while bits <= 0x3f80_0000 {
        let value = f32::from_bits(bits);
        let expected = (256.0_f32 * value) as u16;
        assert_eq!(compare_value(256, Binary32::from_bits(bits)), Ok(expected));
        bits += 4099;
    }
}

#[test]
fn agrees_with_exact_arithmetic_for_other_periods() {
    // f64 holds the product of a u16 and a binary32 number exactly
    let periods: [u16; 6] = [1, 3, 255, 257, 1000, 65535];
    for period in periods {
        let mut bits: u32 = 0x3000_0000;
        while bits <= 0x3f80_0000 {
            let value = f32::from_bits(bits) as f64;
            let expected = (period as f64 * value).floor() as u16;
            assert_eq!(compare_value(period, Binary32::from_bits(bits)), Ok(expected));
            bits += 65537;
        }
    }
}

#[test]
fn acceptance_agrees_with_the_closed_interval() {
    let mut bits: u32 = 0;
    loop {
        let value = f32::from_bits(bits);
        let accepted = (0.0..=1.0).contains(&value);
        assert_eq!(compare_value(256, Binary32::from_bits(bits)).is_ok(), accepted);
        match bits.checked_add(1_000_003) {
            Some(next) => bits = next,
            None => break,
        }
    }
}

#[test]
fn timestamps_never_exceed_the_period_and_never_decrease() {
    let periods: [u16; 4] = [0, 7, 256, 65535];
    for period in periods {
        let mut previous: u16 = 0;
        let mut bits: u32 = 0;
        while bits <= 0x3f80_0000 {
            let timestamp = compare_value(period, Binary32::from_bits(bits)).unwrap();
            assert!(timestamp <= period);
            assert!(previous <= timestamp);
            previous = timestamp;
            bits += 30011;
        }
    }
}
