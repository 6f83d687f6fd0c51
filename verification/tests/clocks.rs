use esp32_shenanigans::clock::{ClockConfig, PeripheralClockConfig};
use esp32_shenanigans::error::MotorError;
use esp32_shenanigans::motor::MotorClocks;

#[test]
fn peripheral_clock_of_40_mhz_from_160_mhz() {
    assert_eq!(
        PeripheralClockConfig::with_frequency(160_000_000, 40_000_000),
        Ok(PeripheralClockConfig { prescaler: 3, frequency: 40_000_000 })
    );
}

#[test]
fn peripheral_clock_rounds_up_to_the_next_divider() {
    // 160 MHz / 3 is the slowest clock at or above 50 MHz
    assert_eq!(
        PeripheralClockConfig::with_frequency(160_000_000, 50_000_000),
        Ok(PeripheralClockConfig { prescaler: 2, frequency: 53_333_333 })
    );
    assert_eq!(
        PeripheralClockConfig::with_frequency(160_000_000, 160_000_000),
        Ok(PeripheralClockConfig { prescaler: 0, frequency: 160_000_000 })
    );
}

#[test]
fn peripheral_clock_uses_every_prescaler_up_to_255() {
    assert_eq!(
        PeripheralClockConfig::with_frequency(160_000_000, 625_000),
        Ok(PeripheralClockConfig { prescaler: 255, frequency: 625_000 })
    );
    // 160 MHz / 257 = 622_568.09
    assert_eq!(
        PeripheralClockConfig::with_frequency(160_000_000, 622_569),
        Ok(PeripheralClockConfig { prescaler: 255, frequency: 625_000 })
    );
    assert_eq!(
        PeripheralClockConfig::with_frequency(160_000_000, 622_568),
        Err(MotorError::ClockDerivationFailure)
    );
}

#[test]
fn peripheral_clock_failures() {
    assert_eq!(
        PeripheralClockConfig::with_frequency(160_000_000, 0),
        Err(MotorError::ClockDerivationFailure)
    );
    assert_eq!(
        PeripheralClockConfig::with_frequency(30_000_000, 40_000_000),
        Err(MotorError::ClockDerivationFailure)
    );
    assert_eq!(
        PeripheralClockConfig::with_frequency(0, 40_000_000),
        Err(MotorError::ClockDerivationFailure)
    );
    assert_eq!(
        PeripheralClockConfig::with_frequency(u32::MAX, 1),
        Err(MotorError::ClockDerivationFailure)
    );
}

#[test]
fn timer_at_10_khz_from_40_mhz() {
    // 40 MHz / (10 kHz * 256) = 15.6, so the divider is 15
    assert_eq!(
        ClockConfig::derive(40_000_000, 10_000, 256),
        Ok(ClockConfig { prescaler: 14, period_count: 256, frequency: 10_416 })
    );
}

#[test]
fn timer_at_5_khz_from_40_mhz() {
    // 40 MHz / (5 kHz * 256) = 31.25, so the divider is 31
    assert_eq!(
        ClockConfig::derive(40_000_000, 5_000, 256),
        Ok(ClockConfig { prescaler: 30, period_count: 256, frequency: 5_040 })
    );
}

#[test]
fn timer_with_an_exact_divider() {
    // 20 kHz with 100 ticks a period from 40 MHz: divider 20, no rounding
    assert_eq!(
        ClockConfig::derive(40_000_000, 20_000, 100),
        Ok(ClockConfig { prescaler: 19, period_count: 100, frequency: 20_000 })
    );
    assert_eq!(
        ClockConfig::derive(1_000, 1_000, 1),
        Ok(ClockConfig { prescaler: 0, period_count: 1, frequency: 1_000 })
    );
    assert_eq!(
        ClockConfig::derive(u32::MAX, 1, 65535),
        Err(MotorError::ClockDerivationFailure)
    );
    assert_eq!(
        ClockConfig::derive(u32::MAX, 256, 65535),
        Ok(ClockConfig { prescaler: 255, period_count: 65535, frequency: 256 })
    );
}

#[test]
fn timer_fails_for_a_target_of_zero() {
    assert_eq!(ClockConfig::derive(40_000_000, 0, 256), Err(MotorError::ClockDerivationFailure));
}

#[test]
fn timer_fails_for_a_period_without_ticks() {
    assert_eq!(ClockConfig::derive(40_000_000, 10_000, 0), Err(MotorError::ClockDerivationFailure));
    assert_eq!(ClockConfig::derive(40_000_000, 0, 0), Err(MotorError::ClockDerivationFailure));
}

#[test]
fn timer_fails_when_the_base_clock_is_too_slow() {
    // 10 kHz * 256 ticks is more than 1 MHz
    assert_eq!(
        ClockConfig::derive(1_000_000, 10_000, 256),
        Err(MotorError::ClockDerivationFailure)
    );
    assert_eq!(
        ClockConfig::derive(40_000_000, 50_000_000, 256),
        Err(MotorError::ClockDerivationFailure)
    );
    assert_eq!(
        ClockConfig::derive(u32::MAX, u32::MAX, 65535),
        Err(MotorError::ClockDerivationFailure)
    );
    assert_eq!(ClockConfig::derive(0, 1, 1), Err(MotorError::ClockDerivationFailure));
    // the undivided clock is just fast enough, and then just too slow
    assert_eq!(
        ClockConfig::derive(2_560_000, 10_000, 256),
        Ok(ClockConfig { prescaler: 0, period_count: 256, frequency: 10_000 })
    );
    assert_eq!(
        ClockConfig::derive(2_559_999, 10_000, 256),
        Err(MotorError::ClockDerivationFailure)
    );
}

#[test]
fn timer_fails_when_the_base_clock_is_too_fast() {
    // 40 MHz / (100 Hz * 256) = 1562, far beyond the largest divider
    assert_eq!(ClockConfig::derive(40_000_000, 100, 256), Err(MotorError::ClockDerivationFailure));
}

#[test]
fn timer_divider_limits() {
    // 40 MHz / (608 Hz * 256) = 256.99 and 40 MHz / (607 Hz * 256) = 257.4
    assert_eq!(
        ClockConfig::derive(40_000_000, 608, 256),
        Ok(ClockConfig { prescaler: 255, period_count: 256, frequency: 610 })
    );
    assert_eq!(ClockConfig::derive(40_000_000, 607, 256), Err(MotorError::ClockDerivationFailure));
}

#[test]
fn derived_timer_is_the_slowest_that_reaches_the_target() {
    let bases: [u32; 3] = [40_000_000, 26_666_666, 80_000_000];
    let targets: [u32; 5] = [1_000, 5_000, 10_000, 20_000, 33_333];
    let periods: [u16; 3] = [100, 255, 256];
    for base in bases {
        for target in targets {
            for period in periods {
                let ticks = period as u32;
                match ClockConfig::derive(base, target, period) {
                    Ok(config) => {
                        let divider = config.prescaler as u32 + 1;
                        assert_eq!(config.period_count, period);
                        assert_eq!(config.frequency, base / divider / ticks);
                        assert!(config.frequency >= target);
                        assert!(base / (divider + 1) / ticks < target);
                    }
                    Err(error) => {
                        assert_eq!(error, MotorError::ClockDerivationFailure);
                        assert!(base / ticks < target || base / 257 / ticks >= target);
                    }
                }
            }
        }
    }
}

#[test]
fn both_clocks_from_160_mhz() {
    assert_eq!(
        MotorClocks::derive(160_000_000, 10_000),
        Ok(MotorClocks {
            peripheral_clock: PeripheralClockConfig { prescaler: 3, frequency: 40_000_000 },
            clock: ClockConfig { prescaler: 14, period_count: 256, frequency: 10_416 },
        })
    );
    assert_eq!(
        MotorClocks::derive(160_000_000, 5_000),
        Ok(MotorClocks {
            peripheral_clock: PeripheralClockConfig { prescaler: 3, frequency: 40_000_000 },
            clock: ClockConfig { prescaler: 30, period_count: 256, frequency: 5_040 },
        })
    );
}

#[test]
fn both_clocks_from_a_source_that_40_mhz_does_not_divide() {
    // 100 MHz / 2 = 50 MHz is the slowest peripheral clock at or above 40 MHz
    assert_eq!(
        MotorClocks::derive(100_000_000, 10_000),
        Ok(MotorClocks {
            peripheral_clock: PeripheralClockConfig { prescaler: 1, frequency: 50_000_000 },
            clock: ClockConfig { prescaler: 18, period_count: 256, frequency: 10_279 },
        })
    );
}

#[test]
fn both_clocks_fail_with_either_stage() {
    assert_eq!(MotorClocks::derive(30_000_000, 10_000), Err(MotorError::ClockDerivationFailure));
    assert_eq!(MotorClocks::derive(160_000_000, 100), Err(MotorError::ClockDerivationFailure));
    assert_eq!(MotorClocks::derive(160_000_000, 0), Err(MotorError::ClockDerivationFailure));
}
